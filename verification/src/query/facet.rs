//! Facets: aggregate count requests returned alongside a list response,
//! bucketed by a named dimension.

use vstd::prelude::*;

use crate::query::ParamFragment;
use crate::strutil::dec_string;
use crate::strutil::spec_dec;

verus! {

/// The dimensions a facet count can be requested for.
#[derive(Debug, Clone, Copy, PartialEq, Eq, Structural)]
pub enum Facet {
    /// author affiliation
    Affiliation,
    /// funder literal name as deposited alongside DOIs
    FunderName,
    /// funder DOI
    FunderDoi,
    /// contributor ORCID
    ORCID,
    /// work container title, such as journal title, or book title
    ContainerTitle,
    /// custom Crossmark assertion name
    Assertion,
    /// archive location
    Archive,
    /// significant update type
    UpdateType,
    /// journal ISSN (any - print, electronic, link)
    ISSN,
    /// earliest year of publication
    Published,
    /// work type name, such as `journal-article` or `book-chapter`
    TypeName,
    /// license URI of work
    License,
    /// category name of work
    CategoryName,
    /// relation type described by work or described by another work with
    /// work as object
    RelationType,
    /// custom Crossmark assertion group name
    AssertionGroup,
    /// publisher name of work
    PublisherName,
}

impl Facet {
    /// The wire name of this facet.
    pub open spec fn spec_str(self) -> Seq<char> {
        match self {
            Facet::Affiliation => "affiliation"@,
            Facet::FunderName => "funder-name"@,
            Facet::FunderDoi => "funder-doi"@,
            Facet::ORCID => "orcid"@,
            Facet::ContainerTitle => "container-title"@,
            Facet::Assertion => "assertion"@,
            Facet::Archive => "archive"@,
            Facet::UpdateType => "update-type"@,
            Facet::ISSN => "issn"@,
            Facet::Published => "published"@,
            Facet::TypeName => "type-name"@,
            Facet::License => "license"@,
            Facet::CategoryName => "category-name"@,
            Facet::RelationType => "relation-type"@,
            Facet::AssertionGroup => "assertion-group"@,
            Facet::PublisherName => "publisher-name"@,
        }
    }

    /// Whether the count of this facet is capped at 100 by the API.
    pub open spec fn spec_bounded(self) -> bool {
        self == Facet::ORCID || self == Facet::ContainerTitle || self == Facet::ISSN
    }

    /// The wire name of this facet.
    pub fn as_str(&self) -> (r: &str)
        ensures
            r@ == self.spec_str(),
    {
        match self {
            Facet::Affiliation => "affiliation",
            Facet::FunderName => "funder-name",
            Facet::FunderDoi => "funder-doi",
            Facet::ORCID => "orcid",
            Facet::ContainerTitle => "container-title",
            Facet::Assertion => "assertion",
            Facet::Archive => "archive",
            Facet::UpdateType => "update-type",
            Facet::ISSN => "issn",
            Facet::Published => "published",
            Facet::TypeName => "type-name",
            Facet::License => "license",
            Facet::CategoryName => "category-name",
            Facet::RelationType => "relation-type",
            Facet::AssertionGroup => "assertion-group",
            Facet::PublisherName => "publisher-name",
        }
    }

    /// Whether the count of this facet is capped at 100 by the API.
    pub fn bounded(&self) -> (r: bool)
        ensures
            r == self.spec_bounded(),
    {
        matches!(self, Facet::ORCID | Facet::ContainerTitle | Facet::ISSN)
    }

    /// The maximum value the facet can hold: some facets are unbounded
    /// (`*`), some are limited to 100.
    pub fn max_value(&self) -> (r: &str)
        ensures
            self.spec_bounded() ==> r@ == "100"@,
            !self.spec_bounded() ==> r@ == "*"@,
    {
        match self {
            Facet::ORCID | Facet::ContainerTitle | Facet::ISSN => "100",
            _ => "*",
        }
    }
}

/// A request for the counts of one facet, with an optional maximum number
/// of buckets.
#[derive(Debug, Clone, Copy, PartialEq, Eq, Structural)]
pub struct FacetCount {
    /// the targeted facet
    pub facet: Facet,
    /// the maximum number of buckets asked for
    pub count: Option<usize>,
}

impl FacetCount {
    /// The rendered count: a literal number is clamped to 100 for capped
    /// facets; an unspecified count renders as `*` for every facet.
    pub open spec fn spec_count_value(self) -> Seq<char> {
        match self.count {
            Some(c) => if self.facet.spec_bounded() && c > 100 {
                spec_dec(100)
            } else {
                spec_dec(c as int)
            },
            None => "*"@,
        }
    }

    /// Renders the count of this facet request.
    pub fn value(&self) -> (r: String)
        ensures
            r@ == self.spec_count_value(),
    {
        match &self.count {
            Some(c) => {
                if self.facet.bounded() && *c > 100 {
                    dec_string(100)
                } else {
                    dec_string(*c as u64)
                }
            },
            None => String::from_str("*"),
        }
    }
}

impl ParamFragment for FacetCount {
    open spec fn spec_key(&self) -> Seq<char> {
        self.facet.spec_str()
    }

    open spec fn spec_value(&self) -> Option<Seq<char>> {
        Some(self.spec_count_value())
    }

    fn key(&self) -> (r: String) {
        String::from_str(self.facet.as_str())
    }

    fn value(&self) -> (r: Option<String>) {
        Some(FacetCount::value(self))
    }
}

} // verus!
