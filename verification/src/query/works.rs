//! Queries against the `/works` route: the works filter vocabulary, field
//! queries, the cursor-capable result window, and the works query builder.

use vstd::prelude::*;

use crate::error::Error;
use crate::query::facet::FacetCount;
use crate::query::fragment_list;
use crate::query::spec_fragment_list;
use crate::query::types::Type;
use crate::query::Component;
use crate::query::CrossrefParams;
use crate::query::CrossrefQuery;
use crate::query::CrossrefQueryParam;
use crate::query::CrossrefRoute;
use crate::query::Filter;
use crate::query::FilterDate;
use crate::query::Order;
use crate::query::ParamFragment;
use crate::query::ResourceComponent;
use crate::query::ResultControl;
use crate::query::Sort;
use crate::query::Visibility;
use crate::strutil::append_dec;
use crate::strutil::append_dec_signed;
use crate::strutil::format_queries;
use crate::strutil::push_char;
use crate::strutil::seq_join;
use crate::strutil::spec_dec;
use crate::strutil::spec_dec_signed;
use crate::strutil::spec_format_queries;
use crate::strutil::spec_format_query;
use crate::strutil::join_with;

verus! {

/// Filters allow you to narrow queries; all filtered results are lists.
#[derive(Debug, Clone)]
pub enum WorksFilter {
    /// metadata which includes one or more funder entries
    HasFunder,
    /// metadata which includes the `id` in FundRef data
    Funder(String),
    /// funder records where location is the given country name
    Location(String),
    /// metadata belonging to a DOI owner prefix, e.g. `10.1016`
    Prefix(String),
    /// metadata belonging to a Crossref member
    Member(String),
    /// metadata indexed since (inclusive)
    FromIndexDate(FilterDate),
    /// metadata indexed before (inclusive)
    UntilIndexDate(FilterDate),
    /// metadata last (re)deposited since (inclusive)
    FromDepositDate(FilterDate),
    /// metadata last (re)deposited before (inclusive)
    UntilDepositDate(FilterDate),
    /// metadata updated since (inclusive)
    FromUpdateDate(FilterDate),
    /// metadata updated before (inclusive)
    UntilUpdateDate(FilterDate),
    /// metadata first deposited since (inclusive)
    FromCreatedDate(FilterDate),
    /// metadata first deposited before (inclusive)
    UntilCreatedDate(FilterDate),
    /// metadata where published date is since (inclusive)
    FromPubDate(FilterDate),
    /// metadata where published date is before (inclusive)
    UntilPubDate(FilterDate),
    /// metadata where online published date is since (inclusive)
    FromOnlinePubDate(FilterDate),
    /// metadata where online published date is before (inclusive)
    UntilOnlinePubDate(FilterDate),
    /// metadata where print published date is since (inclusive)
    FromPrintPubDate(FilterDate),
    /// metadata where print published date is before (inclusive)
    UntilPrintPubDate(FilterDate),
    /// metadata where posted date is since (inclusive)
    FromPostedDate(FilterDate),
    /// metadata where posted date is before (inclusive)
    UntilPostedDate(FilterDate),
    /// metadata where accepted date is since (inclusive)
    FromAcceptedDate(FilterDate),
    /// metadata where accepted date is before (inclusive)
    UntilAcceptedDate(FilterDate),
    /// metadata that includes any `<license_ref>` elements
    HasLicense,
    /// metadata where the `<license_ref>` value equals the given value
    LicenseUrl(String),
    /// metadata where the `<license_ref>`'s applies_to attribute matches
    LicenseVersion(String),
    /// metadata where the difference between publication date and the
    /// `<license_ref>`'s start_date is at most the value, in days
    LicenseDelay(i32),
    /// metadata that includes any full text `<resource>` elements
    HasFullText,
    /// metadata where the `<resource>`'s content_version attribute matches
    FullTextVersion(String),
    /// metadata where the `<resource>`'s content_type attribute matches
    FullTextType(String),
    /// metadata where the `<resource>` link has the given intended
    /// application
    FullTextApplication(String),
    /// metadata for works that have a list of references
    HasReferences,
    /// metadata for works whose references are open, limited or closed
    ReferenceVisibility(Visibility),
    /// metadata which includes the name of an archive partner
    HasArchive,
    /// metadata where the value of the archive partner matches
    Archive(String),
    /// metadata which includes one or more ORCIDs
    HasOrcid,
    /// metadata with an ORCID whose owner authenticated with ORCID
    HasAuthenticatedOrcid,
    /// metadata where the `<orcid>` element's value matches
    Orcid(String),
    /// metadata where the record has the given ISSN, format xxxx-xxxx
    Issn(String),
    /// metadata where the record has the given ISBN
    Isbn(String),
    /// metadata records whose type matches an id of the `/types` resource
    Type(Type),
    /// metadata records mentioned in the given directory; currently the
    /// only supported value is `doaj`
    Directory(String),
    /// metadata describing the DOI
    Doi(String),
    /// metadata for records that represent editorial updates to the DOI
    Updates(String),
    /// metadata for records that represent editorial updates
    IsUpdate,
    /// metadata for records with a link to an editorial update policy
    HasUpdatePolicy,
    /// metadata for records with an exactly matching publication title
    ContainerTitle(String),
    /// metadata for records with an exactly matching category label
    CategoryName(String),
    /// metadata for records with an exactly matching type label
    TypeName(String),
    /// metadata for records with a matching award number
    AwardNumber(String),
    /// metadata for records with an award with matching funder
    AwardFunder(String),
    /// metadata for records with any assertions
    HasAssertion,
    /// metadata for records with an assertion in a particular group
    AssertionGroup(String),
    /// metadata for records with a particular named assertion
    Assertion(String),
    /// metadata for records that have any affiliation information
    HasAffiliation,
    /// metadata for records with an alternative ID
    AlternativeId,
    /// metadata for records with a given article number
    ArticleNumber,
    /// metadata for records which include an abstract
    HasAbstract,
    /// metadata for records which include a clinical trial number
    HasClinicalTrialNumber,
    /// metadata where the publisher records a particular Crossmark domain
    ContentDomain(String),
    /// metadata where the publisher records any Crossmark domain
    HasContentDomain,
    /// metadata where the publisher restricts Crossmark usage to domains
    HasDomainRestriction,
    /// metadata for records that either assert or are the object of a
    /// relation
    HasRelation,
    /// one of the relation types of the Crossref relations schema
    RelationType,
    /// relations where the object identifier matches
    RelationObject,
    /// one of the identifier types of the Crossref relations schema
    RelationObjectType(String),
}

impl WorksFilter {
    /// The wire key of this filter.
    pub open spec fn spec_name(self) -> Seq<char> {
        match self {
            WorksFilter::HasFunder => "has-funder"@,
            WorksFilter::Funder(_) => "funder"@,
            WorksFilter::Location(_) => "location"@,
            WorksFilter::Prefix(_) => "prefix"@,
            WorksFilter::Member(_) => "member"@,
            WorksFilter::FromIndexDate(_) => "from-index-date"@,
            WorksFilter::UntilIndexDate(_) => "until-index-date"@,
            WorksFilter::FromDepositDate(_) => "from-deposit-date"@,
            WorksFilter::UntilDepositDate(_) => "until-deposit-date"@,
            WorksFilter::FromUpdateDate(_) => "from-update-date"@,
            WorksFilter::UntilUpdateDate(_) => "until-update-date"@,
            WorksFilter::FromCreatedDate(_) => "from-created-date"@,
            WorksFilter::UntilCreatedDate(_) => "until-created-date"@,
            WorksFilter::FromPubDate(_) => "from-pub-date"@,
            WorksFilter::UntilPubDate(_) => "until-pub-date"@,
            WorksFilter::FromOnlinePubDate(_) => "from-online-pub-date"@,
            WorksFilter::UntilOnlinePubDate(_) => "until-online-pub-date"@,
            WorksFilter::FromPrintPubDate(_) => "from-print-pub-date"@,
            WorksFilter::UntilPrintPubDate(_) => "until-print-pub-date"@,
            WorksFilter::FromPostedDate(_) => "from-posted-date"@,
            WorksFilter::UntilPostedDate(_) => "until-posted-date"@,
            WorksFilter::FromAcceptedDate(_) => "from-accepted-date"@,
            WorksFilter::UntilAcceptedDate(_) => "until-accepted-date"@,
            WorksFilter::HasLicense => "has-license"@,
            WorksFilter::LicenseUrl(_) => "license.url"@,
            WorksFilter::LicenseVersion(_) => "license.version"@,
            WorksFilter::LicenseDelay(_) => "license.delay"@,
            WorksFilter::HasFullText => "has-full-text"@,
            WorksFilter::FullTextVersion(_) => "full-text.version"@,
            WorksFilter::FullTextType(_) => "full-text.type"@,
            WorksFilter::FullTextApplication(_) => "full-text.application"@,
            WorksFilter::HasReferences => "has-references"@,
            WorksFilter::ReferenceVisibility(_) => "reference-visibility"@,
            WorksFilter::HasArchive => "has-archive"@,
            WorksFilter::Archive(_) => "archive"@,
            WorksFilter::HasOrcid => "has-orcid"@,
            WorksFilter::HasAuthenticatedOrcid => "has-authenticated-orcid"@,
            WorksFilter::Orcid(_) => "orcid"@,
            WorksFilter::Issn(_) => "issn"@,
            WorksFilter::Isbn(_) => "isbn"@,
            WorksFilter::Type(_) => "type"@,
            WorksFilter::Directory(_) => "directory"@,
            WorksFilter::Doi(_) => "doi"@,
            WorksFilter::Updates(_) => "updates"@,
            WorksFilter::IsUpdate => "is-update"@,
            WorksFilter::HasUpdatePolicy => "has-update-policy"@,
            WorksFilter::ContainerTitle(_) => "container-title"@,
            WorksFilter::CategoryName(_) => "category-name"@,
            WorksFilter::TypeName(_) => "type-name"@,
            WorksFilter::AwardNumber(_) => "award.number"@,
            WorksFilter::AwardFunder(_) => "award.funder"@,
            WorksFilter::HasAssertion => "has-assertion"@,
            WorksFilter::AssertionGroup(_) => "assertion-group"@,
            WorksFilter::Assertion(_) => "assertion"@,
            WorksFilter::HasAffiliation => "has-affiliation"@,
            WorksFilter::AlternativeId => "alternative-id"@,
            WorksFilter::ArticleNumber => "article-number"@,
            WorksFilter::HasAbstract => "has-abstract"@,
            WorksFilter::HasClinicalTrialNumber => "has-clinical-trial-number"@,
            WorksFilter::ContentDomain(_) => "content-domain"@,
            WorksFilter::HasContentDomain => "has-content-domain"@,
            WorksFilter::HasDomainRestriction => "has-domain-restriction"@,
            WorksFilter::HasRelation => "has-relation"@,
            WorksFilter::RelationType => "relation.type"@,
            WorksFilter::RelationObject => "relation.object"@,
            WorksFilter::RelationObjectType(_) => "relation.object-type"@,
        }
    }

    /// The wire value of this filter, if it carries one.
    pub open spec fn spec_payload(self) -> Option<Seq<char>> {
        match self {
            WorksFilter::Funder(s) => Some(s@),
            WorksFilter::Location(s) => Some(s@),
            WorksFilter::Prefix(s) => Some(s@),
            WorksFilter::Member(s) => Some(s@),
            WorksFilter::LicenseUrl(s) => Some(s@),
            WorksFilter::LicenseVersion(s) => Some(s@),
            WorksFilter::FullTextVersion(s) => Some(s@),
            WorksFilter::FullTextType(s) => Some(s@),
            WorksFilter::FullTextApplication(s) => Some(s@),
            WorksFilter::Archive(s) => Some(s@),
            WorksFilter::Orcid(s) => Some(s@),
            WorksFilter::Issn(s) => Some(s@),
            WorksFilter::Isbn(s) => Some(s@),
            WorksFilter::Directory(s) => Some(s@),
            WorksFilter::Doi(s) => Some(s@),
            WorksFilter::Updates(s) => Some(s@),
            WorksFilter::ContainerTitle(s) => Some(s@),
            WorksFilter::CategoryName(s) => Some(s@),
            WorksFilter::TypeName(s) => Some(s@),
            WorksFilter::AwardNumber(s) => Some(s@),
            WorksFilter::AwardFunder(s) => Some(s@),
            WorksFilter::AssertionGroup(s) => Some(s@),
            WorksFilter::Assertion(s) => Some(s@),
            WorksFilter::ContentDomain(s) => Some(s@),
            WorksFilter::RelationObjectType(s) => Some(s@),
            WorksFilter::ReferenceVisibility(vis) => Some(vis.spec_str()),
            WorksFilter::FromIndexDate(d) => Some(d.spec_ymd()),
            WorksFilter::UntilIndexDate(d) => Some(d.spec_ymd()),
            WorksFilter::FromDepositDate(d) => Some(d.spec_ymd()),
            WorksFilter::UntilDepositDate(d) => Some(d.spec_ymd()),
            WorksFilter::FromUpdateDate(d) => Some(d.spec_ymd()),
            WorksFilter::UntilUpdateDate(d) => Some(d.spec_ymd()),
            WorksFilter::FromCreatedDate(d) => Some(d.spec_ymd()),
            WorksFilter::UntilCreatedDate(d) => Some(d.spec_ymd()),
            WorksFilter::FromPubDate(d) => Some(d.spec_ymd()),
            WorksFilter::UntilPubDate(d) => Some(d.spec_ymd()),
            WorksFilter::FromOnlinePubDate(d) => Some(d.spec_ymd()),
            WorksFilter::UntilOnlinePubDate(d) => Some(d.spec_ymd()),
            WorksFilter::FromPrintPubDate(d) => Some(d.spec_ymd()),
            WorksFilter::UntilPrintPubDate(d) => Some(d.spec_ymd()),
            WorksFilter::FromPostedDate(d) => Some(d.spec_ymd()),
            WorksFilter::UntilPostedDate(d) => Some(d.spec_ymd()),
            WorksFilter::FromAcceptedDate(d) => Some(d.spec_ymd()),
            WorksFilter::UntilAcceptedDate(d) => Some(d.spec_ymd()),
            WorksFilter::LicenseDelay(n) => Some(spec_dec_signed(n as int)),
            WorksFilter::Type(t) => Some(t.spec_id()),
            _ => None,
        }
    }

    /// The identifier for the query key of this filter.
    pub fn name(&self) -> (r: &str)
        ensures
            r@ == self.spec_name(),
    {
        match self {
            WorksFilter::HasFunder => "has-funder",
            WorksFilter::Funder(_) => "funder",
            WorksFilter::Location(_) => "location",
            WorksFilter::Prefix(_) => "prefix",
            WorksFilter::Member(_) => "member",
            WorksFilter::FromIndexDate(_) => "from-index-date",
            WorksFilter::UntilIndexDate(_) => "until-index-date",
            WorksFilter::FromDepositDate(_) => "from-deposit-date",
            WorksFilter::UntilDepositDate(_) => "until-deposit-date",
            WorksFilter::FromUpdateDate(_) => "from-update-date",
            WorksFilter::UntilUpdateDate(_) => "until-update-date",
            WorksFilter::FromCreatedDate(_) => "from-created-date",
            WorksFilter::UntilCreatedDate(_) => "until-created-date",
            WorksFilter::FromPubDate(_) => "from-pub-date",
            WorksFilter::UntilPubDate(_) => "until-pub-date",
            WorksFilter::FromOnlinePubDate(_) => "from-online-pub-date",
            WorksFilter::UntilOnlinePubDate(_) => "until-online-pub-date",
            WorksFilter::FromPrintPubDate(_) => "from-print-pub-date",
            WorksFilter::UntilPrintPubDate(_) => "until-print-pub-date",
            WorksFilter::FromPostedDate(_) => "from-posted-date",
            WorksFilter::UntilPostedDate(_) => "until-posted-date",
            WorksFilter::FromAcceptedDate(_) => "from-accepted-date",
            WorksFilter::UntilAcceptedDate(_) => "until-accepted-date",
            WorksFilter::HasLicense => "has-license",
            WorksFilter::LicenseUrl(_) => "license.url",
            WorksFilter::LicenseVersion(_) => "license.version",
            WorksFilter::LicenseDelay(_) => "license.delay",
            WorksFilter::HasFullText => "has-full-text",
            WorksFilter::FullTextVersion(_) => "full-text.version",
            WorksFilter::FullTextType(_) => "full-text.type",
            WorksFilter::FullTextApplication(_) => "full-text.application",
            WorksFilter::HasReferences => "has-references",
            WorksFilter::ReferenceVisibility(_) => "reference-visibility",
            WorksFilter::HasArchive => "has-archive",
            WorksFilter::Archive(_) => "archive",
            WorksFilter::HasOrcid => "has-orcid",
            WorksFilter::HasAuthenticatedOrcid => "has-authenticated-orcid",
            WorksFilter::Orcid(_) => "orcid",
            WorksFilter::Issn(_) => "issn",
            WorksFilter::Isbn(_) => "isbn",
            WorksFilter::Type(_) => "type",
            WorksFilter::Directory(_) => "directory",
            WorksFilter::Doi(_) => "doi",
            WorksFilter::Updates(_) => "updates",
            WorksFilter::IsUpdate => "is-update",
            WorksFilter::HasUpdatePolicy => "has-update-policy",
            WorksFilter::ContainerTitle(_) => "container-title",
            WorksFilter::CategoryName(_) => "category-name",
            WorksFilter::TypeName(_) => "type-name",
            WorksFilter::AwardNumber(_) => "award.number",
            WorksFilter::AwardFunder(_) => "award.funder",
            WorksFilter::HasAssertion => "has-assertion",
            WorksFilter::AssertionGroup(_) => "assertion-group",
            WorksFilter::Assertion(_) => "assertion",
            WorksFilter::HasAffiliation => "has-affiliation",
            WorksFilter::AlternativeId => "alternative-id",
            WorksFilter::ArticleNumber => "article-number",
            WorksFilter::HasAbstract => "has-abstract",
            WorksFilter::HasClinicalTrialNumber => "has-clinical-trial-number",
            WorksFilter::ContentDomain(_) => "content-domain",
            WorksFilter::HasContentDomain => "has-content-domain",
            WorksFilter::HasDomainRestriction => "has-domain-restriction",
            WorksFilter::HasRelation => "has-relation",
            WorksFilter::RelationType => "relation.type",
            WorksFilter::RelationObject => "relation.object",
            WorksFilter::RelationObjectType(_) => "relation.object-type",
        }
    }

    fn payload(&self) -> (r: Option<String>)
        ensures
            match r {
                Some(v) => self.spec_payload() matches Some(sv) && v@ == sv,
                None => self.spec_payload() is None,
            },
    {
        match self {
            WorksFilter::Funder(s)
            | WorksFilter::Location(s)
            | WorksFilter::Prefix(s)
            | WorksFilter::Member(s)
            | WorksFilter::LicenseUrl(s)
            | WorksFilter::LicenseVersion(s)
            | WorksFilter::FullTextVersion(s)
            | WorksFilter::FullTextType(s)
            | WorksFilter::FullTextApplication(s)
            | WorksFilter::Archive(s)
            | WorksFilter::Orcid(s)
            | WorksFilter::Issn(s)
            | WorksFilter::Isbn(s)
            | WorksFilter::Directory(s)
            | WorksFilter::Doi(s)
            | WorksFilter::Updates(s)
            | WorksFilter::ContainerTitle(s)
            | WorksFilter::CategoryName(s)
            | WorksFilter::TypeName(s)
            | WorksFilter::AwardNumber(s)
            | WorksFilter::AwardFunder(s)
            | WorksFilter::AssertionGroup(s)
            | WorksFilter::Assertion(s)
            | WorksFilter::ContentDomain(s)
            | WorksFilter::RelationObjectType(s) => Some(s.clone()),
            WorksFilter::ReferenceVisibility(vis) => Some(String::from_str(vis.as_str())),
            WorksFilter::FromIndexDate(d)
            | WorksFilter::UntilIndexDate(d)
            | WorksFilter::FromDepositDate(d)
            | WorksFilter::UntilDepositDate(d)
            | WorksFilter::FromUpdateDate(d)
            | WorksFilter::UntilUpdateDate(d)
            | WorksFilter::FromCreatedDate(d)
            | WorksFilter::UntilCreatedDate(d)
            | WorksFilter::FromPubDate(d)
            | WorksFilter::UntilPubDate(d)
            | WorksFilter::FromOnlinePubDate(d)
            | WorksFilter::UntilOnlinePubDate(d)
            | WorksFilter::FromPrintPubDate(d)
            | WorksFilter::UntilPrintPubDate(d)
            | WorksFilter::FromPostedDate(d)
            | WorksFilter::UntilPostedDate(d)
            | WorksFilter::FromAcceptedDate(d)
            | WorksFilter::UntilAcceptedDate(d) => Some(d.ymd_string()),
            WorksFilter::LicenseDelay(n) => {
                let mut s = String::new();
                append_dec_signed(&mut s, *n);
                proof {
                    assert(s@ =~= spec_dec_signed(*n as int));
                }
                Some(s)
            },
            WorksFilter::Type(t) => Some(String::from_str(t.id())),
            _ => None,
        }
    }
}

impl ParamFragment for WorksFilter {
    open spec fn spec_key(&self) -> Seq<char> {
        self.spec_name()
    }

    open spec fn spec_value(&self) -> Option<Seq<char>> {
        self.spec_payload()
    }

    fn key(&self) -> (r: String) {
        String::from_str(self.name())
    }

    fn value(&self) -> (r: Option<String>) {
        self.payload()
    }
}

impl Filter for WorksFilter {

}

/// Field queries are available on the `/works` route and allow for queries
/// that match only particular fields of metadata.
#[derive(Debug, Clone)]
pub struct FieldQuery {
    /// the metadata field to match
    pub name: String,
    /// the value of the query
    pub value: String,
}

impl FieldQuery {
    fn named(name: &str, value: &str) -> (r: Self)
        ensures
            r.name@ == name@,
            r.value@ == value@,
    {
        FieldQuery { name: String::from_str(name), value: String::from_str(value) }
    }

    /// A field query for `title` and `subtitle`.
    pub fn title(title: &str) -> (r: Self)
        ensures
            r.name@ == "title"@,
            r.value@ == title@,
    {
        Self::named("title", title)
    }

    /// A field query for `container-title`, the publication name.
    pub fn container_title(container_title: &str) -> (r: Self)
        ensures
            r.name@ == "container-title"@,
            r.value@ == container_title@,
    {
        Self::named("container-title", container_title)
    }

    /// A field query for author given and family names.
    pub fn author(author: &str) -> (r: Self)
        ensures
            r.name@ == "author"@,
            r.value@ == author@,
    {
        Self::named("author", author)
    }

    /// A field query for editor given and family names.
    pub fn editor(editor: &str) -> (r: Self)
        ensures
            r.name@ == "editor"@,
            r.value@ == editor@,
    {
        Self::named("editor", editor)
    }

    /// A field query for chair given and family names.
    pub fn chair(chair: &str) -> (r: Self)
        ensures
            r.name@ == "chair"@,
            r.value@ == chair@,
    {
        Self::named("chair", chair)
    }

    /// A field query for translator given and family names.
    pub fn translator(translator: &str) -> (r: Self)
        ensures
            r.name@ == "translator"@,
            r.value@ == translator@,
    {
        Self::named("translator", translator)
    }

    /// A field query for author, editor, chair and translator given and
    /// family names.
    pub fn contributor(contributor: &str) -> (r: Self)
        ensures
            r.name@ == "contributor"@,
            r.value@ == contributor@,
    {
        Self::named("contributor", contributor)
    }

    /// A field query for bibliographic information, useful for citation
    /// look-up: titles, authors, ISSNs and publication years.
    pub fn bibliographic(bibliographic: &str) -> (r: Self)
        ensures
            r.name@ == "bibliographic"@,
            r.value@ == bibliographic@,
    {
        Self::named("bibliographic", bibliographic)
    }

    /// A field query for contributor affiliations.
    pub fn affiliation(affiliation: &str) -> (r: Self)
        ensures
            r.name@ == "affiliation"@,
            r.value@ == affiliation@,
    {
        Self::named("affiliation", affiliation)
    }
}

impl CrossrefQueryParam for FieldQuery {
    open spec fn spec_param(&self) -> Seq<char> {
        self.name@ + seq!['='] + spec_format_query(self.value@)
    }

    fn param(&self) -> (r: String) {
        let mut s = self.name.clone();
        push_char(&mut s, '=');
        let v = crate::strutil::format_query(self.value.as_str());
        s.append(v.as_str());
        proof {
            assert(s@ =~= self.spec_param());
        }
        s
    }
}

/// Limits from where and how many `Work` items should be returned.
#[derive(Debug, Clone)]
pub enum WorkResultControl {
    /// use the standard result window available for all components
    Standard(ResultControl),
    /// deep page through the results with a cursor
    Cursor {
        /// the cursor token provided by Crossref, initially absent and
        /// sent as `*`
        token: Option<String>,
        /// limit the results per page
        rows: Option<usize>,
    },
}

impl WorkResultControl {
    /// A cursor window with the initial `*` token.
    pub fn new_cursor() -> (r: Self)
        ensures
            r matches WorkResultControl::Cursor { token, rows } && token is None && rows is None,
    {
        WorkResultControl::Cursor { token: None, rows: None }
    }

    /// A cursor window holding only a token value.
    pub fn cursor(token: &str) -> (r: Self)
        ensures
            r matches WorkResultControl::Cursor { token: t, rows } && rows is None && (t matches
            Some(tok) && tok@ == token@),
    {
        WorkResultControl::Cursor { token: Some(String::from_str(token)), rows: None }
    }
}

impl CrossrefQueryParam for WorkResultControl {
    open spec fn spec_param(&self) -> Seq<char> {
        match self {
            WorkResultControl::Standard(rc) => rc.spec_param(),
            WorkResultControl::Cursor { token, rows } => {
                let head = "cursor="@ + (match token {
                    Some(t) => t@,
                    None => "*"@,
                });
                match rows {
                    Some(n) => head + "&rows="@ + spec_dec(*n as int),
                    None => head,
                }
            },
        }
    }

    fn param(&self) -> (r: String) {
        match self {
            WorkResultControl::Standard(rc) => rc.param(),
            WorkResultControl::Cursor { token, rows } => {
                let mut s = String::from_str("cursor=");
                match token {
                    Some(t) => s.append(t.as_str()),
                    None => s.append("*"),
                }
                match rows {
                    Some(n) => {
                        s.append("&rows=");
                        append_dec(&mut s, *n as u64);
                    },
                    None => {},
                }
                proof {
                    assert(s@ =~= self.spec_param());
                }
                s
            },
        }
    }
}

/// A request against the `/works` route: a single publication, a
/// collection query, or the registration agency of a DOI.
#[derive(Debug, Clone)]
pub enum Works {
    /// target a work by a specific id
    Identifier(String),
    /// target works by a query
    Query(WorksQuery),
    /// return the registration agency for a DOI
    Agency(String),
}

impl Works {
    /// A `Works::Identifier` lookup for the given DOI.
    pub fn doi(doi: &str) -> (r: Self)
        ensures
            r matches Works::Identifier(s) && s@ == doi@,
    {
        Works::Identifier(String::from_str(doi))
    }

    /// A `Works::Agency` lookup targeting the registration agency for the
    /// DOI.
    pub fn agency_for_doi(doi: &str) -> (r: Self)
        ensures
            r matches Works::Agency(s) && s@ == doi@,
    {
        Works::Agency(String::from_str(doi))
    }
}

impl CrossrefRoute for Works {
    open spec fn spec_route(&self) -> Seq<char> {
        match self {
            Works::Identifier(s) => Component::Works.spec_route() + seq!['/'] + s@,
            Works::Agency(s) => Component::Works.spec_route() + seq!['/'] + s@ + "/agency"@,
            Works::Query(query) => query.spec_route(),
        }
    }

    fn route(&self) -> (r: Result<String, Error>) {
        match self {
            Works::Identifier(s) => {
                let mut out = Component::Works.route_string();
                push_char(&mut out, '/');
                out.append(s.as_str());
                proof {
                    assert(out@ =~= self.spec_route());
                }
                Ok(out)
            },
            Works::Agency(s) => {
                let mut out = Component::Works.route_string();
                push_char(&mut out, '/');
                out.append(s.as_str());
                out.append("/agency");
                proof {
                    assert(out@ =~= self.spec_route());
                }
                Ok(out)
            },
            Works::Query(query) => query.route(),
        }
    }
}

impl CrossrefQuery for Works {
    open spec fn spec_resource_component(self) -> ResourceComponent {
        ResourceComponent::Works(self)
    }

    fn resource_component(self) -> (r: ResourceComponent) {
        ResourceComponent::Works(self)
    }

    fn to_url(&self, base_path: &str) -> (r: Result<String, Error>) {
        let mut out = String::from_str(base_path);
        match self.route() {
            Ok(rt) => {
                out.append(rt.as_str());
                Ok(out)
            },
            Err(e) => Err(e),
        }
    }
}

/// Captures an id for a component other than `/works` together with a
/// query for the nested `/works` route.
#[derive(Debug, Clone)]
pub struct WorksIdentQuery {
    /// the id of a component item
    pub id: String,
    /// the query to filter the works results
    pub query: WorksQuery,
}

impl WorksIdentQuery {
    /// Pairs a component id with a works query.
    pub fn new(id: &str, query: WorksQuery) -> (r: Self)
        ensures
            r.id@ == id@,
            r.query == query,
    {
        WorksIdentQuery { id: String::from_str(id), query }
    }

    /// The combined route under the given primary component:
    /// `/{component}/{id}/works?...`.
    pub open spec fn spec_combined_route(self, component: Component) -> Seq<char> {
        component.spec_route() + seq!['/'] + self.id@ + self.query.spec_route()
    }
}

/// Builds the combined route of a works query nested under another
/// component's identifier.
pub fn combined_route(component: Component, ident: &WorksIdentQuery) -> (r: Result<
    String,
    Error,
>)
    ensures
        r matches Ok(s) && s@ == ident.spec_combined_route(component),
{
    let mut out = component.route_string();
    push_char(&mut out, '/');
    out.append(ident.id.as_str());
    match ident.query.route() {
        Ok(rt) => {
            out.append(rt.as_str());
            proof {
                assert(out@ =~= ident.spec_combined_route(component));
            }
            Ok(out)
        },
        Err(e) => Err(e),
    }
}

/// The resource families that can scope a nested works query under one of
/// their identifiers.
pub trait WorksCombiner: Sized {
    /// the primary component of this family, at spec level
    spec fn spec_primary_component() -> Component;

    /// the request value wrapping a combined works query, at spec level
    spec fn spec_ident_query(ident: WorksIdentQuery) -> Self;

    /// the primary component of this family
    fn primary_component() -> (r: Component)
        ensures
            r == Self::spec_primary_component(),
    ;

    /// wraps a combined works query into this family's request type
    fn ident_query(ident: WorksIdentQuery) -> (r: Self)
        ensures
            r == Self::spec_ident_query(ident),
    ;

    /// the combined query as a work-list query
    fn work_list_query(ident: WorksIdentQuery) -> (r: WorkListQuery)
        ensures
            r == (WorkListQuery::Combined {
                primary_component: Self::spec_primary_component(),
                ident,
            }),
    ;
}

/// Used to construct a query that targets Crossref `Works` elements.
#[derive(Debug, Clone)]
pub struct WorksQuery {
    /// search by non-specific query terms
    pub free_form_queries: Vec<String>,
    /// match only particular fields of metadata
    pub field_queries: Vec<FieldQuery>,
    /// filters to apply while querying
    pub filter: Vec<WorksFilter>,
    /// sort results by a certain field
    pub sort: Option<Sort>,
    /// set the sort order to `asc` or `desc`
    pub order: Option<Order>,
    /// enable facet information in responses
    pub facets: Vec<FacetCount>,
    /// deep page through `/works` result sets
    pub result_control: Option<WorkResultControl>,
    /// request random dois; if set, all other parameters are ignored
    pub sample: Option<usize>,
}

impl WorksQuery {
    /// Whether every field of this query is unset.
    pub open spec fn spec_is_empty(self) -> bool {
        &&& self.free_form_queries@.len() == 0
        &&& self.field_queries@.len() == 0
        &&& self.filter@.len() == 0
        &&& self.sort is None
        &&& self.order is None
        &&& self.facets@.len() == 0
        &&& self.result_control is None
        &&& self.sample is None
    }

    /// An empty default query.
    pub fn empty() -> (r: Self)
        ensures
            r.spec_is_empty(),
    {
        WorksQuery {
            free_form_queries: Vec::new(),
            field_queries: Vec::new(),
            filter: Vec::new(),
            sort: None,
            order: None,
            facets: Vec::new(),
            result_control: None,
            sample: None,
        }
    }

    /// An empty default query.
    pub fn new() -> (r: Self)
        ensures
            r.spec_is_empty(),
    {
        Self::empty()
    }

    /// A query with the desired sample size, resulting in a request for
    /// random DOIs.
    pub fn random(len: usize) -> (r: Self)
        ensures
            r.sample == Some(len),
            r.free_form_queries@.len() == 0 && r.field_queries@.len() == 0 && r.filter@.len() == 0,
            r.sort is None && r.order is None && r.facets@.len() == 0 && r.result_control is None,
    {
        Self::empty().sample(len)
    }

    /// Sets the sample size.
    pub fn sample(self, len: usize) -> (r: Self)
        ensures
            r == (WorksQuery { sample: Some(len), ..self }),
    {
        let mut q = self;
        q.sample = Some(len);
        q
    }

    /// Adds a new free-form query term.
    pub fn query(self, query: &str) -> (r: Self)
        ensures
            r.free_form_queries.deep_view() == self.free_form_queries.deep_view().push(query@),
            r.field_queries == self.field_queries,
            r.filter == self.filter,
            r.sort == self.sort,
            r.order == self.order,
            r.facets == self.facets,
            r.result_control == self.result_control,
            r.sample == self.sample,
    {
        let mut q = self;
        q.free_form_queries.push(String::from_str(query));
        proof {
            assert(q.free_form_queries.deep_view() =~= self.free_form_queries.deep_view().push(
                query@,
            ));
        }
        q
    }

    /// Adds a bunch of free-form query terms.
    pub fn queries(self, queries: Vec<String>) -> (r: Self)
        ensures
            r.free_form_queries.deep_view() == self.free_form_queries.deep_view()
                + queries.deep_view(),
            r.field_queries == self.field_queries,
            r.filter == self.filter,
            r.sort == self.sort,
            r.order == self.order,
            r.facets == self.facets,
            r.result_control == self.result_control,
            r.sample == self.sample,
    {
        let mut q = self;
        let mut more = queries;
        q.free_form_queries.append(&mut more);
        proof {
            assert(q.free_form_queries.deep_view() =~= self.free_form_queries.deep_view()
                + queries.deep_view());
        }
        q
    }

    /// Adds a new field query.
    pub fn field_query(self, query: FieldQuery) -> (r: Self)
        ensures
            r.field_queries@ == self.field_queries@.push(query),
            r.free_form_queries == self.free_form_queries,
            r.filter == self.filter,
            r.sort == self.sort,
            r.order == self.order,
            r.facets == self.facets,
            r.result_control == self.result_control,
            r.sample == self.sample,
    {
        let mut q = self;
        q.field_queries.push(query);
        proof {
            assert(q.field_queries@ =~= self.field_queries@.push(query));
        }
        q
    }

    /// Adds a bunch of field queries.
    pub fn field_queries(self, queries: Vec<FieldQuery>) -> (r: Self)
        ensures
            r.field_queries@ == self.field_queries@ + queries@,
            r.free_form_queries == self.free_form_queries,
            r.filter == self.filter,
            r.sort == self.sort,
            r.order == self.order,
            r.facets == self.facets,
            r.result_control == self.result_control,
            r.sample == self.sample,
    {
        let mut q = self;
        let mut more = queries;
        q.field_queries.append(&mut more);
        q
    }

    /// Adds a new filter to the query.
    pub fn filter(self, filter: WorksFilter) -> (r: Self)
        ensures
            r.filter@ == self.filter@.push(filter),
            r.free_form_queries == self.free_form_queries,
            r.field_queries == self.field_queries,
            r.sort == self.sort,
            r.order == self.order,
            r.facets == self.facets,
            r.result_control == self.result_control,
            r.sample == self.sample,
    {
        let mut q = self;
        q.filter.push(filter);
        proof {
            assert(q.filter@ =~= self.filter@.push(filter));
        }
        q
    }

    /// Sets the sort option of the query.
    pub fn sort(self, sort: Sort) -> (r: Self)
        ensures
            r == (WorksQuery { sort: Some(sort), ..self }),
    {
        let mut q = self;
        q.sort = Some(sort);
        q
    }

    /// Sets the order option of the query.
    pub fn order(self, order: Order) -> (r: Self)
        ensures
            r == (WorksQuery { order: Some(order), ..self }),
    {
        let mut q = self;
        q.order = Some(order);
        q
    }

    /// Adds another facet to the query.
    pub fn facet(self, facet: FacetCount) -> (r: Self)
        ensures
            r.facets@ == self.facets@.push(facet),
            r.free_form_queries == self.free_form_queries,
            r.field_queries == self.field_queries,
            r.filter == self.filter,
            r.sort == self.sort,
            r.order == self.order,
            r.result_control == self.result_control,
            r.sample == self.sample,
    {
        let mut q = self;
        q.facets.push(facet);
        proof {
            assert(q.facets@ =~= self.facets@.push(facet));
        }
        q
    }

    /// The row limit that survives a switch to a cursor window: only an
    /// explicit `Rows` window keeps its limit.
    pub open spec fn spec_carried_rows(self) -> Option<usize> {
        match self.result_control {
            Some(WorkResultControl::Standard(ResultControl::Rows(rows))) => Some(rows),
            _ => None,
        }
    }

    /// Sets the cursor of the result window for deep paging, keeping a
    /// previously set row limit.
    pub fn next_cursor(self, cursor: &str) -> (r: Self)
        ensures
            r.result_control matches Some(WorkResultControl::Cursor { token, rows })
                && token matches Some(t) && t@ == cursor@ && rows == self.spec_carried_rows(),
            r.free_form_queries == self.free_form_queries,
            r.field_queries == self.field_queries,
            r.filter == self.filter,
            r.sort == self.sort,
            r.order == self.order,
            r.facets == self.facets,
            r.sample == self.sample,
    {
        let rows = match &self.result_control {
            Some(WorkResultControl::Standard(ResultControl::Rows(rows))) => Some(*rows),
            _ => None,
        };
        let mut q = self;
        q.result_control = Some(
            WorkResultControl::Cursor { token: Some(String::from_str(cursor)), rows },
        );
        q
    }

    /// Sets an empty cursor.
    pub fn new_cursor(self) -> (r: Self)
        ensures
            r == (WorksQuery {
                result_control: Some(
                    WorkResultControl::Cursor { token: None, rows: None },
                ),
                ..self
            }),
    {
        let mut q = self;
        q.result_control = Some(WorkResultControl::new_cursor());
        q
    }

    /// Sets the result window of the query.
    pub fn result_control(self, result_control: WorkResultControl) -> (r: Self)
        ensures
            r == (WorksQuery { result_control: Some(result_control), ..self }),
    {
        let mut q = self;
        q.result_control = Some(result_control);
        q
    }

    /// Wraps the query into the combined query of the family `W`.
    pub fn into_combined<W: WorksCombiner>(self, id: &str) -> (r: W)
        ensures
            exists|wi: WorksIdentQuery|
                #![auto]
                wi.id@ == id@ && wi.query == self && r == W::spec_ident_query(wi),
    {
        W::ident_query(self.into_ident(id))
    }

    /// Pairs the query with a component id.
    pub fn into_ident(self, id: &str) -> (r: WorksIdentQuery)
        ensures
            r.id@ == id@,
            r.query == self,
    {
        WorksIdentQuery::new(id, self)
    }

    /// The free-text parameter of the query, as a list of zero or one
    /// rendered parameters.
    pub open spec fn spec_params_q(self) -> Seq<Seq<char>> {
        if self.free_form_queries@.len() > 0 {
            seq!["query="@ + spec_format_queries(self.free_form_queries.deep_view())]
        } else {
            Seq::empty()
        }
    }

    /// The free-text parameter followed by one parameter per field query.
    pub open spec fn spec_params_through_fields(self) -> Seq<Seq<char>> {
        self.spec_params_q() + self.field_queries@.map_values(|f: FieldQuery| f.spec_param())
    }

    /// Every parameter of the query, in the canonical order: free-text,
    /// field queries, filters, facets, sort, order, result window.
    pub open spec fn spec_params_list(self) -> Seq<Seq<char>> {
        let p0 = self.spec_params_through_fields();
        let p1 = if self.filter@.len() > 0 {
            p0.push("filter="@ + spec_fragment_list(self.filter@))
        } else {
            p0
        };
        let p2 = if self.facets@.len() > 0 {
            p1.push("facet="@ + spec_fragment_list(self.facets@))
        } else {
            p1
        };
        let p3 = match self.sort {
            Some(srt) => p2.push(srt.spec_param()),
            None => p2,
        };
        let p4 = match self.order {
            Some(ord) => p3.push(ord.spec_param()),
            None => p3,
        };
        match self.result_control {
            Some(rc) => p4.push(rc.spec_param()),
            None => p4,
        }
    }

    /// The query-string part of the route. A set sample size short-circuits
    /// everything else: the only parameter is then `sample=n`.
    pub open spec fn spec_query_part(self) -> Seq<char> {
        match self.sample {
            Some(n) => "sample="@ + spec_dec(n as int),
            None => seq_join(self.spec_params_list(), seq!['&']),
        }
    }

    /// The full route of the query.
    pub open spec fn spec_route(self) -> Seq<char> {
        Component::Works.spec_route() + seq!['?'] + self.spec_query_part()
    }
}

/// Law: a set sample size suppresses every other parameter. Whatever
/// else is populated on the query, the produced route is
/// `/works?sample=n` and nothing more.
pub proof fn lemma_sample_short_circuits(q: WorksQuery, n: usize)
    requires
        q.sample == Some(n),
    ensures
        WorksQuery::spec_route(q) == Component::Works.spec_route() + seq!['?'] + ("sample="@
            + spec_dec(n as int)),
{
}

impl Default for WorksQuery {
    fn default() -> (r: Self)
        ensures
            r.spec_is_empty(),
    {
        WorksQuery::empty()
    }
}

impl CrossrefRoute for WorksQuery {
    open spec fn spec_route(&self) -> Seq<char> {
        WorksQuery::spec_route(*self)
    }

    #[verifier::rlimit(60)]
    fn route(&self) -> (r: Result<String, Error>) {
        match &self.sample {
            Some(n) => {
                let mut out = Component::Works.route_string();
                push_char(&mut out, '?');
                out.append("sample=");
                append_dec(&mut out, *n as u64);
                proof {
                    assert(out@ =~= WorksQuery::spec_route(*self));
                }
                Ok(out)
            },
            None => {
                let mut params: Vec<String> = Vec::new();
                if !self.free_form_queries.is_empty() {
                    let mut p = String::from_str("query=");
                    let terms = format_queries(&self.free_form_queries);
                    p.append(terms.as_str());
                    params.push(p);
                }
                proof {
                    assert(params.deep_view() =~= self.spec_params_q());
                }
                let mut i: usize = 0;
                while i < self.field_queries.len()
                    invariant
                        i <= self.field_queries.len(),
                        params.deep_view() =~= self.spec_params_q() + self.field_queries@.take(
                            i as int,
                        ).map_values(|f: FieldQuery| f.spec_param()),
                    decreases self.field_queries.len() - i,
                {
                    let ghost before = params.deep_view();
                    let p = self.field_queries[i].param();
                    let ghost pv = p@;
                    params.push(p);
                    proof {
                        assert(params.deep_view() =~= before.push(pv));
                        assert(self.spec_params_q() + self.field_queries@.take(i as int
                            + 1).map_values(|f: FieldQuery| f.spec_param()) =~= before.push(pv));
                    }
                    i = i + 1;
                }
                proof {
                    assert(self.field_queries@.take(self.field_queries@.len() as int)
                        =~= self.field_queries@);
                    assert(params.deep_view() =~= self.spec_params_through_fields());
                }
                if !self.filter.is_empty() {
                    let mut p = String::from_str("filter=");
                    let frag = fragment_list(&self.filter);
                    p.append(frag.as_str());
                    params.push(p);
                    proof {
                        assert(params.deep_view() =~= self.spec_params_through_fields().push(
                            "filter="@ + spec_fragment_list(self.filter@),
                        ));
                    }
                }
                if !self.facets.is_empty() {
                    let mut p = String::from_str("facet=");
                    let frag = fragment_list(&self.facets);
                    p.append(frag.as_str());
                    let ghost before = params.deep_view();
                    params.push(p);
                    proof {
                        assert(params.deep_view() =~= before.push(
                            "facet="@ + spec_fragment_list(self.facets@),
                        ));
                    }
                }
                if let Some(srt) = &self.sort {
                    let ghost before = params.deep_view();
                    params.push(srt.param());
                    proof {
                        assert(params.deep_view() =~= before.push(srt.spec_param()));
                    }
                }
                if let Some(ord) = &self.order {
                    let ghost before = params.deep_view();
                    params.push(ord.param());
                    proof {
                        assert(params.deep_view() =~= before.push(ord.spec_param()));
                    }
                }
                if let Some(rc) = &self.result_control {
                    let ghost before = params.deep_view();
                    params.push(rc.param());
                    proof {
                        assert(params.deep_view() =~= before.push(rc.spec_param()));
                    }
                }
                proof {
                    assert(params.deep_view() =~= self.spec_params_list());
                }
                let joined = join_with(&params, '&');
                let mut out = Component::Works.route_string();
                push_char(&mut out, '?');
                out.append(joined.as_str());
                proof {
                    assert(out@ =~= WorksQuery::spec_route(*self));
                }
                Ok(out)
            },
        }
    }
}

impl CrossrefParams for WorksQuery {
    type Filter = WorksFilter;

    open spec fn spec_query_terms(&self) -> Seq<Seq<char>> {
        self.free_form_queries.deep_view()
    }

    open spec fn spec_filters(&self) -> Seq<WorksFilter> {
        self.filter@
    }

    open spec fn spec_sort(&self) -> Option<Sort> {
        self.sort
    }

    open spec fn spec_order(&self) -> Option<Order> {
        self.order
    }

    open spec fn spec_facets(&self) -> Seq<FacetCount> {
        self.facets@
    }

    open spec fn spec_result_control(&self) -> Option<ResultControl> {
        match self.result_control {
            Some(WorkResultControl::Standard(rc)) => Some(rc),
            _ => None,
        }
    }

    fn query_terms(&self) -> (r: &Vec<String>) {
        &self.free_form_queries
    }

    fn filters(&self) -> (r: &Vec<WorksFilter>) {
        &self.filter
    }

    fn sort(&self) -> (r: Option<&Sort>) {
        self.sort.as_ref()
    }

    fn order(&self) -> (r: Option<&Order>) {
        self.order.as_ref()
    }

    fn facets(&self) -> (r: &Vec<FacetCount>) {
        &self.facets
    }

    fn result_control(&self) -> (r: Option<&ResultControl>) {
        match &self.result_control {
            Some(WorkResultControl::Standard(rc)) => Some(rc),
            _ => None,
        }
    }
}

/// Any query whose answer is a list of works: a plain works query, or a
/// works query nested under another component's identifier.
#[derive(Debug, Clone)]
pub enum WorkListQuery {
    /// a query against `/works` directly
    Works(WorksQuery),
    /// a works query scoped under another resource component
    Combined {
        /// the component under whose identifier the works are scoped
        primary_component: Component,
        /// the identifier and the nested works query
        ident: WorksIdentQuery,
    },
}

impl WorkListQuery {
    /// The works query held inside, at spec level.
    pub open spec fn spec_works_query(self) -> WorksQuery {
        match self {
            WorkListQuery::Works(q) => q,
            WorkListQuery::Combined { ident, .. } => ident.query,
        }
    }

    /// Read access to the works query held inside.
    pub fn works_query(&self) -> (r: &WorksQuery)
        ensures
            *r == self.spec_works_query(),
    {
        match self {
            WorkListQuery::Works(q) => q,
            WorkListQuery::Combined { ident, .. } => &ident.query,
        }
    }
}

impl CrossrefRoute for WorkListQuery {
    open spec fn spec_route(&self) -> Seq<char> {
        match self {
            WorkListQuery::Works(query) => query.spec_route(),
            WorkListQuery::Combined { primary_component, ident } => ident.spec_combined_route(
                *primary_component,
            ),
        }
    }

    fn route(&self) -> (r: Result<String, Error>) {
        match self {
            WorkListQuery::Works(query) => CrossrefRoute::route(query),
            WorkListQuery::Combined { primary_component, ident } => combined_route(
                *primary_component,
                ident,
            ),
        }
    }
}

impl CrossrefQuery for WorkListQuery {
    open spec fn spec_resource_component(self) -> ResourceComponent {
        match self {
            WorkListQuery::Works(query) => ResourceComponent::Works(Works::Query(query)),
            WorkListQuery::Combined { primary_component, ident } => match primary_component {
                Component::Funders => ResourceComponent::Funders(
                    crate::query::funders::Funders::Works(ident),
                ),
                Component::Journals => ResourceComponent::Journals(
                    crate::query::journals::Journals::Works(ident),
                ),
                Component::Members => ResourceComponent::Members(
                    crate::query::member::Members::Works(ident),
                ),
                Component::Prefixes => ResourceComponent::Prefixes(
                    crate::query::prefixes::Prefixes::Works(ident),
                ),
                Component::Types => ResourceComponent::Types(
                    crate::query::types::Types::Works(ident),
                ),
                Component::Works => ResourceComponent::Works(Works::Query(ident.query)),
            },
        }
    }

    fn resource_component(self) -> (r: ResourceComponent) {
        match self {
            WorkListQuery::Works(query) => ResourceComponent::Works(Works::Query(query)),
            WorkListQuery::Combined { primary_component, ident } => match primary_component {
                Component::Funders => ResourceComponent::Funders(
                    crate::query::funders::Funders::Works(ident),
                ),
                Component::Journals => ResourceComponent::Journals(
                    crate::query::journals::Journals::Works(ident),
                ),
                Component::Members => ResourceComponent::Members(
                    crate::query::member::Members::Works(ident),
                ),
                Component::Prefixes => ResourceComponent::Prefixes(
                    crate::query::prefixes::Prefixes::Works(ident),
                ),
                Component::Types => ResourceComponent::Types(
                    crate::query::types::Types::Works(ident),
                ),
                Component::Works => ResourceComponent::Works(Works::Query(ident.query)),
            },
        }
    }

    fn to_url(&self, base_path: &str) -> (r: Result<String, Error>) {
        let mut out = String::from_str(base_path);
        match self.route() {
            Ok(rt) => {
                out.append(rt.as_str());
                Ok(out)
            },
            Err(e) => Err(e),
        }
    }
}

} // verus!
