//! The closed vocabulary of work types and the request payloads for the
//! `/types` route.

use vstd::prelude::*;

use crate::error::Error;
use crate::error::ErrorKind;
use crate::query::works::combined_route;
use crate::query::works::WorksIdentQuery;
use crate::query::Component;
use crate::query::CrossrefQuery;
use crate::query::CrossrefRoute;
use crate::query::ResourceComponent;
use crate::strutil::push_char;
use crate::strutil::str_equal;

verus! {

/// All possible types of a work.
#[derive(Debug, Clone, Copy, PartialEq, Eq, Structural)]
pub enum Type {
    BookSection,
    Monograph,
    Report,
    PeerReview,
    BookTrack,
    JournalArticle,
    BookPart,
    Other,
    Book,
    JournalVolume,
    BookSet,
    ReferenceEntry,
    ProceedingsArticle,
    Journal,
    Component,
    BookChapter,
    ProceedingsSeries,
    ReportSeries,
    Proceedings,
    Standard,
    ReferenceBook,
    PostedContent,
    JournalIssue,
    Dissertation,
    Dataset,
    BookSeries,
    EditedBook,
    StandardSeries,
}

impl Type {
    /// The display-friendly label of this type.
    pub open spec fn spec_label(self) -> Seq<char> {
        match self {
            Type::BookSection => "Book Section"@,
            Type::Monograph => "Monograph"@,
            Type::Report => "Report"@,
            Type::PeerReview => "Peer Review"@,
            Type::BookTrack => "Book Track"@,
            Type::JournalArticle => "Journal Article"@,
            Type::BookPart => "Book Part"@,
            Type::Other => "Other"@,
            Type::Book => "Book"@,
            Type::JournalVolume => "Journal Volume"@,
            Type::BookSet => "Book Set"@,
            Type::ReferenceEntry => "Reference Entry"@,
            Type::ProceedingsArticle => "Proceedings Article"@,
            Type::Journal => "Journal"@,
            Type::Component => "Component"@,
            Type::BookChapter => "Book Chapter"@,
            Type::ProceedingsSeries => "Proceedings Series"@,
            Type::ReportSeries => "Report Series"@,
            Type::Proceedings => "Proceedings"@,
            Type::Standard => "Standard"@,
            Type::ReferenceBook => "Reference Book"@,
            Type::PostedContent => "Posted Content"@,
            Type::JournalIssue => "Journal Issue"@,
            Type::Dissertation => "Dissertation"@,
            Type::Dataset => "Dataset"@,
            Type::BookSeries => "Book Series"@,
            Type::EditedBook => "Edited Book"@,
            Type::StandardSeries => "Standard Series"@,
        }
    }

    /// The wire identifier of this type.
    pub open spec fn spec_id(self) -> Seq<char> {
        match self {
            Type::BookSection => "book-section"@,
            Type::Monograph => "monograph"@,
            Type::Report => "report"@,
            Type::PeerReview => "peer-review"@,
            Type::BookTrack => "book-track"@,
            Type::JournalArticle => "journal-article"@,
            Type::BookPart => "book-part"@,
            Type::Other => "other"@,
            Type::Book => "book"@,
            Type::JournalVolume => "journal-volume"@,
            Type::BookSet => "book-set"@,
            Type::ReferenceEntry => "reference-entry"@,
            Type::ProceedingsArticle => "proceedings-article"@,
            Type::Journal => "journal"@,
            Type::Component => "component"@,
            Type::BookChapter => "book-chapter"@,
            Type::ProceedingsSeries => "proceedings-series"@,
            Type::ReportSeries => "report-series"@,
            Type::Proceedings => "proceedings"@,
            Type::Standard => "standard"@,
            Type::ReferenceBook => "reference-book"@,
            Type::PostedContent => "posted-content"@,
            Type::JournalIssue => "journal-issue"@,
            Type::Dissertation => "dissertation"@,
            Type::Dataset => "dataset"@,
            Type::BookSeries => "book-series"@,
            Type::EditedBook => "edited-book"@,
            Type::StandardSeries => "standard-series"@,
        }
    }

    /// The display-friendly label of this type.
    pub fn label(&self) -> (r: &str)
        ensures
            r@ == self.spec_label(),
    {
        match self {
            Type::BookSection => "Book Section",
            Type::Monograph => "Monograph",
            Type::Report => "Report",
            Type::PeerReview => "Peer Review",
            Type::BookTrack => "Book Track",
            Type::JournalArticle => "Journal Article",
            Type::BookPart => "Book Part",
            Type::Other => "Other",
            Type::Book => "Book",
            Type::JournalVolume => "Journal Volume",
            Type::BookSet => "Book Set",
            Type::ReferenceEntry => "Reference Entry",
            Type::ProceedingsArticle => "Proceedings Article",
            Type::Journal => "Journal",
            Type::Component => "Component",
            Type::BookChapter => "Book Chapter",
            Type::ProceedingsSeries => "Proceedings Series",
            Type::ReportSeries => "Report Series",
            Type::Proceedings => "Proceedings",
            Type::Standard => "Standard",
            Type::ReferenceBook => "Reference Book",
            Type::PostedContent => "Posted Content",
            Type::JournalIssue => "Journal Issue",
            Type::Dissertation => "Dissertation",
            Type::Dataset => "Dataset",
            Type::BookSeries => "Book Series",
            Type::EditedBook => "Edited Book",
            Type::StandardSeries => "Standard Series",
        }
    }

    /// The wire identifier of this type.
    pub fn id(&self) -> (r: &str)
        ensures
            r@ == self.spec_id(),
    {
        match self {
            Type::BookSection => "book-section",
            Type::Monograph => "monograph",
            Type::Report => "report",
            Type::PeerReview => "peer-review",
            Type::BookTrack => "book-track",
            Type::JournalArticle => "journal-article",
            Type::BookPart => "book-part",
            Type::Other => "other",
            Type::Book => "book",
            Type::JournalVolume => "journal-volume",
            Type::BookSet => "book-set",
            Type::ReferenceEntry => "reference-entry",
            Type::ProceedingsArticle => "proceedings-article",
            Type::Journal => "journal",
            Type::Component => "component",
            Type::BookChapter => "book-chapter",
            Type::ProceedingsSeries => "proceedings-series",
            Type::ReportSeries => "report-series",
            Type::Proceedings => "proceedings",
            Type::Standard => "standard",
            Type::ReferenceBook => "reference-book",
            Type::PostedContent => "posted-content",
            Type::JournalIssue => "journal-issue",
            Type::Dissertation => "dissertation",
            Type::Dataset => "dataset",
            Type::BookSeries => "book-series",
            Type::EditedBook => "edited-book",
            Type::StandardSeries => "standard-series",
        }
    }

    /// The type whose wire identifier is `s`, if any.
    pub open spec fn spec_of_id(s: Seq<char>) -> Option<Type> {
        if s == "book-section"@ {
            Some(Type::BookSection)
        } else if s == "monograph"@ {
            Some(Type::Monograph)
        } else if s == "report"@ {
            Some(Type::Report)
        } else if s == "peer-review"@ {
            Some(Type::PeerReview)
        } else if s == "book-track"@ {
            Some(Type::BookTrack)
        } else if s == "journal-article"@ {
            Some(Type::JournalArticle)
        } else if s == "book-part"@ {
            Some(Type::BookPart)
        } else if s == "other"@ {
            Some(Type::Other)
        } else if s == "book"@ {
            Some(Type::Book)
        } else if s == "journal-volume"@ {
            Some(Type::JournalVolume)
        } else if s == "book-set"@ {
            Some(Type::BookSet)
        } else if s == "reference-entry"@ {
            Some(Type::ReferenceEntry)
        } else if s == "proceedings-article"@ {
            Some(Type::ProceedingsArticle)
        } else if s == "journal"@ {
            Some(Type::Journal)
        } else if s == "component"@ {
            Some(Type::Component)
        } else if s == "book-chapter"@ {
            Some(Type::BookChapter)
        } else if s == "proceedings-series"@ {
            Some(Type::ProceedingsSeries)
        } else if s == "report-series"@ {
            Some(Type::ReportSeries)
        } else if s == "proceedings"@ {
            Some(Type::Proceedings)
        } else if s == "standard"@ {
            Some(Type::Standard)
        } else if s == "reference-book"@ {
            Some(Type::ReferenceBook)
        } else if s == "posted-content"@ {
            Some(Type::PostedContent)
        } else if s == "journal-issue"@ {
            Some(Type::JournalIssue)
        } else if s == "dissertation"@ {
            Some(Type::Dissertation)
        } else if s == "dataset"@ {
            Some(Type::Dataset)
        } else if s == "book-series"@ {
            Some(Type::BookSeries)
        } else if s == "edited-book"@ {
            Some(Type::EditedBook)
        } else if s == "standard-series"@ {
            Some(Type::StandardSeries)
        } else {
            None
        }
    }

    /// Parses a wire identifier; an unknown identifier is an
    /// `InvalidTypeName` error.
    pub fn from_id(s: &str) -> (r: Result<Type, Error>)
        ensures
            r matches Ok(t) ==> Type::spec_of_id(s@) == Some(t),
            r is Err <==> Type::spec_of_id(s@) is None,
            r matches Err(e) ==> e.kind matches ErrorKind::InvalidTypeName { name } && name@ == s@,
    {
        if str_equal(s, "book-section") {
            Ok(Type::BookSection)
        } else if str_equal(s, "monograph") {
            Ok(Type::Monograph)
        } else if str_equal(s, "report") {
            Ok(Type::Report)
        } else if str_equal(s, "peer-review") {
            Ok(Type::PeerReview)
        } else if str_equal(s, "book-track") {
            Ok(Type::BookTrack)
        } else if str_equal(s, "journal-article") {
            Ok(Type::JournalArticle)
        } else if str_equal(s, "book-part") {
            Ok(Type::BookPart)
        } else if str_equal(s, "other") {
            Ok(Type::Other)
        } else if str_equal(s, "book") {
            Ok(Type::Book)
        } else if str_equal(s, "journal-volume") {
            Ok(Type::JournalVolume)
        } else if str_equal(s, "book-set") {
            Ok(Type::BookSet)
        } else if str_equal(s, "reference-entry") {
            Ok(Type::ReferenceEntry)
        } else if str_equal(s, "proceedings-article") {
            Ok(Type::ProceedingsArticle)
        } else if str_equal(s, "journal") {
            Ok(Type::Journal)
        } else if str_equal(s, "component") {
            Ok(Type::Component)
        } else if str_equal(s, "book-chapter") {
            Ok(Type::BookChapter)
        } else if str_equal(s, "proceedings-series") {
            Ok(Type::ProceedingsSeries)
        } else if str_equal(s, "report-series") {
            Ok(Type::ReportSeries)
        } else if str_equal(s, "proceedings") {
            Ok(Type::Proceedings)
        } else if str_equal(s, "standard") {
            Ok(Type::Standard)
        } else if str_equal(s, "reference-book") {
            Ok(Type::ReferenceBook)
        } else if str_equal(s, "posted-content") {
            Ok(Type::PostedContent)
        } else if str_equal(s, "journal-issue") {
            Ok(Type::JournalIssue)
        } else if str_equal(s, "dissertation") {
            Ok(Type::Dissertation)
        } else if str_equal(s, "dataset") {
            Ok(Type::Dataset)
        } else if str_equal(s, "book-series") {
            Ok(Type::BookSeries)
        } else if str_equal(s, "edited-book") {
            Ok(Type::EditedBook)
        } else if str_equal(s, "standard-series") {
            Ok(Type::StandardSeries)
        } else {
            Err(Error::from_kind(ErrorKind::InvalidTypeName { name: String::from_str(s) }))
        }
    }
}

impl core::str::FromStr for Type {
    type Err = Error;

    fn from_str(s: &str) -> Result<Type, Error> {
        Type::from_id(s)
    }
}

impl Type {
    /// The response record this type corresponds to: its wire identifier
    /// paired with its display label.
    pub fn as_type_record(&self) -> (r: crate::response::CrossrefType)
        ensures
            r.id@ == self.spec_id(),
            r.label@ == self.spec_label(),
    {
        crate::response::CrossrefType {
            id: String::from_str(self.id()),
            label: String::from_str(self.label()),
        }
    }
}

/// Constructs the request payload for the `/types` route.
#[derive(Debug, Clone)]
pub enum Types {
    /// every available type
    All,
    /// target a specific type at `/types/{id}`
    Identifier(String),
    /// target the works of a specific type at `/types/{id}/works?query..`
    Works(WorksIdentQuery),
}

impl CrossrefRoute for Types {
    open spec fn spec_route(&self) -> Seq<char> {
        match self {
            Types::All => Component::Types.spec_route(),
            Types::Identifier(s) => Component::Types.spec_route() + seq!['/'] + s@,
            Types::Works(combined) => combined.spec_combined_route(Component::Types),
        }
    }

    fn route(&self) -> (r: Result<String, Error>) {
        match self {
            Types::All => Ok(Component::Types.route_string()),
            Types::Identifier(s) => {
                let mut out = Component::Types.route_string();
                push_char(&mut out, '/');
                out.append(s.as_str());
                proof {
                    assert(out@ =~= self.spec_route());
                }
                Ok(out)
            },
            Types::Works(combined) => combined_route(Component::Types, combined),
        }
    }
}

impl crate::query::works::WorksCombiner for Types {
    open spec fn spec_primary_component() -> Component {
        Component::Types
    }

    open spec fn spec_ident_query(ident: WorksIdentQuery) -> Self {
        Types::Works(ident)
    }

    fn primary_component() -> (r: Component) {
        Component::Types
    }

    fn ident_query(ident: WorksIdentQuery) -> (r: Self) {
        Types::Works(ident)
    }

    fn work_list_query(ident: WorksIdentQuery) -> (r: crate::query::works::WorkListQuery) {
        crate::query::works::WorkListQuery::Combined { primary_component: Component::Types, ident }
    }
}

impl CrossrefQuery for Types {
    open spec fn spec_resource_component(self) -> ResourceComponent {
        ResourceComponent::Types(self)
    }

    fn resource_component(self) -> (r: ResourceComponent) {
        ResourceComponent::Types(self)
    }

    fn to_url(&self, base_path: &str) -> (r: Result<String, Error>) {
        let mut out = String::from_str(base_path);
        match self.route() {
            Ok(rt) => {
                out.append(rt.as_str());
                Ok(out)
            },
            Err(e) => Err(e),
        }
    }
}

} // verus!
