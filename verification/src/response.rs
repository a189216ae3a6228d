//! The response envelope and its discriminant: every Crossref answer is a
//! JSON object whose `message-type` field selects the shape of `message`.
//! The decoder here enforces that pairing: an envelope only decodes when
//! its payload has exactly the shape its discriminant demands.

use vstd::prelude::*;

use crate::error::Error;
use crate::error::ErrorKind;
use crate::json::field_arr;
use crate::json::field_bool;
use crate::json::field_str;
use crate::json::field_u64;
use crate::json::json_of;
use crate::json::parse_json;
use crate::json::spec_field_arr;
use crate::json::spec_field_bool;
use crate::json::spec_field_str;
use crate::json::spec_field_u64;
use crate::json::spec_opt_str;
use crate::json::spec_str_items;
use crate::json::spec_str_list_field;
use crate::json::str_items;
use crate::json::str_list_field;
use crate::json::spec_count_entries;
use crate::json::count_entries;
use crate::json::Json;
use crate::model::Work;
use crate::model::spec_work_ok;
use crate::query::ResourceComponent;
use crate::query::Visibility;
use crate::strutil::str_equal;

verus! {

/// All possible `message-type` values of a response.
#[derive(Debug, Clone, Copy, PartialEq, Eq, Structural)]
pub enum MessageType {
    WorkAgency,
    Funder,
    Prefix,
    Member,
    Work,
    WorkList,
    FunderList,
    Type,
    TypeList,
    MemberList,
    Journal,
    JournalList,
    ValidationFailure,
    RouteNotFound,
}

impl MessageType {
    /// The wire string of this discriminant.
    pub open spec fn spec_str(self) -> Seq<char> {
        match self {
            MessageType::WorkAgency => "work-agency"@,
            MessageType::Funder => "funder"@,
            MessageType::Prefix => "prefix"@,
            MessageType::Member => "member"@,
            MessageType::MemberList => "member-list"@,
            MessageType::Work => "work"@,
            MessageType::WorkList => "work-list"@,
            MessageType::FunderList => "funder-list"@,
            MessageType::Type => "type"@,
            MessageType::TypeList => "type-list"@,
            MessageType::Journal => "journal"@,
            MessageType::JournalList => "journal-list"@,
            MessageType::ValidationFailure => "validation-failure"@,
            MessageType::RouteNotFound => "route-not-found"@,
        }
    }

    /// The type identifier for a message.
    pub fn as_str(&self) -> (r: &str)
        ensures
            r@ == self.spec_str(),
    {
        match self {
            MessageType::WorkAgency => "work-agency",
            MessageType::Funder => "funder",
            MessageType::Prefix => "prefix",
            MessageType::Member => "member",
            MessageType::MemberList => "member-list",
            MessageType::Work => "work",
            MessageType::WorkList => "work-list",
            MessageType::FunderList => "funder-list",
            MessageType::Type => "type",
            MessageType::TypeList => "type-list",
            MessageType::Journal => "journal",
            MessageType::JournalList => "journal-list",
            MessageType::ValidationFailure => "validation-failure",
            MessageType::RouteNotFound => "route-not-found",
        }
    }

    /// The discriminant whose wire string is `s`, if any.
    pub open spec fn spec_of_str(s: Seq<char>) -> Option<MessageType> {
        if s == "work-agency"@ {
            Some(MessageType::WorkAgency)
        } else if s == "funder"@ {
            Some(MessageType::Funder)
        } else if s == "prefix"@ {
            Some(MessageType::Prefix)
        } else if s == "member"@ {
            Some(MessageType::Member)
        } else if s == "member-list"@ {
            Some(MessageType::MemberList)
        } else if s == "work"@ {
            Some(MessageType::Work)
        } else if s == "work-list"@ {
            Some(MessageType::WorkList)
        } else if s == "funder-list"@ {
            Some(MessageType::FunderList)
        } else if s == "type"@ {
            Some(MessageType::Type)
        } else if s == "type-list"@ {
            Some(MessageType::TypeList)
        } else if s == "journal"@ {
            Some(MessageType::Journal)
        } else if s == "journal-list"@ {
            Some(MessageType::JournalList)
        } else if s == "validation-failure"@ {
            Some(MessageType::ValidationFailure)
        } else if s == "route-not-found"@ {
            Some(MessageType::RouteNotFound)
        } else {
            None
        }
    }

    /// Parses a wire discriminant string.
    pub fn of_str(s: &str) -> (r: Option<MessageType>)
        ensures
            r == MessageType::spec_of_str(s@),
    {
        if str_equal(s, "work-agency") {
            Some(MessageType::WorkAgency)
        } else if str_equal(s, "funder") {
            Some(MessageType::Funder)
        } else if str_equal(s, "prefix") {
            Some(MessageType::Prefix)
        } else if str_equal(s, "member") {
            Some(MessageType::Member)
        } else if str_equal(s, "member-list") {
            Some(MessageType::MemberList)
        } else if str_equal(s, "work") {
            Some(MessageType::Work)
        } else if str_equal(s, "work-list") {
            Some(MessageType::WorkList)
        } else if str_equal(s, "funder-list") {
            Some(MessageType::FunderList)
        } else if str_equal(s, "type") {
            Some(MessageType::Type)
        } else if str_equal(s, "type-list") {
            Some(MessageType::TypeList)
        } else if str_equal(s, "journal") {
            Some(MessageType::Journal)
        } else if str_equal(s, "journal-list") {
            Some(MessageType::JournalList)
        } else if str_equal(s, "validation-failure") {
            Some(MessageType::ValidationFailure)
        } else if str_equal(s, "route-not-found") {
            Some(MessageType::RouteNotFound)
        } else {
            None
        }
    }
}

/// The default `message-version` for envelopes that omit the field.
pub fn default_msg_version() -> (r: String)
    ensures
        r@ == "1.0.0"@,
{
    String::from_str("1.0.0")
}

// --- singleton response records ---

/// A DOI registration agency.
#[derive(Debug, Clone)]
pub struct Agency {
    /// the agency's identifier, such as `crossref`
    pub id: String,
    /// a display-friendly label
    pub label: Option<String>,
}

impl Agency {
    /// Whether a JSON value is an agency record.
    pub open spec fn spec_ok(j: Json) -> bool {
        spec_field_str(j, "id"@) is Some
    }

    /// How a decoded agency relates to the JSON value it came from.
    pub open spec fn spec_matches(self, j: Json) -> bool {
        &&& Some(self.id@) == spec_field_str(j, "id"@)
        &&& spec_opt_str(self.label) == spec_field_str(j, "label"@)
    }

    /// Decodes an agency record.
    pub fn from_json(j: &Json) -> (r: Option<Agency>)
        ensures
            r is Some <==> Agency::spec_ok(*j),
            r matches Some(a) ==> a.spec_matches(*j),
    {
        match field_str(j, "id") {
            Some(id) => Some(Agency { id, label: field_str(j, "label") }),
            None => None,
        }
    }
}

/// The response item of the `/works/{id}/agency` route.
#[derive(Debug, Clone)]
pub struct WorkAgency {
    /// the DOI of the work that belongs to the agency
    pub doi: String,
    /// the agency that registers the work
    pub agency: Agency,
}

impl WorkAgency {
    /// Whether a JSON value is a work-agency record: the `DOI` and a
    /// nested agency are required.
    pub open spec fn spec_ok(j: Json) -> bool {
        &&& spec_field_str(j, "DOI"@) is Some
        &&& (match j.spec_get("agency"@) {
            Some(v) => Agency::spec_ok(v),
            None => false,
        })
    }

    /// How a decoded work agency relates to the JSON value it came from.
    pub open spec fn spec_matches(self, j: Json) -> bool {
        &&& Some(self.doi@) == spec_field_str(j, "DOI"@)
        &&& (match j.spec_get("agency"@) {
            Some(v) => self.agency.spec_matches(v),
            None => false,
        })
    }

    /// Decodes a work-agency record.
    pub fn from_json(j: &Json) -> (r: Option<WorkAgency>)
        ensures
            r is Some <==> WorkAgency::spec_ok(*j),
            r matches Some(a) ==> a.spec_matches(*j),
    {
        let doi = match field_str(j, "DOI") {
            Some(s) => s,
            None => {
                return None;
            },
        };
        match j.get("agency") {
            Some(v) => match Agency::from_json(v) {
                Some(agency) => Some(WorkAgency { doi, agency }),
                None => None,
            },
            None => None,
        }
    }
}

/// The response item of the `/prefixes/{id}` route.
#[derive(Debug, Clone)]
pub struct Prefix {
    /// URL form of the owning member
    pub member: String,
    /// the member's name
    pub name: String,
    /// URL form of the owner prefix
    pub prefix: String,
}

impl Prefix {
    /// Whether a JSON value is a prefix record.
    pub open spec fn spec_ok(j: Json) -> bool {
        &&& spec_field_str(j, "member"@) is Some
        &&& spec_field_str(j, "name"@) is Some
        &&& spec_field_str(j, "prefix"@) is Some
    }

    /// How a decoded prefix relates to the JSON value it came from.
    pub open spec fn spec_matches(self, j: Json) -> bool {
        &&& Some(self.member@) == spec_field_str(j, "member"@)
        &&& Some(self.name@) == spec_field_str(j, "name"@)
        &&& Some(self.prefix@) == spec_field_str(j, "prefix"@)
    }

    /// Decodes a prefix record.
    pub fn from_json(j: &Json) -> (r: Option<Prefix>)
        ensures
            r is Some <==> Prefix::spec_ok(*j),
            r matches Some(p) ==> p.spec_matches(*j),
    {
        let member = match field_str(j, "member") {
            Some(s) => s,
            None => {
                return None;
            },
        };
        let name = match field_str(j, "name") {
            Some(s) => s,
            None => {
                return None;
            },
        };
        match field_str(j, "prefix") {
            Some(prefix) => Some(Prefix { member, name, prefix }),
            None => None,
        }
    }
}

/// A valid work type, as the `/types` route returns it.
#[derive(Debug, Clone)]
pub struct CrossrefType {
    /// the type's identifier, such as `book-section`
    pub id: String,
    /// the type's display label
    pub label: String,
}

impl CrossrefType {
    /// Whether a JSON value is a work type record.
    pub open spec fn spec_ok(j: Json) -> bool {
        &&& spec_field_str(j, "id"@) is Some
        &&& spec_field_str(j, "label"@) is Some
    }

    /// How a decoded type relates to the JSON value it came from.
    pub open spec fn spec_matches(self, j: Json) -> bool {
        &&& Some(self.id@) == spec_field_str(j, "id"@)
        &&& Some(self.label@) == spec_field_str(j, "label"@)
    }

    /// Decodes a work type record.
    pub fn from_json(j: &Json) -> (r: Option<CrossrefType>)
        ensures
            r is Some <==> CrossrefType::spec_ok(*j),
            r matches Some(t) ==> t.spec_matches(*j),
    {
        let id = match field_str(j, "id") {
            Some(s) => s,
            None => {
                return None;
            },
        };
        match field_str(j, "label") {
            Some(label) => Some(CrossrefType { id, label }),
            None => None,
        }
    }
}

/// One failure record of a `validation-failure` response.
#[derive(Debug, Clone)]
pub struct Failure {
    /// the failure's identifier, such as `parameter-not-allowed`
    pub type_: String,
    /// the value that caused the failure
    pub value: String,
    /// the message from the server
    pub message: String,
}

impl Failure {
    /// Whether a JSON value is a failure record.
    pub open spec fn spec_ok(j: Json) -> bool {
        &&& spec_field_str(j, "type"@) is Some
        &&& spec_field_str(j, "value"@) is Some
        &&& spec_field_str(j, "message"@) is Some
    }

    /// How a decoded failure relates to the JSON value it came from.
    pub open spec fn spec_matches(self, j: Json) -> bool {
        &&& Some(self.type_@) == spec_field_str(j, "type"@)
        &&& Some(self.value@) == spec_field_str(j, "value"@)
        &&& Some(self.message@) == spec_field_str(j, "message"@)
    }

    /// Decodes a failure record.
    pub fn from_json(j: &Json) -> (r: Option<Failure>)
        ensures
            r is Some <==> Failure::spec_ok(*j),
            r matches Some(f) ==> f.spec_matches(*j),
    {
        let type_ = match field_str(j, "type") {
            Some(s) => s,
            None => {
                return None;
            },
        };
        let value = match field_str(j, "value") {
            Some(s) => s,
            None => {
                return None;
            },
        };
        match field_str(j, "message") {
            Some(message) => Some(Failure { type_, value, message }),
            None => None,
        }
    }
}

/// The query echo inside a list response.
#[derive(Debug, Clone)]
pub struct QueryResponse {
    /// index of the first returned item
    pub start_index: u64,
    /// the search terms the request carried, when any
    pub search_terms: Option<String>,
}

impl QueryResponse {
    /// Whether a JSON value is a query echo record.
    pub open spec fn spec_ok(j: Json) -> bool {
        spec_field_u64(j, "start-index"@) is Some
    }

    /// How a decoded query echo relates to the JSON value it came from.
    pub open spec fn spec_matches(self, j: Json) -> bool {
        &&& Some(self.start_index) == spec_field_u64(j, "start-index"@)
        &&& spec_opt_str(self.search_terms) == spec_field_str(j, "search-terms"@)
    }

    /// Decodes a query echo record.
    pub fn from_json(j: &Json) -> (r: Option<QueryResponse>)
        ensures
            r is Some <==> QueryResponse::spec_ok(*j),
            r matches Some(q) ==> q.spec_matches(*j),
    {
        match field_u64(j, "start-index") {
            Some(start_index) => Some(
                QueryResponse { start_index, search_terms: field_str(j, "search-terms") },
            ),
            None => None,
        }
    }
}

// --- facets ---

/// The buckets of one facet dimension in a list response.
#[derive(Debug, Clone)]
pub struct FacetItem {
    /// the number of buckets
    pub value_count: u64,
    /// the buckets: a value and how many items fall in it
    pub values: Vec<(String, u64)>,
}

impl FacetItem {
    /// Whether a JSON value is a facet item: a `value-count` and an
    /// object of counts.
    pub open spec fn spec_ok(j: Json) -> bool {
        &&& spec_field_u64(j, "value-count"@) is Some
        &&& (match j.spec_get("values"@) {
            Some(v) => match v.spec_as_obj() {
                Some(entries) => spec_count_entries(entries) is Some,
                None => false,
            },
            None => false,
        })
    }

    /// How a decoded facet item relates to the JSON value it came from.
    pub open spec fn spec_matches(self, j: Json) -> bool {
        &&& Some(self.value_count) == spec_field_u64(j, "value-count"@)
        &&& (match j.spec_get("values"@) {
            Some(v) => match v.spec_as_obj() {
                Some(entries) => spec_count_entries(entries) == Some(self.values.deep_view()),
                None => false,
            },
            None => false,
        })
    }

    /// Decodes a facet item.
    pub fn from_json(j: &Json) -> (r: Option<FacetItem>)
        ensures
            r is Some <==> FacetItem::spec_ok(*j),
            r matches Some(f) ==> f.spec_matches(*j),
    {
        let value_count = match field_u64(j, "value-count") {
            Some(n) => n,
            None => {
                return None;
            },
        };
        let entries = match j.get("values") {
            Some(v) => match v.as_obj_value() {
                Some(entries) => entries,
                None => {
                    return None;
                },
            },
            None => {
                return None;
            },
        };
        match count_entries(entries) {
            Some(values) => Some(FacetItem { value_count, values }),
            None => None,
        }
    }
}

/// Facets are returned as a map from the facet's wire name to its
/// buckets, kept in the order the parsed object hands its entries out
/// (serde_json yields them sorted by key).
pub type FacetMap = Vec<(String, FacetItem)>;

/// Whether every value of an object is a facet item.
pub open spec fn spec_facet_entries_ok(entries: Seq<(String, Json)>) -> bool {
    forall|k: int| 0 <= k < entries.len() ==> FacetItem::spec_ok((#[trigger] entries[k]).1)
}

/// How a decoded facet map relates to the object entries it came from.
pub open spec fn spec_facet_entries_match(fm: Seq<(String, FacetItem)>, entries: Seq<(String, Json)>) -> bool {
    &&& fm.len() == entries.len()
    &&& forall|k: int|
        0 <= k < entries.len() ==> (#[trigger] fm[k]).0@ == entries[k].0@ && fm[k].1.spec_matches(
            entries[k].1,
        )
}

/// Decodes a facets object into a [`FacetMap`].
pub fn facet_map_from_entries(entries: &Vec<(String, Json)>) -> (r: Option<FacetMap>)
    ensures
        r is Some <==> spec_facet_entries_ok(entries@),
        r matches Some(fm) ==> spec_facet_entries_match(fm@, entries@),
{
    let mut out: FacetMap = Vec::new();
    let mut i: usize = 0;
    while i < entries.len()
        invariant
            i <= entries@.len(),
            out@.len() == i,
            forall|k: int| 0 <= k < i ==> FacetItem::spec_ok((#[trigger] entries@[k]).1),
            forall|k: int|
                0 <= k < i ==> (#[trigger] out@[k]).0@ == entries@[k].0@ && out@[k].1.spec_matches(
                    entries@[k].1,
                ),
        decreases entries@.len() - i,
    {
        match FacetItem::from_json(&entries[i].1) {
            Some(item) => {
                out.push((entries[i].0.clone(), item));
            },
            None => {
                return None;
            },
        }
        i = i + 1;
    }
    Some(out)
}

/// Decodes a bare facets object, as it stands under the `facets` key of
/// a list response.
pub fn facet_map_from_json(j: &Json) -> (r: Option<FacetMap>)
    ensures
        r is Some <==> (j.spec_as_obj() matches Some(entries) && spec_facet_entries_ok(entries)),
        r matches Some(fm) ==> (j.spec_as_obj() matches Some(entries) && spec_facet_entries_match(
            fm@,
            entries,
        )),
{
    match j.as_obj_value() {
        Some(entries) => facet_map_from_entries(entries),
        None => None,
    }
}

/// The facets of a list payload: absent reads as the empty map, present
/// must be an object of facet items.
pub open spec fn spec_facets_field_ok(j: Json) -> bool {
    match j.spec_get("facets"@) {
        Some(v) => match v.spec_as_obj() {
            Some(entries) => spec_facet_entries_ok(entries),
            None => false,
        },
        None => true,
    }
}

/// How the decoded facets of a list payload relate to it.
pub open spec fn spec_facets_field_match(fm: Seq<(String, FacetItem)>, j: Json) -> bool {
    match j.spec_get("facets"@) {
        Some(v) => match v.spec_as_obj() {
            Some(entries) => spec_facet_entries_match(fm, entries),
            None => false,
        },
        None => fm.len() == 0,
    }
}

fn facets_field(j: &Json) -> (r: Option<FacetMap>)
    ensures
        r is Some <==> spec_facets_field_ok(*j),
        r matches Some(fm) ==> spec_facets_field_match(fm@, *j),
{
    match j.get("facets") {
        Some(v) => facet_map_from_json(v),
        None => Some(Vec::new()),
    }
}

// --- the funder record ---

/// The response item of the `/funders/{id}` route.
#[derive(Debug, Clone)]
pub struct Funder {
    /// the funder's identifier in the Open Funder Registry
    pub id: String,
    /// the funder's location
    pub location: String,
    /// the funder's primary name
    pub name: String,
    /// alternative names of the funder
    pub alt_names: Vec<String>,
    /// URI form of the funder's registry DOI
    pub uri: String,
    /// identifiers of funders this funder replaces
    pub replaces: Vec<String>,
    /// identifiers of funders that replaced this funder
    pub replaced_by: Vec<String>,
    /// search tokens of the funder's names
    pub tokens: Vec<String>,
    /// identifiers of the funder's descendants in the registry
    pub descendants: Vec<String>,
    /// the number of works funded by this funder, when reported
    pub work_count: Option<u64>,
    /// the number of works funded by this funder and its descendants
    pub descendant_work_count: Option<u64>,
}

impl Funder {
    /// Whether a JSON value is a funder record: identifier, location,
    /// name and URI are required, the name lists must decode when
    /// present.
    pub open spec fn spec_ok(j: Json) -> bool {
        &&& spec_field_str(j, "id"@) is Some
        &&& spec_field_str(j, "location"@) is Some
        &&& spec_field_str(j, "name"@) is Some
        &&& spec_field_str(j, "uri"@) is Some
        &&& spec_str_list_field(j, "alt-names"@) is Some
        &&& spec_str_list_field(j, "replaces"@) is Some
        &&& spec_str_list_field(j, "replaced-by"@) is Some
        &&& spec_str_list_field(j, "tokens"@) is Some
        &&& spec_str_list_field(j, "descendants"@) is Some
    }

    /// How a decoded funder relates to the JSON value it came from.
    pub open spec fn spec_matches(self, j: Json) -> bool {
        &&& Some(self.id@) == spec_field_str(j, "id"@)
        &&& Some(self.location@) == spec_field_str(j, "location"@)
        &&& Some(self.name@) == spec_field_str(j, "name"@)
        &&& Some(self.uri@) == spec_field_str(j, "uri"@)
        &&& Some(self.alt_names.deep_view()) == spec_str_list_field(j, "alt-names"@)
        &&& Some(self.replaces.deep_view()) == spec_str_list_field(j, "replaces"@)
        &&& Some(self.replaced_by.deep_view()) == spec_str_list_field(j, "replaced-by"@)
        &&& Some(self.tokens.deep_view()) == spec_str_list_field(j, "tokens"@)
        &&& Some(self.descendants.deep_view()) == spec_str_list_field(j, "descendants"@)
        &&& self.work_count == spec_field_u64(j, "work-count"@)
        &&& self.descendant_work_count == spec_field_u64(j, "descendant-work-count"@)
    }

    /// Decodes a funder record.
    pub fn from_json(j: &Json) -> (r: Option<Funder>)
        ensures
            r is Some <==> Funder::spec_ok(*j),
            r matches Some(f) ==> f.spec_matches(*j),
    {
        let id = match field_str(j, "id") {
            Some(s) => s,
            None => {
                return None;
            },
        };
        let location = match field_str(j, "location") {
            Some(s) => s,
            None => {
                return None;
            },
        };
        let name = match field_str(j, "name") {
            Some(s) => s,
            None => {
                return None;
            },
        };
        let uri = match field_str(j, "uri") {
            Some(s) => s,
            None => {
                return None;
            },
        };
        let alt_names = match str_list_field(j, "alt-names") {
            Some(v) => v,
            None => {
                return None;
            },
        };
        let replaces = match str_list_field(j, "replaces") {
            Some(v) => v,
            None => {
                return None;
            },
        };
        let replaced_by = match str_list_field(j, "replaced-by") {
            Some(v) => v,
            None => {
                return None;
            },
        };
        let tokens = match str_list_field(j, "tokens") {
            Some(v) => v,
            None => {
                return None;
            },
        };
        let descendants = match str_list_field(j, "descendants") {
            Some(v) => v,
            None => {
                return None;
            },
        };
        Some(
            Funder {
                id,
                location,
                name,
                alt_names,
                uri,
                replaces,
                replaced_by,
                tokens,
                descendants,
                work_count: field_u64(j, "work-count"),
                descendant_work_count: field_u64(j, "descendant-work-count"),
            },
        )
    }
}

// --- the member record and its parts ---

/// DOI counts of a member.
#[derive(Debug, Clone)]
pub struct Counts {
    /// all DOIs of the member
    pub total_dois: u64,
    /// DOIs of material published within the last two years
    pub current_dois: u64,
    /// DOIs of material published more than two years ago
    pub backfile_dois: u64,
}

impl Counts {
    /// Whether a JSON value is a counts record.
    pub open spec fn spec_ok(j: Json) -> bool {
        &&& spec_field_u64(j, "total-dois"@) is Some
        &&& spec_field_u64(j, "current-dois"@) is Some
        &&& spec_field_u64(j, "backfile-dois"@) is Some
    }

    /// How a decoded counts record relates to the JSON value it came
    /// from.
    pub open spec fn spec_matches(self, j: Json) -> bool {
        &&& Some(self.total_dois) == spec_field_u64(j, "total-dois"@)
        &&& Some(self.current_dois) == spec_field_u64(j, "current-dois"@)
        &&& Some(self.backfile_dois) == spec_field_u64(j, "backfile-dois"@)
    }

    /// Decodes a counts record.
    pub fn from_json(j: &Json) -> (r: Option<Counts>)
        ensures
            r is Some <==> Counts::spec_ok(*j),
            r matches Some(c) ==> c.spec_matches(*j),
    {
        let total_dois = match field_u64(j, "total-dois") {
            Some(n) => n,
            None => {
                return None;
            },
        };
        let current_dois = match field_u64(j, "current-dois") {
            Some(n) => n,
            None => {
                return None;
            },
        };
        match field_u64(j, "backfile-dois") {
            Some(backfile_dois) => Some(Counts { total_dois, current_dois, backfile_dois }),
            None => None,
        }
    }
}

/// Breakdowns of a member's DOIs.
#[derive(Debug, Clone)]
pub struct Breakdowns {
    /// pairs of a year and the number of DOIs issued in it
    pub dois_by_issued_year: Vec<Vec<u64>>,
}

impl Breakdowns {
    /// Whether a JSON value is a breakdowns record.
    pub open spec fn spec_ok(j: Json) -> bool {
        match spec_field_arr(j, "dois-by-issued-year"@) {
            Some(rows) => crate::json::spec_u64_grid(rows) is Some,
            None => false,
        }
    }

    /// How a decoded breakdowns record relates to the JSON value it came
    /// from.
    pub open spec fn spec_matches(self, j: Json) -> bool {
        match spec_field_arr(j, "dois-by-issued-year"@) {
            Some(rows) => crate::json::spec_u64_grid(rows) == Some(
                self.dois_by_issued_year.deep_view(),
            ),
            None => false,
        }
    }

    /// Decodes a breakdowns record.
    pub fn from_json(j: &Json) -> (r: Option<Breakdowns>)
        ensures
            r is Some <==> Breakdowns::spec_ok(*j),
            r matches Some(b) ==> b.spec_matches(*j),
    {
        let rows = match field_arr(j, "dois-by-issued-year") {
            Some(a) => a,
            None => {
                return None;
            },
        };
        match crate::json::u64_grid(rows) {
            Some(grid) => Some(Breakdowns { dois_by_issued_year: grid }),
            None => None,
        }
    }
}

/// One owner prefix of a member.
#[derive(Debug, Clone)]
pub struct RefPrefix {
    /// the prefix value, such as `10.1189`
    pub value: String,
    /// the name deposited for the prefix
    pub name: String,
    /// whether the member makes references public for this prefix
    pub public_references: bool,
    /// the visibility of references under this prefix, when reported
    pub reference_visibility: Option<Visibility>,
}

impl RefPrefix {
    /// Whether a JSON value is a prefix entry of a member record.
    pub open spec fn spec_ok(j: Json) -> bool {
        &&& spec_field_str(j, "value"@) is Some
        &&& spec_field_str(j, "name"@) is Some
        &&& spec_field_bool(j, "public-references"@) is Some
    }

    /// How a decoded prefix entry relates to the JSON value it came
    /// from.
    pub open spec fn spec_matches(self, j: Json) -> bool {
        &&& Some(self.value@) == spec_field_str(j, "value"@)
        &&& Some(self.name@) == spec_field_str(j, "name"@)
        &&& Some(self.public_references) == spec_field_bool(j, "public-references"@)
        &&& self.reference_visibility == (match spec_field_str(j, "reference-visibility"@) {
            Some(s) => Visibility::spec_of_str(s),
            None => None::<Visibility>,
        })
    }

    /// Decodes a prefix entry.
    pub fn from_json(j: &Json) -> (r: Option<RefPrefix>)
        ensures
            r is Some <==> RefPrefix::spec_ok(*j),
            r matches Some(p) ==> p.spec_matches(*j),
    {
        let value = match field_str(j, "value") {
            Some(s) => s,
            None => {
                return None;
            },
        };
        let name = match field_str(j, "name") {
            Some(s) => s,
            None => {
                return None;
            },
        };
        let public_references = match field_bool(j, "public-references") {
            Some(b) => b,
            None => {
                return None;
            },
        };
        let reference_visibility = match field_str(j, "reference-visibility") {
            Some(s) => Visibility::of_str(s.as_str()),
            None => None,
        };
        Some(RefPrefix { value, name, public_references, reference_visibility })
    }
}

/// Whether every element of `items` is a prefix entry.
pub open spec fn spec_ref_prefixes_ok(items: Seq<Json>) -> bool {
    forall|k: int| 0 <= k < items.len() ==> RefPrefix::spec_ok(#[trigger] items[k])
}

/// How a decoded prefix entry list relates to the JSON array it came
/// from.
pub open spec fn spec_ref_prefixes_match(ps: Seq<RefPrefix>, items: Seq<Json>) -> bool {
    &&& ps.len() == items.len()
    &&& forall|k: int| 0 <= k < items.len() ==> (#[trigger] ps[k]).spec_matches(items[k])
}

fn ref_prefixes_from_arr(items: &Vec<Json>) -> (r: Option<Vec<RefPrefix>>)
    ensures
        r is Some <==> spec_ref_prefixes_ok(items@),
        r matches Some(ps) ==> spec_ref_prefixes_match(ps@, items@),
{
    let mut out: Vec<RefPrefix> = Vec::new();
    let mut i: usize = 0;
    while i < items.len()
        invariant
            i <= items@.len(),
            out@.len() == i,
            forall|k: int| 0 <= k < i ==> RefPrefix::spec_ok(#[trigger] items@[k]),
            forall|k: int| 0 <= k < i ==> (#[trigger] out@[k]).spec_matches(items@[k]),
        decreases items@.len() - i,
    {
        match RefPrefix::from_json(&items[i]) {
            Some(p) => out.push(p),
            None => {
                return None;
            },
        }
        i = i + 1;
    }
    Some(out)
}

/// The response item of the `/members/{id}` route.
#[derive(Debug, Clone)]
pub struct Member {
    /// the member's primary name
    pub primary_name: String,
    /// when the member's status was last checked, when reported
    pub last_status_check_time: Option<u64>,
    /// the member's DOI counts, when reported
    pub counts: Option<Counts>,
    /// breakdowns of the member's DOIs, when reported
    pub breakdowns: Option<Breakdowns>,
    /// the member's owner prefixes
    pub prefixes: Vec<String>,
    /// details of the member's owner prefixes
    pub prefix: Vec<RefPrefix>,
    /// the member's identifier
    pub id: u64,
    /// search tokens of the member's name
    pub tokens: Vec<String>,
    /// the member's postal location; empty when none was deposited
    pub location: String,
    /// all names of the member
    pub names: Vec<String>,
}

impl Member {
    /// Whether a JSON value is a member record: the identifier and the
    /// primary name are required, the structured fields must decode when
    /// present.
    pub open spec fn spec_ok(j: Json) -> bool {
        &&& spec_field_u64(j, "id"@) is Some
        &&& spec_field_str(j, "primary-name"@) is Some
        &&& (match j.spec_get("counts"@) {
            Some(v) => Counts::spec_ok(v),
            None => true,
        })
        &&& (match j.spec_get("breakdowns"@) {
            Some(v) => Breakdowns::spec_ok(v),
            None => true,
        })
        &&& spec_str_list_field(j, "prefixes"@) is Some
        &&& spec_str_list_field(j, "tokens"@) is Some
        &&& spec_str_list_field(j, "names"@) is Some
        &&& (match j.spec_get("prefix"@) {
            Some(v) => match v.spec_as_arr() {
                Some(items) => spec_ref_prefixes_ok(items),
                None => false,
            },
            None => true,
        })
    }

    /// How a decoded member relates to the JSON value it came from.
    pub open spec fn spec_matches(self, j: Json) -> bool {
        &&& Some(self.id) == spec_field_u64(j, "id"@)
        &&& Some(self.primary_name@) == spec_field_str(j, "primary-name"@)
        &&& self.last_status_check_time == spec_field_u64(j, "last-status-check-time"@)
        &&& (match j.spec_get("counts"@) {
            Some(v) => self.counts matches Some(c) && c.spec_matches(v),
            None => self.counts is None,
        })
        &&& (match j.spec_get("breakdowns"@) {
            Some(v) => self.breakdowns matches Some(b) && b.spec_matches(v),
            None => self.breakdowns is None,
        })
        &&& Some(self.prefixes.deep_view()) == spec_str_list_field(j, "prefixes"@)
        &&& Some(self.tokens.deep_view()) == spec_str_list_field(j, "tokens"@)
        &&& Some(self.names.deep_view()) == spec_str_list_field(j, "names"@)
        &&& (match j.spec_get("prefix"@) {
            Some(v) => match v.spec_as_arr() {
                Some(items) => spec_ref_prefixes_match(self.prefix@, items),
                None => false,
            },
            None => self.prefix@.len() == 0,
        })
        &&& self.location@ == (match spec_field_str(j, "location"@) {
            Some(s) => s,
            None => Seq::<char>::empty(),
        })
    }

    /// Decodes a member record.
    pub fn from_json(j: &Json) -> (r: Option<Member>)
        ensures
            r is Some <==> Member::spec_ok(*j),
            r matches Some(m) ==> m.spec_matches(*j),
    {
        let id = match field_u64(j, "id") {
            Some(n) => n,
            None => {
                return None;
            },
        };
        let primary_name = match field_str(j, "primary-name") {
            Some(s) => s,
            None => {
                return None;
            },
        };
        let counts = match j.get("counts") {
            Some(v) => match Counts::from_json(v) {
                Some(c) => Some(c),
                None => {
                    return None;
                },
            },
            None => None,
        };
        let breakdowns = match j.get("breakdowns") {
            Some(v) => match Breakdowns::from_json(v) {
                Some(b) => Some(b),
                None => {
                    return None;
                },
            },
            None => None,
        };
        let prefixes = match str_list_field(j, "prefixes") {
            Some(v) => v,
            None => {
                return None;
            },
        };
        let tokens = match str_list_field(j, "tokens") {
            Some(v) => v,
            None => {
                return None;
            },
        };
        let names = match str_list_field(j, "names") {
            Some(v) => v,
            None => {
                return None;
            },
        };
        let prefix = match j.get("prefix") {
            Some(v) => match v.as_arr_value() {
                Some(items) => match ref_prefixes_from_arr(items) {
                    Some(ps) => ps,
                    None => {
                        return None;
                    },
                },
                None => {
                    return None;
                },
            },
            None => Vec::new(),
        };
        let location = match field_str(j, "location") {
            Some(s) => s,
            None => String::new(),
        };
        Some(
            Member {
                primary_name,
                last_status_check_time: field_u64(j, "last-status-check-time"),
                counts,
                breakdowns,
                prefixes,
                prefix,
                id,
                tokens,
                location,
                names,
            },
        )
    }
}

// --- the journal record ---

/// The response item of the `/journals/{id}` route.
#[derive(Debug, Clone)]
pub struct Journal {
    /// name of the journal's publisher, when reported
    pub publisher: Option<String>,
    /// the journal's title, when reported
    pub title: Option<String>,
    /// the journal's ISSNs
    pub issn: Vec<String>,
    /// the types of the journal's ISSNs
    pub issn_type: Vec<String>,
}

impl Journal {
    /// Whether a JSON value is a journal record: the two ISSN arrays are
    /// required.
    pub open spec fn spec_ok(j: Json) -> bool {
        &&& (match spec_field_arr(j, "ISSN"@) {
            Some(items) => spec_str_items(items) is Some,
            None => false,
        })
        &&& (match spec_field_arr(j, "issn-type"@) {
            Some(items) => spec_str_items(items) is Some,
            None => false,
        })
    }

    /// How a decoded journal relates to the JSON value it came from.
    pub open spec fn spec_matches(self, j: Json) -> bool {
        &&& spec_opt_str(self.publisher) == spec_field_str(j, "publisher"@)
        &&& spec_opt_str(self.title) == spec_field_str(j, "title"@)
        &&& (match spec_field_arr(j, "ISSN"@) {
            Some(items) => spec_str_items(items) == Some(self.issn.deep_view()),
            None => false,
        })
        &&& (match spec_field_arr(j, "issn-type"@) {
            Some(items) => spec_str_items(items) == Some(self.issn_type.deep_view()),
            None => false,
        })
    }

    /// Decodes a journal record.
    pub fn from_json(j: &Json) -> (r: Option<Journal>)
        ensures
            r is Some <==> Journal::spec_ok(*j),
            r matches Some(jr) ==> jr.spec_matches(*j),
    {
        let issn_items = match field_arr(j, "ISSN") {
            Some(a) => a,
            None => {
                return None;
            },
        };
        let issn = match str_items(issn_items) {
            Some(v) => v,
            None => {
                return None;
            },
        };
        let type_items = match field_arr(j, "issn-type") {
            Some(a) => a,
            None => {
                return None;
            },
        };
        let issn_type = match str_items(type_items) {
            Some(v) => v,
            None => {
                return None;
            },
        };
        Some(
            Journal {
                publisher: field_str(j, "publisher"),
                title: field_str(j, "title"),
                issn,
                issn_type,
            },
        )
    }
}

// --- element lists ---

/// Whether every element of `items` is a work record.
pub open spec fn spec_works_ok(items: Seq<Json>) -> bool {
    forall|k: int| 0 <= k < items.len() ==> spec_work_ok(#[trigger] items[k])
}

/// How a decoded work list relates to the JSON array it came from.
pub open spec fn spec_works_match(ws: Seq<Work>, items: Seq<Json>) -> bool {
    &&& ws.len() == items.len()
    &&& forall|k: int| 0 <= k < items.len() ==> (#[trigger] ws[k]).spec_matches(items[k])
}

fn works_from_arr(items: &Vec<Json>) -> (r: Option<Vec<Work>>)
    ensures
        r is Some <==> spec_works_ok(items@),
        r matches Some(ws) ==> spec_works_match(ws@, items@),
{
    let mut out: Vec<Work> = Vec::new();
    let mut i: usize = 0;
    while i < items.len()
        invariant
            i <= items@.len(),
            out@.len() == i,
            forall|k: int| 0 <= k < i ==> spec_work_ok(#[trigger] items@[k]),
            forall|k: int| 0 <= k < i ==> (#[trigger] out@[k]).spec_matches(items@[k]),
        decreases items@.len() - i,
    {
        match Work::from_json(&items[i]) {
            Some(w) => out.push(w),
            None => {
                return None;
            },
        }
        i = i + 1;
    }
    Some(out)
}

/// Whether every element of `items` is a funder record.
pub open spec fn spec_funders_ok(items: Seq<Json>) -> bool {
    forall|k: int| 0 <= k < items.len() ==> Funder::spec_ok(#[trigger] items[k])
}

/// How a decoded funder list relates to the JSON array it came from.
pub open spec fn spec_funders_match(fs: Seq<Funder>, items: Seq<Json>) -> bool {
    &&& fs.len() == items.len()
    &&& forall|k: int| 0 <= k < items.len() ==> (#[trigger] fs[k]).spec_matches(items[k])
}

fn funders_from_arr(items: &Vec<Json>) -> (r: Option<Vec<Funder>>)
    ensures
        r is Some <==> spec_funders_ok(items@),
        r matches Some(fs) ==> spec_funders_match(fs@, items@),
{
    let mut out: Vec<Funder> = Vec::new();
    let mut i: usize = 0;
    while i < items.len()
        invariant
            i <= items@.len(),
            out@.len() == i,
            forall|k: int| 0 <= k < i ==> Funder::spec_ok(#[trigger] items@[k]),
            forall|k: int| 0 <= k < i ==> (#[trigger] out@[k]).spec_matches(items@[k]),
        decreases items@.len() - i,
    {
        match Funder::from_json(&items[i]) {
            Some(f) => out.push(f),
            None => {
                return None;
            },
        }
        i = i + 1;
    }
    Some(out)
}

/// Whether every element of `items` is a member record.
pub open spec fn spec_members_ok(items: Seq<Json>) -> bool {
    forall|k: int| 0 <= k < items.len() ==> Member::spec_ok(#[trigger] items[k])
}

/// How a decoded member list relates to the JSON array it came from.
pub open spec fn spec_members_match(ms: Seq<Member>, items: Seq<Json>) -> bool {
    &&& ms.len() == items.len()
    &&& forall|k: int| 0 <= k < items.len() ==> (#[trigger] ms[k]).spec_matches(items[k])
}

fn members_from_arr(items: &Vec<Json>) -> (r: Option<Vec<Member>>)
    ensures
        r is Some <==> spec_members_ok(items@),
        r matches Some(ms) ==> spec_members_match(ms@, items@),
{
    let mut out: Vec<Member> = Vec::new();
    let mut i: usize = 0;
    while i < items.len()
        invariant
            i <= items@.len(),
            out@.len() == i,
            forall|k: int| 0 <= k < i ==> Member::spec_ok(#[trigger] items@[k]),
            forall|k: int| 0 <= k < i ==> (#[trigger] out@[k]).spec_matches(items@[k]),
        decreases items@.len() - i,
    {
        match Member::from_json(&items[i]) {
            Some(m) => out.push(m),
            None => {
                return None;
            },
        }
        i = i + 1;
    }
    Some(out)
}

/// Whether every element of `items` is a journal record.
pub open spec fn spec_journals_ok(items: Seq<Json>) -> bool {
    forall|k: int| 0 <= k < items.len() ==> Journal::spec_ok(#[trigger] items[k])
}

/// How a decoded journal list relates to the JSON array it came from.
pub open spec fn spec_journals_match(js: Seq<Journal>, items: Seq<Json>) -> bool {
    &&& js.len() == items.len()
    &&& forall|k: int| 0 <= k < items.len() ==> (#[trigger] js[k]).spec_matches(items[k])
}

fn journals_from_arr(items: &Vec<Json>) -> (r: Option<Vec<Journal>>)
    ensures
        r is Some <==> spec_journals_ok(items@),
        r matches Some(js) ==> spec_journals_match(js@, items@),
{
    let mut out: Vec<Journal> = Vec::new();
    let mut i: usize = 0;
    while i < items.len()
        invariant
            i <= items@.len(),
            out@.len() == i,
            forall|k: int| 0 <= k < i ==> Journal::spec_ok(#[trigger] items@[k]),
            forall|k: int| 0 <= k < i ==> (#[trigger] out@[k]).spec_matches(items@[k]),
        decreases items@.len() - i,
    {
        match Journal::from_json(&items[i]) {
            Some(jr) => out.push(jr),
            None => {
                return None;
            },
        }
        i = i + 1;
    }
    Some(out)
}

/// Whether every element of `items` is a work type record.
pub open spec fn spec_types_ok(items: Seq<Json>) -> bool {
    forall|k: int| 0 <= k < items.len() ==> CrossrefType::spec_ok(#[trigger] items[k])
}

/// How a decoded type list relates to the JSON array it came from.
pub open spec fn spec_types_match(ts: Seq<CrossrefType>, items: Seq<Json>) -> bool {
    &&& ts.len() == items.len()
    &&& forall|k: int| 0 <= k < items.len() ==> (#[trigger] ts[k]).spec_matches(items[k])
}

fn types_from_arr(items: &Vec<Json>) -> (r: Option<Vec<CrossrefType>>)
    ensures
        r is Some <==> spec_types_ok(items@),
        r matches Some(ts) ==> spec_types_match(ts@, items@),
{
    let mut out: Vec<CrossrefType> = Vec::new();
    let mut i: usize = 0;
    while i < items.len()
        invariant
            i <= items@.len(),
            out@.len() == i,
            forall|k: int| 0 <= k < i ==> CrossrefType::spec_ok(#[trigger] items@[k]),
            forall|k: int| 0 <= k < i ==> (#[trigger] out@[k]).spec_matches(items@[k]),
        decreases items@.len() - i,
    {
        match CrossrefType::from_json(&items[i]) {
            Some(t) => out.push(t),
            None => {
                return None;
            },
        }
        i = i + 1;
    }
    Some(out)
}

/// Whether every element of `items` is a failure record.
pub open spec fn spec_failures_ok(items: Seq<Json>) -> bool {
    forall|k: int| 0 <= k < items.len() ==> Failure::spec_ok(#[trigger] items[k])
}

/// How a decoded failure list relates to the JSON array it came from.
pub open spec fn spec_failures_match(fs: Seq<Failure>, items: Seq<Json>) -> bool {
    &&& fs.len() == items.len()
    &&& forall|k: int| 0 <= k < items.len() ==> (#[trigger] fs[k]).spec_matches(items[k])
}

fn failures_from_arr(items: &Vec<Json>) -> (r: Option<Vec<Failure>>)
    ensures
        r is Some <==> spec_failures_ok(items@),
        r matches Some(fs) ==> spec_failures_match(fs@, items@),
{
    let mut out: Vec<Failure> = Vec::new();
    let mut i: usize = 0;
    while i < items.len()
        invariant
            i <= items@.len(),
            out@.len() == i,
            forall|k: int| 0 <= k < i ==> Failure::spec_ok(#[trigger] items@[k]),
            forall|k: int| 0 <= k < i ==> (#[trigger] out@[k]).spec_matches(items@[k]),
        decreases items@.len() - i,
    {
        match Failure::from_json(&items[i]) {
            Some(f) => out.push(f),
            None => {
                return None;
            },
        }
        i = i + 1;
    }
    Some(out)
}

// --- the shared list header ---

/// Whether a JSON value carries the header every list payload shares:
/// `total-results` is required, facets and the query echo must decode
/// when present.
pub open spec fn spec_list_header_ok(j: Json) -> bool {
    &&& spec_field_u64(j, "total-results"@) is Some
    &&& spec_facets_field_ok(j)
    &&& (match j.spec_get("query"@) {
        Some(v) => v is Null || QueryResponse::spec_ok(v),
        None => true,
    })
}

/// How the decoded header fields of a list payload relate to it.
pub open spec fn spec_list_header_match(
    facets: Seq<(String, FacetItem)>,
    total_results: u64,
    items_per_page: Option<u64>,
    query: Option<QueryResponse>,
    j: Json,
) -> bool {
    &&& spec_facets_field_match(facets, j)
    &&& Some(total_results) == spec_field_u64(j, "total-results"@)
    &&& items_per_page == spec_field_u64(j, "items-per-page"@)
    &&& (match j.spec_get("query"@) {
        Some(v) => if v is Null {
            query is None
        } else {
            query matches Some(q) && q.spec_matches(v)
        },
        None => query is None,
    })
}

fn list_header(j: &Json) -> (r: Option<(FacetMap, u64, Option<u64>, Option<QueryResponse>)>)
    ensures
        r is Some <==> spec_list_header_ok(*j),
        r matches Some(h) ==> spec_list_header_match(h.0@, h.1, h.2, h.3, *j),
{
    let facets = match facets_field(j) {
        Some(fm) => fm,
        None => {
            return None;
        },
    };
    let total_results = match field_u64(j, "total-results") {
        Some(n) => n,
        None => {
            return None;
        },
    };
    let query = match j.get("query") {
        Some(v) => match v {
            Json::Null => None,
            _ => match QueryResponse::from_json(v) {
                Some(q) => Some(q),
                None => {
                    return None;
                },
            },
        },
        None => None,
    };
    Some((facets, total_results, field_u64(j, "items-per-page"), query))
}

// --- list payloads ---

/// The payload of a `work-list` response.
#[derive(Debug, Clone)]
pub struct WorkList {
    /// facet counts, when the request asked for facets
    pub facets: FacetMap,
    /// the number of items that match the query
    pub total_results: u64,
    /// the number of items to expect in `items`, when reported
    pub items_per_page: Option<u64>,
    /// the echo of the request's query, when one was set
    pub query: Option<QueryResponse>,
    /// the works of this page
    pub items: Vec<Work>,
    /// the continuation token for deep paging, when one was requested
    pub next_cursor: Option<String>,
}

impl WorkList {
    /// Whether a JSON value is a work-list payload.
    pub open spec fn spec_ok(j: Json) -> bool {
        &&& spec_list_header_ok(j)
        &&& (match spec_field_arr(j, "items"@) {
            Some(items) => spec_works_ok(items),
            None => false,
        })
    }

    /// How a decoded work list relates to the JSON value it came from.
    pub open spec fn spec_matches(self, j: Json) -> bool {
        &&& spec_list_header_match(
            self.facets@,
            self.total_results,
            self.items_per_page,
            self.query,
            j,
        )
        &&& (match spec_field_arr(j, "items"@) {
            Some(items) => spec_works_match(self.items@, items),
            None => false,
        })
        &&& spec_opt_str(self.next_cursor) == spec_field_str(j, "next-cursor"@)
    }

    /// Decodes a work-list payload.
    pub fn from_json(j: &Json) -> (r: Option<WorkList>)
        ensures
            r is Some <==> WorkList::spec_ok(*j),
            r matches Some(wl) ==> wl.spec_matches(*j),
    {
        let header = match list_header(j) {
            Some(h) => h,
            None => {
                return None;
            },
        };
        let arr = match field_arr(j, "items") {
            Some(a) => a,
            None => {
                return None;
            },
        };
        let items = match works_from_arr(arr) {
            Some(ws) => ws,
            None => {
                return None;
            },
        };
        let (facets, total_results, items_per_page, query) = header;
        Some(
            WorkList {
                facets,
                total_results,
                items_per_page,
                query,
                items,
                next_cursor: field_str(j, "next-cursor"),
            },
        )
    }
}

/// The payload of a `funder-list` response.
#[derive(Debug, Clone)]
pub struct FunderList {
    /// facet counts, when the request asked for facets
    pub facets: FacetMap,
    /// the number of items that match the query
    pub total_results: u64,
    /// the number of items to expect in `items`, when reported
    pub items_per_page: Option<u64>,
    /// the echo of the request's query, when one was set
    pub query: Option<QueryResponse>,
    /// the funders of this page
    pub items: Vec<Funder>,
}

impl FunderList {
    /// Whether a JSON value is a funder-list payload.
    pub open spec fn spec_ok(j: Json) -> bool {
        &&& spec_list_header_ok(j)
        &&& (match spec_field_arr(j, "items"@) {
            Some(items) => spec_funders_ok(items),
            None => false,
        })
    }

    /// How a decoded funder list relates to the JSON value it came from.
    pub open spec fn spec_matches(self, j: Json) -> bool {
        &&& spec_list_header_match(
            self.facets@,
            self.total_results,
            self.items_per_page,
            self.query,
            j,
        )
        &&& (match spec_field_arr(j, "items"@) {
            Some(items) => spec_funders_match(self.items@, items),
            None => false,
        })
    }

    /// Decodes a funder-list payload.
    pub fn from_json(j: &Json) -> (r: Option<FunderList>)
        ensures
            r is Some <==> FunderList::spec_ok(*j),
            r matches Some(fl) ==> fl.spec_matches(*j),
    {
        let header = match list_header(j) {
            Some(h) => h,
            None => {
                return None;
            },
        };
        let arr = match field_arr(j, "items") {
            Some(a) => a,
            None => {
                return None;
            },
        };
        let items = match funders_from_arr(arr) {
            Some(fs) => fs,
            None => {
                return None;
            },
        };
        let (facets, total_results, items_per_page, query) = header;
        Some(FunderList { facets, total_results, items_per_page, query, items })
    }
}

/// The payload of a `member-list` response.
#[derive(Debug, Clone)]
pub struct MemberList {
    /// facet counts, when the request asked for facets
    pub facets: FacetMap,
    /// the number of items that match the query
    pub total_results: u64,
    /// the number of items to expect in `items`, when reported
    pub items_per_page: Option<u64>,
    /// the echo of the request's query, when one was set
    pub query: Option<QueryResponse>,
    /// the members of this page
    pub items: Vec<Member>,
}

impl MemberList {
    /// Whether a JSON value is a member-list payload.
    pub open spec fn spec_ok(j: Json) -> bool {
        &&& spec_list_header_ok(j)
        &&& (match spec_field_arr(j, "items"@) {
            Some(items) => spec_members_ok(items),
            None => false,
        })
    }

    /// How a decoded member list relates to the JSON value it came from.
    pub open spec fn spec_matches(self, j: Json) -> bool {
        &&& spec_list_header_match(
            self.facets@,
            self.total_results,
            self.items_per_page,
            self.query,
            j,
        )
        &&& (match spec_field_arr(j, "items"@) {
            Some(items) => spec_members_match(self.items@, items),
            None => false,
        })
    }

    /// Decodes a member-list payload.
    pub fn from_json(j: &Json) -> (r: Option<MemberList>)
        ensures
            r is Some <==> MemberList::spec_ok(*j),
            r matches Some(ml) ==> ml.spec_matches(*j),
    {
        let header = match list_header(j) {
            Some(h) => h,
            None => {
                return None;
            },
        };
        let arr = match field_arr(j, "items") {
            Some(a) => a,
            None => {
                return None;
            },
        };
        let items = match members_from_arr(arr) {
            Some(ms) => ms,
            None => {
                return None;
            },
        };
        let (facets, total_results, items_per_page, query) = header;
        Some(MemberList { facets, total_results, items_per_page, query, items })
    }
}

/// The payload of a `journal-list` response.
#[derive(Debug, Clone)]
pub struct JournalList {
    /// facet counts, when the request asked for facets
    pub facets: FacetMap,
    /// the number of items that match the query
    pub total_results: u64,
    /// the number of items to expect in `items`, when reported
    pub items_per_page: Option<u64>,
    /// the echo of the request's query, when one was set
    pub query: Option<QueryResponse>,
    /// the journals of this page
    pub items: Vec<Journal>,
}

impl JournalList {
    /// Whether a JSON value is a journal-list payload.
    pub open spec fn spec_ok(j: Json) -> bool {
        &&& spec_list_header_ok(j)
        &&& (match spec_field_arr(j, "items"@) {
            Some(items) => spec_journals_ok(items),
            None => false,
        })
    }

    /// How a decoded journal list relates to the JSON value it came
    /// from.
    pub open spec fn spec_matches(self, j: Json) -> bool {
        &&& spec_list_header_match(
            self.facets@,
            self.total_results,
            self.items_per_page,
            self.query,
            j,
        )
        &&& (match spec_field_arr(j, "items"@) {
            Some(items) => spec_journals_match(self.items@, items),
            None => false,
        })
    }

    /// Decodes a journal-list payload.
    pub fn from_json(j: &Json) -> (r: Option<JournalList>)
        ensures
            r is Some <==> JournalList::spec_ok(*j),
            r matches Some(jl) ==> jl.spec_matches(*j),
    {
        let header = match list_header(j) {
            Some(h) => h,
            None => {
                return None;
            },
        };
        let arr = match field_arr(j, "items") {
            Some(a) => a,
            None => {
                return None;
            },
        };
        let items = match journals_from_arr(arr) {
            Some(js) => js,
            None => {
                return None;
            },
        };
        let (facets, total_results, items_per_page, query) = header;
        Some(JournalList { facets, total_results, items_per_page, query, items })
    }
}

/// The payload of a `type-list` response.
#[derive(Debug, Clone)]
pub struct TypeList {
    /// facet counts, when the request asked for facets
    pub facets: FacetMap,
    /// the number of items that match the query
    pub total_results: u64,
    /// the number of items to expect in `items`, when reported
    pub items_per_page: Option<u64>,
    /// the echo of the request's query, when one was set
    pub query: Option<QueryResponse>,
    /// the work types of this page
    pub items: Vec<CrossrefType>,
}

impl TypeList {
    /// Whether a JSON value is a type-list payload.
    pub open spec fn spec_ok(j: Json) -> bool {
        &&& spec_list_header_ok(j)
        &&& (match spec_field_arr(j, "items"@) {
            Some(items) => spec_types_ok(items),
            None => false,
        })
    }

    /// How a decoded type list relates to the JSON value it came from.
    pub open spec fn spec_matches(self, j: Json) -> bool {
        &&& spec_list_header_match(
            self.facets@,
            self.total_results,
            self.items_per_page,
            self.query,
            j,
        )
        &&& (match spec_field_arr(j, "items"@) {
            Some(items) => spec_types_match(self.items@, items),
            None => false,
        })
    }

    /// Decodes a type-list payload.
    pub fn from_json(j: &Json) -> (r: Option<TypeList>)
        ensures
            r is Some <==> TypeList::spec_ok(*j),
            r matches Some(tl) ==> tl.spec_matches(*j),
    {
        let header = match list_header(j) {
            Some(h) => h,
            None => {
                return None;
            },
        };
        let arr = match field_arr(j, "items") {
            Some(a) => a,
            None => {
                return None;
            },
        };
        let items = match types_from_arr(arr) {
            Some(ts) => ts,
            None => {
                return None;
            },
        };
        let (facets, total_results, items_per_page, query) = header;
        Some(TypeList { facets, total_results, items_per_page, query, items })
    }
}

// --- the envelope ---

/// The different payloads of a response, one variant per discriminant.
#[derive(Debug, Clone)]
pub enum Message {
    /// the request failed on the server side
    ValidationFailure(Vec<Failure>),
    /// a route could not be found on the server side
    RouteNotFound,
    /// the agency for a specific work
    WorkAgency(WorkAgency),
    /// metadata for a DOI owner prefix
    Prefix(Prefix),
    /// a valid work type
    Type(CrossrefType),
    /// a list of valid work types
    TypeList(TypeList),
    /// a publication
    Work(Work),
    /// a list of publications
    WorkList(WorkList),
    /// a Crossref member
    Member(Member),
    /// a list of Crossref members
    MemberList(MemberList),
    /// a journal
    Journal(Journal),
    /// a list of journals
    JournalList(JournalList),
    /// a funder of the funder registry
    Funder(Funder),
    /// a list of funders
    FunderList(FunderList),
}

/// The `message` value of an envelope: absent and `null` both read as no
/// message.
pub open spec fn spec_message_field(j: Json) -> Option<Json> {
    match j.spec_get("message"@) {
        Some(v) => if v is Null {
            None
        } else {
            Some(v)
        },
        None => None,
    }
}

/// The shape the discriminant `mt` demands of a message payload.
pub open spec fn spec_message_ok(mt: MessageType, m: Json) -> bool {
    match mt {
        MessageType::WorkAgency => WorkAgency::spec_ok(m),
        MessageType::Funder => Funder::spec_ok(m),
        MessageType::Prefix => Prefix::spec_ok(m),
        MessageType::Member => Member::spec_ok(m),
        MessageType::Work => spec_work_ok(m),
        MessageType::WorkList => WorkList::spec_ok(m),
        MessageType::FunderList => FunderList::spec_ok(m),
        MessageType::Type => CrossrefType::spec_ok(m),
        MessageType::TypeList => TypeList::spec_ok(m),
        MessageType::MemberList => MemberList::spec_ok(m),
        MessageType::Journal => Journal::spec_ok(m),
        MessageType::JournalList => JournalList::spec_ok(m),
        MessageType::ValidationFailure => match m.spec_as_arr() {
            Some(items) => spec_failures_ok(items),
            None => false,
        },
        MessageType::RouteNotFound => true,
    }
}

/// How a decoded message relates to the payload it came from, under the
/// discriminant `mt`.
pub open spec fn spec_message_matches(msg: Message, mt: MessageType, m: Json) -> bool {
    match mt {
        MessageType::WorkAgency => msg matches Message::WorkAgency(x) && x.spec_matches(m),
        MessageType::Funder => msg matches Message::Funder(x) && x.spec_matches(m),
        MessageType::Prefix => msg matches Message::Prefix(x) && x.spec_matches(m),
        MessageType::Member => msg matches Message::Member(x) && x.spec_matches(m),
        MessageType::Work => msg matches Message::Work(x) && x.spec_matches(m),
        MessageType::WorkList => msg matches Message::WorkList(x) && x.spec_matches(m),
        MessageType::FunderList => msg matches Message::FunderList(x) && x.spec_matches(m),
        MessageType::Type => msg matches Message::Type(x) && x.spec_matches(m),
        MessageType::TypeList => msg matches Message::TypeList(x) && x.spec_matches(m),
        MessageType::MemberList => msg matches Message::MemberList(x) && x.spec_matches(m),
        MessageType::Journal => msg matches Message::Journal(x) && x.spec_matches(m),
        MessageType::JournalList => msg matches Message::JournalList(x) && x.spec_matches(m),
        MessageType::ValidationFailure => msg matches Message::ValidationFailure(fs) && (
        match m.spec_as_arr() {
            Some(items) => spec_failures_match(fs@, items),
            None => false,
        }),
        MessageType::RouteNotFound => msg is RouteNotFound,
    }
}

/// The whole Crossref response for any request.
#[derive(Debug, Clone)]
pub struct Response {
    /// the status of the request
    pub status: String,
    /// the type of message the response holds
    pub message_type: MessageType,
    /// the version of the service that created this message
    pub message_version: String,
    /// the actual message of the response
    pub message: Option<Message>,
}

/// Whether a JSON document is a well-formed envelope: `status` and a
/// known `message-type` are required, and a present message must have
/// the shape its discriminant demands.
pub open spec fn spec_envelope_ok(j: Json) -> bool {
    &&& spec_field_str(j, "status"@) is Some
    &&& (match spec_field_str(j, "message-type"@) {
        Some(s) => MessageType::spec_of_str(s) is Some,
        None => false,
    })
    &&& (match spec_message_field(j) {
        Some(m) => spec_message_ok(
            MessageType::spec_of_str(spec_field_str(j, "message-type"@).unwrap()).unwrap(),
            m,
        ),
        None => true,
    })
}

/// How a decoded response relates to the envelope document it came
/// from.
pub open spec fn spec_response_matches(resp: Response, j: Json) -> bool {
    &&& Some(resp.status@) == spec_field_str(j, "status"@)
    &&& (match spec_field_str(j, "message-type"@) {
        Some(s) => MessageType::spec_of_str(s) == Some(resp.message_type),
        None => false,
    })
    &&& resp.message_version@ == (match spec_field_str(j, "message-version"@) {
        Some(v) => v,
        None => "1.0.0"@,
    })
    &&& (match spec_message_field(j) {
        Some(m) => resp.message matches Some(msg) && spec_message_matches(
            msg,
            resp.message_type,
            m,
        ),
        None => resp.message is None,
    })
}

fn shape_error() -> (e: Error)
    ensures
        e.kind is Serde,
{
    Error::from_kind(
        ErrorKind::Serde {
            error: String::from_str("the message does not have the shape its message-type demands"),
        },
    )
}

fn decode_message(mt: MessageType, m: &Json) -> (r: Result<Message, Error>)
    ensures
        r is Ok <==> spec_message_ok(mt, *m),
        r matches Ok(msg) ==> spec_message_matches(msg, mt, *m),
        r matches Err(e) ==> e.kind is Serde,
{
    match mt {
        MessageType::WorkAgency => match WorkAgency::from_json(m) {
            Some(x) => Ok(Message::WorkAgency(x)),
            None => Err(shape_error()),
        },
        MessageType::Funder => match Funder::from_json(m) {
            Some(x) => Ok(Message::Funder(x)),
            None => Err(shape_error()),
        },
        MessageType::Prefix => match Prefix::from_json(m) {
            Some(x) => Ok(Message::Prefix(x)),
            None => Err(shape_error()),
        },
        MessageType::Member => match Member::from_json(m) {
            Some(x) => Ok(Message::Member(x)),
            None => Err(shape_error()),
        },
        MessageType::Work => match Work::from_json(m) {
            Some(x) => Ok(Message::Work(x)),
            None => Err(shape_error()),
        },
        MessageType::WorkList => match WorkList::from_json(m) {
            Some(x) => Ok(Message::WorkList(x)),
            None => Err(shape_error()),
        },
        MessageType::FunderList => match FunderList::from_json(m) {
            Some(x) => Ok(Message::FunderList(x)),
            None => Err(shape_error()),
        },
        MessageType::Type => match CrossrefType::from_json(m) {
            Some(x) => Ok(Message::Type(x)),
            None => Err(shape_error()),
        },
        MessageType::TypeList => match TypeList::from_json(m) {
            Some(x) => Ok(Message::TypeList(x)),
            None => Err(shape_error()),
        },
        MessageType::MemberList => match MemberList::from_json(m) {
            Some(x) => Ok(Message::MemberList(x)),
            None => Err(shape_error()),
        },
        MessageType::Journal => match Journal::from_json(m) {
            Some(x) => Ok(Message::Journal(x)),
            None => Err(shape_error()),
        },
        MessageType::JournalList => match JournalList::from_json(m) {
            Some(x) => Ok(Message::JournalList(x)),
            None => Err(shape_error()),
        },
        MessageType::ValidationFailure => match m.as_arr_value() {
            Some(items) => match failures_from_arr(items) {
                Some(fs) => Ok(Message::ValidationFailure(fs)),
                None => Err(shape_error()),
            },
            None => Err(shape_error()),
        },
        MessageType::RouteNotFound => Ok(Message::RouteNotFound),
    }
}

/// Decodes a parsed envelope document into a [`Response`]: reads the
/// shallow fields, then decodes the message into the shape the
/// discriminant selects. Fails exactly on documents that are not
/// well-formed envelopes.
pub fn decode_envelope(j: &Json) -> (r: Result<Response, Error>)
    ensures
        r is Ok <==> spec_envelope_ok(*j),
        r matches Ok(resp) ==> spec_response_matches(resp, *j),
        r matches Err(e) ==> e.kind is Serde,
{
    let status = match field_str(j, "status") {
        Some(s) => s,
        None => {
            return Err(
                Error::from_kind(
                    ErrorKind::Serde {
                        error: String::from_str("the envelope has no status string"),
                    },
                ),
            );
        },
    };
    let mt_str = match field_str(j, "message-type") {
        Some(s) => s,
        None => {
            return Err(
                Error::from_kind(
                    ErrorKind::Serde {
                        error: String::from_str("the envelope has no message-type string"),
                    },
                ),
            );
        },
    };
    let message_type = match MessageType::of_str(mt_str.as_str()) {
        Some(mt) => mt,
        None => {
            return Err(
                Error::from_kind(
                    ErrorKind::Serde {
                        error: String::from_str("the envelope carries an unknown message-type"),
                    },
                ),
            );
        },
    };
    let message_version = match field_str(j, "message-version") {
        Some(v) => v,
        None => default_msg_version(),
    };
    let message = match j.get("message") {
        Some(m) => match m {
            Json::Null => None,
            _ => match decode_message(message_type, m) {
                Ok(msg) => Some(msg),
                Err(e) => {
                    return Err(e);
                },
            },
        },
        None => None,
    };
    Ok(Response { status, message_type, message_version, message })
}

/// Decodes a raw response body: parses the JSON text and dispatches the
/// envelope. Fails with a `Serde` error when the body is not valid JSON
/// or not a well-formed envelope.
pub fn decode(body: &str) -> (r: Result<Response, Error>)
    ensures
        r is Ok <==> (json_of(body@) matches Some(j) && spec_envelope_ok(j)),
        r matches Ok(resp) ==> spec_response_matches(resp, json_of(body@).unwrap()),
        r matches Err(e) ==> e.kind is Serde,
{
    match parse_json(body) {
        Ok(j) => decode_envelope(&j),
        Err(error) => Err(Error::from_kind(ErrorKind::Serde { error })),
    }
}

/// Decodes a raw response body for a request against `resource`: a body
/// opening with the server's `Resource not found` sentinel short-circuits
/// to a `ResourceNotFound` error before any JSON parsing; every other
/// body goes through [`decode`].
pub fn decode_response(body: &str, resource: ResourceComponent) -> (r: Result<Response, Error>)
    ensures
        crate::strutil::spec_starts_with(body@, "Resource not found"@) ==> (r matches Err(e)
            && e.kind matches ErrorKind::ResourceNotFound { resource: rc } && rc == resource),
        !crate::strutil::spec_starts_with(body@, "Resource not found"@) ==> {
            &&& r is Ok <==> (json_of(body@) matches Some(j) && spec_envelope_ok(j))
            &&& (r matches Ok(resp) ==> spec_response_matches(resp, json_of(body@).unwrap()))
            &&& (r matches Err(e) ==> e.kind is Serde)
        },
{
    if crate::strutil::str_starts_with(body, "Resource not found") {
        Err(Error::from_kind(ErrorKind::ResourceNotFound { resource }))
    } else {
        decode(body)
    }
}

impl Response {
    /// Whether the message holds a work agency.
    pub fn is_work_ageny(&self) -> (r: bool)
        ensures
            r == (self.message matches Some(Message::WorkAgency(_))),
    {
        matches!(&self.message, Some(Message::WorkAgency(_)))
    }

    /// Whether the message holds a funder.
    pub fn is_funder(&self) -> (r: bool)
        ensures
            r == (self.message matches Some(Message::Funder(_))),
    {
        matches!(&self.message, Some(Message::Funder(_)))
    }

    /// Whether the message holds a prefix.
    pub fn is_prefix(&self) -> (r: bool)
        ensures
            r == (self.message matches Some(Message::Prefix(_))),
    {
        matches!(&self.message, Some(Message::Prefix(_)))
    }

    /// Whether the message holds a work.
    pub fn is_work(&self) -> (r: bool)
        ensures
            r == (self.message matches Some(Message::Work(_))),
    {
        matches!(&self.message, Some(Message::Work(_)))
    }

    /// Whether the message holds a work type.
    pub fn is_type(&self) -> (r: bool)
        ensures
            r == (self.message matches Some(Message::Type(_))),
    {
        matches!(&self.message, Some(Message::Type(_)))
    }

    /// Whether the message holds a journal.
    pub fn is_journal(&self) -> (r: bool)
        ensures
            r == (self.message matches Some(Message::Journal(_))),
    {
        matches!(&self.message, Some(Message::Journal(_)))
    }

    /// Whether the message holds a member.
    pub fn is_member(&self) -> (r: bool)
        ensures
            r == (self.message matches Some(Message::Member(_))),
    {
        matches!(&self.message, Some(Message::Member(_)))
    }

    /// Whether the message holds validation failures.
    pub fn is_validation_failure(&self) -> (r: bool)
        ensures
            r == (self.message matches Some(Message::ValidationFailure(_))),
    {
        matches!(&self.message, Some(Message::ValidationFailure(_)))
    }

    /// Whether the message holds a type list.
    pub fn is_type_list(&self) -> (r: bool)
        ensures
            r == (self.message matches Some(Message::TypeList(_))),
    {
        matches!(&self.message, Some(Message::TypeList(_)))
    }

    /// Whether the message holds a work list.
    pub fn is_work_list(&self) -> (r: bool)
        ensures
            r == (self.message matches Some(Message::WorkList(_))),
    {
        matches!(&self.message, Some(Message::WorkList(_)))
    }

    /// Whether the message holds a member list.
    pub fn is_member_list(&self) -> (r: bool)
        ensures
            r == (self.message matches Some(Message::MemberList(_))),
    {
        matches!(&self.message, Some(Message::MemberList(_)))
    }

    /// Whether the message holds a journal list.
    pub fn is_journal_list(&self) -> (r: bool)
        ensures
            r == (self.message matches Some(Message::JournalList(_))),
    {
        matches!(&self.message, Some(Message::JournalList(_)))
    }

    /// Whether the message holds a funder list.
    pub fn is_funder_list(&self) -> (r: bool)
        ensures
            r == (self.message matches Some(Message::FunderList(_))),
    {
        matches!(&self.message, Some(Message::FunderList(_)))
    }

    /// Whether the message says the route was not found.
    pub fn is_route_not_found(&self) -> (r: bool)
        ensures
            r == (self.message matches Some(Message::RouteNotFound)),
    {
        matches!(&self.message, Some(Message::RouteNotFound))
    }

    /// Takes the work list out of the response; any other message is an
    /// `UnexpectedItem`, a missing message a `MissingMessage`.
    pub fn into_work_list(self) -> (r: Result<WorkList, Error>)
        ensures
            match self.message {
                Some(Message::WorkList(wl)) => r == Ok::<WorkList, Error>(wl),
                Some(_) => r matches Err(e) && (e.kind matches ErrorKind::UnexpectedItem {
                    expected,
                    got,
                } && expected == MessageType::WorkList && got == self.message_type),
                None => r matches Err(e) && (e.kind matches ErrorKind::MissingMessage { expected }
                    && expected == MessageType::WorkList),
            },
    {
        match self.message {
            Some(Message::WorkList(wl)) => Ok(wl),
            Some(_) => Err(
                Error::from_kind(
                    ErrorKind::UnexpectedItem {
                        expected: MessageType::WorkList,
                        got: self.message_type,
                    },
                ),
            ),
            None => Err(
                Error::from_kind(ErrorKind::MissingMessage { expected: MessageType::WorkList }),
            ),
        }
    }

    /// Takes the single work out of the response.
    pub fn into_work(self) -> (r: Result<Work, Error>)
        ensures
            match self.message {
                Some(Message::Work(w)) => r == Ok::<Work, Error>(w),
                Some(_) => r matches Err(e) && (e.kind matches ErrorKind::UnexpectedItem {
                    expected,
                    got,
                } && expected == MessageType::Work && got == self.message_type),
                None => r matches Err(e) && (e.kind matches ErrorKind::MissingMessage { expected }
                    && expected == MessageType::Work),
            },
    {
        match self.message {
            Some(Message::Work(w)) => Ok(w),
            Some(_) => Err(
                Error::from_kind(
                    ErrorKind::UnexpectedItem {
                        expected: MessageType::Work,
                        got: self.message_type,
                    },
                ),
            ),
            None => Err(
                Error::from_kind(ErrorKind::MissingMessage { expected: MessageType::Work }),
            ),
        }
    }

    /// Takes the work agency out of the response.
    pub fn into_work_agency(self) -> (r: Result<WorkAgency, Error>)
        ensures
            match self.message {
                Some(Message::WorkAgency(a)) => r == Ok::<WorkAgency, Error>(a),
                Some(_) => r matches Err(e) && (e.kind matches ErrorKind::UnexpectedItem {
                    expected,
                    got,
                } && expected == MessageType::WorkAgency && got == self.message_type),
                None => r matches Err(e) && (e.kind matches ErrorKind::MissingMessage { expected }
                    && expected == MessageType::WorkAgency),
            },
    {
        match self.message {
            Some(Message::WorkAgency(a)) => Ok(a),
            Some(_) => Err(
                Error::from_kind(
                    ErrorKind::UnexpectedItem {
                        expected: MessageType::WorkAgency,
                        got: self.message_type,
                    },
                ),
            ),
            None => Err(
                Error::from_kind(ErrorKind::MissingMessage { expected: MessageType::WorkAgency }),
            ),
        }
    }

    /// Takes the single funder out of the response.
    pub fn into_funder(self) -> (r: Result<Funder, Error>)
        ensures
            match self.message {
                Some(Message::Funder(f)) => r == Ok::<Funder, Error>(f),
                Some(_) => r matches Err(e) && (e.kind matches ErrorKind::UnexpectedItem {
                    expected,
                    got,
                } && expected == MessageType::Funder && got == self.message_type),
                None => r matches Err(e) && (e.kind matches ErrorKind::MissingMessage { expected }
                    && expected == MessageType::Funder),
            },
    {
        match self.message {
            Some(Message::Funder(f)) => Ok(f),
            Some(_) => Err(
                Error::from_kind(
                    ErrorKind::UnexpectedItem {
                        expected: MessageType::Funder,
                        got: self.message_type,
                    },
                ),
            ),
            None => Err(
                Error::from_kind(ErrorKind::MissingMessage { expected: MessageType::Funder }),
            ),
        }
    }

    /// Takes the funder list out of the response.
    pub fn into_funder_list(self) -> (r: Result<FunderList, Error>)
        ensures
            match self.message {
                Some(Message::FunderList(fl)) => r == Ok::<FunderList, Error>(fl),
                Some(_) => r matches Err(e) && (e.kind matches ErrorKind::UnexpectedItem {
                    expected,
                    got,
                } && expected == MessageType::FunderList && got == self.message_type),
                None => r matches Err(e) && (e.kind matches ErrorKind::MissingMessage { expected }
                    && expected == MessageType::FunderList),
            },
    {
        match self.message {
            Some(Message::FunderList(fl)) => Ok(fl),
            Some(_) => Err(
                Error::from_kind(
                    ErrorKind::UnexpectedItem {
                        expected: MessageType::FunderList,
                        got: self.message_type,
                    },
                ),
            ),
            None => Err(
                Error::from_kind(ErrorKind::MissingMessage { expected: MessageType::FunderList }),
            ),
        }
    }

    /// Takes the single member out of the response.
    pub fn into_member(self) -> (r: Result<Member, Error>)
        ensures
            match self.message {
                Some(Message::Member(m)) => r == Ok::<Member, Error>(m),
                Some(_) => r matches Err(e) && (e.kind matches ErrorKind::UnexpectedItem {
                    expected,
                    got,
                } && expected == MessageType::Member && got == self.message_type),
                None => r matches Err(e) && (e.kind matches ErrorKind::MissingMessage { expected }
                    && expected == MessageType::Member),
            },
    {
        match self.message {
            Some(Message::Member(m)) => Ok(m),
            Some(_) => Err(
                Error::from_kind(
                    ErrorKind::UnexpectedItem {
                        expected: MessageType::Member,
                        got: self.message_type,
                    },
                ),
            ),
            None => Err(
                Error::from_kind(ErrorKind::MissingMessage { expected: MessageType::Member }),
            ),
        }
    }

    /// Takes the member list out of the response.
    pub fn into_member_list(self) -> (r: Result<MemberList, Error>)
        ensures
            match self.message {
                Some(Message::MemberList(ml)) => r == Ok::<MemberList, Error>(ml),
                Some(_) => r matches Err(e) && (e.kind matches ErrorKind::UnexpectedItem {
                    expected,
                    got,
                } && expected == MessageType::MemberList && got == self.message_type),
                None => r matches Err(e) && (e.kind matches ErrorKind::MissingMessage { expected }
                    && expected == MessageType::MemberList),
            },
    {
        match self.message {
            Some(Message::MemberList(ml)) => Ok(ml),
            Some(_) => Err(
                Error::from_kind(
                    ErrorKind::UnexpectedItem {
                        expected: MessageType::MemberList,
                        got: self.message_type,
                    },
                ),
            ),
            None => Err(
                Error::from_kind(ErrorKind::MissingMessage { expected: MessageType::MemberList }),
            ),
        }
    }

    /// Takes the prefix record out of the response.
    pub fn into_prefix(self) -> (r: Result<Prefix, Error>)
        ensures
            match self.message {
                Some(Message::Prefix(p)) => r == Ok::<Prefix, Error>(p),
                Some(_) => r matches Err(e) && (e.kind matches ErrorKind::UnexpectedItem {
                    expected,
                    got,
                } && expected == MessageType::Prefix && got == self.message_type),
                None => r matches Err(e) && (e.kind matches ErrorKind::MissingMessage { expected }
                    && expected == MessageType::Prefix),
            },
    {
        match self.message {
            Some(Message::Prefix(p)) => Ok(p),
            Some(_) => Err(
                Error::from_kind(
                    ErrorKind::UnexpectedItem {
                        expected: MessageType::Prefix,
                        got: self.message_type,
                    },
                ),
            ),
            None => Err(
                Error::from_kind(ErrorKind::MissingMessage { expected: MessageType::Prefix }),
            ),
        }
    }

    /// Takes the single work type out of the response.
    pub fn into_type(self) -> (r: Result<CrossrefType, Error>)
        ensures
            match self.message {
                Some(Message::Type(t)) => r == Ok::<CrossrefType, Error>(t),
                Some(_) => r matches Err(e) && (e.kind matches ErrorKind::UnexpectedItem {
                    expected,
                    got,
                } && expected == MessageType::Type && got == self.message_type),
                None => r matches Err(e) && (e.kind matches ErrorKind::MissingMessage { expected }
                    && expected == MessageType::Type),
            },
    {
        match self.message {
            Some(Message::Type(t)) => Ok(t),
            Some(_) => Err(
                Error::from_kind(
                    ErrorKind::UnexpectedItem {
                        expected: MessageType::Type,
                        got: self.message_type,
                    },
                ),
            ),
            None => Err(
                Error::from_kind(ErrorKind::MissingMessage { expected: MessageType::Type }),
            ),
        }
    }

    /// Takes the type list out of the response.
    pub fn into_type_list(self) -> (r: Result<TypeList, Error>)
        ensures
            match self.message {
                Some(Message::TypeList(tl)) => r == Ok::<TypeList, Error>(tl),
                Some(_) => r matches Err(e) && (e.kind matches ErrorKind::UnexpectedItem {
                    expected,
                    got,
                } && expected == MessageType::TypeList && got == self.message_type),
                None => r matches Err(e) && (e.kind matches ErrorKind::MissingMessage { expected }
                    && expected == MessageType::TypeList),
            },
    {
        match self.message {
            Some(Message::TypeList(tl)) => Ok(tl),
            Some(_) => Err(
                Error::from_kind(
                    ErrorKind::UnexpectedItem {
                        expected: MessageType::TypeList,
                        got: self.message_type,
                    },
                ),
            ),
            None => Err(
                Error::from_kind(ErrorKind::MissingMessage { expected: MessageType::TypeList }),
            ),
        }
    }

    /// Takes the single journal out of the response.
    pub fn into_journal(self) -> (r: Result<Journal, Error>)
        ensures
            match self.message {
                Some(Message::Journal(jr)) => r == Ok::<Journal, Error>(jr),
                Some(_) => r matches Err(e) && (e.kind matches ErrorKind::UnexpectedItem {
                    expected,
                    got,
                } && expected == MessageType::Journal && got == self.message_type),
                None => r matches Err(e) && (e.kind matches ErrorKind::MissingMessage { expected }
                    && expected == MessageType::Journal),
            },
    {
        match self.message {
            Some(Message::Journal(jr)) => Ok(jr),
            Some(_) => Err(
                Error::from_kind(
                    ErrorKind::UnexpectedItem {
                        expected: MessageType::Journal,
                        got: self.message_type,
                    },
                ),
            ),
            None => Err(
                Error::from_kind(ErrorKind::MissingMessage { expected: MessageType::Journal }),
            ),
        }
    }

    /// Takes the journal list out of the response.
    pub fn into_journal_list(self) -> (r: Result<JournalList, Error>)
        ensures
            match self.message {
                Some(Message::JournalList(jl)) => r == Ok::<JournalList, Error>(jl),
                Some(_) => r matches Err(e) && (e.kind matches ErrorKind::UnexpectedItem {
                    expected,
                    got,
                } && expected == MessageType::JournalList && got == self.message_type),
                None => r matches Err(e) && (e.kind matches ErrorKind::MissingMessage { expected }
                    && expected == MessageType::JournalList),
            },
    {
        match self.message {
            Some(Message::JournalList(jl)) => Ok(jl),
            Some(_) => Err(
                Error::from_kind(
                    ErrorKind::UnexpectedItem {
                        expected: MessageType::JournalList,
                        got: self.message_type,
                    },
                ),
            ),
            None => Err(
                Error::from_kind(
                    ErrorKind::MissingMessage { expected: MessageType::JournalList },
                ),
            ),
        }
    }
}

/// Law: the discriminant of a response determines a unique legal shape
/// for its message. Whatever payload a message was decoded from, the
/// variant it landed in is the one its discriminant selects.
pub proof fn lemma_discriminant_determines_shape(msg: Message, mt: MessageType, m: Json)
    requires
        spec_message_matches(msg, mt, m),
    ensures
        mt == MessageType::WorkAgency <==> msg is WorkAgency,
        mt == MessageType::Funder <==> msg is Funder,
        mt == MessageType::Prefix <==> msg is Prefix,
        mt == MessageType::Member <==> msg is Member,
        mt == MessageType::Work <==> msg is Work,
        mt == MessageType::WorkList <==> msg is WorkList,
        mt == MessageType::FunderList <==> msg is FunderList,
        mt == MessageType::Type <==> msg is Type,
        mt == MessageType::TypeList <==> msg is TypeList,
        mt == MessageType::MemberList <==> msg is MemberList,
        mt == MessageType::Journal <==> msg is Journal,
        mt == MessageType::JournalList <==> msg is JournalList,
        mt == MessageType::ValidationFailure <==> msg is ValidationFailure,
        mt == MessageType::RouteNotFound <==> msg is RouteNotFound,
{
}

} // verus!

