//! The work metadata model: the publication record and the helper types
//! nested inside it, with verified decoders from the untyped JSON tree.
//!
//! Fields the decoders read fall in three groups: required fields, whose
//! absence or wrong type fails the decode; optional scalars, read when
//! present with the right type; and optional structured fields, which may
//! be absent but must decode when present.

use vstd::prelude::*;

use crate::json::field_arr;
use crate::json::field_bool;
use crate::json::field_str;
use crate::json::field_u64;
use crate::json::spec_field_arr;
use crate::json::spec_field_bool;
use crate::json::spec_field_str;
use crate::json::spec_field_u64;
use crate::json::spec_opt_str;
use crate::json::spec_str_list_field;
use crate::json::spec_u64_grid;
use crate::json::str_list_field;
use crate::json::u64_grid;
use crate::json::Json;

verus! {

/// Dates in the Crossref API are nested arrays of numbers: an ordered
/// array of year, month, day of month, of which only the year is
/// required, nested once more to conform to citeproc JSON dates.
#[derive(Debug, Clone)]
pub struct DateParts(pub Vec<Vec<u64>>);

/// A calendar day as the API writes it, with `0` for an unspecified
/// month or day.
#[derive(Debug, Clone, Copy, PartialEq, Eq, Structural)]
pub struct Ymd {
    /// the year
    pub year: u64,
    /// the month, or `0` when the date carries none
    pub month: u64,
    /// the day of the month, or `0` when the date carries none
    pub day: u64,
}

/// The possible occurrences of dates: a single day, a range, or a list.
#[derive(Debug, Clone)]
pub enum DateField {
    /// only a single date vector
    Single(Ymd),
    /// two date vectors represent a range
    Range {
        /// the start of the range
        from: Ymd,
        /// the end of the range
        to: Ymd,
    },
    /// more than two date vectors are present
    Multi(Vec<Ymd>),
}

/// The day a row of date parts denotes: year, optional month, optional
/// day; empty or overlong rows denote nothing.
pub open spec fn spec_ymd_row(row: Seq<u64>) -> Option<Ymd> {
    if row.len() == 1 {
        Some(Ymd { year: row[0], month: 0, day: 0 })
    } else if row.len() == 2 {
        Some(Ymd { year: row[0], month: row[1], day: 0 })
    } else if row.len() == 3 {
        Some(Ymd { year: row[0], month: row[1], day: row[2] })
    } else {
        None
    }
}

/// Whether a nested date-parts array denotes a date field.
pub open spec fn spec_as_date_ok(rows: Seq<Seq<u64>>) -> bool {
    if rows.len() == 0 {
        false
    } else if rows.len() == 1 {
        spec_ymd_row(rows[0]) is Some
    } else if rows.len() == 2 {
        spec_ymd_row(rows[0]) is Some && spec_ymd_row(rows[1]) is Some
    } else {
        forall|k: int| 0 <= k < rows.len() ==> spec_ymd_row(#[trigger] rows[k]) is Some
    }
}

fn ymd_of_row(row: &Vec<u64>) -> (r: Option<Ymd>)
    ensures
        r == spec_ymd_row(row@),
{
    if row.len() == 1 {
        Some(Ymd { year: row[0], month: 0, day: 0 })
    } else if row.len() == 2 {
        Some(Ymd { year: row[0], month: row[1], day: 0 })
    } else if row.len() == 3 {
        Some(Ymd { year: row[0], month: row[1], day: row[2] })
    } else {
        None
    }
}

impl DateParts {
    /// Converts the nested array of numbers into the corresponding
    /// [`DateField`]: one row is a single date, two rows a range, more a
    /// list. Standalone years are allowed; an empty array is nothing.
    #[verifier::loop_isolation(false)]
    pub fn as_date(&self) -> (r: Option<DateField>)
        ensures
            r is Some <==> spec_as_date_ok(self.0.deep_view()),
            r matches Some(DateField::Single(d)) ==> self.0.deep_view().len() == 1 && spec_ymd_row(
                self.0.deep_view()[0],
            ) == Some(d),
            r matches Some(DateField::Range { from, to }) ==> self.0.deep_view().len() == 2
                && spec_ymd_row(self.0.deep_view()[0]) == Some(from) && spec_ymd_row(
                self.0.deep_view()[1],
            ) == Some(to),
            r matches Some(DateField::Multi(v)) ==> self.0.deep_view().len() > 2 && v@.len()
                == self.0.deep_view().len() && (forall|k: int|
                0 <= k < v@.len() ==> spec_ymd_row(self.0.deep_view()[k]) == Some(
                    #[trigger] v@[k],
                )),
    {
        proof {
            assert(self.0.deep_view().len() == self.0@.len());
            assert(forall|k: int|
                0 <= k < self.0@.len() ==> #[trigger] self.0.deep_view()[k] == self.0@[k]@);
        }
        if self.0.len() == 0 {
            None
        } else if self.0.len() == 1 {
            match ymd_of_row(&self.0[0]) {
                Some(d) => Some(DateField::Single(d)),
                None => None,
            }
        } else if self.0.len() == 2 {
            let from = match ymd_of_row(&self.0[0]) {
                Some(d) => d,
                None => {
                    return None;
                },
            };
            let to = match ymd_of_row(&self.0[1]) {
                Some(d) => d,
                None => {
                    return None;
                },
            };
            Some(DateField::Range { from, to })
        } else {
            let mut days: Vec<Ymd> = Vec::new();
            let mut i: usize = 0;
            while i < self.0.len()
                invariant
                    i <= self.0@.len(),
                    days@.len() == i,
                    forall|k: int|
                        0 <= k < i ==> spec_ymd_row(self.0@[k]@) == Some(#[trigger] days@[k]),
                decreases self.0@.len() - i,
            {
                match ymd_of_row(&self.0[i]) {
                    Some(d) => days.push(d),
                    None => {
                        proof {
                            assert(self.0.deep_view()[i as int] == self.0@[i as int]@);
                        }
                        return None;
                    },
                }
                i = i + 1;
            }
            proof {
                assert forall|k: int| 0 <= k < self.0.deep_view().len() implies spec_ymd_row(
                    #[trigger] self.0.deep_view()[k],
                ) is Some by {
                    assert(spec_ymd_row(self.0@[k]@) == Some(days@[k]));
                    assert(self.0.deep_view()[k] == self.0@[k]@);
                }
            }
            Some(DateField::Multi(days))
        }
    }
}

/// Whether a JSON value is a date record: a required `date-parts` grid,
/// a required `timestamp`, and a required `date-time` string.
pub open spec fn spec_date_ok(j: Json) -> bool {
    &&& (match spec_field_arr(j, "date-parts"@) {
        Some(rows) => spec_u64_grid(rows) is Some,
        None => false,
    })
    &&& spec_field_u64(j, "timestamp"@) is Some
    &&& spec_field_str(j, "date-time"@) is Some
}

/// Full date information for an item.
#[derive(Debug, Clone)]
pub struct Date {
    /// the nested array of year, month, day of month
    pub date_parts: DateParts,
    /// milliseconds since the UNIX epoch
    pub timestamp: u64,
    /// ISO 8601 date time
    pub date_time: String,
}

impl Date {
    /// How a decoded date record relates to the JSON value it came from.
    pub open spec fn spec_matches(self, j: Json) -> bool {
        &&& (match spec_field_arr(j, "date-parts"@) {
            Some(rows) => spec_u64_grid(rows) == Some(self.date_parts.0.deep_view()),
            None => false,
        })
        &&& Some(self.timestamp) == spec_field_u64(j, "timestamp"@)
        &&& Some(self.date_time@) == spec_field_str(j, "date-time"@)
    }

    /// Decodes a date record.
    pub fn from_json(j: &Json) -> (r: Option<Date>)
        ensures
            r is Some <==> spec_date_ok(*j),
            r matches Some(d) ==> d.spec_matches(*j),
    {
        let rows = match field_arr(j, "date-parts") {
            Some(a) => a,
            None => {
                return None;
            },
        };
        let grid = match u64_grid(rows) {
            Some(g) => g,
            None => {
                return None;
            },
        };
        let timestamp = match field_u64(j, "timestamp") {
            Some(t) => t,
            None => {
                return None;
            },
        };
        let date_time = match field_str(j, "date-time") {
            Some(s) => s,
            None => {
                return None;
            },
        };
        Some(Date { date_parts: DateParts(grid), timestamp, date_time })
    }

    /// Converts the date parts into the corresponding [`DateField`].
    pub fn as_date_field(&self) -> (r: Option<DateField>)
        ensures
            r is Some <==> spec_as_date_ok(self.date_parts.0.deep_view()),
            r matches Some(DateField::Single(d)) ==> self.date_parts.0.deep_view().len() == 1
                && spec_ymd_row(self.date_parts.0.deep_view()[0]) == Some(d),
            r matches Some(DateField::Range { from, to }) ==> self.date_parts.0.deep_view().len()
                == 2 && spec_ymd_row(self.date_parts.0.deep_view()[0]) == Some(from)
                && spec_ymd_row(self.date_parts.0.deep_view()[1]) == Some(to),
            r matches Some(DateField::Multi(v)) ==> self.date_parts.0.deep_view().len() > 2
                && v@.len() == self.date_parts.0.deep_view().len() && (forall|k: int|
                0 <= k < v@.len() ==> spec_ymd_row(self.date_parts.0.deep_view()[k]) == Some(
                    #[trigger] v@[k],
                )),
    {
        self.date_parts.as_date()
    }
}

/// Whether a JSON value is a partial date record: a required
/// `date-parts` grid.
pub open spec fn spec_partial_date_ok(j: Json) -> bool {
    match spec_field_arr(j, "date-parts"@) {
        Some(rows) => spec_u64_grid(rows) is Some,
        None => false,
    }
}

/// An incomplete date, consisting only of the nested date parts.
#[derive(Debug, Clone)]
pub struct PartialDate {
    /// the nested array of year, optional month, optional day
    pub date_parts: DateParts,
}

impl PartialDate {
    /// How a decoded partial date relates to the JSON value it came
    /// from.
    pub open spec fn spec_matches(self, j: Json) -> bool {
        match spec_field_arr(j, "date-parts"@) {
            Some(rows) => spec_u64_grid(rows) == Some(self.date_parts.0.deep_view()),
            None => false,
        }
    }

    /// Decodes a partial date record.
    pub fn from_json(j: &Json) -> (r: Option<PartialDate>)
        ensures
            r is Some <==> spec_partial_date_ok(*j),
            r matches Some(d) ==> d.spec_matches(*j),
    {
        let rows = match field_arr(j, "date-parts") {
            Some(a) => a,
            None => {
                return None;
            },
        };
        match u64_grid(rows) {
            Some(g) => Some(PartialDate { date_parts: DateParts(g) }),
            None => None,
        }
    }

    /// Converts the date parts into the corresponding [`DateField`].
    pub fn as_date_field(&self) -> (r: Option<DateField>)
        ensures
            r is Some <==> spec_as_date_ok(self.date_parts.0.deep_view()),
            r matches Some(DateField::Single(d)) ==> self.date_parts.0.deep_view().len() == 1
                && spec_ymd_row(self.date_parts.0.deep_view()[0]) == Some(d),
            r matches Some(DateField::Range { from, to }) ==> self.date_parts.0.deep_view().len()
                == 2 && spec_ymd_row(self.date_parts.0.deep_view()[0]) == Some(from)
                && spec_ymd_row(self.date_parts.0.deep_view()[1]) == Some(to),
            r matches Some(DateField::Multi(v)) ==> self.date_parts.0.deep_view().len() > 2
                && v@.len() == self.date_parts.0.deep_view().len() && (forall|k: int|
                0 <= k < v@.len() ==> spec_ymd_row(self.date_parts.0.deep_view()[k]) == Some(
                    #[trigger] v@[k],
                )),
    {
        self.date_parts.as_date()
    }
}

/// A contributor's affiliation.
#[derive(Debug, Clone)]
pub struct Affiliation {
    /// the affiliation's name
    pub name: String,
}

impl Affiliation {
    /// Whether a JSON value is an affiliation record.
    pub open spec fn spec_ok(j: Json) -> bool {
        spec_field_str(j, "name"@) is Some
    }

    /// How a decoded affiliation relates to the JSON value it came from.
    pub open spec fn spec_matches(self, j: Json) -> bool {
        Some(self.name@) == spec_field_str(j, "name"@)
    }

    /// Decodes an affiliation record.
    pub fn from_json(j: &Json) -> (r: Option<Affiliation>)
        ensures
            r is Some <==> Affiliation::spec_ok(*j),
            r matches Some(a) ==> a.spec_matches(*j),
    {
        match field_str(j, "name") {
            Some(name) => Some(Affiliation { name }),
            None => None,
        }
    }
}

/// A person that contributed to a work.
#[derive(Debug, Clone)]
pub struct Contributor {
    /// the family name
    pub family: String,
    /// the given name, when deposited
    pub given: Option<String>,
    /// URL-form ORCID identifier, when deposited
    pub orcid: Option<String>,
    /// the sequence position of the contributor, when deposited
    pub sequence: Option<String>,
    /// the contributor's affiliations; empty when none were deposited
    pub affiliation: Vec<Affiliation>,
}

/// Whether every element of `items` is an affiliation record.
pub open spec fn spec_affiliations_ok(items: Seq<Json>) -> bool {
    forall|k: int| 0 <= k < items.len() ==> Affiliation::spec_ok(#[trigger] items[k])
}

/// How a decoded affiliation list relates to the JSON array it came
/// from.
pub open spec fn spec_affiliations_match(affs: Seq<Affiliation>, items: Seq<Json>) -> bool {
    &&& affs.len() == items.len()
    &&& forall|k: int| 0 <= k < items.len() ==> (#[trigger] affs[k]).spec_matches(items[k])
}

fn affiliations_from_arr(items: &Vec<Json>) -> (r: Option<Vec<Affiliation>>)
    ensures
        r is Some <==> spec_affiliations_ok(items@),
        r matches Some(affs) ==> spec_affiliations_match(affs@, items@),
{
    let mut out: Vec<Affiliation> = Vec::new();
    let mut i: usize = 0;
    while i < items.len()
        invariant
            i <= items@.len(),
            out@.len() == i,
            forall|k: int| 0 <= k < i ==> Affiliation::spec_ok(#[trigger] items@[k]),
            forall|k: int| 0 <= k < i ==> (#[trigger] out@[k]).spec_matches(items@[k]),
        decreases items@.len() - i,
    {
        match Affiliation::from_json(&items[i]) {
            Some(a) => out.push(a),
            None => {
                return None;
            },
        }
        i = i + 1;
    }
    Some(out)
}

/// Whether a JSON value is a contributor record: the family name is
/// required, and the affiliation list must decode when present.
pub open spec fn spec_contributor_ok(j: Json) -> bool {
    &&& spec_field_str(j, "family"@) is Some
    &&& (match j.spec_get("affiliation"@) {
        Some(v) => match v.spec_as_arr() {
            Some(items) => spec_affiliations_ok(items),
            None => false,
        },
        None => true,
    })
}

impl Contributor {
    /// How a decoded contributor relates to the JSON value it came from.
    pub open spec fn spec_matches(self, j: Json) -> bool {
        &&& Some(self.family@) == spec_field_str(j, "family"@)
        &&& spec_opt_str(self.given) == spec_field_str(j, "given"@)
        &&& spec_opt_str(self.orcid) == spec_field_str(j, "ORCID"@)
        &&& spec_opt_str(self.sequence) == spec_field_str(j, "sequence"@)
        &&& (match j.spec_get("affiliation"@) {
            Some(v) => match v.spec_as_arr() {
                Some(items) => spec_affiliations_match(self.affiliation@, items),
                None => false,
            },
            None => self.affiliation@.len() == 0,
        })
    }

    /// Decodes a contributor record.
    pub fn from_json(j: &Json) -> (r: Option<Contributor>)
        ensures
            r is Some <==> spec_contributor_ok(*j),
            r matches Some(c) ==> c.spec_matches(*j),
    {
        let family = match field_str(j, "family") {
            Some(s) => s,
            None => {
                return None;
            },
        };
        let affiliation = match j.get("affiliation") {
            Some(v) => match v.as_arr_value() {
                Some(items) => match affiliations_from_arr(items) {
                    Some(affs) => affs,
                    None => {
                        return None;
                    },
                },
                None => {
                    return None;
                },
            },
            None => Vec::new(),
        };
        Some(
            Contributor {
                family,
                given: field_str(j, "given"),
                orcid: field_str(j, "ORCID"),
                sequence: field_str(j, "sequence"),
                affiliation,
            },
        )
    }
}

/// Whether every element of `items` is a contributor record.
pub open spec fn spec_contributors_ok(items: Seq<Json>) -> bool {
    forall|k: int| 0 <= k < items.len() ==> spec_contributor_ok(#[trigger] items[k])
}

/// How a decoded contributor list relates to the JSON array it came
/// from.
pub open spec fn spec_contributors_match(cs: Seq<Contributor>, items: Seq<Json>) -> bool {
    &&& cs.len() == items.len()
    &&& forall|k: int| 0 <= k < items.len() ==> (#[trigger] cs[k]).spec_matches(items[k])
}

fn contributors_from_arr(items: &Vec<Json>) -> (r: Option<Vec<Contributor>>)
    ensures
        r is Some <==> spec_contributors_ok(items@),
        r matches Some(cs) ==> spec_contributors_match(cs@, items@),
{
    let mut out: Vec<Contributor> = Vec::new();
    let mut i: usize = 0;
    while i < items.len()
        invariant
            i <= items@.len(),
            out@.len() == i,
            forall|k: int| 0 <= k < i ==> spec_contributor_ok(#[trigger] items@[k]),
            forall|k: int| 0 <= k < i ==> (#[trigger] out@[k]).spec_matches(items@[k]),
        decreases items@.len() - i,
    {
        match Contributor::from_json(&items[i]) {
            Some(c) => out.push(c),
            None => {
                return None;
            },
        }
        i = i + 1;
    }
    Some(out)
}

/// The contributors under `key`: absent reads as the empty list, present
/// must be an array of contributor records.
pub open spec fn spec_contributor_field_ok(j: Json, key: Seq<char>) -> bool {
    match j.spec_get(key) {
        Some(v) => match v.spec_as_arr() {
            Some(items) => spec_contributors_ok(items),
            None => false,
        },
        None => true,
    }
}

/// How a decoded contributor field relates to the object it came from.
pub open spec fn spec_contributor_field_match(cs: Seq<Contributor>, j: Json, key: Seq<char>) -> bool {
    match j.spec_get(key) {
        Some(v) => match v.spec_as_arr() {
            Some(items) => spec_contributors_match(cs, items),
            None => false,
        },
        None => cs.len() == 0,
    }
}

fn contributor_field(j: &Json, key: &str) -> (r: Option<Vec<Contributor>>)
    ensures
        r is Some <==> spec_contributor_field_ok(*j, key@),
        r matches Some(cs) ==> spec_contributor_field_match(cs@, *j, key@),
{
    match j.get(key) {
        Some(v) => match v.as_arr_value() {
            Some(items) => contributors_from_arr(items),
            None => None,
        },
        None => Some(Vec::new()),
    }
}

/// Information on the domains that support Crossmark for a work.
#[derive(Debug, Clone)]
pub struct ContentDomain {
    /// the domain names
    pub domain: Vec<String>,
    /// whether Crossmark usage is restricted to the domains
    pub crossmark_restriction: bool,
}

impl ContentDomain {
    /// Whether a JSON value is a content-domain record.
    pub open spec fn spec_ok(j: Json) -> bool {
        &&& (match spec_field_arr(j, "domain"@) {
            Some(items) => crate::json::spec_str_items(items) is Some,
            None => false,
        })
        &&& spec_field_bool(j, "crossmark-restriction"@) is Some
    }

    /// How a decoded content domain relates to the JSON value it came
    /// from.
    pub open spec fn spec_matches(self, j: Json) -> bool {
        &&& (match spec_field_arr(j, "domain"@) {
            Some(items) => crate::json::spec_str_items(items) == Some(self.domain.deep_view()),
            None => false,
        })
        &&& Some(self.crossmark_restriction) == spec_field_bool(j, "crossmark-restriction"@)
    }

    /// Decodes a content-domain record.
    pub fn from_json(j: &Json) -> (r: Option<ContentDomain>)
        ensures
            r is Some <==> ContentDomain::spec_ok(*j),
            r matches Some(c) ==> c.spec_matches(*j),
    {
        let items = match field_arr(j, "domain") {
            Some(a) => a,
            None => {
                return None;
            },
        };
        let domain = match crate::json::str_items(items) {
            Some(d) => d,
            None => {
                return None;
            },
        };
        match field_bool(j, "crossmark-restriction") {
            Some(b) => Some(ContentDomain { domain, crossmark_restriction: b }),
            None => None,
        }
    }
}

// --- further model vocabulary carried by full work records ---

/// A funding body deposited alongside a work.
#[derive(Debug, Clone)]
pub struct Funder {
    /// the funding body's primary name
    pub name: String,
    /// Open Funder Registry DOI identifying the funding body
    pub doi: Option<String>,
    /// award numbers for awards given by the funding body
    pub award: Vec<String>,
    /// either `crossref` or `publisher`
    pub doi_asserted_by: Option<String>,
}

impl Funder {
    /// Whether a JSON value is a work funder entry: the name is
    /// required, the award list must decode when present.
    pub open spec fn spec_ok(j: Json) -> bool {
        &&& spec_field_str(j, "name"@) is Some
        &&& spec_str_list_field(j, "award"@) is Some
    }

    /// How a decoded funder entry relates to the JSON value it came
    /// from.
    pub open spec fn spec_matches(self, j: Json) -> bool {
        &&& Some(self.name@) == spec_field_str(j, "name"@)
        &&& spec_opt_str(self.doi) == spec_field_str(j, "DOI"@)
        &&& Some(self.award.deep_view()) == spec_str_list_field(j, "award"@)
        &&& spec_opt_str(self.doi_asserted_by) == spec_field_str(j, "doi-asserted-by"@)
    }

    /// Decodes a work funder entry.
    pub fn from_json(j: &Json) -> (r: Option<Funder>)
        ensures
            r is Some <==> Funder::spec_ok(*j),
            r matches Some(f) ==> f.spec_matches(*j),
    {
        let name = match field_str(j, "name") {
            Some(s) => s,
            None => {
                return None;
            },
        };
        let award = match str_list_field(j, "award") {
            Some(v) => v,
            None => {
                return None;
            },
        };
        Some(
            Funder {
                name,
                doi: field_str(j, "DOI"),
                award,
                doi_asserted_by: field_str(j, "doi-asserted-by"),
            },
        )
    }
}

/// Whether every element of `items` is a work funder entry.
pub open spec fn spec_work_funders_ok(items: Seq<Json>) -> bool {
    forall|k: int| 0 <= k < items.len() ==> Funder::spec_ok(#[trigger] items[k])
}

/// How a decoded funder entry list relates to the JSON array it came
/// from.
pub open spec fn spec_work_funders_match(fs: Seq<Funder>, items: Seq<Json>) -> bool {
    &&& fs.len() == items.len()
    &&& forall|k: int| 0 <= k < items.len() ==> (#[trigger] fs[k]).spec_matches(items[k])
}

fn work_funders_from_arr(items: &Vec<Json>) -> (r: Option<Vec<Funder>>)
    ensures
        r is Some <==> spec_work_funders_ok(items@),
        r matches Some(fs) ==> spec_work_funders_match(fs@, items@),
{
    let mut out: Vec<Funder> = Vec::new();
    let mut i: usize = 0;
    while i < items.len()
        invariant
            i <= items@.len(),
            out@.len() == i,
            forall|k: int| 0 <= k < i ==> Funder::spec_ok(#[trigger] items@[k]),
            forall|k: int| 0 <= k < i ==> (#[trigger] out@[k]).spec_matches(items@[k]),
        decreases items@.len() - i,
    {
        match Funder::from_json(&items[i]) {
            Some(f) => out.push(f),
            None => {
                return None;
            },
        }
        i = i + 1;
    }
    Some(out)
}

/// The funder entries under `key`: absent reads as the empty list,
/// present must be an array of funder entries.
pub open spec fn spec_work_funder_field_ok(j: Json, key: Seq<char>) -> bool {
    match j.spec_get(key) {
        Some(v) => match v.spec_as_arr() {
            Some(items) => spec_work_funders_ok(items),
            None => false,
        },
        None => true,
    }
}

/// How a decoded funder entry field relates to the object it came from.
pub open spec fn spec_work_funder_field_match(fs: Seq<Funder>, j: Json, key: Seq<char>) -> bool {
    match j.spec_get(key) {
        Some(v) => match v.spec_as_arr() {
            Some(items) => spec_work_funders_match(fs, items),
            None => false,
        },
        None => fs.len() == 0,
    }
}

fn work_funder_field(j: &Json, key: &str) -> (r: Option<Vec<Funder>>)
    ensures
        r is Some <==> spec_work_funder_field_ok(*j, key@),
        r matches Some(fs) ==> spec_work_funder_field_match(fs@, *j, key@),
{
    match j.get(key) {
        Some(v) => match v.as_arr_value() {
            Some(items) => work_funders_from_arr(items),
            None => None,
        },
        None => Some(Vec::new()),
    }
}

/// A clinical trial attached to a work.
#[derive(Debug, Clone)]
pub struct ClinicalTrialNumber {
    /// identifier of the clinical trial
    pub clinical_trial_number: String,
    /// DOI of the registry that assigned the trial number
    pub registry: String,
    /// one of `preResults`, `results` or `postResults`
    pub type_: Option<String>,
}

impl ClinicalTrialNumber {
    /// Whether a JSON value is a clinical trial entry: the number and
    /// its registry are required.
    pub open spec fn spec_ok(j: Json) -> bool {
        &&& spec_field_str(j, "clinical-trial-number"@) is Some
        &&& spec_field_str(j, "registry"@) is Some
    }

    /// How a decoded clinical trial entry relates to the JSON value it
    /// came from.
    pub open spec fn spec_matches(self, j: Json) -> bool {
        &&& Some(self.clinical_trial_number@) == spec_field_str(j, "clinical-trial-number"@)
        &&& Some(self.registry@) == spec_field_str(j, "registry"@)
        &&& spec_opt_str(self.type_) == spec_field_str(j, "type"@)
    }

    /// Decodes a clinical trial entry.
    pub fn from_json(j: &Json) -> (r: Option<ClinicalTrialNumber>)
        ensures
            r is Some <==> ClinicalTrialNumber::spec_ok(*j),
            r matches Some(c) ==> c.spec_matches(*j),
    {
        let clinical_trial_number = match field_str(j, "clinical-trial-number") {
            Some(s) => s,
            None => {
                return None;
            },
        };
        match field_str(j, "registry") {
            Some(registry) => Some(
                ClinicalTrialNumber { clinical_trial_number, registry, type_: field_str(j, "type") },
            ),
            None => None,
        }
    }
}

/// Whether every element of `items` is a clinical trial entry.
pub open spec fn spec_trial_numbers_ok(items: Seq<Json>) -> bool {
    forall|k: int| 0 <= k < items.len() ==> ClinicalTrialNumber::spec_ok(#[trigger] items[k])
}

/// How a decoded clinical trial list relates to the JSON array it came
/// from.
pub open spec fn spec_trial_numbers_match(cs: Seq<ClinicalTrialNumber>, items: Seq<Json>) -> bool {
    &&& cs.len() == items.len()
    &&& forall|k: int| 0 <= k < items.len() ==> (#[trigger] cs[k]).spec_matches(items[k])
}

fn trial_numbers_from_arr(items: &Vec<Json>) -> (r: Option<Vec<ClinicalTrialNumber>>)
    ensures
        r is Some <==> spec_trial_numbers_ok(items@),
        r matches Some(cs) ==> spec_trial_numbers_match(cs@, items@),
{
    let mut out: Vec<ClinicalTrialNumber> = Vec::new();
    let mut i: usize = 0;
    while i < items.len()
        invariant
            i <= items@.len(),
            out@.len() == i,
            forall|k: int| 0 <= k < i ==> ClinicalTrialNumber::spec_ok(#[trigger] items@[k]),
            forall|k: int| 0 <= k < i ==> (#[trigger] out@[k]).spec_matches(items@[k]),
        decreases items@.len() - i,
    {
        match ClinicalTrialNumber::from_json(&items[i]) {
            Some(c) => out.push(c),
            None => {
                return None;
            },
        }
        i = i + 1;
    }
    Some(out)
}

/// The clinical trials under `key`: absent reads as the empty list,
/// present must be an array of clinical trial entries.
pub open spec fn spec_trial_number_field_ok(j: Json, key: Seq<char>) -> bool {
    match j.spec_get(key) {
        Some(v) => match v.spec_as_arr() {
            Some(items) => spec_trial_numbers_ok(items),
            None => false,
        },
        None => true,
    }
}

/// How a decoded clinical trial field relates to the object it came
/// from.
pub open spec fn spec_trial_number_field_match(
    cs: Seq<ClinicalTrialNumber>,
    j: Json,
    key: Seq<char>,
) -> bool {
    match j.spec_get(key) {
        Some(v) => match v.spec_as_arr() {
            Some(items) => spec_trial_numbers_match(cs, items),
            None => false,
        },
        None => cs.len() == 0,
    }
}

fn trial_number_field(j: &Json, key: &str) -> (r: Option<Vec<ClinicalTrialNumber>>)
    ensures
        r is Some <==> spec_trial_number_field_ok(*j, key@),
        r matches Some(cs) ==> spec_trial_number_field_match(cs@, *j, key@),
{
    match j.get(key) {
        Some(v) => match v.as_arr_value() {
            Some(items) => trial_numbers_from_arr(items),
            None => None,
        },
        None => Some(Vec::new()),
    }
}

/// An editorial update to a work, such as a correction or retraction.
#[derive(Debug, Clone)]
pub struct Update {
    /// date on which the update was published
    pub updated: PartialDate,
    /// DOI of the updated work
    pub doi: String,
    /// the type of update
    pub type_: String,
    /// a display-friendly label for the update type
    pub label: Option<String>,
}

/// A custom Crossmark assertion on a work.
#[derive(Debug, Clone)]
pub struct Assertion {
    /// the assertion's name
    pub name: String,
    /// the asserted value
    pub value: String,
    /// a link describing the assertion
    pub url: Option<String>,
    /// an explanation of the assertion
    pub explanation: Option<String>,
    /// a display-friendly label
    pub label: Option<String>,
    /// the display order of the assertion
    pub order: Option<i32>,
    /// the group the assertion belongs to
    pub group: Option<AssertionGroup>,
}

/// The group a Crossmark assertion belongs to.
#[derive(Debug, Clone)]
pub struct AssertionGroup {
    /// the group's name
    pub name: String,
    /// a display-friendly label
    pub label: Option<String>,
}

/// A journal issue a work appeared in.
#[derive(Debug, Clone)]
pub struct Issue {
    /// date on which the issue was published in print
    pub published_print: Option<PartialDate>,
    /// date on which the issue was published online
    pub published_online: Option<PartialDate>,
    /// issue number
    pub issue: Option<String>,
}

/// A license attached to a work.
#[derive(Debug, Clone)]
pub struct License {
    /// either `vor` (version of record), `am` (accepted manuscript) or
    /// `unspecified`
    pub content_version: String,
    /// days between the publication date and the license's start date
    pub delay_in_days: i32,
    /// date on which this license begins to take effect
    pub start: PartialDate,
    /// link to a web page describing this license
    pub url: String,
}

/// A full-text download location of a work.
#[derive(Debug, Clone)]
pub struct ResourceLink {
    /// either `text-mining`, `similarity-checking` or `unspecified`
    pub intended_application: String,
    /// either `vor`, `am` or `unspecified`
    pub content_version: String,
    /// direct link to the full-text download location
    pub url: String,
    /// content type (or MIME type) of the full-text object
    pub content_type: Option<String>,
}

/// A reference made by a work.
#[derive(Debug, Clone)]
pub struct Reference {
    /// the reference's key
    pub key: String,
    /// the referenced DOI, when known
    pub doi: Option<String>,
    /// one of `crossref` or `publisher`
    pub doi_asserted_by: Option<String>,
    /// the issue of the referenced item
    pub issue: Option<String>,
    /// the first page of the referenced item
    pub first_page: Option<String>,
    /// the volume of the referenced item
    pub volume: Option<String>,
    /// the year of the referenced item
    pub year: Option<String>,
    /// the author of the referenced item
    pub author: Option<String>,
    /// the unstructured citation text
    pub unstructured: Option<String>,
    /// the journal title of the referenced item
    pub journal_title: Option<String>,
    /// the article title of the referenced item
    pub article_title: Option<String>,
}

/// An ISSN with its type information.
#[derive(Debug, Clone)]
pub struct ISSN {
    /// the ISSN value
    pub value: String,
    /// one of `eissn`, `pissn` or `lissn`
    pub type_: String,
}

/// A relation a work asserts to another work.
#[derive(Debug, Clone)]
pub struct Relation {
    /// the identifier type of the related object
    pub id_type: Option<String>,
    /// the identifier of the related object
    pub id: Option<String>,
    /// who asserted the relation
    pub asserted_by: Option<String>,
}

/// Peer review metadata of a work.
#[derive(Debug, Clone)]
pub struct Review {
    /// the running number of the review
    pub running_number: Option<String>,
    /// the revision round of the review
    pub revision_round: Option<String>,
    /// one of `pre-publication` or `post-publication`
    pub stage: Option<String>,
    /// the recommendation given, such as accept or minor-revision
    pub recommendation: Option<String>,
    /// the kind of report, such as referee-report or author-comment
    pub type_: Option<String>,
    /// a competing interest statement
    pub competing_interest_statement: Option<String>,
    /// the language of the review
    pub language: Option<String>,
}

// --- the work record itself ---

/// The date under `key`: absent is fine, present must be a date record.
pub open spec fn spec_date_field_ok(j: Json, key: Seq<char>) -> bool {
    match j.spec_get(key) {
        Some(v) => spec_date_ok(v),
        None => true,
    }
}

/// How a decoded optional date relates to the object it came from.
pub open spec fn spec_date_field_match(d: Option<Date>, j: Json, key: Seq<char>) -> bool {
    match j.spec_get(key) {
        Some(v) => d matches Some(dd) && dd.spec_matches(v),
        None => d is None,
    }
}

fn date_field(j: &Json, key: &str) -> (r: Option<Option<Date>>)
    ensures
        r is Some <==> spec_date_field_ok(*j, key@),
        r matches Some(d) ==> spec_date_field_match(d, *j, key@),
{
    match j.get(key) {
        Some(v) => match Date::from_json(v) {
            Some(d) => Some(Some(d)),
            None => None,
        },
        None => Some(None),
    }
}

/// The partial date under `key`: absent is fine, present must decode.
pub open spec fn spec_partial_date_field_ok(j: Json, key: Seq<char>) -> bool {
    match j.spec_get(key) {
        Some(v) => spec_partial_date_ok(v),
        None => true,
    }
}

/// How a decoded optional partial date relates to the object it came
/// from.
pub open spec fn spec_partial_date_field_match(
    d: Option<PartialDate>,
    j: Json,
    key: Seq<char>,
) -> bool {
    match j.spec_get(key) {
        Some(v) => d matches Some(dd) && dd.spec_matches(v),
        None => d is None,
    }
}

fn partial_date_field(j: &Json, key: &str) -> (r: Option<Option<PartialDate>>)
    ensures
        r is Some <==> spec_partial_date_field_ok(*j, key@),
        r matches Some(d) ==> spec_partial_date_field_match(d, *j, key@),
{
    match j.get(key) {
        Some(v) => match PartialDate::from_json(v) {
            Some(d) => Some(Some(d)),
            None => None,
        },
        None => Some(None),
    }
}

/// Whether a JSON value is a work record: the identifying and counting
/// fields are required, the dates and contributor lists must decode when
/// present.
pub open spec fn spec_work_ok(j: Json) -> bool {
    &&& spec_field_str(j, "publisher"@) is Some
    &&& (match spec_field_arr(j, "title"@) {
        Some(items) => crate::json::spec_str_items(items) is Some,
        None => false,
    })
    &&& spec_field_u64(j, "references-count"@) is Some
    &&& spec_field_u64(j, "is-referenced-by-count"@) is Some
    &&& spec_field_str(j, "source"@) is Some
    &&& spec_field_str(j, "prefix"@) is Some
    &&& spec_field_str(j, "DOI"@) is Some
    &&& spec_field_str(j, "URL"@) is Some
    &&& spec_field_str(j, "member"@) is Some
    &&& spec_field_str(j, "type"@) is Some
    &&& (match j.spec_get("indexed"@) {
        Some(v) => spec_date_ok(v),
        None => false,
    })
    &&& (match j.spec_get("issued"@) {
        Some(v) => spec_partial_date_ok(v),
        None => false,
    })
    &&& spec_date_field_ok(j, "created"@)
    &&& spec_date_field_ok(j, "deposited"@)
    &&& spec_partial_date_field_ok(j, "posted"@)
    &&& spec_partial_date_field_ok(j, "accepted"@)
    &&& spec_partial_date_field_ok(j, "published-print"@)
    &&& spec_partial_date_field_ok(j, "published-online"@)
    &&& spec_str_list_field(j, "subtitle"@) is Some
    &&& spec_str_list_field(j, "container-title"@) is Some
    &&& spec_str_list_field(j, "short-container-title"@) is Some
    &&& spec_str_list_field(j, "original-title"@) is Some
    &&& spec_str_list_field(j, "short-title"@) is Some
    &&& spec_str_list_field(j, "subject"@) is Some
    &&& spec_str_list_field(j, "ISSN"@) is Some
    &&& spec_str_list_field(j, "archive"@) is Some
    &&& spec_str_list_field(j, "alternative-id"@) is Some
    &&& spec_contributor_field_ok(j, "author"@)
    &&& spec_contributor_field_ok(j, "editor"@)
    &&& spec_contributor_field_ok(j, "chair"@)
    &&& spec_contributor_field_ok(j, "translator"@)
    &&& spec_work_funder_field_ok(j, "funder"@)
    &&& spec_trial_number_field_ok(j, "clinical-trial-number"@)
    &&& (match j.spec_get("content-domain"@) {
        Some(v) => ContentDomain::spec_ok(v),
        None => true,
    })
}

/// The main return type of the Crossref API: a publication record.
///
/// The fields below carry what the library reads of a work; fields of
/// the wire format that are not listed are ignored by the decoder.
#[derive(Debug, Clone)]
pub struct Work {
    /// name of the work's publisher
    pub publisher: String,
    /// work titles, including translated titles
    pub title: Vec<String>,
    /// work titles in the work's original publication language
    pub original_title: Vec<String>,
    /// the language of this work
    pub language: Option<String>,
    /// short or abbreviated work titles
    pub short_title: Vec<String>,
    /// count of outbound references deposited with Crossref
    pub references_count: u64,
    /// count of inbound references deposited with Crossref
    pub is_referenced_by_count: u64,
    /// currently always `Crossref`
    pub source: String,
    /// DOI prefix identifier
    pub prefix: String,
    /// DOI of the work
    pub doi: String,
    /// URL form of the work's DOI
    pub url: String,
    /// member identifier of the form
    pub member: String,
    /// enumeration, one of the type ids from the `/types` resource
    pub type_: String,
    /// the day this work entry was created
    pub created: Option<Date>,
    /// date on which the work metadata was most recently updated
    pub deposited: Option<Date>,
    /// date on which the work metadata was most recently indexed
    pub indexed: Date,
    /// earliest of `published-print` and `published-online`
    pub issued: PartialDate,
    /// date on which posted content was made available online
    pub posted: Option<PartialDate>,
    /// date on which a work was accepted
    pub accepted: Option<PartialDate>,
    /// work subtitles, including original language and translated
    pub subtitle: Vec<String>,
    /// full titles of the containing work
    pub container_title: Vec<String>,
    /// abbreviated titles of the containing work
    pub short_container_title: Vec<String>,
    /// group title for posted content
    pub group_title: Option<String>,
    /// issue number of an article's journal
    pub issue: Option<String>,
    /// volume number of an article's journal
    pub volume: Option<String>,
    /// page numbers of an article within its journal
    pub page: Option<String>,
    /// the number of the corresponding article
    pub article_number: Option<String>,
    /// date on which the work was published in print
    pub published_print: Option<PartialDate>,
    /// date on which the work was published online
    pub published_online: Option<PartialDate>,
    /// subject category names
    pub subject: Vec<String>,
    /// ISSNs of the containing journal
    pub issn: Vec<String>,
    /// names of archive partners
    pub archive: Vec<String>,
    /// other identifiers provided by the depositing member
    pub alternative_id: Vec<String>,
    /// link to an update policy covering Crossmark updates
    pub update_policy: Option<String>,
    /// the work's abstract, as a JSON string or a JATS XML snippet
    pub abstract_: Option<String>,
    /// the funding bodies deposited alongside the work
    pub funder: Vec<Funder>,
    /// the clinical trials attached to the work
    pub clinical_trial_number: Vec<ClinicalTrialNumber>,
    /// the authors of the work
    pub author: Vec<Contributor>,
    /// the editors of the work
    pub editor: Vec<Contributor>,
    /// the chairs of the work
    pub chair: Vec<Contributor>,
    /// the translators of the work
    pub translator: Vec<Contributor>,
    /// domains that support Crossmark for this work
    pub content_domain: Option<ContentDomain>,
}

impl Work {
    /// How a decoded work relates to the JSON value it came from.
    pub open spec fn spec_matches(self, j: Json) -> bool {
        &&& Some(self.publisher@) == spec_field_str(j, "publisher"@)
        &&& (match spec_field_arr(j, "title"@) {
            Some(items) => crate::json::spec_str_items(items) == Some(self.title.deep_view()),
            None => false,
        })
        &&& Some(self.references_count) == spec_field_u64(j, "references-count"@)
        &&& Some(self.is_referenced_by_count) == spec_field_u64(j, "is-referenced-by-count"@)
        &&& Some(self.source@) == spec_field_str(j, "source"@)
        &&& Some(self.prefix@) == spec_field_str(j, "prefix"@)
        &&& Some(self.doi@) == spec_field_str(j, "DOI"@)
        &&& Some(self.url@) == spec_field_str(j, "URL"@)
        &&& Some(self.member@) == spec_field_str(j, "member"@)
        &&& Some(self.type_@) == spec_field_str(j, "type"@)
        &&& (match j.spec_get("indexed"@) {
            Some(v) => self.indexed.spec_matches(v),
            None => false,
        })
        &&& (match j.spec_get("issued"@) {
            Some(v) => self.issued.spec_matches(v),
            None => false,
        })
        &&& spec_date_field_match(self.created, j, "created"@)
        &&& spec_date_field_match(self.deposited, j, "deposited"@)
        &&& spec_partial_date_field_match(self.posted, j, "posted"@)
        &&& spec_partial_date_field_match(self.accepted, j, "accepted"@)
        &&& spec_partial_date_field_match(self.published_print, j, "published-print"@)
        &&& spec_partial_date_field_match(self.published_online, j, "published-online"@)
        &&& Some(self.subtitle.deep_view()) == spec_str_list_field(j, "subtitle"@)
        &&& Some(self.container_title.deep_view()) == spec_str_list_field(j, "container-title"@)
        &&& Some(self.short_container_title.deep_view()) == spec_str_list_field(
            j,
            "short-container-title"@,
        )
        &&& Some(self.original_title.deep_view()) == spec_str_list_field(j, "original-title"@)
        &&& Some(self.short_title.deep_view()) == spec_str_list_field(j, "short-title"@)
        &&& Some(self.subject.deep_view()) == spec_str_list_field(j, "subject"@)
        &&& Some(self.issn.deep_view()) == spec_str_list_field(j, "ISSN"@)
        &&& Some(self.archive.deep_view()) == spec_str_list_field(j, "archive"@)
        &&& Some(self.alternative_id.deep_view()) == spec_str_list_field(j, "alternative-id"@)
        &&& spec_opt_str(self.language) == spec_field_str(j, "language"@)
        &&& spec_opt_str(self.group_title) == spec_field_str(j, "group-title"@)
        &&& spec_opt_str(self.issue) == spec_field_str(j, "issue"@)
        &&& spec_opt_str(self.volume) == spec_field_str(j, "volume"@)
        &&& spec_opt_str(self.page) == spec_field_str(j, "page"@)
        &&& spec_opt_str(self.article_number) == spec_field_str(j, "article-number"@)
        &&& spec_opt_str(self.update_policy) == spec_field_str(j, "update-policy"@)
        &&& spec_contributor_field_match(self.author@, j, "author"@)
        &&& spec_contributor_field_match(self.editor@, j, "editor"@)
        &&& spec_contributor_field_match(self.chair@, j, "chair"@)
        &&& spec_contributor_field_match(self.translator@, j, "translator"@)
        &&& spec_opt_str(self.abstract_) == spec_field_str(j, "abstract"@)
        &&& spec_work_funder_field_match(self.funder@, j, "funder"@)
        &&& spec_trial_number_field_match(self.clinical_trial_number@, j, "clinical-trial-number"@)
        &&& (match j.spec_get("content-domain"@) {
            Some(v) => self.content_domain matches Some(c) && c.spec_matches(v),
            None => self.content_domain is None,
        })
    }

    /// Decodes a work record.
    pub fn from_json(j: &Json) -> (r: Option<Work>)
        ensures
            r is Some <==> spec_work_ok(*j),
            r matches Some(w) ==> w.spec_matches(*j),
    {
        let publisher = match field_str(j, "publisher") {
            Some(s) => s,
            None => {
                return None;
            },
        };
        let title_items = match field_arr(j, "title") {
            Some(a) => a,
            None => {
                return None;
            },
        };
        let title = match crate::json::str_items(title_items) {
            Some(t) => t,
            None => {
                return None;
            },
        };
        let references_count = match field_u64(j, "references-count") {
            Some(n) => n,
            None => {
                return None;
            },
        };
        let is_referenced_by_count = match field_u64(j, "is-referenced-by-count") {
            Some(n) => n,
            None => {
                return None;
            },
        };
        let source = match field_str(j, "source") {
            Some(s) => s,
            None => {
                return None;
            },
        };
        let prefix = match field_str(j, "prefix") {
            Some(s) => s,
            None => {
                return None;
            },
        };
        let doi = match field_str(j, "DOI") {
            Some(s) => s,
            None => {
                return None;
            },
        };
        let url = match field_str(j, "URL") {
            Some(s) => s,
            None => {
                return None;
            },
        };
        let member = match field_str(j, "member") {
            Some(s) => s,
            None => {
                return None;
            },
        };
        let type_ = match field_str(j, "type") {
            Some(s) => s,
            None => {
                return None;
            },
        };
        let indexed = match j.get("indexed") {
            Some(v) => match Date::from_json(v) {
                Some(d) => d,
                None => {
                    return None;
                },
            },
            None => {
                return None;
            },
        };
        let issued = match j.get("issued") {
            Some(v) => match PartialDate::from_json(v) {
                Some(d) => d,
                None => {
                    return None;
                },
            },
            None => {
                return None;
            },
        };
        let created = match date_field(j, "created") {
            Some(d) => d,
            None => {
                return None;
            },
        };
        let deposited = match date_field(j, "deposited") {
            Some(d) => d,
            None => {
                return None;
            },
        };
        let posted = match partial_date_field(j, "posted") {
            Some(d) => d,
            None => {
                return None;
            },
        };
        let accepted = match partial_date_field(j, "accepted") {
            Some(d) => d,
            None => {
                return None;
            },
        };
        let published_print = match partial_date_field(j, "published-print") {
            Some(d) => d,
            None => {
                return None;
            },
        };
        let published_online = match partial_date_field(j, "published-online") {
            Some(d) => d,
            None => {
                return None;
            },
        };
        let subtitle = match str_list_field(j, "subtitle") {
            Some(v) => v,
            None => {
                return None;
            },
        };
        let container_title = match str_list_field(j, "container-title") {
            Some(v) => v,
            None => {
                return None;
            },
        };
        let short_container_title = match str_list_field(j, "short-container-title") {
            Some(v) => v,
            None => {
                return None;
            },
        };
        let original_title = match str_list_field(j, "original-title") {
            Some(v) => v,
            None => {
                return None;
            },
        };
        let short_title = match str_list_field(j, "short-title") {
            Some(v) => v,
            None => {
                return None;
            },
        };
        let subject = match str_list_field(j, "subject") {
            Some(v) => v,
            None => {
                return None;
            },
        };
        let issn = match str_list_field(j, "ISSN") {
            Some(v) => v,
            None => {
                return None;
            },
        };
        let archive = match str_list_field(j, "archive") {
            Some(v) => v,
            None => {
                return None;
            },
        };
        let alternative_id = match str_list_field(j, "alternative-id") {
            Some(v) => v,
            None => {
                return None;
            },
        };
        let author = match contributor_field(j, "author") {
            Some(v) => v,
            None => {
                return None;
            },
        };
        let editor = match contributor_field(j, "editor") {
            Some(v) => v,
            None => {
                return None;
            },
        };
        let chair = match contributor_field(j, "chair") {
            Some(v) => v,
            None => {
                return None;
            },
        };
        let translator = match contributor_field(j, "translator") {
            Some(v) => v,
            None => {
                return None;
            },
        };
        let funder = match work_funder_field(j, "funder") {
            Some(v) => v,
            None => {
                return None;
            },
        };
        let clinical_trial_number = match trial_number_field(j, "clinical-trial-number") {
            Some(v) => v,
            None => {
                return None;
            },
        };
        let content_domain = match j.get("content-domain") {
            Some(v) => match ContentDomain::from_json(v) {
                Some(c) => Some(c),
                None => {
                    return None;
                },
            },
            None => None,
        };
        Some(
            Work {
                publisher,
                title,
                original_title,
                language: field_str(j, "language"),
                short_title,
                references_count,
                is_referenced_by_count,
                source,
                prefix,
                doi,
                url,
                member,
                type_,
                created,
                deposited,
                indexed,
                issued,
                posted,
                accepted,
                subtitle,
                container_title,
                short_container_title,
                group_title: field_str(j, "group-title"),
                issue: field_str(j, "issue"),
                volume: field_str(j, "volume"),
                page: field_str(j, "page"),
                article_number: field_str(j, "article-number"),
                published_print,
                published_online,
                subject,
                issn,
                archive,
                alternative_id,
                update_policy: field_str(j, "update-policy"),
                abstract_: field_str(j, "abstract"),
                funder,
                clinical_trial_number,
                author,
                editor,
                chair,
                translator,
                content_domain,
            },
        )
    }
}

} // verus!
