//! Types to construct a specific query: the shared parameter vocabulary
//! (sort, order, visibility, result windows), the resource components, and
//! the capability traits every encodable option implements.

use vstd::prelude::*;

use crate::error::Error;
use crate::query::facet::FacetCount;
use crate::query::funders::Funders;
use crate::query::journals::Journals;
use crate::query::member::Members;
use crate::query::prefixes::Prefixes;
use crate::query::types::Types;
use crate::query::works::Works;
use crate::strutil::join_with;
use crate::strutil::push_char;
use crate::strutil::seq_join;
use crate::strutil::spec_dec;
use crate::strutil::spec_dec2;
use crate::strutil::spec_dec4;
use crate::strutil::append_dec;
use crate::strutil::append_dec2;
use crate::strutil::append_dec4;

pub mod facet;
pub mod funders;
pub mod journals;
pub mod member;
pub mod prefixes;
pub mod types;
pub mod works;

verus! {

/// A calendar date carried by a date-valued filter, encoded on the wire as
/// `YYYY-MM-DD`.
#[derive(Debug, Clone, Copy, PartialEq, Eq, Structural)]
pub struct FilterDate {
    /// the year, zero-padded to four digits
    pub year: u16,
    /// the month, `1` to `12`, zero-padded to two digits
    pub month: u8,
    /// the day of the month, `1` to `31`, zero-padded to two digits
    pub day: u8,
}

impl FilterDate {
    /// The `YYYY-MM-DD` rendering of this date.
    pub open spec fn spec_ymd(self) -> Seq<char> {
        spec_dec4(self.year as int) + seq!['-'] + spec_dec2(self.month as int) + seq!['-']
            + spec_dec2(self.day as int)
    }

    /// Creates a date; months and days outside the calendar range are
    /// refused.
    pub fn new(year: u16, month: u8, day: u8) -> (r: Option<FilterDate>)
        ensures
            r matches Some(d) ==> d == (FilterDate { year, month, day }),
            r is Some <==> 1 <= month <= 12 && 1 <= day <= 31,
    {
        if 1 <= month && month <= 12 && 1 <= day && day <= 31 {
            Some(FilterDate { year, month, day })
        } else {
            None
        }
    }

    /// Renders the date as `YYYY-MM-DD`.
    pub fn ymd_string(&self) -> (r: String)
        ensures
            r@ == self.spec_ymd(),
    {
        let mut s = String::new();
        append_dec4(&mut s, self.year as u64);
        push_char(&mut s, '-');
        append_dec2(&mut s, self.month as u64);
        push_char(&mut s, '-');
        append_dec2(&mut s, self.day as u64);
        proof {
            assert(s@ =~= self.spec_ymd());
        }
        s
    }
}

/// Represents the visibility of a Crossref item.
#[derive(Debug, Clone, Copy, PartialEq, Eq, Structural)]
pub enum Visibility {
    Open,
    Limited,
    Closed,
}

impl Visibility {
    /// The wire string of this visibility.
    pub open spec fn spec_str(self) -> Seq<char> {
        match self {
            Visibility::Open => "open"@,
            Visibility::Limited => "limited"@,
            Visibility::Closed => "closed"@,
        }
    }

    /// The wire string of this visibility.
    pub fn as_str(&self) -> (r: &str)
        ensures
            r@ == self.spec_str(),
    {
        match self {
            Visibility::Open => "open",
            Visibility::Limited => "limited",
            Visibility::Closed => "closed",
        }
    }

    /// The visibility whose wire string is `s`, if any.
    pub open spec fn spec_of_str(s: Seq<char>) -> Option<Visibility> {
        if s == "open"@ {
            Some(Visibility::Open)
        } else if s == "limited"@ {
            Some(Visibility::Limited)
        } else if s == "closed"@ {
            Some(Visibility::Closed)
        } else {
            None
        }
    }

    /// Parses a wire visibility string.
    pub fn of_str(s: &str) -> (r: Option<Visibility>)
        ensures
            r == Visibility::spec_of_str(s@),
    {
        if crate::strutil::str_equal(s, "open") {
            Some(Visibility::Open)
        } else if crate::strutil::str_equal(s, "limited") {
            Some(Visibility::Limited)
        } else if crate::strutil::str_equal(s, "closed") {
            Some(Visibility::Closed)
        } else {
            None
        }
    }
}

/// Determines how results should be sorted.
#[derive(Debug, Clone, Copy, PartialEq, Eq, Structural)]
pub enum Order {
    /// list results in ascending order
    Asc,
    /// list results in descending order
    Desc,
}

impl Order {
    /// The wire string of this order.
    pub open spec fn spec_str(self) -> Seq<char> {
        match self {
            Order::Asc => "asc"@,
            Order::Desc => "desc"@,
        }
    }

    /// The wire string of this order.
    pub fn as_str(&self) -> (r: &str)
        ensures
            r@ == self.spec_str(),
    {
        match self {
            Order::Asc => "asc",
            Order::Desc => "desc",
        }
    }
}

impl CrossrefQueryParam for Order {
    open spec fn spec_param(&self) -> Seq<char> {
        "order="@ + self.spec_str()
    }

    fn param(&self) -> (r: String) {
        let mut s = String::from_str("order=");
        s.append(self.as_str());
        s
    }
}

/// The sort key applied to a list response.
#[derive(Debug, Clone, Copy, PartialEq, Eq, Structural)]
pub enum Sort {
    /// sort by relevance score
    Score,
    /// sort by date of most recent change to metadata
    Updated,
    /// sort by time of most recent deposit
    Deposited,
    /// sort by time of most recent index
    Indexed,
    /// sort by publication date
    Published,
    /// sort by print publication date
    PublishedPrint,
    /// sort by online publication date
    PublishedOnline,
    /// sort by issued date (earliest known publication date)
    Issued,
    /// sort by number of times this DOI is referenced by other Crossref DOIs
    IsReferencedByCount,
    /// sort by number of references included in the references section
    ReferenceCount,
}

impl Sort {
    /// The wire string of this sort key.
    pub open spec fn spec_str(self) -> Seq<char> {
        match self {
            Sort::Score => "score"@,
            Sort::Updated => "updated"@,
            Sort::Deposited => "deposited"@,
            Sort::Indexed => "indexed"@,
            Sort::Published => "published"@,
            Sort::PublishedPrint => "published-print"@,
            Sort::PublishedOnline => "published-online"@,
            Sort::Issued => "issued"@,
            Sort::IsReferencedByCount => "is-reference-by-count"@,
            Sort::ReferenceCount => "reference-count"@,
        }
    }

    /// The wire string of this sort key.
    pub fn as_str(&self) -> (r: &str)
        ensures
            r@ == self.spec_str(),
    {
        match self {
            Sort::Score => "score",
            Sort::Updated => "updated",
            Sort::Deposited => "deposited",
            Sort::Indexed => "indexed",
            Sort::Published => "published",
            Sort::PublishedPrint => "published-print",
            Sort::PublishedOnline => "published-online",
            Sort::Issued => "issued",
            Sort::IsReferencedByCount => "is-reference-by-count",
            Sort::ReferenceCount => "reference-count",
        }
    }
}

impl CrossrefQueryParam for Sort {
    open spec fn spec_param(&self) -> Seq<char> {
        "sort="@ + self.spec_str()
    }

    fn param(&self) -> (r: String) {
        let mut s = String::from_str("sort=");
        s.append(self.as_str());
        s
    }
}

/// Tells Crossref how many items shall be returned, or where to start.
#[derive(Debug, Clone, Copy, PartialEq, Eq, Structural)]
pub enum ResultControl {
    /// limits the returned items per page
    Rows(usize),
    /// sets an offset where Crossref begins to retrieve items
    Offset(usize),
    /// limits returned items per page, starting at the offset
    RowsOffset { rows: usize, offset: usize },
    /// requests a random sample of the given size
    Sample(usize),
}

impl CrossrefQueryParam for ResultControl {
    open spec fn spec_param(&self) -> Seq<char> {
        match *self {
            ResultControl::Rows(r) => "rows="@ + spec_dec(r as int),
            ResultControl::Offset(o) => "offset="@ + spec_dec(o as int),
            ResultControl::RowsOffset { rows, offset } => "rows="@ + spec_dec(rows as int)
                + "&offset="@ + spec_dec(offset as int),
            ResultControl::Sample(n) => "sample="@ + spec_dec(n as int),
        }
    }

    fn param(&self) -> (r: String) {
        match self {
            ResultControl::Rows(n) => {
                let mut s = String::from_str("rows=");
                append_dec(&mut s, *n as u64);
                proof {
                    assert(s@ =~= self.spec_param());
                }
                s
            },
            ResultControl::Offset(n) => {
                let mut s = String::from_str("offset=");
                append_dec(&mut s, *n as u64);
                proof {
                    assert(s@ =~= self.spec_param());
                }
                s
            },
            ResultControl::RowsOffset { rows, offset } => {
                let mut s = String::from_str("rows=");
                append_dec(&mut s, *rows as u64);
                s.append("&offset=");
                append_dec(&mut s, *offset as u64);
                proof {
                    assert(s@ =~= self.spec_param());
                }
                s
            },
            ResultControl::Sample(n) => {
                let mut s = String::from_str("sample=");
                append_dec(&mut s, *n as u64);
                proof {
                    assert(s@ =~= self.spec_param());
                }
                s
            },
        }
    }
}

/// Major resource components supported by the Crossref API.
#[derive(Debug, Clone, Copy, PartialEq, Eq, Structural)]
pub enum Component {
    /// the `/works` collection
    Works,
    /// the `/funders` collection
    Funders,
    /// the `/prefixes` collection
    Prefixes,
    /// the `/members` collection
    Members,
    /// the `/types` collection
    Types,
    /// the `/journals` collection
    Journals,
}

impl Component {
    /// The path segment of this component.
    pub open spec fn spec_str(self) -> Seq<char> {
        match self {
            Component::Works => "works"@,
            Component::Funders => "funders"@,
            Component::Prefixes => "prefixes"@,
            Component::Members => "members"@,
            Component::Types => "types"@,
            Component::Journals => "journals"@,
        }
    }

    /// The base route of this component: a slash followed by its path
    /// segment.
    pub open spec fn spec_route(self) -> Seq<char> {
        seq!['/'] + self.spec_str()
    }

    /// The path segment of this component.
    pub fn as_str(&self) -> (r: &str)
        ensures
            r@ == self.spec_str(),
    {
        match self {
            Component::Works => "works",
            Component::Funders => "funders",
            Component::Prefixes => "prefixes",
            Component::Members => "members",
            Component::Types => "types",
            Component::Journals => "journals",
        }
    }

    /// The base route of this component.
    pub fn route_string(&self) -> (r: String)
        ensures
            r@ == self.spec_route(),
    {
        let mut s = String::from_str("/");
        s.append(self.as_str());
        proof {
            reveal_strlit("/");
            assert(s@ =~= self.spec_route());
        }
        s
    }
}

impl CrossrefRoute for Component {
    open spec fn spec_route(&self) -> Seq<char> {
        Component::spec_route(*self)
    }

    fn route(&self) -> (r: Result<String, Error>) {
        Ok(self.route_string())
    }
}

/// A resource component together with the request targeting it, used when
/// an error must name the resource that was queried.
#[derive(Debug, Clone)]
pub enum ResourceComponent {
    /// a request against `/works`
    Works(Works),
    /// a request against `/funders`
    Funders(Funders),
    /// a request against `/prefixes`
    Prefixes(Prefixes),
    /// a request against `/members`
    Members(Members),
    /// a request against `/types`
    Types(Types),
    /// a request against `/journals`
    Journals(Journals),
}

impl ResourceComponent {
    /// The component this request belongs to, at spec level.
    pub open spec fn spec_primary_component(self) -> Component {
        match self {
            ResourceComponent::Works(_) => Component::Works,
            ResourceComponent::Funders(_) => Component::Funders,
            ResourceComponent::Prefixes(_) => Component::Prefixes,
            ResourceComponent::Members(_) => Component::Members,
            ResourceComponent::Types(_) => Component::Types,
            ResourceComponent::Journals(_) => Component::Journals,
        }
    }

    /// The component this request belongs to.
    pub fn primary_component(&self) -> (r: Component)
        ensures
            r == self.spec_primary_component(),
    {
        match self {
            ResourceComponent::Works(_) => Component::Works,
            ResourceComponent::Funders(_) => Component::Funders,
            ResourceComponent::Prefixes(_) => Component::Prefixes,
            ResourceComponent::Members(_) => Component::Members,
            ResourceComponent::Types(_) => Component::Types,
            ResourceComponent::Journals(_) => Component::Journals,
        }
    }
}

impl CrossrefRoute for ResourceComponent {
    open spec fn spec_route(&self) -> Seq<char> {
        match self {
            ResourceComponent::Works(c) => c.spec_route(),
            ResourceComponent::Funders(c) => c.spec_route(),
            ResourceComponent::Prefixes(c) => c.spec_route(),
            ResourceComponent::Members(c) => c.spec_route(),
            ResourceComponent::Types(c) => c.spec_route(),
            ResourceComponent::Journals(c) => c.spec_route(),
        }
    }

    fn route(&self) -> (r: Result<String, Error>) {
        match self {
            ResourceComponent::Works(c) => c.route(),
            ResourceComponent::Funders(c) => c.route(),
            ResourceComponent::Prefixes(c) => c.route(),
            ResourceComponent::Members(c) => c.route(),
            ResourceComponent::Types(c) => c.route(),
            ResourceComponent::Journals(c) => c.route(),
        }
    }
}

/// A key-value pair inside a multi-value query string parameter.
///
/// A fragment renders as `key:value`, or as the bare key when it carries no
/// value; fragments of one parameter are comma-joined.
pub trait ParamFragment {
    /// the key, or name, of the fragment, at spec level
    spec fn spec_key(&self) -> Seq<char>;

    /// the value of the fragment, at spec level
    spec fn spec_value(&self) -> Option<Seq<char>>;

    /// the key, or name, of the fragment
    fn key(&self) -> (r: String)
        ensures
            r@ == self.spec_key(),
    ;

    /// the value of the fragment, if any
    fn value(&self) -> (r: Option<String>)
        ensures
            match r {
                Some(v) => self.spec_value() matches Some(sv) && v@ == sv,
                None => self.spec_value() is None,
            },
    ;
}

/// Marks the filter vocabulary usable in the query string of one resource
/// family.
pub trait Filter: ParamFragment {

}

/// The rendered form of one fragment: `key:value`, or the bare key.
pub open spec fn spec_fragment<T: ParamFragment>(t: T) -> Seq<char> {
    match t.spec_value() {
        Some(v) => t.spec_key() + seq![':'] + v,
        None => t.spec_key(),
    }
}

/// The comma-join of the rendered fragments of `items`.
pub open spec fn spec_fragment_list<T: ParamFragment>(items: Seq<T>) -> Seq<char> {
    seq_join(items.map_values(|t: T| spec_fragment(t)), seq![','])
}

/// Renders one fragment as `key:value`, or as the bare key when it has no
/// value.
pub fn fragment<T: ParamFragment>(t: &T) -> (r: String)
    ensures
        r@ == spec_fragment(*t),
{
    let mut s = t.key();
    match t.value() {
        Some(v) => {
            push_char(&mut s, ':');
            s.append(v.as_str());
            proof {
                assert(s@ =~= spec_fragment(*t));
            }
        },
        None => {},
    }
    s
}

/// Renders a list of same-kind fragments as one comma-joined value.
pub fn fragment_list<T: ParamFragment>(items: &Vec<T>) -> (r: String)
    ensures
        r@ == spec_fragment_list(items@),
{
    let ghost target = items@.map_values(|t: T| spec_fragment(t));
    let mut parts: Vec<String> = Vec::new();
    let mut i: usize = 0;
    while i < items.len()
        invariant
            target == items@.map_values(|t: T| spec_fragment(t)),
            target.len() == items@.len(),
            i <= items.len(),
            parts.deep_view() =~= target.take(i as int),
        decreases items.len() - i,
    {
        let ghost before = parts.deep_view();
        let f = fragment(&items[i]);
        let ghost fv = f@;
        parts.push(f);
        proof {
            assert(parts.deep_view() =~= before.push(fv));
            assert(target.take(i as int + 1) =~= before.push(fv));
        }
        i = i + 1;
    }
    proof {
        assert(target.take(items@.len() as int) =~= target);
    }
    join_with(&parts, ',')
}

/// Law: rendering a fragment is a pure function of the fragment value:
/// it reads no hidden state, so equal fragments render equally, however
/// often and wherever they are encoded.
pub proof fn lemma_fragment_pure<T: ParamFragment>(a: T, b: T)
    requires
        a == b,
    ensures
        spec_fragment(a) == spec_fragment(b),
{
}

/// Captures one parameter of the query string of the Crossref API.
pub trait CrossrefQueryParam {
    /// the full parameter, at spec level
    spec fn spec_param(&self) -> Seq<char>;

    /// constructs the full parameter for the query string
    fn param(&self) -> (r: String)
        ensures
            r@ == self.spec_param(),
    ;
}

/// Elements that construct parts of the Crossref request URL.
pub trait CrossrefRoute {
    /// the route this element contributes, at spec level
    spec fn spec_route(&self) -> Seq<char>;

    /// constructs the route for the Crossref API
    fn route(&self) -> (r: Result<String, Error>)
        ensures
            r matches Ok(s) && s@ == self.spec_route(),
    ;
}

/// Root-level trait to construct full Crossref API request URLs.
pub trait CrossrefQuery: CrossrefRoute + Sized {
    /// the resource component endpoint this route targets, at spec level
    spec fn spec_resource_component(self) -> ResourceComponent;

    /// the resource component endpoint this route targets
    fn resource_component(self) -> (r: ResourceComponent)
        ensures
            r == self.spec_resource_component(),
    ;

    /// constructs the full request URL: the base path followed by the route
    fn to_url(&self, base_path: &str) -> (r: Result<String, Error>)
        ensures
            r matches Ok(s) && s@ == base_path@ + self.spec_route(),
    ;
}

/// The unified read interface over the query of one resource family.
pub trait CrossrefParams {
    /// the filter vocabulary this query uses
    type Filter: Filter;

    /// all free-form query terms, at spec level
    spec fn spec_query_terms(&self) -> Seq<Seq<char>>;

    /// the filters applied, at spec level
    spec fn spec_filters(&self) -> Seq<Self::Filter>;

    /// the sort key, at spec level
    spec fn spec_sort(&self) -> Option<Sort>;

    /// the sort order, at spec level
    spec fn spec_order(&self) -> Option<Order>;

    /// the facet requests, at spec level
    spec fn spec_facets(&self) -> Seq<FacetCount>;

    /// the result window, at spec level
    spec fn spec_result_control(&self) -> Option<ResultControl>;

    /// all free-form query terms
    fn query_terms(&self) -> (r: &Vec<String>)
        ensures
            r.deep_view() == self.spec_query_terms(),
    ;

    /// the filters this query applies
    fn filters(&self) -> (r: &Vec<Self::Filter>)
        ensures
            r@ == self.spec_filters(),
    ;

    /// the sort key, if set
    fn sort(&self) -> (r: Option<&Sort>)
        ensures
            match r {
                Some(s) => self.spec_sort() == Some(*s),
                None => self.spec_sort() is None,
            },
    ;

    /// the sort order, if set
    fn order(&self) -> (r: Option<&Order>)
        ensures
            match r {
                Some(o) => self.spec_order() == Some(*o),
                None => self.spec_order() is None,
            },
    ;

    /// all facets this query requests
    fn facets(&self) -> (r: &Vec<FacetCount>)
        ensures
            r@ == self.spec_facets(),
    ;

    /// the configured result window, if any
    fn result_control(&self) -> (r: Option<&ResultControl>)
        ensures
            match r {
                Some(rc) => self.spec_result_control() == Some(*rc),
                None => self.spec_result_control() is None,
            },
    ;
}

} // verus!
