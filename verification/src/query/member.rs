//! Queries against the `/members` route.

use vstd::prelude::*;

use crate::error::Error;
use crate::query::facet::FacetCount;
use crate::query::fragment_list;
use crate::query::spec_fragment_list;
use crate::query::works::combined_route;
use crate::query::works::WorkListQuery;
use crate::query::works::WorksCombiner;
use crate::query::works::WorksIdentQuery;
use crate::query::Component;
use crate::query::CrossrefParams;
use crate::query::CrossrefQuery;
use crate::query::CrossrefQueryParam;
use crate::query::CrossrefRoute;
use crate::query::Filter;
use crate::query::Order;
use crate::query::ParamFragment;
use crate::query::ResourceComponent;
use crate::query::ResultControl;
use crate::query::Sort;
use crate::query::Visibility;
use crate::strutil::format_queries;
use crate::strutil::join_with;
use crate::strutil::push_char;
use crate::strutil::seq_join;
use crate::strutil::spec_dec_signed;
use crate::strutil::append_dec_signed;
use crate::strutil::spec_format_queries;

verus! {

/// Filters supported for the `/members` route.
#[derive(Debug, Clone)]
pub enum MembersFilter {
    /// the member has made references public for one or more prefixes
    HasPublicReferences,
    /// members whose references are open, limited or closed
    ReferenceVisibility(Visibility),
    /// count of DOIs for material published more than two years ago
    BlackfileDoiCount(i32),
    /// count of DOIs for material published within the last two years
    CurrentDoiCount(i32),
}

impl MembersFilter {
    /// The wire key of this filter.
    pub open spec fn spec_name(self) -> Seq<char> {
        match self {
            MembersFilter::HasPublicReferences => "has-public-references"@,
            MembersFilter::ReferenceVisibility(_) => "reference-visibility"@,
            MembersFilter::BlackfileDoiCount(_) => "blackfile-doi-count"@,
            MembersFilter::CurrentDoiCount(_) => "current-doi-count"@,
        }
    }

    /// The key name for the filter element.
    pub fn name(&self) -> (r: &str)
        ensures
            r@ == self.spec_name(),
    {
        match self {
            MembersFilter::HasPublicReferences => "has-public-references",
            MembersFilter::ReferenceVisibility(_) => "reference-visibility",
            MembersFilter::BlackfileDoiCount(_) => "blackfile-doi-count",
            MembersFilter::CurrentDoiCount(_) => "current-doi-count",
        }
    }
}

impl ParamFragment for MembersFilter {
    open spec fn spec_key(&self) -> Seq<char> {
        self.spec_name()
    }

    open spec fn spec_value(&self) -> Option<Seq<char>> {
        match self {
            MembersFilter::HasPublicReferences => None,
            MembersFilter::ReferenceVisibility(vis) => Some(vis.spec_str()),
            MembersFilter::BlackfileDoiCount(n) => Some(spec_dec_signed(*n as int)),
            MembersFilter::CurrentDoiCount(n) => Some(spec_dec_signed(*n as int)),
        }
    }

    fn key(&self) -> (r: String) {
        String::from_str(self.name())
    }

    fn value(&self) -> (r: Option<String>) {
        match self {
            MembersFilter::HasPublicReferences => None,
            MembersFilter::ReferenceVisibility(vis) => Some(String::from_str(vis.as_str())),
            MembersFilter::BlackfileDoiCount(n) => {
                let mut s = String::new();
                append_dec_signed(&mut s, *n);
                proof {
                    assert(s@ =~= spec_dec_signed(*n as int));
                }
                Some(s)
            },
            MembersFilter::CurrentDoiCount(n) => {
                let mut s = String::new();
                append_dec_signed(&mut s, *n);
                proof {
                    assert(s@ =~= spec_dec_signed(*n as int));
                }
                Some(s)
            },
        }
    }
}

impl Filter for MembersFilter {

}

/// A query against the `/members` collection; every set option is ANDed.
#[derive(Debug, Clone)]
pub struct MembersQuery {
    /// search by non-specific query terms
    pub queries: Vec<String>,
    /// filters to apply while querying
    pub filter: Vec<MembersFilter>,
    /// sort results by a certain field
    pub sort: Option<Sort>,
    /// set the sort order to `asc` or `desc`
    pub order: Option<Order>,
    /// enable facet information in responses
    pub facets: Vec<FacetCount>,
    /// the result window of the query
    pub result_control: Option<ResultControl>,
}

impl MembersQuery {
    /// Whether every field of this query is unset.
    pub open spec fn spec_is_empty(self) -> bool {
        &&& self.queries@.len() == 0
        &&& self.filter@.len() == 0
        &&& self.sort is None
        &&& self.order is None
        &&& self.facets@.len() == 0
        &&& self.result_control is None
    }

    /// An empty default query.
    pub fn empty() -> (r: Self)
        ensures
            r.spec_is_empty(),
    {
        MembersQuery {
            queries: Vec::new(),
            filter: Vec::new(),
            sort: None,
            order: None,
            facets: Vec::new(),
            result_control: None,
        }
    }

    /// Adds a new free-form query term.
    pub fn query(self, query: &str) -> (r: Self)
        ensures
            r.queries.deep_view() == self.queries.deep_view().push(query@),
            r.filter == self.filter,
            r.sort == self.sort,
            r.order == self.order,
            r.facets == self.facets,
            r.result_control == self.result_control,
    {
        let mut q = self;
        q.queries.push(String::from_str(query));
        proof {
            assert(q.queries.deep_view() =~= self.queries.deep_view().push(query@));
        }
        q
    }

    /// Adds a new filter to the query.
    pub fn filter(self, filter: MembersFilter) -> (r: Self)
        ensures
            r.filter@ == self.filter@.push(filter),
            r.queries == self.queries,
            r.sort == self.sort,
            r.order == self.order,
            r.facets == self.facets,
            r.result_control == self.result_control,
    {
        let mut q = self;
        q.filter.push(filter);
        proof {
            assert(q.filter@ =~= self.filter@.push(filter));
        }
        q
    }

    /// Sets the sort option of the query.
    pub fn sort(self, sort: Sort) -> (r: Self)
        ensures
            r == (MembersQuery { sort: Some(sort), ..self }),
    {
        let mut q = self;
        q.sort = Some(sort);
        q
    }

    /// Sets the order option of the query.
    pub fn order(self, order: Order) -> (r: Self)
        ensures
            r == (MembersQuery { order: Some(order), ..self }),
    {
        let mut q = self;
        q.order = Some(order);
        q
    }

    /// Adds another facet to the query.
    pub fn facet(self, facet: FacetCount) -> (r: Self)
        ensures
            r.facets@ == self.facets@.push(facet),
            r.queries == self.queries,
            r.filter == self.filter,
            r.sort == self.sort,
            r.order == self.order,
            r.result_control == self.result_control,
    {
        let mut q = self;
        q.facets.push(facet);
        proof {
            assert(q.facets@ =~= self.facets@.push(facet));
        }
        q
    }

    /// Sets the result window of the query.
    pub fn result_control(self, result_control: ResultControl) -> (r: Self)
        ensures
            r == (MembersQuery { result_control: Some(result_control), ..self }),
    {
        let mut q = self;
        q.result_control = Some(result_control);
        q
    }

    /// Every parameter of the query, in the canonical order.
    pub open spec fn spec_params_list(self) -> Seq<Seq<char>> {
        let p0: Seq<Seq<char>> = if self.queries@.len() > 0 {
            seq!["query="@ + spec_format_queries(self.queries.deep_view())]
        } else {
            Seq::empty()
        };
        let p1 = if self.filter@.len() > 0 {
            p0.push("filter="@ + spec_fragment_list(self.filter@))
        } else {
            p0
        };
        let p2 = if self.facets@.len() > 0 {
            p1.push("facet="@ + spec_fragment_list(self.facets@))
        } else {
            p1
        };
        let p3 = match self.sort {
            Some(srt) => p2.push(srt.spec_param()),
            None => p2,
        };
        let p4 = match self.order {
            Some(ord) => p3.push(ord.spec_param()),
            None => p3,
        };
        match self.result_control {
            Some(rc) => p4.push(rc.spec_param()),
            None => p4,
        }
    }
}

impl Default for MembersQuery {
    fn default() -> (r: Self)
        ensures
            r.spec_is_empty(),
    {
        MembersQuery::empty()
    }
}

impl CrossrefRoute for MembersQuery {
    open spec fn spec_route(&self) -> Seq<char> {
        seq_join(self.spec_params_list(), seq!['&'])
    }

    fn route(&self) -> (r: Result<String, Error>) {
        let mut params: Vec<String> = Vec::new();
        if !self.queries.is_empty() {
            let mut p = String::from_str("query=");
            let terms = format_queries(&self.queries);
            p.append(terms.as_str());
            params.push(p);
        }
        if !self.filter.is_empty() {
            let mut p = String::from_str("filter=");
            let frag = fragment_list(&self.filter);
            p.append(frag.as_str());
            let ghost before = params.deep_view();
            params.push(p);
            proof {
                assert(params.deep_view() =~= before.push(
                    "filter="@ + spec_fragment_list(self.filter@),
                ));
            }
        }
        if !self.facets.is_empty() {
            let mut p = String::from_str("facet=");
            let frag = fragment_list(&self.facets);
            p.append(frag.as_str());
            let ghost before = params.deep_view();
            params.push(p);
            proof {
                assert(params.deep_view() =~= before.push(
                    "facet="@ + spec_fragment_list(self.facets@),
                ));
            }
        }
        if let Some(srt) = &self.sort {
            let ghost before = params.deep_view();
            params.push(srt.param());
            proof {
                assert(params.deep_view() =~= before.push(srt.spec_param()));
            }
        }
        if let Some(ord) = &self.order {
            let ghost before = params.deep_view();
            params.push(ord.param());
            proof {
                assert(params.deep_view() =~= before.push(ord.spec_param()));
            }
        }
        if let Some(rc) = &self.result_control {
            let ghost before = params.deep_view();
            params.push(rc.param());
            proof {
                assert(params.deep_view() =~= before.push(rc.spec_param()));
            }
        }
        proof {
            assert(params.deep_view() =~= self.spec_params_list());
        }
        Ok(join_with(&params, '&'))
    }
}

impl CrossrefParams for MembersQuery {
    type Filter = MembersFilter;

    open spec fn spec_query_terms(&self) -> Seq<Seq<char>> {
        self.queries.deep_view()
    }

    open spec fn spec_filters(&self) -> Seq<MembersFilter> {
        self.filter@
    }

    open spec fn spec_sort(&self) -> Option<Sort> {
        self.sort
    }

    open spec fn spec_order(&self) -> Option<Order> {
        self.order
    }

    open spec fn spec_facets(&self) -> Seq<FacetCount> {
        self.facets@
    }

    open spec fn spec_result_control(&self) -> Option<ResultControl> {
        self.result_control
    }

    fn query_terms(&self) -> (r: &Vec<String>) {
        &self.queries
    }

    fn filters(&self) -> (r: &Vec<MembersFilter>) {
        &self.filter
    }

    fn sort(&self) -> (r: Option<&Sort>) {
        self.sort.as_ref()
    }

    fn order(&self) -> (r: Option<&Order>) {
        self.order.as_ref()
    }

    fn facets(&self) -> (r: &Vec<FacetCount>) {
        &self.facets
    }

    fn result_control(&self) -> (r: Option<&ResultControl>) {
        self.result_control.as_ref()
    }
}

/// Constructs the request payload for the `/members` route.
#[derive(Debug, Clone)]
pub enum Members {
    /// target a specific member at `/members/{id}`
    Identifier(String),
    /// target all members that match the query at `/members?query...`
    Query(MembersQuery),
    /// target the works of a specific member at `/members/{id}/works?query..`
    Works(WorksIdentQuery),
}

impl CrossrefRoute for Members {
    open spec fn spec_route(&self) -> Seq<char> {
        match self {
            Members::Identifier(s) => Component::Members.spec_route() + seq!['/'] + s@,
            Members::Query(query) => if query.spec_route().len() == 0 {
                Component::Members.spec_route()
            } else {
                Component::Members.spec_route() + seq!['?'] + query.spec_route()
            },
            Members::Works(combined) => combined.spec_combined_route(Component::Members),
        }
    }

    fn route(&self) -> (r: Result<String, Error>) {
        match self {
            Members::Identifier(s) => {
                let mut out = Component::Members.route_string();
                push_char(&mut out, '/');
                out.append(s.as_str());
                proof {
                    assert(out@ =~= self.spec_route());
                }
                Ok(out)
            },
            Members::Query(query) => {
                match query.route() {
                    Ok(rt) => {
                        if rt.as_str().is_empty() {
                            Ok(Component::Members.route_string())
                        } else {
                            let mut out = Component::Members.route_string();
                            push_char(&mut out, '?');
                            out.append(rt.as_str());
                            proof {
                                assert(out@ =~= self.spec_route());
                            }
                            Ok(out)
                        }
                    },
                    Err(e) => Err(e),
                }
            },
            Members::Works(combined) => combined_route(Component::Members, combined),
        }
    }
}

impl CrossrefQuery for Members {
    open spec fn spec_resource_component(self) -> ResourceComponent {
        ResourceComponent::Members(self)
    }

    fn resource_component(self) -> (r: ResourceComponent) {
        ResourceComponent::Members(self)
    }

    fn to_url(&self, base_path: &str) -> (r: Result<String, Error>) {
        let mut out = String::from_str(base_path);
        match self.route() {
            Ok(rt) => {
                out.append(rt.as_str());
                Ok(out)
            },
            Err(e) => Err(e),
        }
    }
}

impl WorksCombiner for Members {
    open spec fn spec_primary_component() -> Component {
        Component::Members
    }

    open spec fn spec_ident_query(ident: WorksIdentQuery) -> Self {
        Members::Works(ident)
    }

    fn primary_component() -> (r: Component) {
        Component::Members
    }

    fn ident_query(ident: WorksIdentQuery) -> (r: Self) {
        Members::Works(ident)
    }

    fn work_list_query(ident: WorksIdentQuery) -> (r: WorkListQuery) {
        WorkListQuery::Combined { primary_component: Component::Members, ident }
    }
}

} // verus!
