//! Queries against the `/funders` route.

use vstd::prelude::*;

use crate::error::Error;
use crate::query::facet::FacetCount;
use crate::query::fragment_list;
use crate::query::spec_fragment_list;
use crate::query::works::combined_route;
use crate::query::works::WorkListQuery;
use crate::query::works::WorksCombiner;
use crate::query::works::WorksIdentQuery;
use crate::query::Component;
use crate::query::CrossrefParams;
use crate::query::CrossrefQuery;
use crate::query::CrossrefQueryParam;
use crate::query::CrossrefRoute;
use crate::query::Filter;
use crate::query::Order;
use crate::query::ParamFragment;
use crate::query::ResourceComponent;
use crate::query::ResultControl;
use crate::query::Sort;
use crate::strutil::format_queries;
use crate::strutil::join_with;
use crate::strutil::push_char;
use crate::strutil::seq_join;
use crate::strutil::spec_format_queries;

verus! {

/// Filters supported for the `/funders` route.
#[derive(Debug, Clone)]
pub enum FundersFilter {
    /// funders located in the specified country
    Location(String),
}

impl FundersFilter {
    /// The wire key of this filter.
    pub open spec fn spec_name(self) -> Seq<char> {
        match self {
            FundersFilter::Location(_) => "location"@,
        }
    }

    /// The key name for the filter element.
    pub fn name(&self) -> (r: &str)
        ensures
            r@ == self.spec_name(),
    {
        match self {
            FundersFilter::Location(_) => "location",
        }
    }
}

impl ParamFragment for FundersFilter {
    open spec fn spec_key(&self) -> Seq<char> {
        self.spec_name()
    }

    open spec fn spec_value(&self) -> Option<Seq<char>> {
        match self {
            FundersFilter::Location(s) => Some(s@),
        }
    }

    fn key(&self) -> (r: String) {
        String::from_str(self.name())
    }

    fn value(&self) -> (r: Option<String>) {
        match self {
            FundersFilter::Location(s) => Some(s.clone()),
        }
    }
}

impl Filter for FundersFilter {

}

/// A query against the `/funders` collection; every set option is ANDed.
#[derive(Debug, Clone)]
pub struct FundersQuery {
    /// search by non-specific query terms
    pub queries: Vec<String>,
    /// filters to apply while querying
    pub filter: Vec<FundersFilter>,
    /// sort results by a certain field
    pub sort: Option<Sort>,
    /// set the sort order to `asc` or `desc`
    pub order: Option<Order>,
    /// enable facet information in responses
    pub facets: Vec<FacetCount>,
    /// the result window of the query
    pub result_control: Option<ResultControl>,
}

impl FundersQuery {
    /// Whether every field of this query is unset.
    pub open spec fn spec_is_empty(self) -> bool {
        &&& self.queries@.len() == 0
        &&& self.filter@.len() == 0
        &&& self.sort is None
        &&& self.order is None
        &&& self.facets@.len() == 0
        &&& self.result_control is None
    }

    /// An empty default query.
    pub fn empty() -> (r: Self)
        ensures
            r.spec_is_empty(),
    {
        FundersQuery {
            queries: Vec::new(),
            filter: Vec::new(),
            sort: None,
            order: None,
            facets: Vec::new(),
            result_control: None,
        }
    }

    /// Adds a new free-form query term.
    pub fn query(self, query: &str) -> (r: Self)
        ensures
            r.queries.deep_view() == self.queries.deep_view().push(query@),
            r.filter == self.filter,
            r.sort == self.sort,
            r.order == self.order,
            r.facets == self.facets,
            r.result_control == self.result_control,
    {
        let mut q = self;
        q.queries.push(String::from_str(query));
        proof {
            assert(q.queries.deep_view() =~= self.queries.deep_view().push(query@));
        }
        q
    }

    /// Adds a new filter to the query.
    pub fn filter(self, filter: FundersFilter) -> (r: Self)
        ensures
            r.filter@ == self.filter@.push(filter),
            r.queries == self.queries,
            r.sort == self.sort,
            r.order == self.order,
            r.facets == self.facets,
            r.result_control == self.result_control,
    {
        let mut q = self;
        q.filter.push(filter);
        proof {
            assert(q.filter@ =~= self.filter@.push(filter));
        }
        q
    }

    /// Sets the sort option of the query.
    pub fn sort(self, sort: Sort) -> (r: Self)
        ensures
            r == (FundersQuery { sort: Some(sort), ..self }),
    {
        let mut q = self;
        q.sort = Some(sort);
        q
    }

    /// Sets the order option of the query.
    pub fn order(self, order: Order) -> (r: Self)
        ensures
            r == (FundersQuery { order: Some(order), ..self }),
    {
        let mut q = self;
        q.order = Some(order);
        q
    }

    /// Adds another facet to the query.
    pub fn facet(self, facet: FacetCount) -> (r: Self)
        ensures
            r.facets@ == self.facets@.push(facet),
            r.queries == self.queries,
            r.filter == self.filter,
            r.sort == self.sort,
            r.order == self.order,
            r.result_control == self.result_control,
    {
        let mut q = self;
        q.facets.push(facet);
        proof {
            assert(q.facets@ =~= self.facets@.push(facet));
        }
        q
    }

    /// Sets the result window of the query.
    pub fn result_control(self, result_control: ResultControl) -> (r: Self)
        ensures
            r == (FundersQuery { result_control: Some(result_control), ..self }),
    {
        let mut q = self;
        q.result_control = Some(result_control);
        q
    }

    /// Every parameter of the query, in the canonical order.
    pub open spec fn spec_params_list(self) -> Seq<Seq<char>> {
        let p0: Seq<Seq<char>> = if self.queries@.len() > 0 {
            seq!["query="@ + spec_format_queries(self.queries.deep_view())]
        } else {
            Seq::empty()
        };
        let p1 = if self.filter@.len() > 0 {
            p0.push("filter="@ + spec_fragment_list(self.filter@))
        } else {
            p0
        };
        let p2 = if self.facets@.len() > 0 {
            p1.push("facet="@ + spec_fragment_list(self.facets@))
        } else {
            p1
        };
        let p3 = match self.sort {
            Some(srt) => p2.push(srt.spec_param()),
            None => p2,
        };
        let p4 = match self.order {
            Some(ord) => p3.push(ord.spec_param()),
            None => p3,
        };
        match self.result_control {
            Some(rc) => p4.push(rc.spec_param()),
            None => p4,
        }
    }
}

impl Default for FundersQuery {
    fn default() -> (r: Self)
        ensures
            r.spec_is_empty(),
    {
        FundersQuery::empty()
    }
}

impl CrossrefRoute for FundersQuery {
    open spec fn spec_route(&self) -> Seq<char> {
        seq_join(self.spec_params_list(), seq!['&'])
    }

    fn route(&self) -> (r: Result<String, Error>) {
        let mut params: Vec<String> = Vec::new();
        if !self.queries.is_empty() {
            let mut p = String::from_str("query=");
            let terms = format_queries(&self.queries);
            p.append(terms.as_str());
            params.push(p);
        }
        if !self.filter.is_empty() {
            let mut p = String::from_str("filter=");
            let frag = fragment_list(&self.filter);
            p.append(frag.as_str());
            let ghost before = params.deep_view();
            params.push(p);
            proof {
                assert(params.deep_view() =~= before.push(
                    "filter="@ + spec_fragment_list(self.filter@),
                ));
            }
        }
        if !self.facets.is_empty() {
            let mut p = String::from_str("facet=");
            let frag = fragment_list(&self.facets);
            p.append(frag.as_str());
            let ghost before = params.deep_view();
            params.push(p);
            proof {
                assert(params.deep_view() =~= before.push(
                    "facet="@ + spec_fragment_list(self.facets@),
                ));
            }
        }
        if let Some(srt) = &self.sort {
            let ghost before = params.deep_view();
            params.push(srt.param());
            proof {
                assert(params.deep_view() =~= before.push(srt.spec_param()));
            }
        }
        if let Some(ord) = &self.order {
            let ghost before = params.deep_view();
            params.push(ord.param());
            proof {
                assert(params.deep_view() =~= before.push(ord.spec_param()));
            }
        }
        if let Some(rc) = &self.result_control {
            let ghost before = params.deep_view();
            params.push(rc.param());
            proof {
                assert(params.deep_view() =~= before.push(rc.spec_param()));
            }
        }
        proof {
            assert(params.deep_view() =~= self.spec_params_list());
        }
        Ok(join_with(&params, '&'))
    }
}

impl CrossrefParams for FundersQuery {
    type Filter = FundersFilter;

    open spec fn spec_query_terms(&self) -> Seq<Seq<char>> {
        self.queries.deep_view()
    }

    open spec fn spec_filters(&self) -> Seq<FundersFilter> {
        self.filter@
    }

    open spec fn spec_sort(&self) -> Option<Sort> {
        self.sort
    }

    open spec fn spec_order(&self) -> Option<Order> {
        self.order
    }

    open spec fn spec_facets(&self) -> Seq<FacetCount> {
        self.facets@
    }

    open spec fn spec_result_control(&self) -> Option<ResultControl> {
        self.result_control
    }

    fn query_terms(&self) -> (r: &Vec<String>) {
        &self.queries
    }

    fn filters(&self) -> (r: &Vec<FundersFilter>) {
        &self.filter
    }

    fn sort(&self) -> (r: Option<&Sort>) {
        self.sort.as_ref()
    }

    fn order(&self) -> (r: Option<&Order>) {
        self.order.as_ref()
    }

    fn facets(&self) -> (r: &Vec<FacetCount>) {
        &self.facets
    }

    fn result_control(&self) -> (r: Option<&ResultControl>) {
        self.result_control.as_ref()
    }
}

/// Constructs the request payload for the `/funders` route.
#[derive(Debug, Clone)]
pub enum Funders {
    /// target a specific funder at `/funders/{id}`
    Identifier(String),
    /// target all funders that match the query at `/funders?query...`
    Query(FundersQuery),
    /// target the works of a specific funder at `/funders/{id}/works?query..`
    Works(WorksIdentQuery),
}

impl CrossrefRoute for Funders {
    open spec fn spec_route(&self) -> Seq<char> {
        match self {
            Funders::Identifier(s) => Component::Funders.spec_route() + seq!['/'] + s@,
            Funders::Query(query) => if query.spec_route().len() == 0 {
                Component::Funders.spec_route()
            } else {
                Component::Funders.spec_route() + seq!['?'] + query.spec_route()
            },
            Funders::Works(combined) => combined.spec_combined_route(Component::Funders),
        }
    }

    fn route(&self) -> (r: Result<String, Error>) {
        match self {
            Funders::Identifier(s) => {
                let mut out = Component::Funders.route_string();
                push_char(&mut out, '/');
                out.append(s.as_str());
                proof {
                    assert(out@ =~= self.spec_route());
                }
                Ok(out)
            },
            Funders::Query(query) => {
                match query.route() {
                    Ok(rt) => {
                        if rt.as_str().is_empty() {
                            Ok(Component::Funders.route_string())
                        } else {
                            let mut out = Component::Funders.route_string();
                            push_char(&mut out, '?');
                            out.append(rt.as_str());
                            proof {
                                assert(out@ =~= self.spec_route());
                            }
                            Ok(out)
                        }
                    },
                    Err(e) => Err(e),
                }
            },
            Funders::Works(combined) => combined_route(Component::Funders, combined),
        }
    }
}

impl CrossrefQuery for Funders {
    open spec fn spec_resource_component(self) -> ResourceComponent {
        ResourceComponent::Funders(self)
    }

    fn resource_component(self) -> (r: ResourceComponent) {
        ResourceComponent::Funders(self)
    }

    fn to_url(&self, base_path: &str) -> (r: Result<String, Error>) {
        let mut out = String::from_str(base_path);
        match self.route() {
            Ok(rt) => {
                out.append(rt.as_str());
                Ok(out)
            },
            Err(e) => Err(e),
        }
    }
}

impl WorksCombiner for Funders {
    open spec fn spec_primary_component() -> Component {
        Component::Funders
    }

    open spec fn spec_ident_query(ident: WorksIdentQuery) -> Self {
        Funders::Works(ident)
    }

    fn primary_component() -> (r: Component) {
        Component::Funders
    }

    fn ident_query(ident: WorksIdentQuery) -> (r: Self) {
        Funders::Works(ident)
    }

    fn work_list_query(ident: WorksIdentQuery) -> (r: WorkListQuery) {
        WorkListQuery::Combined { primary_component: Component::Funders, ident }
    }
}

} // verus!
