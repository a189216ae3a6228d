//! Queries against the `/journals` route.

use vstd::prelude::*;

use crate::error::Error;
use crate::query::works::combined_route;
use crate::query::works::WorkListQuery;
use crate::query::works::WorksCombiner;
use crate::query::works::WorksIdentQuery;
use crate::query::Component;
use crate::query::CrossrefQuery;
use crate::query::CrossrefRoute;
use crate::query::ResourceComponent;
use crate::strutil::push_char;

verus! {

/// Constructs the request payload for the `/journals` route.
#[derive(Debug, Clone)]
pub enum Journals {
    /// target a specific journal at `/journals/{id}`
    Identifier(String),
    /// target the works of a specific journal at `/journals/{id}/works?query..`
    Works(WorksIdentQuery),
}

impl CrossrefRoute for Journals {
    open spec fn spec_route(&self) -> Seq<char> {
        match self {
            Journals::Identifier(s) => Component::Journals.spec_route() + seq!['/'] + s@,
            Journals::Works(combined) => combined.spec_combined_route(Component::Journals),
        }
    }

    fn route(&self) -> (r: Result<String, Error>) {
        match self {
            Journals::Identifier(s) => {
                let mut out = Component::Journals.route_string();
                push_char(&mut out, '/');
                out.append(s.as_str());
                proof {
                    assert(out@ =~= self.spec_route());
                }
                Ok(out)
            },
            Journals::Works(combined) => combined_route(Component::Journals, combined),
        }
    }
}

impl CrossrefQuery for Journals {
    open spec fn spec_resource_component(self) -> ResourceComponent {
        ResourceComponent::Journals(self)
    }

    fn resource_component(self) -> (r: ResourceComponent) {
        ResourceComponent::Journals(self)
    }

    fn to_url(&self, base_path: &str) -> (r: Result<String, Error>) {
        let mut out = String::from_str(base_path);
        match self.route() {
            Ok(rt) => {
                out.append(rt.as_str());
                Ok(out)
            },
            Err(e) => Err(e),
        }
    }
}

impl WorksCombiner for Journals {
    open spec fn spec_primary_component() -> Component {
        Component::Journals
    }

    open spec fn spec_ident_query(ident: WorksIdentQuery) -> Self {
        Journals::Works(ident)
    }

    fn primary_component() -> (r: Component) {
        Component::Journals
    }

    fn ident_query(ident: WorksIdentQuery) -> (r: Self) {
        Journals::Works(ident)
    }

    fn work_list_query(ident: WorksIdentQuery) -> (r: WorkListQuery) {
        WorkListQuery::Combined { primary_component: Component::Journals, ident }
    }
}

} // verus!
