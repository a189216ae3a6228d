//! Queries against the `/prefixes` route.

use vstd::prelude::*;

use crate::error::Error;
use crate::query::works::combined_route;
use crate::query::works::WorkListQuery;
use crate::query::works::WorksCombiner;
use crate::query::works::WorksIdentQuery;
use crate::query::Component;
use crate::query::CrossrefQuery;
use crate::query::CrossrefRoute;
use crate::query::ResourceComponent;
use crate::strutil::push_char;

verus! {

/// Constructs the request payload for the `/prefixes` route.
#[derive(Debug, Clone)]
pub enum Prefixes {
    /// target a specific owner prefix at `/prefixes/{id}`
    Identifier(String),
    /// target the works of a specific prefix at `/prefixes/{id}/works?query..`
    Works(WorksIdentQuery),
}

impl CrossrefRoute for Prefixes {
    open spec fn spec_route(&self) -> Seq<char> {
        match self {
            Prefixes::Identifier(s) => Component::Prefixes.spec_route() + seq!['/'] + s@,
            Prefixes::Works(combined) => combined.spec_combined_route(Component::Prefixes),
        }
    }

    fn route(&self) -> (r: Result<String, Error>) {
        match self {
            Prefixes::Identifier(s) => {
                let mut out = Component::Prefixes.route_string();
                push_char(&mut out, '/');
                out.append(s.as_str());
                proof {
                    assert(out@ =~= self.spec_route());
                }
                Ok(out)
            },
            Prefixes::Works(combined) => combined_route(Component::Prefixes, combined),
        }
    }
}

impl CrossrefQuery for Prefixes {
    open spec fn spec_resource_component(self) -> ResourceComponent {
        ResourceComponent::Prefixes(self)
    }

    fn resource_component(self) -> (r: ResourceComponent) {
        ResourceComponent::Prefixes(self)
    }

    fn to_url(&self, base_path: &str) -> (r: Result<String, Error>) {
        let mut out = String::from_str(base_path);
        match self.route() {
            Ok(rt) => {
                out.append(rt.as_str());
                Ok(out)
            },
            Err(e) => Err(e),
        }
    }
}

impl WorksCombiner for Prefixes {
    open spec fn spec_primary_component() -> Component {
        Component::Prefixes
    }

    open spec fn spec_ident_query(ident: WorksIdentQuery) -> Self {
        Prefixes::Works(ident)
    }

    fn primary_component() -> (r: Component) {
        Component::Prefixes
    }

    fn ident_query(ident: WorksIdentQuery) -> (r: Self) {
        Prefixes::Works(ident)
    }

    fn work_list_query(ident: WorksIdentQuery) -> (r: WorkListQuery) {
        WorkListQuery::Combined { primary_component: Component::Prefixes, ident }
    }
}

} // verus!
