//! Deep paging over `/works` result sets: a pull-based walk that issues
//! one request per page and follows the server's continuation cursor.
//!
//! The iterator itself performs no request. Each round, the driving loop
//! asks [`WorkListIterator::next_route`] for the route of the next
//! request, performs the exchange, and hands the decoded page (or the
//! failure) back through [`WorkListIterator::record`]. Once the walk has
//! ended, `next_route` stays `None` forever: no request is ever issued
//! past the end of the sequence.

use vstd::prelude::*;

use crate::query::works::WorkListQuery;
use crate::query::works::WorkResultControl;
use crate::query::works::WorksQuery;
use crate::query::Component;
use crate::query::CrossrefRoute;
use crate::response::WorkList;
use crate::strutil::push_char;

verus! {

/// The paging state over one works query.
#[derive(Debug, Clone)]
pub struct WorkListIterator {
    /// the component and identifier the works are scoped under, for a
    /// combined query
    pub scope: Option<(Component, String)>,
    /// the works query the next request will use
    pub query: WorksQuery,
    /// whether the walk ends before the next pull: the server stopped
    /// handing out cursors, or the caller asked for one fixed window
    pub finish_next: bool,
    /// whether the walk has ended: no further request is issued
    pub finished: bool,
}

/// The query after a page arrived: a received cursor replaces the token
/// of a cursor window; everything else leaves the query unchanged.
pub open spec fn spec_follow_cursor(q: WorksQuery, cursor: Option<String>) -> WorksQuery {
    match cursor {
        Some(c) => match q.result_control {
            Some(WorkResultControl::Cursor { token: _, rows }) => WorksQuery {
                result_control: Some(WorkResultControl::Cursor { token: Some(c), rows }),
                ..q
            },
            _ => q,
        },
        None => q,
    }
}

/// Whether the walk ends after this page: the server sent no cursor, or
/// the caller had fixed a plain (non-cursor) window and so asked for
/// exactly one page.
pub open spec fn spec_ends_paging(q: WorksQuery, fin: bool, cursor: Option<String>) -> bool {
    match cursor {
        Some(_) => match q.result_control {
            Some(WorkResultControl::Standard(_)) => true,
            _ => fin,
        },
        None => true,
    }
}

impl WorkListIterator {
    /// The route of the request the iterator would issue next.
    pub open spec fn spec_route(self) -> Seq<char> {
        match self.scope {
            None => self.query.spec_route(),
            Some((c, id)) => c.spec_route() + seq!['/'] + id@ + self.query.spec_route(),
        }
    }

    /// Starts a walk over the pages of `query`.
    pub fn new(query: WorkListQuery) -> (r: WorkListIterator)
        ensures
            r.query == query.spec_works_query(),
            !r.finish_next,
            !r.finished,
            query matches WorkListQuery::Works(_) ==> r.scope is None,
            query matches WorkListQuery::Combined { primary_component, ident } ==> (r.scope
                matches Some(sc) && sc.0 == primary_component && sc.1 == ident.id),
    {
        match query {
            WorkListQuery::Works(q) => WorkListIterator {
                scope: None,
                query: q,
                finish_next: false,
                finished: false,
            },
            WorkListQuery::Combined { primary_component, ident } => WorkListIterator {
                scope: Some((primary_component, ident.id)),
                query: ident.query,
                finish_next: false,
                finished: false,
            },
        }
    }

    /// The route of the next request, or nothing when the walk has
    /// ended. A query without a result window gets a fresh cursor window
    /// installed before its first request. After the end of the
    /// sequence, every call answers `None` and leaves the state as it
    /// is: no request is re-issued.
    pub fn next_route(&mut self) -> (r: Option<String>)
        ensures
            old(self).finished || old(self).finish_next ==> r is None && final(self).finished
                && final(self).finish_next == old(self).finish_next && final(self).query == old(
                self,
            ).query && final(self).scope == old(self).scope,
            !(old(self).finished || old(self).finish_next) ==> {
                &&& !final(self).finished
                &&& !final(self).finish_next
                &&& final(self).scope == old(self).scope
                &&& final(self).query.result_control is Some
                &&& (old(self).query.result_control is Some ==> final(self).query == old(
                    self,
                ).query)
                &&& (old(self).query.result_control is None ==> final(self).query == (WorksQuery {
                    result_control: Some(
                        WorkResultControl::Cursor { token: None, rows: None },
                    ),
                    ..old(self).query
                }))
                &&& (r matches Some(url) && url@ == final(self).spec_route())
            },
    {
        if self.finished || self.finish_next {
            self.finished = true;
            return None;
        }
        if self.query.result_control.is_none() {
            self.query.result_control = Some(WorkResultControl::new_cursor());
        }
        let route = match &self.scope {
            None => match CrossrefRoute::route(&self.query) {
                Ok(u) => u,
                Err(_) => {
                    return None;
                },
            },
            Some(sc) => {
                let mut out = sc.0.route_string();
                push_char(&mut out, '/');
                out.append(sc.1.as_str());
                match CrossrefRoute::route(&self.query) {
                    Ok(u) => {
                        out.append(u.as_str());
                        proof {
                            assert(out@ =~= self.spec_route());
                        }
                        out
                    },
                    Err(_) => {
                        return None;
                    },
                }
            },
        };
        Some(route)
    }

    /// Records the outcome of the request issued for the last route. A
    /// transport or decode failure ends the walk, as does an empty page;
    /// a received cursor is installed for the next pull; a page with
    /// items is yielded to the caller.
    pub fn record(&mut self, outcome: Option<WorkList>) -> (page: Option<WorkList>)
        ensures
            final(self).scope == old(self).scope,
            outcome is None ==> final(self).finished && page is None && final(self).query == old(
                self,
            ).query && final(self).finish_next == old(self).finish_next,
            outcome matches Some(wl) ==> {
                &&& final(self).query == spec_follow_cursor(old(self).query, wl.next_cursor)
                &&& final(self).finish_next == spec_ends_paging(
                    old(self).query,
                    old(self).finish_next,
                    wl.next_cursor,
                )
                &&& (wl.items@.len() == 0 ==> page is None && final(self).finished)
                &&& (wl.items@.len() > 0 ==> page == Some(wl) && final(self).finished == old(
                    self,
                ).finished)
            },
    {
        let wl = match outcome {
            Some(wl) => wl,
            None => {
                self.finished = true;
                return None;
            },
        };
        match &wl.next_cursor {
            Some(c) => {
                let carried_rows = match &self.query.result_control {
                    Some(WorkResultControl::Cursor { token: _, rows }) => Some(*rows),
                    _ => None,
                };
                match carried_rows {
                    Some(rows) => {
                        self.query.result_control = Some(
                            WorkResultControl::Cursor { token: Some(c.clone()), rows },
                        );
                    },
                    None => {
                        if matches!(
                            &self.query.result_control,
                            Some(WorkResultControl::Standard(_))
                        ) {
                            self.finish_next = true;
                        }
                    },
                }
            },
            None => {
                self.finish_next = true;
            },
        }
        if wl.items.is_empty() {
            self.finished = true;
            None
        } else {
            Some(wl)
        }
    }
}

} // verus!
