//! Deep paging: cursor installation, cursor following, and termination.

use crossref::query::works::WorksCombiner;
use crossref::response::decode;
use crossref::response::Message;
use crossref::query::ResultControl;
use crossref::WorkList;
use crossref::WorkListIterator;
use crossref::WorkListQuery;
use crossref::WorkResultControl;
use crossref::WorksQuery;

fn page_body(cursor: Option<&str>, with_item: bool) -> String {
    let work = r#"{"publisher":"p","title":["t"],"references-count":0,"is-referenced-by-count":0,"source":"Crossref","prefix":"10.1","DOI":"10.1/a","URL":"http://dx.doi.org/10.1/a","member":"1","type":"journal-article","indexed":{"date-parts":[[2020,1,1]],"date-time":"2020-01-01T00:00:00Z","timestamp":1577836800000},"issued":{"date-parts":[[2020]]}}"#;
    let items = if with_item { work } else { "" };
    let next = match cursor {
        Some(c) => format!(r#""next-cursor":"{}","#, c),
        None => String::new(),
    };
    format!(
        r#"{{"status":"ok","message-type":"work-list","message-version":"1.0.0","message":{{{}"total-results":3,"items":[{}]}}}}"#,
        next, items
    )
}

fn page(cursor: Option<&str>, with_item: bool) -> WorkList {
    match decode(&page_body(cursor, with_item)).unwrap().message {
        Some(Message::WorkList(wl)) => wl,
        other => panic!("expected a work list, got {:?}", other),
    }
}

#[test]
fn three_pages_then_empty_yields_three_pages_and_stops() {
    let query = WorkListQuery::Works(WorksQuery::new().query("machine learning"));
    let mut it = WorkListIterator::new(query);
    let mut yielded = 0;
    let mut requests = 0;

    // first pull: a fresh cursor is installed
    let route = it.next_route().unwrap();
    requests += 1;
    assert_eq!("/works?query=machine+learning&cursor=*", route.as_str());
    if it.record(Some(page(Some("c1"), true))).is_some() {
        yielded += 1;
    }

    // second and third pull follow the received cursors
    let route = it.next_route().unwrap();
    requests += 1;
    assert_eq!("/works?query=machine+learning&cursor=c1", route.as_str());
    if it.record(Some(page(Some("c2"), true))).is_some() {
        yielded += 1;
    }

    let route = it.next_route().unwrap();
    requests += 1;
    assert_eq!("/works?query=machine+learning&cursor=c2", route.as_str());
    if it.record(Some(page(Some("c3"), true))).is_some() {
        yielded += 1;
    }

    // the fourth pull finds the empty page: end of the sequence
    let route = it.next_route().unwrap();
    requests += 1;
    assert_eq!("/works?query=machine+learning&cursor=c3", route.as_str());
    assert!(it.record(Some(page(Some("c4"), false))).is_none());

    // after the end no further request is issued
    assert!(it.next_route().is_none());
    assert!(it.next_route().is_none());

    assert_eq!(3, yielded);
    assert_eq!(4, requests);
}

#[test]
fn a_fixed_window_yields_exactly_one_page() {
    let query = WorkListQuery::Works(
        WorksQuery::new().result_control(WorkResultControl::Standard(ResultControl::Rows(5))),
    );
    let mut it = WorkListIterator::new(query);

    let route = it.next_route().unwrap();
    assert_eq!("/works?rows=5", route.as_str());
    // the caller asked for one fixed window: this page is yielded, but
    // deep paging does not continue past it
    assert!(it.record(Some(page(Some("c1"), true))).is_some());
    assert!(it.next_route().is_none());
}

#[test]
fn a_failed_pull_ends_the_walk() {
    let query = WorkListQuery::Works(WorksQuery::new());
    let mut it = WorkListIterator::new(query);
    assert!(it.next_route().is_some());
    assert!(it.record(None).is_none());
    assert!(it.next_route().is_none());
}

#[test]
fn a_page_without_cursor_ends_after_the_yield() {
    let query = WorkListQuery::Works(WorksQuery::new().new_cursor());
    let mut it = WorkListIterator::new(query);
    assert!(it.next_route().is_some());
    // the page has items but carries no continuation cursor
    assert!(it.record(Some(page(None, true))).is_some());
    assert!(it.next_route().is_none());
}

#[test]
fn combined_queries_page_under_their_component() {
    let ident = WorksQuery::new().query("ontologies").into_ident("100000015");
    let wlq = <crossref::Funders as WorksCombiner>::work_list_query(ident);
    let mut it = WorkListIterator::new(wlq);
    let route = it.next_route().unwrap();
    assert_eq!(
        "/funders/100000015/works?query=ontologies&cursor=*",
        route.as_str()
    );
}
