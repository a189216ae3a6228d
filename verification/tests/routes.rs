//! Route construction: identifier lookups, parameter encoding, the
//! canonical parameter order, and the sample short-circuit.

use crossref::query::facet::Facet;
use crossref::query::facet::FacetCount;
use crossref::query::funders::FundersFilter;
use crossref::query::funders::FundersQuery;
use crossref::query::funders::Funders;
use crossref::query::member::Members;
use crossref::query::member::MembersFilter;
use crossref::query::member::MembersQuery;
use crossref::query::FilterDate;
use crossref::query::ResultControl;
use crossref::query::Visibility;
use crossref::CrossrefQuery;
use crossref::CrossrefRoute;
use crossref::FieldQuery;
use crossref::Order;
use crossref::Sort;
use crossref::Type;
use crossref::Works;
use crossref::WorksFilter;
use crossref::WorkResultControl;
use crossref::WorksQuery;

#[test]
fn serialize_works_ident() {
    let works = Works::doi("10.1037/0003-066X.59.1.29");

    assert_eq!("/works/10.1037/0003-066X.59.1.29", &works.route().unwrap())
}

#[test]
fn agency_route() {
    let works = Works::agency_for_doi("10.1037/0003-066X.59.1.29");
    assert_eq!(
        "/works/10.1037/0003-066X.59.1.29/agency",
        &works.route().unwrap()
    );
}

#[test]
fn query_and_order_route() {
    let query = WorksQuery::new().query("machine learning").order(Order::Desc);
    assert_eq!(
        "/works?query=machine+learning&order=desc",
        &query.route().unwrap()
    );
}

#[test]
fn free_text_terms_are_normalized() {
    let query = WorksQuery::new().query("  room   at\tthe bottom ");
    assert_eq!("/works?query=room+at+the+bottom", &query.route().unwrap());
}

#[test]
fn unicode_blanks_are_normalized_too() {
    let query = WorksQuery::new().query("deep\u{a0}learning\u{2003}survey");
    assert_eq!("/works?query=deep+learning+survey", &query.route().unwrap());
}

#[test]
fn several_terms_join_with_plus() {
    let query = WorksQuery::new().queries(vec![
        "renear".to_string(),
        "ontologies".to_string(),
    ]);
    assert_eq!("/works?query=renear+ontologies", &query.route().unwrap());
}

#[test]
fn sample_suppresses_every_other_parameter() {
    let query = WorksQuery::new()
        .query("machine learning")
        .field_query(FieldQuery::author("richard feynman"))
        .filter(WorksFilter::HasOrcid)
        .sort(Sort::Score)
        .order(Order::Asc)
        .facet(FacetCount { facet: Facet::ORCID, count: Some(5) })
        .result_control(WorkResultControl::Standard(ResultControl::Rows(20)))
        .sample(7);
    assert_eq!("/works?sample=7", &query.route().unwrap());
}

#[test]
fn canonical_parameter_order() {
    let query = WorksQuery::new()
        .query("room")
        .field_query(FieldQuery::title("room at the bottom"))
        .filter(WorksFilter::HasOrcid)
        .facet(FacetCount { facet: Facet::TypeName, count: None })
        .sort(Sort::Score)
        .order(Order::Asc)
        .result_control(WorkResultControl::Standard(ResultControl::Rows(20)));
    assert_eq!(
        "/works?query=room&title=room+at+the+bottom&filter=has-orcid&facet=type-name:*&sort=score&order=asc&rows=20",
        &query.route().unwrap()
    );
}

#[test]
fn filters_are_comma_joined_under_one_parameter() {
    let date = FilterDate::new(2019, 2, 1).unwrap();
    let query = WorksQuery::new()
        .filter(WorksFilter::HasFunder)
        .filter(WorksFilter::Funder("10.13039/100000001".to_string()))
        .filter(WorksFilter::FromPubDate(date));
    assert_eq!(
        "/works?filter=has-funder,funder:10.13039/100000001,from-pub-date:2019-02-01",
        &query.route().unwrap()
    );
}

#[test]
fn date_filters_use_padded_ymd() {
    let date = FilterDate::new(987, 3, 9).unwrap();
    let query = WorksQuery::new().filter(WorksFilter::UntilPubDate(date));
    assert_eq!(
        "/works?filter=until-pub-date:0987-03-09",
        &query.route().unwrap()
    );
}

#[test]
fn enum_and_numeric_filter_values() {
    let query = WorksQuery::new()
        .filter(WorksFilter::ReferenceVisibility(Visibility::Open))
        .filter(WorksFilter::LicenseDelay(-5))
        .filter(WorksFilter::Type(Type::JournalArticle));
    assert_eq!(
        "/works?filter=reference-visibility:open,license.delay:-5,type:journal-article",
        &query.route().unwrap()
    );
}

#[test]
fn facet_counts_are_clamped_to_their_maximum() {
    let query = WorksQuery::new()
        .facet(FacetCount { facet: Facet::ORCID, count: Some(250) })
        .facet(FacetCount { facet: Facet::Published, count: Some(250) })
        .facet(FacetCount { facet: Facet::ISSN, count: None });
    assert_eq!(
        "/works?facet=orcid:100,published:250,issn:*",
        &query.route().unwrap()
    );
}

#[test]
fn a_sample_of_zero_still_encodes() {
    let query = WorksQuery::new().sample(0);
    assert_eq!("/works?sample=0", &query.route().unwrap());
}

#[test]
fn an_empty_works_query_keeps_its_question_mark() {
    let query = WorksQuery::new();
    assert_eq!("/works?", &query.route().unwrap());
}

#[test]
fn rows_offset_renders_both_parameters() {
    let query = WorksQuery::new().result_control(WorkResultControl::Standard(
        ResultControl::RowsOffset { rows: 20, offset: 40 },
    ));
    assert_eq!("/works?rows=20&offset=40", &query.route().unwrap());
}

#[test]
fn cursor_window_renders_token_and_rows() {
    let fresh = WorksQuery::new().new_cursor();
    assert_eq!("/works?cursor=*", &fresh.route().unwrap());

    let continued = WorksQuery::new()
        .result_control(WorkResultControl::Standard(ResultControl::Rows(30)))
        .next_cursor("AoJ42s");
    assert_eq!("/works?cursor=AoJ42s&rows=30", &continued.route().unwrap());
}

#[test]
fn combined_route_nests_works_under_the_component() {
    let funders: Funders = WorksQuery::new()
        .query("ontologies")
        .into_combined("100000015");
    assert_eq!(
        "/funders/100000015/works?query=ontologies",
        &funders.route().unwrap()
    );
}

#[test]
fn funders_query_route() {
    let funders = Funders::Query(
        FundersQuery::empty()
            .query("NSF")
            .filter(FundersFilter::Location("Norway".to_string())),
    );
    assert_eq!(
        "/funders?query=NSF&filter=location:Norway",
        &funders.route().unwrap()
    );
}

#[test]
fn empty_collection_query_has_no_question_mark() {
    let funders = Funders::Query(FundersQuery::empty());
    assert_eq!("/funders", &funders.route().unwrap());

    let members = Members::Query(MembersQuery::empty());
    assert_eq!("/members", &members.route().unwrap());
}

#[test]
fn members_filters_encode_flags_as_bare_keys() {
    let members = Members::Query(
        MembersQuery::empty()
            .filter(MembersFilter::HasPublicReferences)
            .filter(MembersFilter::CurrentDoiCount(100)),
    );
    assert_eq!(
        "/members?filter=has-public-references,current-doi-count:100",
        &members.route().unwrap()
    );
}

#[test]
fn to_url_prepends_the_base_path() {
    let works = Works::doi("10.1/x");
    assert_eq!(
        "https://api.crossref.org/works/10.1/x",
        &works.to_url("https://api.crossref.org").unwrap()
    );
}
