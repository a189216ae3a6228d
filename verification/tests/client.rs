//! Client configuration, the work-type vocabulary, content negotiation,
//! and date-part conversion.

use crossref::cn::CnFormat;
use crossref::model::DateField;
use crossref::model::DateParts;
use crossref::model::Ymd;
use crossref::CrossrefBuilder;
use crossref::Type;

#[test]
fn test_types() {
    let ref_type = Type::from_id("book-section").unwrap();

    assert_eq!(Type::BookSection, ref_type);
    assert_eq!("Book Section", ref_type.label());
}

#[test]
fn unknown_type_name_is_an_error() {
    let err = Type::from_id("sonnet").unwrap_err();
    match err.kind {
        crossref::ErrorKind::InvalidTypeName { name } => assert_eq!("sonnet", name.as_str()),
        other => panic!("expected InvalidTypeName, got {:?}", other),
    }
}

#[test]
fn builder_collects_the_configuration() {
    let builder = CrossrefBuilder::new()
        .polite("polite@example.com")
        .token("SECRET-REDACTED");
    assert_eq!(
        "mailto:polite@example.com",
        builder.user_agent.as_deref().unwrap()
    );
    assert_eq!("SECRET-REDACTED", builder.plus_token.as_deref().unwrap());
    assert_eq!("https://api.crossref.org", builder.effective_base_url().as_str());
}

#[test]
fn user_agent_overrides_directly() {
    let builder = CrossrefBuilder::new().user_agent("tests/0.1");
    assert_eq!("tests/0.1", builder.user_agent.as_deref().unwrap());
    assert!(builder.plus_token.is_none());
}

#[test]
fn cn_formats_carry_their_headers() {
    assert_eq!("application/json", CnFormat::CiteProcJson.mime_type());
    assert_eq!(
        "transform/application/vnd.citationstyles.csl+json",
        CnFormat::CiteProcJson.header()
    );
    assert_eq!("application/x-bibtex", CnFormat::BibTex.header());
}

#[test]
fn date_parts_convert_to_date_fields() {
    let single = DateParts(vec![vec![2017, 10, 11]]);
    match single.as_date().unwrap() {
        DateField::Single(d) => assert_eq!(Ymd { year: 2017, month: 10, day: 11 }, d),
        other => panic!("expected a single date, got {:?}", other),
    }

    let year_only = DateParts(vec![vec![2006]]);
    match year_only.as_date().unwrap() {
        DateField::Single(d) => assert_eq!(Ymd { year: 2006, month: 0, day: 0 }, d),
        other => panic!("expected a single date, got {:?}", other),
    }

    let range = DateParts(vec![vec![2004, 1], vec![2006, 5, 19]]);
    match range.as_date().unwrap() {
        DateField::Range { from, to } => {
            assert_eq!(Ymd { year: 2004, month: 1, day: 0 }, from);
            assert_eq!(Ymd { year: 2006, month: 5, day: 19 }, to);
        },
        other => panic!("expected a range, got {:?}", other),
    }

    let multi = DateParts(vec![vec![2004], vec![2005], vec![2006]]);
    match multi.as_date().unwrap() {
        DateField::Multi(days) => assert_eq!(3, days.len()),
        other => panic!("expected a list of dates, got {:?}", other),
    }

    assert!(DateParts(vec![]).as_date().is_none());
    assert!(DateParts(vec![vec![]]).as_date().is_none());
}
