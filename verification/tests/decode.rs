//! Envelope decoding: every discriminant against its legal payload
//! shape, the sentinel short-circuit, and the failure modes.

use crossref::json::Json;
use crossref::query::ResourceComponent;
use crossref::response::decode;
use crossref::response::decode_response;
use crossref::response::facet_map_from_json;
use crossref::response::Message;
use crossref::ErrorKind;
use crossref::MessageType;
use crossref::Works;

fn facets_value() -> Json {
    Json::Obj(vec![
        (
            "affiliation".to_string(),
            Json::Obj(vec![
                ("value-count".to_string(), Json::UInt(5)),
                (
                    "values".to_string(),
                    Json::Obj(vec![
                        ("of".to_string(), Json::UInt(177247)),
                        ("university".to_string(), Json::UInt(147649)),
                        ("department".to_string(), Json::UInt(128741)),
                        ("and".to_string(), Json::UInt(102652)),
                        ("medicine".to_string(), Json::UInt(96232)),
                    ]),
                ),
            ]),
        ),
        (
            "orcid".to_string(),
            Json::Obj(vec![
                ("value-count".to_string(), Json::UInt(10)),
                (
                    "values".to_string(),
                    Json::Obj(vec![(
                        "http://orcid.org/0000-0002-0270-1711".to_string(),
                        Json::UInt(67),
                    )]),
                ),
            ]),
        ),
    ])
}

#[test]
fn proto_facets_deserialize() {
    let facets = facets_value();
    let map = facet_map_from_json(&facets).unwrap();
    assert_eq!(2, map.len());
}

#[test]
fn mod_facets_deserialize() {
    let facets = facets_value();
    let map = facet_map_from_json(&facets).unwrap();
    assert_eq!("affiliation", map[0].0.as_str());
    assert_eq!(5, map[0].1.value_count);
    assert_eq!("orcid", map[1].0.as_str());
    assert_eq!(67, map[1].1.values[0].1);
}

const AGENCY_STR: &str = r#"{"status":"ok","message-type":"work-agency","message-version":"1.0.0","message":{"DOI":"10.1037\/0003-066x.59.1.29","agency":{"id":"crossref","label":"Crossref"}}}"#;

#[test]
fn proto_agency_msg_deserialize() {
    let agency = decode(AGENCY_STR).unwrap();

    assert!(agency.is_work_ageny());
}

#[test]
fn mod_agency_msg_deserialize() {
    let agency = decode(AGENCY_STR).unwrap();

    assert!(agency.is_work_ageny());
}

const FUNDER_LIST_STR: &str = r#"{"status":"ok","message-type":"funder-list","message-version":"1.0.0","message":{"items-per-page":2,"query":{"start-index":0,"search-terms":"NSF"},"total-results":9,"items":[{ "id": "501100004190",
  "location": "Norway",
  "name": "Norsk  Sykepleierforbund",
  "alt-names": [
    "NSF"
  ],
  "uri": "http:\/\/dx.doi.org\/10.13039\/501100004190",
  "replaces": [],
  "replaced-by": [],
  "tokens": [
    "norsk"
  ]
}]}}"#;

#[test]
fn proto_funder_list_msg_deserialize() {
    let funders = decode(FUNDER_LIST_STR).unwrap();

    assert!(funders.is_funder_list());
}

#[test]
fn mod_funder_list_msg_deserialize() {
    let funders = decode(FUNDER_LIST_STR).unwrap();

    assert!(funders.is_funder_list());
}

const FUNDER_STR: &str = r#"{"status":"ok","message-type":"funder","message-version":"1.0.0","message":{ "id": "501100004190",
  "location": "Norway",
  "name": "Norsk  Sykepleierforbund",
  "alt-names": [
    "NSF"
  ],
  "uri": "http:\/\/dx.doi.org\/10.13039\/501100004190",
  "replaces": [],
  "replaced-by": [],
  "tokens": [
    "norsk"
  ],
  "work-count": 43,
  "descendants": [],
  "hierarchy-names": {
    "100000019": "National Hemophilia Foundation"
  },
  "descendant-work-count": 43,
    "hierarchy": {
      "100000019": {}
  }
}}"#;

#[test]
fn proto_funder_msg_deserialize() {
    let funder = decode(FUNDER_STR).unwrap();

    assert!(funder.is_funder());
}

#[test]
fn mod_funder_msg_deserialize() {
    let funder = decode(FUNDER_STR).unwrap();

    assert!(funder.is_funder());
}

const FUNDER_STR2: &str = r#"{"status":"ok","message-type":"funder","message-version":"1.0.0","message":{"hierarchy-names":{"100006130":"Office","100000015":"U.S. Department of Energy","100013165":"National"},"replaced-by":[],"work-count":44026,"name":"U.S. Department of Energy","descendants":["100006166"],"descendant-work-count":68704,"id":"100000015","tokens":["us"],"replaces":[],"uri":"http:\/\/dx.doi.org\/10.13039\/100000015","hierarchy":{"100000015":{"100006130":{"more":true},"100013165":{},"100006138":{"more":true}}},"alt-names":["DOE"],"location":"United States"}}"#;

#[test]
fn proto_funder_msg_deserialize2() {
    let funder = decode(FUNDER_STR2).unwrap();

    assert!(funder.is_funder());
}

#[test]
fn mod_funder_msg_deserialize2() {
    let funder = decode(FUNDER_STR2).unwrap();

    assert!(funder.is_funder());
}

const PREFIX_STR: &str = r#"{"status":"ok","message-type":"prefix","message-version":"1.0.0","message":{"member":"http:\/\/id.crossref.org\/member\/78","name":"Elsevier BV","prefix":"http:\/\/id.crossref.org\/prefix\/10.1016"}}"#;

#[test]
fn proto_prefix_msg_deserialize() {
    let prefix = decode(PREFIX_STR).unwrap();

    assert!(prefix.is_prefix());
}

#[test]
fn mod_prefix_msg_deserialize() {
    let prefix = decode(PREFIX_STR).unwrap();

    assert!(prefix.is_prefix());
}

const MEMBER_PAYLOAD: &str = r#"{"last-status-check-time":1551766727771,"primary-name":"Society for Leukocyte Biology","counts":{"total-dois":0,"current-dois":0,"backfile-dois":0},"breakdowns":{"dois-by-issued-year":[]},"prefixes":["10.1189"],"coverage":{"affiliations-current":0,"similarity-checking-current":0,"funders-backfile":0,"licenses-backfile":0,"funders-current":0,"affiliations-backfile":0,"resource-links-backfile":0,"orcids-backfile":0,"update-policies-current":0,"open-references-backfile":0,"orcids-current":0,"similarity-checking-backfile":0,"references-backfile":0,"award-numbers-backfile":0,"update-policies-backfile":0,"licenses-current":0,"award-numbers-current":0,"abstracts-backfile":0,"resource-links-current":0,"abstracts-current":0,"open-references-current":0,"references-current":0},"prefix":[{"value":"10.1189","name":"Society for Leukocyte Biology","public-references":false,"reference-visibility":"limited"}],"id":183,"tokens":["society","for","leukocyte","biology"],"counts-type":{"all":{},"current":{},"backfile":{}},"coverage-type":{"all":null,"backfile":null,"current":null},"flags":{"deposits-abstracts-current":false,"deposits-orcids-current":false,"deposits":false,"deposits-affiliations-backfile":false,"deposits-update-policies-backfile":false,"deposits-similarity-checking-backfile":false,"deposits-award-numbers-current":false,"deposits-resource-links-current":false,"deposits-articles":false,"deposits-affiliations-current":false,"deposits-funders-current":false,"deposits-references-backfile":false,"deposits-abstracts-backfile":false,"deposits-licenses-backfile":false,"deposits-award-numbers-backfile":false,"deposits-open-references-backfile":false,"deposits-open-references-current":false,"deposits-references-current":false,"deposits-resource-links-backfile":false,"deposits-orcids-backfile":false,"deposits-funders-backfile":false,"deposits-update-policies-current":false,"deposits-similarity-checking-current":false,"deposits-licenses-current":false},"location":"9650 Rockville Pike Attn: Lynn Willis Bethesda MD 20814 United States","names":["Society for Leukocyte Biology"]}"#;

fn members_list_body() -> String {
    format!(
        r#"{{"status":"ok","message-type":"member-list","message-version":"1.0.0","message":{{"items-per-page":2,"query":{{"start-index":0,"search-terms":null}},"total-results":10257,"items":[{}]}}}}"#,
        MEMBER_PAYLOAD
    )
}

fn member_body() -> String {
    format!(
        r#"{{"status":"ok","message-type":"member","message-version":"1.0.0","message":{}}}"#,
        MEMBER_PAYLOAD
    )
}

#[test]
fn proto_members_list_msg_deserialize() {
    let members_list = decode(&members_list_body()).unwrap();

    assert!(members_list.is_member_list());
}

#[test]
fn mod_members_list_msg_deserialize() {
    let members_list = decode(&members_list_body()).unwrap();

    assert!(members_list.is_member_list());
}

#[test]
fn proto_member_msg_deserialize() {
    let member = decode(&member_body()).unwrap();

    assert!(member.is_member());
}

#[test]
fn mod_member_msg_deserialize() {
    let member = decode(&member_body()).unwrap();

    assert!(member.is_member());
}

const JOURNAL_PAYLOAD: &str = r#"{"last-status-check-time":null,"counts":null,"breakdowns":null,"publisher":"Fundacao Educacional de Criciuma- FUCRI","coverage":null,"title":"A INFLU\u00caNCIA DA PUBLICIDADE NA TRANSI\u00c7\u00c3O NUTRICIONAL UMA S\u00cdNTESE PARA ENTENDER A OBESIDADE","subjects":[],"coverage-type":null,"flags":null,"ISSN":[],"issn-type":[]}"#;

fn journals_list_body() -> String {
    format!(
        r#"{{"status":"ok","message-type":"journal-list","message-version":"1.0.0","message":{{"items-per-page":2,"query":{{"start-index":0,"search-terms":null}},"total-results":10257,"items":[{}]}}}}"#,
        JOURNAL_PAYLOAD
    )
}

#[test]
fn proto_journals_list_msg_deserialize() {
    let journal_list = decode(&journals_list_body()).unwrap();

    assert!(journal_list.is_journal_list());
}

#[test]
fn mod_journals_list_msg_deserialize() {
    let journal_list = decode(&journals_list_body()).unwrap();

    assert!(journal_list.is_journal_list());
}

fn journal_body() -> String {
    format!(
        r#"{{"status":"ok","message-type":"journal","message-version":"1.0.0","message":{}}}"#,
        JOURNAL_PAYLOAD
    )
}

#[test]
fn proto_journal_msg_deserialize() {
    let journal = decode(&journal_body()).unwrap();

    assert!(journal.is_journal());
}

#[test]
fn mod_journal_msg_deserialize() {
    let journal = decode(&journal_body()).unwrap();

    assert!(journal.is_journal());
}

const TYPE_LIST_STR: &str = r#"{"status":"ok","message-type":"type-list","message-version":"1.0.0","message":{"total-results":27,"items":[{"id":"book-section","label":"Book Section"},{"id":"monograph","label":"Monograph"}]}}"#;

#[test]
fn proto_type_list_msg_deserialize() {
    let type_list = decode(TYPE_LIST_STR).unwrap();

    assert!(type_list.is_type_list());
}

#[test]
fn mod_type_list_msg_deserialize() {
    let type_list = decode(TYPE_LIST_STR).unwrap();

    assert!(type_list.is_type_list());
}

const TYPE_STR: &str = r#"{"status":"ok","message-type":"type","message-version":"1.0.0","message":{"id":"book-section","label":"Book Section"}}"#;

#[test]
fn proto_type_msg_deserialize() {
    let type_ = decode(TYPE_STR).unwrap();

    assert!(type_.is_type());
}

#[test]
fn mod_type_msg_deserialize() {
    let type_ = decode(TYPE_STR).unwrap();

    assert!(type_.is_type());
}

const FAILURE_STR: &str = r#"{"status":"failed","message-type":"validation-failure","message":[{"type":"parameter-not-allowed","value":"query.*","message":"This route does not support field query parameters"}]}"#;

#[test]
fn proto_validation_failure_deserialize() {
    let failure = decode(FAILURE_STR).unwrap();

    assert!(failure.is_validation_failure());
}

#[test]
fn mod_validation_failure_deserialize() {
    let failure = decode(FAILURE_STR).unwrap();

    assert!(failure.is_validation_failure());
}

const WORK_STR: &str = r#"{"status":"ok","message-type":"work","message-version":"1.0.0","message":{"indexed":{"date-parts":[[2019,2,14]],"date-time":"2019-02-14T05:10:15Z","timestamp":1550121015066},"reference-count":105,"publisher":"American Psychological Association (APA)","issue":"1","content-domain":{"domain":[],"crossmark-restriction":false},"short-container-title":["American Psychologist"],"DOI":"10.1037\/0003-066x.59.1.29","type":"journal-article","created":{"date-parts":[[2004,1,21]],"date-time":"2004-01-21T14:31:19Z","timestamp":1074695479000},"page":"29-40","source":"Crossref","is-referenced-by-count":83,"title":["How the Mind Hurts and Heals the Body."],"prefix":"10.1037","volume":"59","author":[{"given":"Oakley","family":"Ray","sequence":"first","affiliation":[]}],"member":"15","published-online":{"date-parts":[[2004]]},"container-title":["American Psychologist"],"original-title":[],"language":"en","link":[{"URL":"http:\/\/psycnet.apa.org\/journals\/amp\/59\/1\/29.pdf","content-type":"unspecified","content-version":"vor","intended-application":"similarity-checking"}],"deposited":{"date-parts":[[2018,4,8]],"date-time":"2018-04-08T18:56:17Z","timestamp":1523213777000},"score":1.0,"subtitle":[],"short-title":[],"issued":{"date-parts":[[2004]]},"references-count":105,"journal-issue":{"published-online":{"date-parts":[[2004]]},"issue":"1"},"alternative-id":["2004-10043-004","14736318"],"URL":"http:\/\/dx.doi.org\/10.1037\/0003-066x.59.1.29","relation":{},"ISSN":["1935-990X","0003-066X"],"issn-type":[{"value":"0003-066X","type":"print"},{"value":"1935-990X","type":"electronic"}]}}"#;

#[test]
fn work_msg_deserialize() {
    let work = decode(WORK_STR).unwrap();

    assert!(work.is_work());
}

#[test]
fn work_fields_survive_the_decode() {
    let work = match decode(WORK_STR).unwrap().message {
        Some(Message::Work(w)) => w,
        other => panic!("expected a work message, got {:?}", other),
    };
    assert_eq!("10.1037/0003-066x.59.1.29", work.doi.as_str());
    assert_eq!(105, work.references_count);
    assert_eq!(vec!["How the Mind Hurts and Heals the Body.".to_string()], work.title);
    assert_eq!("Ray", work.author[0].family.as_str());
    assert_eq!(vec![vec![2019, 2, 14]], work.indexed.date_parts.0);
}

#[test]
fn work_funders_and_trials_survive_the_decode() {
    let body = r#"{"status":"ok","message-type":"work","message-version":"1.0.0","message":{"publisher":"p","title":["t"],"references-count":0,"is-referenced-by-count":0,"source":"Crossref","prefix":"10.1","DOI":"10.1/a","URL":"http://dx.doi.org/10.1/a","member":"1","type":"journal-article","abstract":"<jats:p>short</jats:p>","funder":[{"name":"NSF","DOI":"10.13039/100000001","award":["123"],"doi-asserted-by":"crossref"}],"clinical-trial-number":[{"clinical-trial-number":"NCT0001","registry":"10.18810/clinical-trials-gov"}],"indexed":{"date-parts":[[2020,1,1]],"date-time":"2020-01-01T00:00:00Z","timestamp":1577836800000},"issued":{"date-parts":[[2020]]}}}"#;
    let work = match decode(body).unwrap().message {
        Some(Message::Work(w)) => w,
        other => panic!("expected a work message, got {:?}", other),
    };
    assert_eq!("<jats:p>short</jats:p>", work.abstract_.as_deref().unwrap());
    assert_eq!("NSF", work.funder[0].name.as_str());
    assert_eq!(vec!["123".to_string()], work.funder[0].award);
    assert_eq!("NCT0001", work.clinical_trial_number[0].clinical_trial_number.as_str());

    // a funder entry without its required name fails the whole decode
    let bad = body.replace(r#""name":"NSF","#, "");
    assert!(decode(&bad).is_err());
}

#[test]
fn agency_singleton_decodes_with_its_doi() {
    let body = r#"{"status":"ok","message-type":"work-agency","message-version":"1.0.0","message":{"DOI":"10.1/x","agency":{"id":"crossref","label":"Crossref"}}}"#;
    let resp = decode(body).unwrap();
    assert_eq!(MessageType::WorkAgency, resp.message_type);
    let agency = resp.into_work_agency().unwrap();
    assert_eq!("10.1/x", agency.doi.as_str());
    assert_eq!("crossref", agency.agency.id.as_str());
}

#[test]
fn funder_list_keeps_total_results_and_rejects_the_singleton_shape() {
    let resp = decode(FUNDER_LIST_STR).unwrap();
    let list = resp.into_funder_list().unwrap();
    assert_eq!(9, list.total_results);
    assert_eq!(1, list.items.len());
    assert_eq!("Norsk  Sykepleierforbund", list.items[0].name.as_str());

    // the same payload read against the singleton funder shape must fail
    let as_singleton = FUNDER_LIST_STR.replace("funder-list", "funder");
    let err = decode(&as_singleton).unwrap_err();
    assert!(matches!(err.kind, ErrorKind::Serde { .. }));
}

#[test]
fn work_discriminant_rejects_a_list_payload() {
    let body = r#"{"status":"ok","message-type":"work","message-version":"1.0.0","message":{"total-results":1,"items":[]}}"#;
    let err = decode(body).unwrap_err();
    assert!(matches!(err.kind, ErrorKind::Serde { .. }));
}

#[test]
fn resource_not_found_short_circuits() {
    let resource = ResourceComponent::Works(Works::doi("10.1/x"));
    let err = decode_response("Resource not found", resource).unwrap_err();
    assert!(matches!(err.kind, ErrorKind::ResourceNotFound { .. }));
}

#[test]
fn route_not_found_envelope_decodes() {
    let body = r#"{"status":"ok","message-type":"route-not-found","message-version":"1.0.0"}"#;
    let resp = decode(body).unwrap();
    assert_eq!(MessageType::RouteNotFound, resp.message_type);
    assert!(resp.message.is_none());
}

#[test]
fn missing_message_version_defaults() {
    let resp = decode(FAILURE_STR).unwrap();
    assert_eq!("1.0.0", resp.message_version.as_str());
}

#[test]
fn unknown_message_type_is_rejected() {
    let body = r#"{"status":"ok","message-type":"works-galore","message-version":"1.0.0"}"#;
    let err = decode(body).unwrap_err();
    assert!(matches!(err.kind, ErrorKind::Serde { .. }));
}

#[test]
fn malformed_json_is_a_serde_error() {
    let err = decode("{\"status\": ").unwrap_err();
    assert!(matches!(err.kind, ErrorKind::Serde { .. }));
}

#[test]
fn unexpected_item_and_missing_message() {
    let resp = decode(PREFIX_STR).unwrap();
    let err = resp.into_work_list().unwrap_err();
    match err.kind {
        ErrorKind::UnexpectedItem { expected, got } => {
            assert_eq!(MessageType::WorkList, expected);
            assert_eq!(MessageType::Prefix, got);
        },
        other => panic!("expected UnexpectedItem, got {:?}", other),
    }

    let body = r#"{"status":"ok","message-type":"work-list","message-version":"1.0.0"}"#;
    let resp = decode(body).unwrap();
    let err = resp.into_work_list().unwrap_err();
    assert!(matches!(err.kind, ErrorKind::MissingMessage { expected: MessageType::WorkList }));
}
