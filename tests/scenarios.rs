use iani::envelope::{decode_payload, read_response, Fetched};
use iani::error::ClientError;
use iani::filter::GwasFilter;
use iani::json::Json;
use iani::response::check_json_response;
use iani::routes::{entity_lookup, request_url, scoped_associations, Payload};

const BASE: &str = "https://api.example.org/gwas";

fn s(t: &str) -> Json {
    Json::Str(t.to_string())
}

fn obj(members: Vec<(&str, Json)>) -> Json {
    Json::Object(members.into_iter().map(|(k, v)| (k.to_string(), v)).collect())
}

#[test]
fn chromosome_lookup_end_to_end() {
    let route = entity_lookup("chromosomes", Some("1")).unwrap();
    let url = request_url(BASE, &route, &GwasFilter::default()).unwrap();
    assert_eq!(url.text, "https://api.example.org/gwas/chromosomes/1");
    assert_eq!(check_json_response(200, Some("application/json"), ""), Ok(()));
    let body = obj(vec![("chromosome", s("1")), ("_links", obj(vec![]))]);
    match decode_payload(route.payload(), body) {
        Ok(Fetched::Chromosome(c)) => {
            assert_eq!(c.chromosome, "1");
            assert_eq!(c.links, Some(Vec::new()));
        }
        other => panic!("unexpected {:?}", other),
    }
}

#[test]
fn trait_associations_end_to_end() {
    let filter = GwasFilter::for_associations(
        Some("0.0".to_string()),
        Some("1e-5".to_string()),
        None,
        None,
        None,
        Some("EFO_0001".to_string()),
        None,
        None,
        Some(10),
    );
    let route = scoped_associations(Some("trait"), Some("EFO_0001")).unwrap();
    let url = request_url(BASE, &route, &filter).unwrap();
    let parsed = url::Url::parse(&url.text).unwrap();
    assert_eq!(parsed.path(), "/gwas/traits/EFO_0001/associations");
    let mut pairs: Vec<(String, String)> =
        parsed.query_pairs().map(|(k, v)| (k.into_owned(), v.into_owned())).collect();
    pairs.sort();
    let mut expected = vec![
        ("trait".to_string(), "EFO_0001".to_string()),
        ("p_lower".to_string(), "0.0".to_string()),
        ("p_upper".to_string(), "1e-5".to_string()),
        ("size".to_string(), "10".to_string()),
    ];
    expected.sort();
    assert_eq!(pairs, expected);
    let body = obj(vec![(
        "_embedded",
        obj(vec![(
            "associations",
            obj(vec![
                ("0", obj(vec![("variant_id", s("rs1")), ("p_value", Json::Number("3e-6".to_string()))])),
                ("1", obj(vec![("variant_id", s("rs2")), ("trait", Json::Array(vec![s("EFO_0001")]))])),
            ]),
        )]),
    )]);
    match decode_payload(route.payload(), body) {
        Ok(Fetched::Associations(page)) => {
            assert!(page.links.is_none());
            let embedded = page.embedded.unwrap();
            assert_eq!(embedded[0].0, "associations");
            let by_id = &embedded[0].1.entries;
            assert_eq!(by_id.len(), 2);
            assert_eq!(by_id[0].0, "0");
            assert_eq!(by_id[0].1.variant_id, Some("rs1".to_string()));
            assert_eq!(by_id[0].1.p_value, Some("3e-6".to_string()));
            assert_eq!(by_id[1].1.trait_ids, Some(vec!["EFO_0001".to_string()]));
        }
        other => panic!("unexpected {:?}", other),
    }
}

#[test]
fn response_is_checked_before_it_is_decoded() {
    let body = || Some(obj(vec![("chromosome", s("1"))]));
    assert_eq!(
        read_response(Payload::Chromosome, 404, Some("application/json"), "gone", body()),
        Err(ClientError::Http { status: 404, body: "gone".to_string() })
    );
    assert_eq!(
        read_response(Payload::Chromosome, 200, Some("text/plain"), "x", body()),
        Err(ClientError::UnexpectedContentType { content_type: "text/plain".to_string() })
    );
    assert!(matches!(
        read_response(Payload::Chromosome, 200, None, "not json", None),
        Err(ClientError::Decode { .. })
    ));
    match read_response(Payload::Chromosome, 200, None, "{}", body()) {
        Ok(Fetched::Chromosome(c)) => assert_eq!(c.chromosome, "1"),
        other => panic!("unexpected {:?}", other),
    }
}
