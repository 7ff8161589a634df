use iani::decode::{FromJson, Keyed};
use iani::envelope::{decode_payload, AssociationsPage, ChromosomesPage, Fetched, StudyGroupsPage};
use iani::error::ClientError;
use iani::json::Json;
use iani::model::{Association, Chromosome, SummaryStatsFile, Trait};
use iani::routes::Payload;

fn s(t: &str) -> Json {
    Json::Str(t.to_string())
}

fn obj(members: Vec<(&str, Json)>) -> Json {
    Json::Object(members.into_iter().map(|(k, v)| (k.to_string(), v)).collect())
}

fn link(href: &str) -> Json {
    obj(vec![("href", s(href))])
}

#[test]
fn empty_object_is_an_empty_envelope() {
    let page = ChromosomesPage::from_json(obj(vec![])).unwrap();
    assert!(page.embedded.is_none());
    assert!(page.links.is_none());
    let page = AssociationsPage::from_json(obj(vec![])).unwrap();
    assert!(page.embedded.is_none());
    assert!(page.links.is_none());
}

#[test]
fn embedded_only_envelope_has_no_links() {
    let j = obj(vec![(
        "_embedded",
        obj(vec![("chromosomes", Json::Array(vec![obj(vec![("chromosome", s("1"))])]))]),
    )]);
    let page = ChromosomesPage::from_json(j).unwrap();
    assert!(page.links.is_none());
    let embedded = page.embedded.unwrap();
    assert_eq!(embedded.len(), 1);
    assert_eq!(embedded[0].0, "chromosomes");
    assert_eq!(embedded[0].1.len(), 1);
    assert_eq!(embedded[0].1[0].chromosome, "1");
    assert!(embedded[0].1[0].links.is_none());
}

#[test]
fn null_members_count_as_absent() {
    let j = obj(vec![("_embedded", Json::Null), ("_links", Json::Null)]);
    let page = ChromosomesPage::from_json(j).unwrap();
    assert!(page.embedded.is_none());
    assert!(page.links.is_none());
}

#[test]
fn envelope_links_pass_through() {
    let j = obj(vec![("_links", obj(vec![("self", link("http://x/self"))]))]);
    let page = ChromosomesPage::from_json(j).unwrap();
    let links = page.links.unwrap();
    assert_eq!(links.len(), 1);
    assert_eq!(links[0].0, "self");
    assert_eq!(links[0].1, link("http://x/self"));
}

#[test]
fn wrong_shapes_are_decode_errors() {
    assert!(matches!(ChromosomesPage::from_json(Json::Array(vec![])), Err(ClientError::Decode { .. })));
    let mapping_where_list_expected =
        obj(vec![("_embedded", obj(vec![("chromosomes", obj(vec![]))]))]);
    assert!(matches!(
        ChromosomesPage::from_json(mapping_where_list_expected),
        Err(ClientError::Decode { .. })
    ));
    assert!(matches!(
        ChromosomesPage::from_json(obj(vec![("_links", s("x"))])),
        Err(ClientError::Decode { .. })
    ));
    assert!(matches!(Chromosome::from_json(obj(vec![])), Err(ClientError::Decode { .. })));
    assert!(matches!(
        Chromosome::from_json(obj(vec![("chromosome", Json::Int(1))])),
        Err(ClientError::Decode { .. })
    ));
}

#[test]
fn chromosome_with_links() {
    let c = Chromosome::from_json(obj(vec![
        ("chromosome", s("X")),
        ("_links", obj(vec![("self", link("http://x/chromosomes/X"))])),
        ("extra", Json::Bool(true)),
    ]))
    .unwrap();
    assert_eq!(c.chromosome, "X");
    let links = c.links.unwrap();
    assert_eq!(links.len(), 1);
    assert_eq!(links[0].0, "self");
    assert_eq!(links[0].1.href, "http://x/chromosomes/X");
    assert!(matches!(
        Chromosome::from_json(obj(vec![("chromosome", s("X")), ("_links", obj(vec![("self", s("no"))]))])),
        Err(ClientError::Decode { .. })
    ));
}

#[test]
fn trait_reads_its_name_from_the_trait_member() {
    let t = Trait::from_json(obj(vec![("trait", s("EFO_0001"))])).unwrap();
    assert_eq!(t.trait_name, "EFO_0001");
    assert!(t.links.is_none());
}

#[test]
fn summary_stats_file_fields() {
    let f = SummaryStatsFile::from_json(obj(vec![
        ("study_accession", s("GCST1")),
        ("file_path", s("a/b.tsv")),
        ("file_size", Json::Int(1024)),
        ("trait_id", Json::Null),
        ("download_url", s("http://x/f.tsv")),
    ]))
    .unwrap();
    assert_eq!(f.study_accession, "GCST1");
    assert_eq!(f.file_path, "a/b.tsv");
    assert_eq!(f.file_size, Some(1024));
    assert_eq!(f.trait_id, None);
    assert_eq!(f.file_type, None);
    assert_eq!(f.download_url, Some("http://x/f.tsv".to_string()));
    assert!(matches!(
        SummaryStatsFile::from_json(obj(vec![("study_accession", s("GCST1"))])),
        Err(ClientError::Decode { .. })
    ));
}

#[test]
fn association_fields_are_all_optional() {
    let a = Association::from_json(obj(vec![])).unwrap();
    assert_eq!(a.variant_id, None);
    assert_eq!(a.p_value, None);
    assert_eq!(a.links, None);
    let a = Association::from_json(obj(vec![
        ("variant_id", s("rs123")),
        ("chromosome", Json::Int(7)),
        ("base_pair_location", Json::Int(123456789012)),
        ("trait", Json::Array(vec![s("EFO_1"), s("EFO_2")])),
        ("p_value", Json::Number("1.5e-8".to_string())),
        ("beta", Json::Int(-2)),
        ("se", Json::Null),
        ("_links", obj(vec![("variant", link("http://x/v"))])),
    ]))
    .unwrap();
    assert_eq!(a.variant_id, Some("rs123".to_string()));
    assert_eq!(a.chromosome, Some(7));
    assert_eq!(a.base_pair_location, Some(123456789012));
    assert_eq!(a.trait_ids, Some(vec!["EFO_1".to_string(), "EFO_2".to_string()]));
    assert_eq!(a.p_value, Some("1.5e-8".to_string()));
    assert_eq!(a.beta, Some("-2".to_string()));
    assert_eq!(a.se, None);
    assert_eq!(
        a.links,
        Some(vec![("variant".to_string(), link("http://x/v"))])
    );
}

#[test]
fn association_rejects_out_of_range_and_mistyped_fields() {
    assert!(matches!(
        Association::from_json(obj(vec![("chromosome", Json::Int(1 << 40))])),
        Err(ClientError::Decode { .. })
    ));
    assert!(matches!(
        Association::from_json(obj(vec![("p_value", s("small"))])),
        Err(ClientError::Decode { .. })
    ));
    assert!(matches!(
        Association::from_json(obj(vec![("trait", Json::Array(vec![Json::Int(1)]))])),
        Err(ClientError::Decode { .. })
    ));
    assert!(matches!(
        Association::from_json(obj(vec![("_links", Json::Array(vec![]))])),
        Err(ClientError::Decode { .. })
    ));
}

#[test]
fn study_listing_keeps_its_nesting() {
    let study = |a: &str| obj(vec![("study_accession", s(a))]);
    let j = obj(vec![(
        "_embedded",
        obj(vec![("studies", Json::Array(vec![Json::Array(vec![study("A"), study("B")]), Json::Array(vec![])]))]),
    )]);
    let page = StudyGroupsPage::from_json(j).unwrap();
    let embedded = page.embedded.unwrap();
    assert_eq!(embedded[0].0, "studies");
    let groups = &embedded[0].1;
    assert_eq!(groups.len(), 2);
    assert_eq!(groups[0].len(), 2);
    assert_eq!(groups[0][1].study_accession, "B");
    assert!(groups[1].is_empty());
}

#[test]
fn keyed_object_keeps_keys_in_order() {
    let k = Keyed::<Trait>::from_json(obj(vec![
        ("b", obj(vec![("trait", s("T2"))])),
        ("a", obj(vec![("trait", s("T1"))])),
    ]))
    .unwrap();
    assert_eq!(k.entries.len(), 2);
    assert_eq!(k.entries[0].0, "b");
    assert_eq!(k.entries[1].1.trait_name, "T1");
}

#[test]
fn payload_kind_selects_the_decoder() {
    match decode_payload(Payload::Chromosome, obj(vec![("chromosome", s("1"))])) {
        Ok(Fetched::Chromosome(c)) => assert_eq!(c.chromosome, "1"),
        other => panic!("unexpected {:?}", other),
    }
    assert!(matches!(
        decode_payload(Payload::Study, obj(vec![("chromosome", s("1"))])),
        Err(ClientError::Decode { .. })
    ));
    assert!(matches!(decode_payload(Payload::TraitsPage, obj(vec![])), Ok(Fetched::Traits(_))));
}
