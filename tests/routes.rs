use iani::error::ClientError;
use iani::filter::GwasFilter;
use iani::routes::{
    entity_lookup, file_listing, request_url, scoped_associations, Payload, Route,
    DEFAULT_BASE_URL,
};

#[test]
fn unscoped_associations_route_to_the_listing() {
    assert_eq!(scoped_associations(None, None), Ok(Route::Associations));
}

#[test]
fn trait_scope_routes_to_trait_associations() {
    assert_eq!(
        scoped_associations(Some("trait"), Some("x")),
        Ok(Route::TraitAssociations { trait_id: "x".to_string() })
    );
    assert_eq!(
        scoped_associations(Some("variant"), Some("rs1")),
        Ok(Route::VariantAssociations { variant_id: "rs1".to_string() })
    );
    assert_eq!(
        scoped_associations(Some("chromosome"), Some("2")),
        Ok(Route::ChromosomeAssociations { chromosome: "2".to_string() })
    );
    assert_eq!(
        scoped_associations(Some("study"), Some("GCST1")),
        Ok(Route::StudyAssociations { study_accession: "GCST1".to_string() })
    );
}

#[test]
fn scope_without_matching_id_is_invalid() {
    assert_eq!(scoped_associations(Some("trait"), None), Err(ClientError::InvalidScope));
    assert_eq!(scoped_associations(None, Some("x")), Err(ClientError::InvalidScope));
    assert_eq!(scoped_associations(Some("gene"), Some("x")), Err(ClientError::InvalidScope));
}

#[test]
fn entity_lookup_routes_by_kind_and_id() {
    assert_eq!(entity_lookup("chromosomes", None), Ok(Route::Chromosomes));
    assert_eq!(
        entity_lookup("chromosomes", Some("1")),
        Ok(Route::Chromosome { chromosome: "1".to_string() })
    );
    assert_eq!(entity_lookup("study", None), Ok(Route::Studies));
    assert_eq!(
        entity_lookup("studies", Some("GCST1")),
        Ok(Route::Study { study_accession: "GCST1".to_string() })
    );
    assert_eq!(entity_lookup("traits", None), Ok(Route::Traits));
    assert_eq!(entity_lookup("trait", Some("E")), Ok(Route::Trait { trait_id: "E".to_string() }));
    assert_eq!(
        entity_lookup("genes", None),
        Err(ClientError::UnsupportedEntityKind { kind: "genes".to_string() })
    );
}

#[test]
fn file_listing_routes() {
    assert_eq!(
        file_listing("study", "GCST1", None),
        Ok(Route::StudyFiles { study_accession: "GCST1".to_string() })
    );
    assert_eq!(file_listing("trait", "E", None), Ok(Route::TraitFiles { trait_id: "E".to_string() }));
    assert_eq!(
        file_listing("trait", "E", Some("GCST1")),
        Ok(Route::TraitStudyFiles { trait_id: "E".to_string(), study_accession: "GCST1".to_string() })
    );
    assert_eq!(file_listing("study", "GCST1", Some("E")), Err(ClientError::InvalidFileScope));
    assert_eq!(file_listing("chromosome", "1", None), Err(ClientError::InvalidFileScope));
}

#[test]
fn route_paths_and_payloads() {
    let t = || "T".to_string();
    let st = || "S".to_string();
    let cases = vec![
        (Route::Associations, "/associations", Payload::AssociationsPage),
        (Route::VariantAssociations { variant_id: "rs1".to_string() }, "/associations/rs1", Payload::AssociationsPage),
        (Route::Chromosomes, "/chromosomes", Payload::ChromosomesPage),
        (Route::Chromosome { chromosome: "1".to_string() }, "/chromosomes/1", Payload::Chromosome),
        (Route::ChromosomeAssociations { chromosome: "1".to_string() }, "/chromosomes/1/associations", Payload::AssociationsPage),
        (
            Route::ChromosomeVariantAssociations { chromosome: "1".to_string(), variant_id: "rs1".to_string() },
            "/chromosomes/1/associations/rs1",
            Payload::AssociationsPage,
        ),
        (Route::Studies, "/studies", Payload::StudyGroupsPage),
        (Route::Study { study_accession: st() }, "/studies/S", Payload::Study),
        (Route::StudyAssociations { study_accession: st() }, "/studies/S/associations", Payload::AssociationsPage),
        (Route::Traits, "/traits", Payload::TraitsPage),
        (Route::Trait { trait_id: t() }, "/traits/T", Payload::Trait),
        (Route::TraitAssociations { trait_id: t() }, "/traits/T/associations", Payload::AssociationsPage),
        (Route::TraitStudies { trait_id: t() }, "/traits/T/studies", Payload::StudiesPage),
        (Route::TraitStudy { trait_id: t(), study_accession: st() }, "/traits/T/studies/S", Payload::Study),
        (
            Route::TraitStudyAssociations { trait_id: t(), study_accession: st() },
            "/traits/T/studies/S/associations",
            Payload::AssociationsPage,
        ),
        (Route::StudyFiles { study_accession: st() }, "/studies/S/summary-statistics", Payload::FilesPage),
        (Route::TraitFiles { trait_id: t() }, "/traits/T/summary-statistics", Payload::FilesPage),
        (
            Route::TraitStudyFiles { trait_id: t(), study_accession: st() },
            "/traits/T/studies/S/summary-statistics",
            Payload::FilesPage,
        ),
    ];
    for (route, path, payload) in cases {
        assert_eq!(route.path(), path);
        assert_eq!(route.payload(), payload);
    }
}

#[test]
fn single_entity_routes_send_no_filter() {
    let f = GwasFilter::paging(Some(0), Some(20));
    let u = request_url(DEFAULT_BASE_URL, &Route::Trait { trait_id: "E".to_string() }, &f).unwrap();
    assert!(u.query.is_empty());
    assert_eq!(u.text, "https://www.ebi.ac.uk/gwas/summary-statistics/api/traits/E");
    let u = request_url(DEFAULT_BASE_URL, &Route::Traits, &f).unwrap();
    assert_eq!(u.query, f.to_params());
    assert_eq!(u.text, "https://www.ebi.ac.uk/gwas/summary-statistics/api/traits?start=0&size=20");
    let u = request_url(DEFAULT_BASE_URL, &Route::Chromosomes, &f).unwrap();
    assert!(u.query.is_empty());
    assert!(!Route::StudyFiles { study_accession: "S".to_string() }.takes_filter());
    assert!(Route::Studies.takes_filter());
}
