use iani::filter::{bp_range_of, p_value_range_of, GwasFilter};
use iani::text::{contains_str, render_i32, render_i64, str_eq};

fn pairs(v: &[(&str, &str)]) -> Vec<(String, String)> {
    v.iter().map(|(k, x)| (k.to_string(), x.to_string())).collect()
}

#[test]
fn empty_filter_emits_no_parameter() {
    assert!(GwasFilter::empty().to_params().is_empty());
    assert!(GwasFilter::default().to_params().is_empty());
}

#[test]
fn full_filter_emits_every_documented_key_in_order() {
    let f = GwasFilter {
        p_value_range: Some(("0.0".to_string(), "1e-5".to_string())),
        bp_location_range: Some((-5, 1200)),
        study: Some("GCST000001".to_string()),
        trait_id: Some("EFO_0001".to_string()),
        reveal: Some("raw".to_string()),
        start: Some(0),
        size: Some(20),
    };
    assert_eq!(
        f.to_params(),
        pairs(&[
            ("p_lower", "0.0"),
            ("p_upper", "1e-5"),
            ("bp_lower", "-5"),
            ("bp_upper", "1200"),
            ("study_accession", "GCST000001"),
            ("trait", "EFO_0001"),
            ("reveal", "raw"),
            ("start", "0"),
            ("size", "20"),
        ])
    );
}

#[test]
fn key_set_follows_which_fields_are_set() {
    let a = GwasFilter { study: Some("A".to_string()), size: Some(10), ..Default::default() };
    let b = GwasFilter { study: Some("B".to_string()), size: Some(-3), ..Default::default() };
    let keys = |f: &GwasFilter| f.to_params().into_iter().map(|(k, _)| k).collect::<Vec<_>>();
    assert_eq!(keys(&a), vec!["study_accession".to_string(), "size".to_string()]);
    assert_eq!(keys(&a), keys(&b));
    let paging = GwasFilter::paging(Some(40), None);
    assert_eq!(paging.to_params(), pairs(&[("start", "40")]));
}

#[test]
fn values_pass_through_unvalidated() {
    let f = GwasFilter {
        p_value_range: Some(("high".to_string(), "-1".to_string())),
        bp_location_range: Some((i64::MIN, i64::MAX)),
        ..Default::default()
    };
    assert_eq!(
        f.to_params(),
        pairs(&[
            ("p_lower", "high"),
            ("p_upper", "-1"),
            ("bp_lower", "-9223372036854775808"),
            ("bp_upper", "9223372036854775807"),
        ])
    );
}

#[test]
fn one_sided_p_value_bounds_default_to_unit_interval() {
    assert_eq!(
        p_value_range_of(Some("1e-8".to_string()), None),
        Some(("1e-8".to_string(), "1.0".to_string()))
    );
    assert_eq!(
        p_value_range_of(None, Some("0.05".to_string())),
        Some(("0.0".to_string(), "0.05".to_string()))
    );
    assert_eq!(
        p_value_range_of(Some("0.1".to_string()), Some("0.2".to_string())),
        Some(("0.1".to_string(), "0.2".to_string()))
    );
    assert_eq!(p_value_range_of(None, None), None);
}

#[test]
fn base_pair_range_needs_both_bounds() {
    assert_eq!(bp_range_of(Some(1), Some(2)), Some((1, 2)));
    assert_eq!(bp_range_of(Some(1), None), None);
    assert_eq!(bp_range_of(None, Some(2)), None);
}

#[test]
fn association_filter_from_scalars() {
    let f = GwasFilter::for_associations(
        None,
        Some("1e-5".to_string()),
        Some(100),
        None,
        None,
        Some("EFO_1".to_string()),
        Some("all".to_string()),
        None,
        Some(10),
    );
    assert_eq!(f.p_value_range, Some(("0.0".to_string(), "1e-5".to_string())));
    assert_eq!(f.bp_location_range, None);
    assert_eq!(
        f.to_params(),
        pairs(&[
            ("p_lower", "0.0"),
            ("p_upper", "1e-5"),
            ("trait", "EFO_1"),
            ("reveal", "all"),
            ("size", "10"),
        ])
    );
}

#[test]
fn decimal_rendering() {
    assert_eq!(render_i64(0), "0");
    assert_eq!(render_i64(7), "7");
    assert_eq!(render_i64(-42), "-42");
    assert_eq!(render_i64(1234567890), "1234567890");
    assert_eq!(render_i64(i64::MIN), i64::MIN.to_string());
    assert_eq!(render_i32(i32::MAX), "2147483647");
    assert_eq!(render_i32(-10), "-10");
}

#[test]
fn text_search_and_equality() {
    assert!(contains_str("application/vnd.api+json; application/json", "application/json"));
    assert!(contains_str("abc", ""));
    assert!(!contains_str("text/html", "application/json"));
    assert!(!contains_str("json", "application/json"));
    assert!(str_eq("trait", "trait"));
    assert!(!str_eq("trait", "traits"));
    assert!(!str_eq("study", "trait"));
}
