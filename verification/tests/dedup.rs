use sentinel::dedup::{DedupGate, DedupKey};
use sentinel::normalized_alert::{AlertSource, NormalizedAlert};

fn alert(source: AlertSource, source_id: &str) -> NormalizedAlert {
    NormalizedAlert {
        source,
        source_id: source_id.to_string(),
        event: "Tornado Warning".to_string(),
        headline: None,
        description: None,
        instruction: None,
        severity: Some("Extreme".to_string()),
        urgency: Some("Immediate".to_string()),
        certainty: Some("Observed".to_string()),
        effective: Some("2026-06-16T13:00:00-05:00".to_string()),
        expires: Some("2026-06-16T13:45:00-05:00".to_string()),
        area_desc: Some("Central Harris County".to_string()),
        same_codes: vec!["048201".to_string()],
        ugc_codes: vec!["TXC201".to_string()],
        message_text: "NWS Alert: Tornado Warning".to_string(),
    }
}

#[test]
fn same_noaa_api_source_id_suppresses_duplicate() {
    let mut gate = DedupGate::default();
    let first = alert(AlertSource::NwsApi, "urn:oid:1");
    let second = alert(AlertSource::NwsApi, "urn:oid:1");

    assert!(!gate.check_and_record(&first, 100).is_duplicate);
    assert!(gate.check_and_record(&second, 101).is_duplicate);
}

#[test]
fn different_noaa_api_source_ids_do_not_suppress_when_fuzzy_fields_differ() {
    let mut gate = DedupGate::default();
    let first = alert(AlertSource::NwsApi, "urn:oid:1");
    let mut second = alert(AlertSource::NwsApi, "urn:oid:2");
    second.event = "Flash Flood Warning".to_string();

    assert!(!gate.check_and_record(&first, 100).is_duplicate);
    assert!(!gate.check_and_record(&second, 101).is_duplicate);
}

#[test]
fn same_normalized_event_location_time_suppresses_across_sources() {
    let mut gate = DedupGate::default();
    let api = alert(AlertSource::NwsApi, "urn:oid:1");
    let same = alert(AlertSource::Same, "same-zczc-1");

    assert!(!gate.check_and_record(&api, 100).is_duplicate);
    assert!(gate.check_and_record(&same, 101).is_duplicate);
}

#[test]
fn different_event_does_not_suppress() {
    let mut gate = DedupGate::default();
    let first = alert(AlertSource::NwsApi, "urn:oid:1");
    let mut second = alert(AlertSource::Same, "same-zczc-1");
    second.event = "Severe Thunderstorm Warning".to_string();

    assert!(!gate.check_and_record(&first, 100).is_duplicate);
    assert!(!gate.check_and_record(&second, 101).is_duplicate);
}

#[test]
fn different_location_does_not_suppress() {
    let mut gate = DedupGate::default();
    let first = alert(AlertSource::NwsApi, "urn:oid:1");
    let mut second = alert(AlertSource::Same, "same-zczc-1");
    second.same_codes = vec!["048203".to_string()];
    second.ugc_codes = vec!["TXC203".to_string()];
    second.area_desc = Some("Different County".to_string());

    assert!(!gate.check_and_record(&first, 100).is_duplicate);
    assert!(!gate.check_and_record(&second, 101).is_duplicate);
}

#[test]
fn expired_dedup_entry_no_longer_suppresses() {
    let mut gate = DedupGate::new(10);
    let first = alert(AlertSource::NwsApi, "urn:oid:1");
    let second = alert(AlertSource::NwsApi, "urn:oid:1");

    assert!(!gate.check_and_record(&first, 100).is_duplicate);
    assert!(!gate.check_and_record(&second, 111).is_duplicate);
}

#[test]
fn empty_optional_fields_still_produce_deterministic_keys() {
    let mut first = alert(AlertSource::NwsApi, "urn:oid:1");
    first.effective = None;
    first.expires = None;
    first.area_desc = None;
    first.same_codes = Vec::new();
    first.ugc_codes = Vec::new();
    let mut second = first.clone();
    second.source = AlertSource::Same;
    second.source_id = "same-empty".to_string();

    assert_eq!(DedupKey::fuzzy(&first), DedupKey::fuzzy(&second));
    assert_eq!(
        DedupKey::fuzzy(&first),
        DedupKey::Fuzzy("tornado warning|||||".to_string())
    );
}

#[test]
fn dedup_module_is_not_wired_into_live_delivery() {
    let mut gate = DedupGate::default();
    let alert = alert(AlertSource::NwsApi, "urn:oid:1");

    let decision = gate.check_and_record(&alert, 100);

    assert!(!decision.is_duplicate);
    assert_eq!(decision.key, DedupKey::fuzzy(&alert));
}

#[test]
fn entry_at_exactly_the_ttl_still_suppresses() {
    let mut gate = DedupGate::new(10);
    let first = alert(AlertSource::NwsApi, "urn:oid:1");
    assert!(!gate.check_and_record(&first, 100).is_duplicate);
    assert!(gate.check_and_record(&first, 110).is_duplicate);
}

#[test]
fn exact_key_normalizes_the_source_id() {
    let a = alert(AlertSource::NwsApi, "  URN:OID:1 ");
    assert_eq!(
        DedupKey::exact_source(&a),
        DedupKey::ExactSource("nws_api:urn:oid:1".to_string())
    );
}

#[test]
fn duplicates_do_not_extend_the_suppression_window() {
    let mut gate = DedupGate::new(10);
    let first = alert(AlertSource::NwsApi, "urn:oid:1");

    assert!(!gate.check_and_record(&first, 0).is_duplicate);
    assert!(gate.check_and_record(&first, 8).is_duplicate);
    assert!(!gate.check_and_record(&first, 15).is_duplicate);
    assert!(gate.check_and_record(&first, 25).is_duplicate);
}

#[test]
fn fuzzy_key_ignores_ascii_case_and_spacing() {
    let first = alert(AlertSource::NwsApi, "urn:oid:1");
    let mut second = alert(AlertSource::Same, "same-1");
    second.event = "  TORNADO   warning ".to_string();
    second.area_desc = Some("central HARRIS county".to_string());

    assert_eq!(DedupKey::fuzzy(&first), DedupKey::fuzzy(&second));
}

#[test]
fn fuzzy_key_ignores_code_order_and_other_fields() {
    let mut first = alert(AlertSource::NwsApi, "urn:oid:1");
    first.same_codes = vec!["048201".to_string(), "048157".to_string()];
    first.ugc_codes = vec!["TXC201".to_string(), "TXC157".to_string()];
    let mut second = alert(AlertSource::Same, "same-2");
    second.same_codes = vec!["048157".to_string(), "048201".to_string()];
    second.ugc_codes = vec!["TXC157".to_string(), "TXC201".to_string()];
    second.headline = Some("Different headline".to_string());
    second.severity = Some("Minor".to_string());
    second.message_text = "Other text".to_string();

    assert_eq!(DedupKey::fuzzy(&first), DedupKey::fuzzy(&second));
}
