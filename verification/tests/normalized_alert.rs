use sentinel::normalized_alert::{format_nws_message, AlertSource, NormalizedAlert};
use sentinel::nws_client::{NwsAlertFeature, NwsAlertProperties, NwsGeocode};

fn some(value: &str) -> Option<String> {
    Some(value.to_string())
}

fn empty_properties() -> NwsAlertProperties {
    NwsAlertProperties {
        id: None,
        event: None,
        headline: None,
        description: None,
        instruction: None,
        severity: None,
        urgency: None,
        certainty: None,
        effective: None,
        expires: None,
        ends: None,
        status: None,
        message_type: None,
        area_desc: None,
        geocode: None,
    }
}

fn minimal_feature() -> NwsAlertFeature {
    NwsAlertFeature {
        id: "https://api.weather.gov/alerts/urn:oid:1".to_string(),
        properties: NwsAlertProperties {
            id: some("urn:oid:1"),
            event: some("Tornado Warning"),
            headline: some("Tornado Warning issued June 16 at 1:00PM CDT"),
            description: some("A tornado warning is in effect."),
            instruction: some("Take shelter now."),
            severity: some("Extreme"),
            urgency: some("Immediate"),
            certainty: some("Observed"),
            effective: some("2026-06-16T13:00:00-05:00"),
            expires: some("2026-06-16T13:45:00-05:00"),
            ends: None,
            status: some("Actual"),
            message_type: some("Alert"),
            area_desc: some("Central Harris County"),
            geocode: Some(NwsGeocode {
                same: Some(vec!["048201".to_string()]),
                ugc: Some(vec!["TXC201".to_string()]),
            }),
        },
    }
}

fn missing_optional_feature() -> NwsAlertFeature {
    NwsAlertFeature {
        id: "https://api.weather.gov/alerts/urn:oid:2".to_string(),
        properties: NwsAlertProperties {
            id: some("urn:oid:2"),
            event: some("Severe Thunderstorm Warning"),
            ..empty_properties()
        },
    }
}

fn missing_event_feature() -> NwsAlertFeature {
    NwsAlertFeature {
        id: "https://api.weather.gov/alerts/urn:oid:3".to_string(),
        properties: NwsAlertProperties { id: some("urn:oid:3"), ..empty_properties() },
    }
}

#[test]
fn full_nws_alert_normalizes_correctly() {
    let feature = minimal_feature();

    let alert = NormalizedAlert::from_nws_alert(&feature).unwrap();

    assert_eq!(alert.source, AlertSource::NwsApi);
    assert_eq!(alert.source_id, "urn:oid:1");
    assert_eq!(alert.event, "Tornado Warning");
    assert_eq!(alert.headline.as_deref(), Some("Tornado Warning issued June 16 at 1:00PM CDT"));
    assert_eq!(alert.description.as_deref(), Some("A tornado warning is in effect."));
    assert_eq!(alert.instruction.as_deref(), Some("Take shelter now."));
    assert_eq!(alert.severity.as_deref(), Some("Extreme"));
    assert_eq!(alert.urgency.as_deref(), Some("Immediate"));
    assert_eq!(alert.certainty.as_deref(), Some("Observed"));
    assert_eq!(alert.effective.as_deref(), Some("2026-06-16T13:00:00-05:00"));
    assert_eq!(alert.expires.as_deref(), Some("2026-06-16T13:45:00-05:00"));
    assert_eq!(alert.area_desc.as_deref(), Some("Central Harris County"));
}

#[test]
fn missing_optional_fields_still_normalize() {
    let feature = missing_optional_feature();

    let alert = NormalizedAlert::from_nws_alert(&feature).unwrap();

    assert_eq!(alert.event, "Severe Thunderstorm Warning");
    assert_eq!(alert.headline, None);
    assert_eq!(alert.description, None);
    assert_eq!(alert.same_codes, Vec::<String>::new());
    assert_eq!(alert.ugc_codes, Vec::<String>::new());
}

#[test]
fn missing_event_returns_clear_error() {
    let feature = missing_event_feature();

    let error = NormalizedAlert::from_nws_alert(&feature).unwrap_err();

    assert!(error.to_string().contains("NWS alert event is required for normalization"));
}

#[test]
fn properties_id_is_preferred_over_feature_id() {
    let feature = minimal_feature();

    let alert = NormalizedAlert::from_nws_alert(&feature).unwrap();

    assert_eq!(alert.source_id, "urn:oid:1");
}

#[test]
fn feature_id_fallback_works() {
    let feature = NwsAlertFeature {
        id: "https://api.weather.gov/alerts/fallback".to_string(),
        properties: NwsAlertProperties { event: some("Flood Warning"), ..empty_properties() },
    };

    let alert = NormalizedAlert::from_nws_alert(&feature).unwrap();

    assert_eq!(alert.source_id, "https://api.weather.gov/alerts/fallback");
}

#[test]
fn same_and_ugc_codes_are_preserved() {
    let feature = minimal_feature();

    let alert = NormalizedAlert::from_nws_alert(&feature).unwrap();

    assert_eq!(alert.same_codes, vec!["048201".to_string()]);
    assert_eq!(alert.ugc_codes, vec!["TXC201".to_string()]);
}

#[test]
fn message_formatter_omits_missing_fields() {
    let feature = missing_optional_feature();

    let alert = NormalizedAlert::from_nws_alert(&feature).unwrap();

    assert_eq!(alert.message_text, "NWS Alert: Severe Thunderstorm Warning");
    assert!(!alert.message_text.contains("Headline:"));
    assert!(!alert.message_text.contains("Description:"));
}

#[test]
fn message_formatter_preserves_deterministic_order() {
    let feature = minimal_feature();

    let alert = NormalizedAlert::from_nws_alert(&feature).unwrap();

    assert_eq!(
        alert.message_text,
        "NWS Alert: Tornado Warning\n\
         Area: Central Harris County\n\
         Severity: Extreme\n\
         Urgency: Immediate\n\
         Certainty: Observed\n\
         Headline: Tornado Warning issued June 16 at 1:00PM CDT\n\
         Description: A tornado warning is in effect.\n\
         Instruction: Take shelter now."
    );
}

#[test]
fn normalization_does_not_invoke_fanout_or_sender_behavior() {
    let feature = minimal_feature();

    let alert = NormalizedAlert::from_nws_alert(&feature).unwrap();

    assert_eq!(alert.source, AlertSource::NwsApi);
    assert_eq!(alert.message_text.lines().next(), Some("NWS Alert: Tornado Warning"));
}

#[test]
fn blank_event_is_rejected_and_values_are_trimmed() {
    let blank = NwsAlertFeature {
        id: "x".to_string(),
        properties: NwsAlertProperties { event: some("   "), ..empty_properties() },
    };
    assert!(NormalizedAlert::from_nws_alert(&blank).is_err());

    let padded = NwsAlertFeature {
        id: "  feature-id  ".to_string(),
        properties: NwsAlertProperties {
            event: some("  Flood Watch "),
            severity: some("  "),
            urgency: some(" Expected "),
            ..empty_properties()
        },
    };
    let alert = NormalizedAlert::from_nws_alert(&padded).unwrap();
    assert_eq!(alert.source_id, "feature-id");
    assert_eq!(alert.event, "Flood Watch");
    assert_eq!(alert.message_text, "NWS Alert: Flood Watch\nUrgency: Expected");
    assert_eq!(format_nws_message(&alert), alert.message_text);
}
