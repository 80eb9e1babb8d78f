use legalminds_frontend::models::{
    default_translation_status, ApiEnvelope, EvidenceFileTranslationSummary,
};

fn envelope(code: u16, message: &str, data: Option<i32>, error_code: Option<i32>) -> ApiEnvelope<i32> {
    ApiEnvelope { code, message: message.to_string(), data, timestamp: 0, error_code }
}

#[test]
fn successful_envelope_gives_its_data() {
    assert_eq!(envelope(200, "ok", Some(5), None).into_data(), Ok(5));
    assert_eq!(envelope(299, "ok", Some(7), Some(1)).into_data(), Ok(7));
}

#[test]
fn successful_envelope_without_data_is_an_error() {
    assert_eq!(envelope(204, "ok", None, None).into_data(), Err("missing data".to_string()));
}

#[test]
fn failed_envelope_reports_message_and_codes() {
    assert_eq!(
        envelope(404, "not found", Some(5), Some(-7)).into_data(),
        Err("not found (http_code=404, error_code=Some(-7))".to_string())
    );
    assert_eq!(
        envelope(500, "boom", None, None).into_data(),
        Err("boom (http_code=500, error_code=None)".to_string())
    );
    assert_eq!(
        envelope(199, "early", Some(1), Some(12)).into_data(),
        Err("early (http_code=199, error_code=Some(12))".to_string())
    );
}

#[test]
fn translation_summary_defaults_to_pending() {
    assert_eq!(default_translation_status(), "pending");
    let d = EvidenceFileTranslationSummary::default();
    assert_eq!(d.translation_status, "pending");
    assert_eq!(d.chunk_count, 0);
    assert!(!d.translation_incomplete);
    assert_eq!(d.translation_provider, None);
}
