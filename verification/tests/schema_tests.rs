//! Capability records and content blocks.

use mcpl_core::capabilities::{
    InferenceRequestCap, InferenceRequestDetail, McplCapabilities,
};
use mcpl_core::methods::FeatureSetDeclaration;
use mcpl_core::types::{
    ContentBlock, ERR_CHANNEL_NOT_PERMITTED, ERR_CHANNEL_OPEN_FAILED, ERR_CHECKPOINT_NOT_FOUND,
    ERR_FEATURE_SET_NOT_ENABLED, ERR_UNKNOWN_CHANNEL, ERR_UNKNOWN_FEATURE_SET,
};

#[test]
fn fresh_capabilities_declare_nothing() {
    let caps = McplCapabilities::new("0.4".to_string());
    assert_eq!(caps.version, "0.4");
    assert!(!caps.has_push_events());
    assert!(!caps.has_channels());
    assert!(!caps.has_rollback());
    assert!(!caps.has_inference_request());
    assert!(!caps.has_inference_streaming());
    assert!(!caps.has_model_info());
    assert!(!caps.has_stream_observer());
    assert!(!caps.has_scoped_access());
}

#[test]
fn declared_flags_are_reported() {
    let mut caps = McplCapabilities::new("0.4".to_string());
    caps.push_events = Some(true);
    caps.channels = Some(true);
    caps.rollback = Some(true);
    caps.model_info = Some(false);
    assert!(caps.has_push_events());
    assert!(caps.has_channels());
    assert!(caps.has_rollback());
    assert!(!caps.has_model_info());
}

#[test]
fn inference_request_capability_shapes() {
    let off = InferenceRequestCap::Simple(false);
    assert!(!off.is_enabled());
    assert!(!off.supports_streaming());

    let on = InferenceRequestCap::Simple(true);
    assert!(on.is_enabled());
    assert!(!on.supports_streaming());

    let detailed = InferenceRequestCap::Detailed(InferenceRequestDetail { streaming: true });
    assert!(detailed.is_enabled());
    assert!(detailed.supports_streaming());

    let mut caps = McplCapabilities::new("0.4".to_string());
    caps.inference_request = Some(InferenceRequestCap::Detailed(InferenceRequestDetail {
        streaming: true,
    }));
    assert!(caps.has_inference_request());
    assert!(caps.has_inference_streaming());
}

#[test]
fn feature_set_declarations_hold_their_fields() {
    let fs = FeatureSetDeclaration {
        name: "lobby".to_string(),
        description: Some("Lobby operations".to_string()),
        uses: vec!["connect".to_string(), "chat".to_string()],
        rollback: false,
        host_state: false,
    };
    assert_eq!(fs.name, "lobby");
    assert_eq!(fs.uses.len(), 2);
    assert!(!fs.rollback);
}

#[test]
fn content_block_text_constructor() {
    match ContentBlock::text("Hello".to_string()) {
        ContentBlock::Text { text } => assert_eq!(text, "Hello"),
        other => panic!("expected a text block, got {:?}", other),
    }
}

#[test]
fn error_codes_match_the_protocol() {
    assert_eq!(ERR_FEATURE_SET_NOT_ENABLED, -32001);
    assert_eq!(ERR_UNKNOWN_FEATURE_SET, -32003);
    assert_eq!(ERR_CHECKPOINT_NOT_FOUND, -32005);
    assert_eq!(ERR_CHANNEL_NOT_PERMITTED, -32017);
    assert_eq!(ERR_UNKNOWN_CHANNEL, -32023);
    assert_eq!(ERR_CHANNEL_OPEN_FAILED, -32024);
}
