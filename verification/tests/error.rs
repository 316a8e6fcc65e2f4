use webgl_wrapper::{CapacityExceeded, CreationFailed, FailureReason, ResourceKind, SchemaError};

#[test]
fn framebuffer_reasons_are_short_fixed_phrases() {
    assert_eq!(FailureReason::IncompleteAttachment.describe(), "incomplete attachment");
    assert_eq!(
        FailureReason::IncompleteMissingAttachment.describe(),
        "incomplete missing attachment"
    );
    assert_eq!(FailureReason::Unsupported.describe(), "unsupported");
    assert_eq!(FailureReason::Unknown.describe(), "unknown reason");
}

#[test]
fn device_logs_come_through_word_for_word() {
    let log = "ERROR: 0:12: 'foo' : undeclared identifier\n\u{0}".to_string();
    assert_eq!(FailureReason::CompileError(log.clone()).describe(), log);
    assert_eq!(FailureReason::LinkError(log.clone()).describe(), log);
    assert_eq!(FailureReason::CompileError(String::new()).describe(), "");
}

#[test]
fn failures_compare_by_kind_and_reason() {
    let a = CreationFailed { kind: ResourceKind::Framebuffer, reason: FailureReason::Unknown };
    let b = CreationFailed { kind: ResourceKind::Framebuffer, reason: FailureReason::Unsupported };
    let c = CreationFailed { kind: ResourceKind::Program, reason: FailureReason::Unknown };
    assert_ne!(a, b);
    assert_ne!(a, c);
    assert_eq!(a.clone(), a);
    assert_ne!(
        SchemaError::UnsupportedAttributeSize { index: 0, size: 5 },
        SchemaError::UnsupportedAttributeSize { index: 1, size: 5 }
    );
    assert_eq!(CapacityExceeded, CapacityExceeded);
}
