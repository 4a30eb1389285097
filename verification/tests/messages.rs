use sidecar_supervisor::error::{ControlOp, SidecarError, SpawnStage};
use sidecar_supervisor::http::{label_or_number, status_is_success, status_label};
use sidecar_supervisor::text::{decimal_string, push_decimal, push_signed_decimal};

fn signed(i: i32) -> String {
    let mut out = String::new();
    push_signed_decimal(&mut out, i);
    out
}

#[test]
fn decimal_of_small_numbers() {
    assert_eq!(decimal_string(0), "0");
    assert_eq!(decimal_string(7), "7");
    assert_eq!(decimal_string(9), "9");
    assert_eq!(decimal_string(10), "10");
    assert_eq!(decimal_string(11), "11");
    assert_eq!(decimal_string(99), "99");
    assert_eq!(decimal_string(100), "100");
    assert_eq!(decimal_string(8088), "8088");
    assert_eq!(decimal_string(1234567890), "1234567890");
}

#[test]
fn decimal_of_the_largest_number() {
    assert_eq!(decimal_string(u64::MAX), "18446744073709551615");
}

#[test]
fn decimal_agrees_with_the_standard_rendering() {
    let mut n: u64 = 1;
    for _ in 0..40 {
        assert_eq!(decimal_string(n), n.to_string());
        assert_eq!(decimal_string(n - 1), (n - 1).to_string());
        n = n.wrapping_mul(3).wrapping_add(1);
    }
}

#[test]
fn push_decimal_appends() {
    let mut out = String::from("pid_");
    push_decimal(&mut out, 4242);
    assert_eq!(out, "pid_4242");
    push_decimal(&mut out, 0);
    assert_eq!(out, "pid_42420");
}

#[test]
fn signed_decimal_of_both_signs() {
    assert_eq!(signed(0), "0");
    assert_eq!(signed(1), "1");
    assert_eq!(signed(-1), "-1");
    assert_eq!(signed(137), "137");
    assert_eq!(signed(-137), "-137");
    assert_eq!(signed(i32::MAX), "2147483647");
    assert_eq!(signed(i32::MIN), "-2147483648");
}

#[test]
fn spawn_failure_messages() {
    let error = SidecarError::SpawnFailure {
        stage: SpawnStage::Command,
        program: "mix".to_string(),
        reason: "sidecar not configured".to_string(),
    };
    assert_eq!(error.message(), "Failed to create sidecar command 'mix': sidecar not configured");
    let error = SidecarError::SpawnFailure {
        stage: SpawnStage::Launch,
        program: "mix".to_string(),
        reason: "permission denied".to_string(),
    };
    assert_eq!(error.message(), "Failed to spawn sidecar 'mix': permission denied");
    let error = SidecarError::SpawnFailure {
        stage: SpawnStage::Launch,
        program: String::new(),
        reason: String::new(),
    };
    assert_eq!(error.message(), "Failed to spawn sidecar '': ");
}

#[test]
fn worker_failure_messages() {
    let error = SidecarError::SpawnIo { message: "broken pipe".to_string() };
    assert_eq!(error.message(), "Process error: broken pipe");
    let error = SidecarError::AbnormalExit { code: Some(1) };
    assert_eq!(error.message(), "Process terminated with code: Some(1)");
    let error = SidecarError::AbnormalExit { code: Some(-15) };
    assert_eq!(error.message(), "Process terminated with code: Some(-15)");
    let error = SidecarError::AbnormalExit { code: Some(0) };
    assert_eq!(error.message(), "Process terminated with code: Some(0)");
    let error = SidecarError::AbnormalExit { code: None };
    assert_eq!(error.message(), "Process terminated with code: None");
    let error = SidecarError::KillFailure { reason: "gone".to_string() };
    assert_eq!(error.message(), "Failed to kill sidecar process: gone");
}

#[test]
fn exit_message_follows_the_debug_form() {
    for code in [Some(0), Some(1), Some(-1), Some(255), Some(i32::MIN), Some(i32::MAX), None] {
        let error = SidecarError::AbnormalExit { code };
        assert_eq!(error.message(), format!("Process terminated with code: {:?}", code));
    }
}

#[test]
fn control_failure_messages() {
    assert_eq!(SidecarError::NotRunning.message(), "Sidecar is not running");
    let error = SidecarError::Network { op: ControlOp::Health, reason: "refused".to_string() };
    assert_eq!(error.message(), "Health check request failed: refused");
    let error = SidecarError::Network { op: ControlOp::Prompt, reason: "refused".to_string() };
    assert_eq!(error.message(), "Request failed: refused");
    let error = SidecarError::Protocol { op: ControlOp::Health, status: 503 };
    assert_eq!(error.message(), "Health check failed with status: 503 Service Unavailable");
    let error = SidecarError::Protocol { op: ControlOp::Prompt, status: 400 };
    assert_eq!(error.message(), "Request failed with status: 400 Bad Request");
    let error = SidecarError::Decode { op: ControlOp::Health, reason: "eof".to_string() };
    assert_eq!(error.message(), "Failed to parse response: eof");
    let error = SidecarError::Decode { op: ControlOp::Prompt, reason: "eof".to_string() };
    assert_eq!(error.message(), "Failed to read response: eof");
}

#[test]
fn status_labels() {
    assert_eq!(status_label(200), "200 OK");
    assert_eq!(status_label(404), "404 Not Found");
    assert_eq!(status_label(100), "100 Continue");
    assert_eq!(status_label(999), "999 <unknown status code>");
    assert_eq!(status_label(99), "99");
    assert_eq!(status_label(1000), "1000");
    assert_eq!(status_label(0), "0");
    assert_eq!(status_label(u16::MAX), "65535");
}

#[test]
fn label_or_number_picks() {
    assert_eq!(label_or_number(418, Some("418 I'm a teapot".to_string())), "418 I'm a teapot");
    assert_eq!(label_or_number(418, None), "418");
}

#[test]
fn success_is_the_two_hundreds() {
    assert!(!status_is_success(0));
    assert!(!status_is_success(199));
    assert!(status_is_success(200));
    assert!(status_is_success(250));
    assert!(status_is_success(299));
    assert!(!status_is_success(300));
    assert!(!status_is_success(404));
    assert!(!status_is_success(u16::MAX));
}
