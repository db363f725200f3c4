use build_worker::failure_reply;
use build_worker::success_reply;
use build_worker::ArtifactLabel;
use build_worker::ReplyBody;
use build_worker::StageEvent;

fn text_body(body: ReplyBody) -> String {
    match body {
        ReplyBody::Text(t) => t,
        ReplyBody::Bytes(_) => panic!("expected a text body"),
    }
}

fn byte_body(body: ReplyBody) -> Vec<u8> {
    match body {
        ReplyBody::Bytes(b) => b,
        ReplyBody::Text(_) => panic!("expected a byte body"),
    }
}

#[test]
fn unreadable_body_is_a_client_error() {
    let r = failure_reply(StageEvent::BodyUnreadable);
    assert_eq!(r.status, 400);
    assert!(r.label.is_none());
    assert_eq!(text_body(r.body), "Failed to collect body");
}

#[test]
fn failed_extraction_is_a_client_error_with_diagnostics() {
    let r = failure_reply(StageEvent::UnpackRejected);
    assert_eq!(r.status, 400);
    assert!(r.label.is_none());
    let body = text_body(r.body);
    assert!(!body.is_empty());
    assert_eq!(body, "Unpack failed");
}

#[test]
fn missing_workspace_is_a_server_error() {
    let r = failure_reply(StageEvent::WorkspaceUnavailable);
    assert_eq!(r.status, 500);
    assert_eq!(text_body(r.body), "Temp dir error");
}

#[test]
fn missing_toolchain_is_a_server_error() {
    let r = failure_reply(StageEvent::ToolchainUnavailable);
    assert_eq!(r.status, 500);
    assert_eq!(text_body(r.body), "Cargo execution failed");
}

#[test]
fn missing_artifact_is_a_server_error() {
    let r = failure_reply(StageEvent::ArtifactMissing);
    assert_eq!(r.status, 500);
    assert_eq!(text_body(r.body), "No output file found");
}

#[test]
fn rejected_build_carries_the_toolchain_text() {
    let diagnostics = b"error: no such package `nonexistent`".to_vec();
    let r = failure_reply(StageEvent::BuildRejected { diagnostics });
    assert_eq!(r.status, 500);
    assert!(r.label.is_none());
    let body = text_body(r.body);
    assert!(body.contains("no such package"));
    assert_eq!(body, "error: no such package `nonexistent`");
}

#[test]
fn rejected_build_decodes_invalid_bytes_lossily() {
    let diagnostics = vec![0xff, b'(', b')'];
    let r = failure_reply(StageEvent::BuildRejected { diagnostics });
    assert_eq!(r.status, 500);
    assert_eq!(text_body(r.body), "\u{FFFD}()");
}

#[test]
fn library_artifact_reply_is_success() {
    let bytes = vec![1u8, 2, 3, 4];
    let r = success_reply(
        ArtifactLabel::LibraryArchive { file_name: "libhello_lib-4f2a9c.rlib".to_string() },
        bytes.clone(),
    );
    assert_eq!(r.status, 200);
    match r.label {
        Some(ArtifactLabel::LibraryArchive { file_name }) => {
            assert!(file_name.starts_with("libhello_lib"));
            assert!(file_name.ends_with(".rlib"));
        },
        _ => panic!("expected a library-archive label"),
    }
    let body = byte_body(r.body);
    assert!(!body.is_empty());
    assert_eq!(body, bytes);
}

#[test]
fn executable_artifact_reply_is_success() {
    let bytes = vec![0x7f, b'E', b'L', b'F'];
    let r = success_reply(
        ArtifactLabel::Executable { file_name: "hello-bin".to_string() },
        bytes.clone(),
    );
    assert_eq!(r.status, 200);
    match r.label {
        Some(ArtifactLabel::Executable { file_name }) => {
            assert_eq!(file_name, "hello-bin");
        },
        _ => panic!("expected an executable label"),
    }
    let body = byte_body(r.body);
    assert!(!body.is_empty());
    assert_eq!(body, bytes);
}

#[test]
fn equal_failures_yield_equal_replies() {
    let d1 = b"identical diagnostics".to_vec();
    let d2 = b"identical diagnostics".to_vec();
    let r1 = failure_reply(StageEvent::BuildRejected { diagnostics: d1 });
    let r2 = failure_reply(StageEvent::BuildRejected { diagnostics: d2 });
    assert_eq!(r1.status, r2.status);
    assert_eq!(text_body(r1.body), text_body(r2.body));
}
