use std::path::PathBuf;
use yt_dlp_wrapper::application_version;
use yt_dlp_wrapper::engine::BackendError;
use yt_dlp_wrapper::model::{DownloadMode, VideoQuality};
use yt_dlp_wrapper::protocol::{
    parse_download, request_steps, screen_request, unknown_method_error, DownloadParams,
    RequestEnvelope, RequestMethod, RequestStep, PROTOCOL_VERSION,
};

#[test]
fn parses_platform_neutral_download_values() {
    let request = parse_download(DownloadParams {
        url: "https://example.com/video".into(),
        mode: "video".into(),
        video_quality: "p1440".into(),
        output_folder: "/media/output".into(),
    })
    .unwrap();
    assert_eq!(request.video_quality, VideoQuality::P1440);
    assert_eq!(PathBuf::from(request.output_directory), PathBuf::from("/media/output"));
}

#[test]
fn rejects_unknown_download_values() {
    let params = DownloadParams {
        url: "u".into(),
        mode: "karaoke".into(),
        video_quality: "p720".into(),
        output_folder: "o".into(),
    };
    match parse_download(params.clone()) {
        Err(BackendError::InvalidRequest(m)) => assert_eq!(m, "unknown download mode \"karaoke\""),
        other => panic!("unexpected {other:?}"),
    }
    let params = DownloadParams { mode: "audioOnly".into(), ..params };
    match parse_download(params) {
        Err(BackendError::InvalidRequest(m)) => assert_eq!(m, "unknown video quality \"p720\""),
        other => panic!("unexpected {other:?}"),
    }
    let ok = parse_download(DownloadParams {
        url: "u".into(),
        mode: "audioOnly".into(),
        video_quality: "best".into(),
        output_folder: "o".into(),
    })
    .unwrap();
    assert_eq!(ok.mode, DownloadMode::AudioOnly);
}

fn envelope(version: u32, kind: &str, method: &str) -> RequestEnvelope {
    RequestEnvelope {
        protocol_version: version,
        kind: kind.into(),
        request_id: "abc".into(),
        method: method.into(),
    }
}

#[test]
fn screens_request_envelopes() {
    assert_eq!(
        screen_request(&envelope(PROTOCOL_VERSION, "request", "checkTools")).unwrap(),
        RequestMethod::CheckTools
    );
    assert_eq!(
        screen_request(&envelope(1, "request", "frobnicate")).unwrap(),
        RequestMethod::Unknown
    );
    let kind = screen_request(&envelope(1, "event", "initialize")).unwrap_err();
    assert_eq!(kind.code, "invalidKind");
    assert_eq!(kind.details.as_deref(), Some("expected a request message"));
    let mismatch = screen_request(&envelope(2, "request", "initialize")).unwrap_err();
    assert_eq!(mismatch.code, "protocolMismatch");
    assert_eq!(
        mismatch.details.as_deref(),
        Some("backend protocol 1 does not support protocol 2")
    );
    assert_eq!(mismatch.message, "The backend received an invalid protocol message.");
    match unknown_method_error("frob\"") {
        BackendError::InvalidRequest(m) => assert_eq!(m, "unknown method \"frob\\\"\""),
        other => panic!("unexpected {other:?}"),
    }
}

#[test]
fn reports_the_release_version() {
    assert_eq!(application_version(Some("2.0.1"), "0.1.0"), "2.0.1");
    assert_eq!(application_version(Some(""), "0.1.0"), "0.1.0");
    assert_eq!(application_version(None, "0.1.0"), "0.1.0");
}

#[test]
fn serves_requests_in_order() {
    assert_eq!(
        request_steps(RequestMethod::StartDownload),
        [
            RequestStep::ReadParameters,
            RequestStep::ValidateDownload,
            RequestStep::ReserveOperation,
            RequestStep::AnswerOperationId,
            RequestStep::RunInBackground,
        ]
    );
    assert_eq!(
        request_steps(RequestMethod::InstallTools),
        [
            RequestStep::ReserveOperation,
            RequestStep::AnswerOperationId,
            RequestStep::RunInBackground,
        ]
    );
    assert_eq!(
        request_steps(RequestMethod::CheckTools),
        [RequestStep::ReserveOperation, RequestStep::RunAndAnswer]
    );
    assert_eq!(request_steps(RequestMethod::Initialize), [RequestStep::RunAndAnswer]);
    assert_eq!(
        request_steps(RequestMethod::Cancel),
        [RequestStep::ReadParameters, RequestStep::RunAndAnswer]
    );
    assert_eq!(
        request_steps(RequestMethod::Shutdown),
        [
            RequestStep::CancelRunningOperation,
            RequestStep::AnswerShuttingDown,
            RequestStep::StopReading,
        ]
    );
    assert_eq!(request_steps(RequestMethod::Unknown), [RequestStep::RejectUnknownMethod]);
}
