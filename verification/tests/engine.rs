use yt_dlp_wrapper::engine::{
    check_output_folder, initialize_result, pending_plan, save_output_folder, is_http_url, operation_outcome, tool_check_result,
    validate_download, BackendError, DownloadParameters, OperationSlot, PendingUpdate,
};
use yt_dlp_wrapper::media::MediaError;
use yt_dlp_wrapper::model::{DownloadMode, VideoQuality};
use yt_dlp_wrapper::platform::{PlatformError, ToolPlatform};
use yt_dlp_wrapper::tools::ToolError;

#[test]
fn accepts_only_http_video_urls() {
    assert!(is_http_url("https://example.com/video?id=1"));
    assert!(is_http_url("http://example.com/video"));
    assert!(!is_http_url("file:///C:/secret.txt"));
    assert!(!is_http_url("not a URL"));
}

fn parameters(url: &str, folder: &str) -> DownloadParameters {
    DownloadParameters {
        url: url.into(),
        mode: DownloadMode::Video,
        video_quality: VideoQuality::Best,
        output_directory: folder.into(),
    }
}

#[test]
fn validates_downloads() {
    assert!(validate_download(parameters("https://e.x/v", "/out")).is_ok());
    assert!(matches!(validate_download(parameters("ftp://e.x/v", "/out")), Err(BackendError::InvalidUrl)));
    match validate_download(parameters("HTTPS://e.x/v", "")) {
        Err(BackendError::InvalidRequest(m)) => assert_eq!(m, "the output folder cannot be empty"),
        other => panic!("unexpected {other:?}"),
    }
    assert!(check_output_folder("x").is_ok());
}

#[test]
fn one_operation_at_a_time() {
    let mut slot = OperationSlot::new();
    let lease = slot.reserve_operation().unwrap();
    assert!(is_random_uuid_text(&lease.id));
    assert!(matches!(slot.reserve_operation(), Err(BackendError::Busy)));
    assert!(!slot.cancel("other"));
    assert!(!lease.token.is_cancelled());
    assert!(slot.cancel(&lease.id));
    assert!(lease.token.is_cancelled());
    slot.finish_operation("other");
    assert!(slot.is_busy());
    slot.finish_operation(&lease.id);
    assert!(!slot.is_busy());
    let second = slot.reserve_operation().unwrap();
    assert_ne!(second.id, lease.id);
    slot.cancel_active();
    assert!(second.token.is_cancelled());
}

#[test]
fn error_payloads() {
    let busy = BackendError::Busy.payload();
    assert_eq!(busy.code, "busy");
    assert_eq!(busy.message, "another operation is already running");
    assert_eq!(busy.details, None);
    let unsupported = BackendError::UnsupportedPlatform("linux-x86_64".into()).payload();
    assert_eq!(unsupported.message, "This build does not support the current platform.");
    assert_eq!(unsupported.details.as_deref(), Some("Unsupported platform: linux-x86_64"));
    let media = BackendError::from(MediaError::MissingStream).payload();
    assert_eq!(media.code, "downloadFailed");
    assert_eq!(media.details.as_deref(), Some("the downloaded file has no supported media stream"));
    assert_eq!(
        BackendError::Tool(ToolError::Cancelled).message(),
        "tool operation failed: tool installation was cancelled"
    );
    let (event, payload) = operation_outcome::<()>(&Err(BackendError::Cancelled));
    assert_eq!(event, "operationCancelled");
    assert!(payload.is_none());
    let (event, payload) = operation_outcome::<()>(&Err(BackendError::NoUpdatePlan));
    assert_eq!(event, "operationFailed");
    assert_eq!(payload.unwrap().code, "noUpdatePlan");
    assert_eq!(operation_outcome(&Ok::<u8, BackendError>(1)).0, "operationCompleted");
}

#[test]
fn tool_check_outcomes() {
    let (pending, result) = tool_check_result(true, &Err(ToolError::Network("offline".into())));
    assert_eq!(pending, PendingUpdate::Keep);
    assert_eq!(result.unwrap().state, "cachedWithWarning");
    let (_, result) = tool_check_result(false, &Err(ToolError::Network("offline".into())));
    match result {
        Err(BackendError::ToolCheck(details)) => {
            assert_eq!(details, "network request failed: offline")
        }
        other => panic!("unexpected {other:?}"),
    }
}

#[test]
fn initialization_picks_the_output_folder() {
    let windows = Ok(ToolPlatform::windows_x64());
    let result = initialize_result("1.2.3", &windows, None, Some("/home/u/Downloads".into()), "/data".into()).unwrap();
    assert_eq!(result.platform, "windows-x64");
    assert_eq!(result.output_folder, "/home/u/Downloads");
    let result = initialize_result("1.2.3", &windows, Some("/saved".into()), None, "/data".into()).unwrap();
    assert_eq!(result.output_folder, "/saved");
    let unsupported = Err(PlatformError::Unsupported("linux-x86_64".into()));
    assert!(matches!(
        initialize_result("1", &unsupported, None, None, "/d".into()),
        Err(BackendError::UnsupportedPlatform(id)) if id == "linux-x86_64"
    ));
}

fn is_random_uuid_text(text: &str) -> bool {
    let chars: Vec<char> = text.chars().collect();
    chars.len() == 36
        && chars.iter().enumerate().all(|(i, c)| {
            if [8, 13, 18, 23].contains(&i) {
                *c == '-'
            } else {
                c.is_ascii_digit() || ('a'..='f').contains(c)
            }
        })
        && chars[14] == '4'
        && ['8', '9', 'a', 'b'].contains(&chars[19])
}

#[test]
fn a_saved_folder_is_reported_at_start_up() {
    let mut config = yt_dlp_wrapper::config::AppConfig::default();
    assert!(save_output_folder(&mut config, "D:/Media".to_owned()).is_ok());
    let refused = save_output_folder(&mut config, String::new());
    assert!(matches!(
        refused,
        Err(BackendError::InvalidRequest(ref m)) if m == "the output folder cannot be empty"
    ));
    let started = initialize_result(
        "1.0.0",
        &Ok(ToolPlatform::windows_x64()),
        config.output_directory.clone(),
        Some("C:/Users/me/Downloads".to_owned()),
        "C:/data".to_owned(),
    )
    .unwrap();
    assert_eq!(started.output_folder, "D:/Media");
    assert_eq!(started.backend_version, "1.0.0");
}

#[test]
fn installing_needs_a_checked_plan() {
    assert!(matches!(pending_plan(None), Err(BackendError::NoUpdatePlan)));
}
