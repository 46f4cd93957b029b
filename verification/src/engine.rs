//! The backend engine's decisions: request validation, the single-operation slot, the outcome
//! of a tool check, and the errors reported to the front end.
use crate::config::AppConfig;
use crate::media::MediaError;
use crate::model::{DownloadMode, VideoQuality};
use crate::platform::{PlatformError, ToolPlatform};
use crate::text::{chars_of, extend_str, str_equal, string_of};
use crate::tools::{ToolError, UpdatePlan};
use vstd::prelude::*;

verus! {

/// An error as the front end receives it: a stable code, a message and optional details.
#[derive(Debug, Clone)]
pub struct ErrorPayload {
    pub code: String,
    pub message: String,
    pub details: Option<String>,
}

/// Why a request or operation failed.
#[derive(Debug, Clone)]
pub enum BackendError {
    UnsupportedPlatform(String),
    Busy,
    InvalidUrl,
    InvalidRequest(String),
    ToolsUnavailable,
    NoUpdatePlan,
    Cancelled,
    ToolCheck(String),
    Io(String),
    Tool(ToolError),
    Media(MediaError),
}

impl From<ToolError> for BackendError {
    fn from(error: ToolError) -> (r: Self) {
        BackendError::Tool(error)
    }
}

impl vstd::std_specs::convert::FromSpecImpl<ToolError> for BackendError {
    open spec fn obeys_from_spec() -> bool {
        true
    }

    open spec fn from_spec(error: ToolError) -> Self {
        BackendError::Tool(error)
    }
}

impl From<MediaError> for BackendError {
    fn from(error: MediaError) -> (r: Self) {
        BackendError::Media(error)
    }
}

impl vstd::std_specs::convert::FromSpecImpl<MediaError> for BackendError {
    open spec fn obeys_from_spec() -> bool {
        true
    }

    open spec fn from_spec(error: MediaError) -> Self {
        BackendError::Media(error)
    }
}

impl BackendError {
    pub open spec fn message_spec(self) -> Seq<char> {
        match self {
            BackendError::UnsupportedPlatform(id) => "platform "@ + id@
                + " is not supported by this release"@,
            BackendError::Busy => "another operation is already running"@,
            BackendError::InvalidUrl => "Enter a valid URL."@,
            BackendError::InvalidRequest(m) => "invalid request: "@ + m@,
            BackendError::ToolsUnavailable => "required tools are not available"@,
            BackendError::NoUpdatePlan => "no tool update information is available; run the tool check again"@,
            BackendError::Cancelled => "the operation was cancelled"@,
            BackendError::ToolCheck(d) => "could not check required tools: "@ + d@,
            BackendError::Io(e) => "file operation failed: "@ + e@,
            BackendError::Tool(e) => "tool operation failed: "@ + e.message_spec(),
            BackendError::Media(e) => "download failed: "@ + e.message_spec(),
        }
    }

    /// The error's text.
    pub fn message(&self) -> (r: String)
        ensures
            r@ == self.message_spec(),
    {
        let mut v = match self {
            BackendError::UnsupportedPlatform(id) => {
                let mut v = chars_of("platform ");
                extend_str(&mut v, id.as_str());
                extend_str(&mut v, " is not supported by this release");
                v
            },
            BackendError::Busy => chars_of("another operation is already running"),
            BackendError::InvalidUrl => chars_of("Enter a valid URL."),
            BackendError::InvalidRequest(m) => {
                let mut v = chars_of("invalid request: ");
                extend_str(&mut v, m.as_str());
                v
            },
            BackendError::ToolsUnavailable => chars_of("required tools are not available"),
            BackendError::NoUpdatePlan => chars_of(
                "no tool update information is available; run the tool check again",
            ),
            BackendError::Cancelled => chars_of("the operation was cancelled"),
            BackendError::ToolCheck(d) => {
                let mut v = chars_of("could not check required tools: ");
                extend_str(&mut v, d.as_str());
                v
            },
            BackendError::Io(e) => {
                let mut v = chars_of("file operation failed: ");
                extend_str(&mut v, e.as_str());
                v
            },
            BackendError::Tool(e) => {
                let mut v = chars_of("tool operation failed: ");
                extend_str(&mut v, e.message().as_str());
                v
            },
            BackendError::Media(e) => {
                let mut v = chars_of("download failed: ");
                extend_str(&mut v, e.message().as_str());
                v
            },
        };
        string_of(v.as_slice())
    }

    /// The code the front end keys on.
    pub open spec fn code_spec(self) -> Seq<char> {
        match self {
            BackendError::UnsupportedPlatform(_) => "unsupportedPlatform"@,
            BackendError::Busy => "busy"@,
            BackendError::InvalidUrl => "invalidUrl"@,
            BackendError::InvalidRequest(_) => "invalidRequest"@,
            BackendError::ToolsUnavailable => "toolsUnavailable"@,
            BackendError::NoUpdatePlan => "noUpdatePlan"@,
            BackendError::Cancelled => "cancelled"@,
            BackendError::ToolCheck(_) => "toolCheckFailed"@,
            BackendError::Io(_) => "fileOperationFailed"@,
            BackendError::Tool(_) => "toolOperationFailed"@,
            BackendError::Media(_) => "downloadFailed"@,
        }
    }

    /// The user-facing message: a fixed sentence for failures with details, the error's own
    /// text otherwise.
    pub open spec fn payload_message_spec(self) -> Seq<char> {
        match self {
            BackendError::UnsupportedPlatform(_) => "This build does not support the current platform."@,
            BackendError::ToolCheck(_) => "Could not check required tools."@,
            BackendError::Io(_) => "A file operation failed."@,
            BackendError::Tool(_) => "The tool operation failed."@,
            BackendError::Media(_) => "The download failed."@,
            _ => self.message_spec(),
        }
    }

    /// The details that accompany the message, if any.
    pub open spec fn payload_details_spec(self) -> Option<Seq<char>> {
        match self {
            BackendError::UnsupportedPlatform(id) => Some("Unsupported platform: "@ + id@),
            BackendError::ToolCheck(d) => Some(d@),
            BackendError::Io(e) => Some(e@),
            BackendError::Tool(e) => Some(e.message_spec()),
            BackendError::Media(e) => Some(e.message_spec()),
            _ => None,
        }
    }

    /// Whether `p` is this error as the front end receives it.
    pub open spec fn is_payload(self, p: ErrorPayload) -> bool {
        &&& p.code@ == self.code_spec()
        &&& p.message@ == self.payload_message_spec()
        &&& match self.payload_details_spec() {
            Some(d) => p.details matches Some(x) && x@ == d,
            None => p.details is None,
        }
    }

    /// The error as the front end receives it.
    pub fn payload(&self) -> (r: ErrorPayload)
        ensures
            self.is_payload(r),
    {
        let (code, message, details): (&str, String, Option<String>) = match self {
            BackendError::UnsupportedPlatform(id) => {
                let mut v = chars_of("Unsupported platform: ");
                extend_str(&mut v, id.as_str());
                (
                    "unsupportedPlatform",
                    "This build does not support the current platform.".to_owned(),
                    Some(string_of(v.as_slice())),
                )
            },
            BackendError::Busy => ("busy", self.message(), None),
            BackendError::InvalidUrl => ("invalidUrl", self.message(), None),
            BackendError::InvalidRequest(_) => ("invalidRequest", self.message(), None),
            BackendError::ToolsUnavailable => ("toolsUnavailable", self.message(), None),
            BackendError::NoUpdatePlan => ("noUpdatePlan", self.message(), None),
            BackendError::Cancelled => ("cancelled", self.message(), None),
            BackendError::ToolCheck(d) => (
                "toolCheckFailed",
                "Could not check required tools.".to_owned(),
                Some(d.clone()),
            ),
            BackendError::Io(e) => (
                "fileOperationFailed",
                "A file operation failed.".to_owned(),
                Some(e.clone()),
            ),
            BackendError::Tool(e) => (
                "toolOperationFailed",
                "The tool operation failed.".to_owned(),
                Some(e.message()),
            ),
            BackendError::Media(e) => (
                "downloadFailed",
                "The download failed.".to_owned(),
                Some(e.message()),
            ),
        };
        ErrorPayload { code: code.to_owned(), message, details }
    }
}

/// The failure of a tool installation: a cancellation stays a cancellation.
pub fn install_error(error: ToolError) -> (r: BackendError)
    ensures
        error == ToolError::Cancelled ==> r is Cancelled,
        error != ToolError::Cancelled ==> r == BackendError::Tool(error),
{
    match error {
        ToolError::Cancelled => BackendError::Cancelled,
        other => BackendError::Tool(other),
    }
}

/// The failure of a download: a cancellation stays a cancellation.
pub fn download_error(error: MediaError) -> (r: BackendError)
    ensures
        error == MediaError::Cancelled ==> r is Cancelled,
        error != MediaError::Cancelled ==> r == BackendError::Media(error),
{
    match error {
        MediaError::Cancelled => BackendError::Cancelled,
        other => BackendError::Media(other),
    }
}

/// The plan an installation carries out: the one the last tool check stored, or
/// `NoUpdatePlan` when none is stored.
pub fn pending_plan(stored: Option<UpdatePlan>) -> (r: Result<UpdatePlan, BackendError>)
    ensures
        match stored {
            Some(plan) => r == Ok::<UpdatePlan, BackendError>(plan),
            None => r matches Err(BackendError::NoUpdatePlan),
        },
{
    match stored {
        Some(plan) => Ok(plan),
        None => Err(BackendError::NoUpdatePlan),
    }
}

/// The event that ends an operation, and the error that goes with a failure.
pub open spec fn outcome_spec<T>(result: Result<T, BackendError>) -> (Seq<char>, Option<BackendError>) {
    match result {
        Ok(_) => ("operationCompleted"@, None),
        Err(BackendError::Cancelled) => ("operationCancelled"@, None),
        Err(e) => ("operationFailed"@, Some(e)),
    }
}

/// The event that ends an operation: completed, cancelled, or failed with the error's payload.
pub fn operation_outcome<T>(result: &Result<T, BackendError>) -> (r: (&'static str, Option<ErrorPayload>))
    ensures
        r.0@ == outcome_spec(*result).0,
        match outcome_spec(*result).1 {
            None => r.1 is None,
            Some(e) => r.1 matches Some(p) && e.is_payload(p),
        },
{
    match result {
        Ok(_) => ("operationCompleted", None),
        Err(BackendError::Cancelled) => ("operationCancelled", None),
        Err(e) => ("operationFailed", Some(e.payload())),
    }
}

// ---------------------------------------------------------------- requests

/// A download as the front end requests it.
#[derive(Debug, Clone)]
pub struct DownloadParameters {
    pub url: String,
    pub mode: DownloadMode,
    pub video_quality: VideoQuality,
    pub output_directory: String,
}

/// The scheme that `url::Url::parse` finds in a text, or `None` where it rejects the text.
pub uninterp spec fn url_scheme(text: Seq<char>) -> Option<Seq<char>>;

/// The scheme of a URL (`url::Url::parse(text)` then `Url::scheme`), or `None` where the text
/// is no URL. The result is named by [`url_scheme`].
#[verifier::external_body]
fn parse_url_scheme(text: &str) -> (r: Option<String>)
    ensures
        match r {
            Some(s) => url_scheme(text@) == Some(s@),
            None => url_scheme(text@) is None,
        },
{
    url::Url::parse(text).ok().map(|url| url.scheme().to_owned())
}

/// Whether a URL scheme is HTTP or HTTPS.
pub open spec fn is_http_scheme_spec(scheme: Option<Seq<char>>) -> bool {
    scheme == Some("http"@) || scheme == Some("https"@)
}

/// Whether a parsed scheme is HTTP or HTTPS.
pub fn is_http_scheme(scheme: Option<&str>) -> (r: bool)
    ensures
        r == is_http_scheme_spec(
            match scheme {
                Some(s) => Some(s@),
                None => None,
            },
        ),
{
    match scheme {
        Some(s) => str_equal(s, "http") || str_equal(s, "https"),
        None => false,
    }
}

/// Whether a text is an HTTP or HTTPS URL.
pub fn is_http_url(value: &str) -> (r: bool)
    ensures
        r == is_http_scheme_spec(url_scheme(value@)),
{
    let scheme = parse_url_scheme(value);
    match scheme {
        Some(s) => is_http_scheme(Some(s.as_str())),
        None => is_http_scheme(None),
    }
}

/// The error for an empty output folder.
pub open spec fn empty_folder_error(r: BackendError) -> bool {
    r matches BackendError::InvalidRequest(m) && m@ == "the output folder cannot be empty"@
}

/// Checks that an output folder is given.
pub fn check_output_folder(path: &str) -> (r: Result<(), BackendError>)
    ensures
        path@.len() > 0 ==> r is Ok,
        path@.len() == 0 ==> (r matches Err(e) && empty_folder_error(e)),
{
    if path.is_empty() {
        Err(BackendError::InvalidRequest("the output folder cannot be empty".to_owned()))
    } else {
        Ok(())
    }
}

/// The settings after asking to save `path` as the output folder: unchanged when it is empty.
pub open spec fn saved_settings(before: AppConfig, path: String) -> AppConfig {
    if path@.len() == 0 {
        before
    } else {
        AppConfig { output_directory: Some(path) }
    }
}

/// Saves a new output folder into the settings; an empty one is refused and changes nothing.
pub fn save_output_folder(config: &mut AppConfig, path: String) -> (r: Result<(), BackendError>)
    ensures
        *final(config) == saved_settings(*old(config), path),
        path@.len() > 0 ==> r is Ok,
        path@.len() == 0 ==> (r matches Err(e) && empty_folder_error(e)),
{
    match check_output_folder(path.as_str()) {
        Err(e) => Err(e),
        Ok(()) => {
            config.output_directory = Some(path);
            Ok(())
        },
    }
}

/// Validates a download request once its URL's scheme is known: the URL must be HTTP or
/// HTTPS and the output folder given; the request comes back unchanged.
pub fn validate_download_with_scheme(parameters: DownloadParameters, scheme: Option<String>) -> (r:
    Result<DownloadParameters, BackendError>)
    ensures
        !is_http_scheme_spec(
            match scheme {
                Some(s) => Some(s@),
                None => None,
            },
        ) ==> r matches Err(BackendError::InvalidUrl),
        is_http_scheme_spec(
            match scheme {
                Some(s) => Some(s@),
                None => None,
            },
        ) && parameters.output_directory@.len() == 0 ==> (r matches Err(e) && empty_folder_error(
            e,
        )),
        is_http_scheme_spec(
            match scheme {
                Some(s) => Some(s@),
                None => None,
            },
        ) && parameters.output_directory@.len() > 0 ==> r == Ok::<
            DownloadParameters,
            BackendError,
        >(parameters),
{
    let http = match &scheme {
        Some(s) => is_http_scheme(Some(s.as_str())),
        None => is_http_scheme(None),
    };
    if !http {
        return Err(BackendError::InvalidUrl);
    }
    match check_output_folder(parameters.output_directory.as_str()) {
        Err(e) => Err(e),
        Ok(()) => Ok(parameters),
    }
}

/// Validates a download request (see [`validate_download_with_scheme`]).
pub fn validate_download(parameters: DownloadParameters) -> (r: Result<DownloadParameters, BackendError>)
    ensures
        !is_http_scheme_spec(url_scheme(parameters.url@)) ==> r matches Err(BackendError::InvalidUrl),
        is_http_scheme_spec(url_scheme(parameters.url@)) && parameters.output_directory@.len() == 0
            ==> (r matches Err(e) && empty_folder_error(e)),
        is_http_scheme_spec(url_scheme(parameters.url@)) && parameters.output_directory@.len() > 0
            ==> r == Ok::<DownloadParameters, BackendError>(parameters),
{
    let scheme = parse_url_scheme(parameters.url.as_str());
    validate_download_with_scheme(parameters, scheme)
}

// ---------------------------------------------------------------- initialization

/// What the front end learns at start-up.
#[derive(Debug, Clone)]
pub struct InitializeResult {
    pub backend_version: String,
    pub platform: String,
    pub output_folder: String,
}

/// The output folder start-up reports: the saved one, else the user's download folder, else
/// `fallback`.
pub open spec fn output_folder_spec(
    configured: Option<String>,
    downloads: Option<String>,
    fallback: String,
) -> String {
    match configured {
        Some(c) => c,
        None => match downloads {
            Some(d) => d,
            None => fallback,
        },
    }
}

/// A folder saved successfully is the one start-up reports from then on, whatever the
/// download folder and fallback; saving an empty one leaves what start-up reports as it was.
pub proof fn law_saved_folder_is_reported(
    before: AppConfig,
    path: String,
    downloads: Option<String>,
    fallback: String,
)
    ensures
        path@.len() > 0 ==> output_folder_spec(
            saved_settings(before, path).output_directory,
            downloads,
            fallback,
        ) == path,
        path@.len() == 0 ==> saved_settings(before, path) == before,
{
}

/// The start-up answer: an error on an unsupported platform; otherwise the version, the
/// platform id and the output folder, which is the saved one, else the user's download
/// folder, else `fallback`.
pub fn initialize_result(
    backend_version: &str,
    platform: &Result<ToolPlatform, PlatformError>,
    configured: Option<String>,
    downloads: Option<String>,
    fallback: String,
) -> (r: Result<InitializeResult, BackendError>)
    ensures
        match platform {
            Err(PlatformError::Unsupported(id)) => r matches Err(BackendError::UnsupportedPlatform(x))
                && x == id,
            Ok(p) => r matches Ok(i) && i.backend_version@ == backend_version@ && i.platform@
                == p.id@ && i.output_folder == output_folder_spec(configured, downloads, fallback),
        },
{
    match platform {
        Err(PlatformError::Unsupported(id)) => Err(BackendError::UnsupportedPlatform(id.clone())),
        Ok(p) => {
            let output_folder = match configured {
                Some(c) => c,
                None => match downloads {
                    Some(d) => d,
                    None => fallback,
                },
            };
            Ok(
                InitializeResult {
                    backend_version: backend_version.to_owned(),
                    platform: p.id.to_owned(),
                    output_folder,
                },
            )
        },
    }
}

// ---------------------------------------------------------------- tool checks

/// The state of the tools as the front end shows it.
#[derive(Debug, Clone)]
pub struct ToolCheckResult {
    pub state: String,
    pub tools_ready: bool,
    pub can_install_tools: bool,
    pub update_summary: String,
    pub status_text: String,
}

/// What becomes of the stored update plan after a check.
#[derive(Debug, Clone, Copy, PartialEq, Eq, Structural)]
pub enum PendingUpdate {
    /// Keep the plan just checked, for a later installation.
    Store,
    /// Forget any stored plan.
    Clear,
    /// Leave the stored plan as it is.
    Keep,
}

pub open spec fn check_result_is(
    r: ToolCheckResult,
    state: Seq<char>,
    ready: bool,
    can_install: bool,
    summary: Seq<char>,
    status: Seq<char>,
) -> bool {
    &&& r.state@ == state
    &&& r.tools_ready == ready
    &&& r.can_install_tools == can_install
    &&& r.update_summary@ == summary
    &&& r.status_text@ == status
}

/// The outcome of a tool check, given whether tools are installed and what the update
/// check returned: with updates, first setup or update available; without, ready; on a failed
/// check, the installed tools with a warning, or an error when none are installed.
pub open spec fn tool_check_spec(
    cached: bool,
    checked: Result<UpdatePlan, ToolError>,
    r: (PendingUpdate, Result<ToolCheckResult, BackendError>),
) -> bool {
    match checked {
        Ok(plan) => if plan.has_updates_spec() {
            &&& r.0 == PendingUpdate::Store
            &&& r.1 matches Ok(t) && check_result_is(
                t,
                if cached {
                    "updateAvailable"@
                } else {
                    "setupRequired"@
                },
                cached,
                true,
                plan.summary_spec(),
                if cached {
                    "Updates are available."@
                } else {
                    "Install the required tools to continue."@
                },
            )
        } else {
            &&& r.0 == PendingUpdate::Clear
            &&& r.1 matches Ok(t) && check_result_is(t, "ready"@, true, false, ""@, "Ready."@)
        },
        Err(e) => {
            &&& r.0 == PendingUpdate::Keep
            &&& if cached {
                r.1 matches Ok(t) && check_result_is(
                    t,
                    "cachedWithWarning"@,
                    true,
                    false,
                    ""@,
                    "Could not check for updates. Cached tools are ready."@,
                )
            } else {
                r.1 matches Err(BackendError::ToolCheck(d)) && d@ == e.message_spec()
            }
        },
    }
}

/// The outcome of a tool check (see [`tool_check_spec`]).
pub fn tool_check_result(cached: bool, checked: &Result<UpdatePlan, ToolError>) -> (r: (
    PendingUpdate,
    Result<ToolCheckResult, BackendError>,
))
    ensures
        tool_check_spec(cached, *checked, r),
{
    match checked {
        Ok(plan) => {
            if plan.has_updates() {
                let summary = plan.summary();
                (
                    PendingUpdate::Store,
                    Ok(
                        ToolCheckResult {
                            state: if cached {
                                "updateAvailable".to_owned()
                            } else {
                                "setupRequired".to_owned()
                            },
                            tools_ready: cached,
                            can_install_tools: true,
                            update_summary: summary,
                            status_text: if cached {
                                "Updates are available.".to_owned()
                            } else {
                                "Install the required tools to continue.".to_owned()
                            },
                        },
                    ),
                )
            } else {
                (
                    PendingUpdate::Clear,
                    Ok(
                        ToolCheckResult {
                            state: "ready".to_owned(),
                            tools_ready: true,
                            can_install_tools: false,
                            update_summary: "".to_owned(),
                            status_text: "Ready.".to_owned(),
                        },
                    ),
                )
            }
        },
        Err(e) => {
            if cached {
                (
                    PendingUpdate::Keep,
                    Ok(
                        ToolCheckResult {
                            state: "cachedWithWarning".to_owned(),
                            tools_ready: true,
                            can_install_tools: false,
                            update_summary: "".to_owned(),
                            status_text: "Could not check for updates. Cached tools are ready.".to_owned(),
                        },
                    ),
                )
            } else {
                (PendingUpdate::Keep, Err(BackendError::ToolCheck(e.message())))
            }
        },
    }
}


// ---------------------------------------------------------------- the operation slot

#[verifier::external_type_specification]
#[verifier::external_body]
pub struct ExCancellationToken(tokio_util::sync::CancellationToken);

/// A fresh cancellation token (`CancellationToken::new`).
#[verifier::external_body]
fn new_token() -> (r: tokio_util::sync::CancellationToken) {
    tokio_util::sync::CancellationToken::new()
}

/// Another handle on the same token (`CancellationToken::clone`); nothing is stated of it.
pub assume_specification[ <tokio_util::sync::CancellationToken as Clone>::clone ](
    token: &tokio_util::sync::CancellationToken,
) -> tokio_util::sync::CancellationToken;

/// Cancels a token and every handle on it (`CancellationToken::cancel`).
#[verifier::external_body]
fn cancel_token(token: &tokio_util::sync::CancellationToken) {
    token.cancel()
}

/// The running operation's id and the token that cancels it.
#[derive(Clone)]
pub struct OperationLease {
    pub id: String,
    pub token: tokio_util::sync::CancellationToken,
}

struct ActiveOperation {
    id: String,
    token: tokio_util::sync::CancellationToken,
    cancel_requested: bool,
}

/// The one operation (tool check, installation or download) that may run at a time.
pub struct OperationSlot {
    current: Option<ActiveOperation>,
}

/// The slot after finishing the operation `id`: free if `id` is the one running.
pub open spec fn finish_spec(active: Option<(Seq<char>, bool)>, id: Seq<char>) -> Option<
    (Seq<char>, bool),
> {
    match active {
        Some((running, _)) => if running == id {
            None
        } else {
            active
        },
        None => None,
    }
}

/// Whether `id` names the running operation.
pub open spec fn is_running(active: Option<(Seq<char>, bool)>, id: Seq<char>) -> bool {
    active matches Some((running, _)) && running == id
}

/// The slot after asking the running operation to stop: its token cancelled, noted in the slot.
pub open spec fn cancelled_spec(active: Option<(Seq<char>, bool)>) -> Option<(Seq<char>, bool)> {
    match active {
        Some((running, _)) => Some((running, true)),
        None => None,
    }
}

impl View for OperationSlot {
    /// The running operation, if any: its id, and whether its token has been cancelled through
    /// the slot.
    type V = Option<(Seq<char>, bool)>;

    closed spec fn view(&self) -> Option<(Seq<char>, bool)> {
        match self.current {
            Some(op) => Some((op.id@, op.cancel_requested)),
            None => None,
        }
    }
}

impl OperationSlot {
    /// A free slot.
    pub fn new() -> (r: Self)
        ensures
            r@ is None,
    {
        OperationSlot { current: None }
    }

    /// Starts an operation under a fresh id, or refuses with `Busy` while one runs.
    pub fn reserve_operation(&mut self) -> (r: Result<OperationLease, BackendError>)
        ensures
            old(self)@ is Some ==> (r matches Err(BackendError::Busy)) && final(self)@ == old(self)@,
            old(self)@ is None ==> (r matches Ok(lease) && final(self)@ == Some((lease.id@, false))
                && crate::unique::is_random_uuid_text(lease.id@)),
    {
        if self.current.is_some() {
            return Err(BackendError::Busy);
        }
        let id = crate::unique::new_unique_id();
        let token = new_token();
        let lease = OperationLease { id: id.clone(), token: token.clone() };
        self.current = Some(ActiveOperation { id, token, cancel_requested: false });
        Ok(lease)
    }

    /// Cancels the running operation's token if the operation has the given id; says whether
    /// it did.
    pub fn cancel(&mut self, operation_id: &str) -> (r: bool)
        ensures
            r == is_running(old(self)@, operation_id@),
            r ==> final(self)@ == cancelled_spec(old(self)@),
            !r ==> final(self)@ == old(self)@,
    {
        match &mut self.current {
            Some(active) => {
                if str_equal(active.id.as_str(), operation_id) {
                    cancel_token(&active.token);
                    active.cancel_requested = true;
                    true
                } else {
                    false
                }
            },
            None => false,
        }
    }

    /// Cancels the running operation's token, if an operation runs.
    pub fn cancel_active(&mut self)
        ensures
            final(self)@ == cancelled_spec(old(self)@),
    {
        match &mut self.current {
            Some(active) => {
                cancel_token(&active.token);
                active.cancel_requested = true;
            },
            None => {},
        }
    }

    /// Frees the slot when the operation with the given id ends.
    pub fn finish_operation(&mut self, operation_id: &str)
        ensures
            final(self)@ == finish_spec(old(self)@, operation_id@),
    {
        let matches = match &self.current {
            Some(active) => str_equal(active.id.as_str(), operation_id),
            None => false,
        };
        if matches {
            self.current = None;
        }
    }

    /// Whether an operation is running.
    pub fn is_busy(&self) -> (r: bool)
        ensures
            r == (self@ is Some),
    {
        self.current.is_some()
    }
}

/// Finishing the operation a reservation started frees the slot again, cancelled or not.
pub proof fn law_finish_frees_reserved_slot(id: Seq<char>, cancelled: bool)
    ensures
        finish_spec(Some((id, cancelled)), id) is None,
{
}

/// Finishing an operation other than the running one leaves it running.
pub proof fn law_finish_other_keeps_slot(running: Seq<char>, cancelled: bool, other: Seq<char>)
    requires
        running != other,
    ensures
        finish_spec(Some((running, cancelled)), other) == Some((running, cancelled)),
{
}

/// Cancelling by the id a reservation handed out cancels that operation, which keeps the slot
/// until it finishes; cancelling by another id, or with nothing running, changes nothing.
pub proof fn law_cancel_reaches_the_running_operation(id: Seq<char>, other: Seq<char>)
    requires
        id != other,
    ensures
        is_running(Some((id, false)), id),
        cancelled_spec(Some((id, false))) == Some((id, true)),
        !is_running(Some((id, false)), other),
        !is_running(None, id),
        cancelled_spec(None) is None,
{
}

} // verus!
