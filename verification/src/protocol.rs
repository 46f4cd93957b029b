//! The request side of the line-based JSON protocol between the front end and the backend:
//! which requests are accepted, which method they call, and the download parameters.
use crate::engine::{BackendError, DownloadParameters, ErrorPayload};
use crate::model::{DownloadMode, VideoQuality};
use crate::text::{
    chars_of, debug_quoted, debug_text, extend_str, is_plain_debug_text, push_decimal, quoted,
    str_equal, string_of,
};
use vstd::prelude::*;

verus! {

/// The protocol version this backend speaks.
pub const PROTOCOL_VERSION: u32 = 1;

/// The envelope of a request, as read from its JSON line.
#[derive(Debug, Clone)]
pub struct RequestEnvelope {
    pub protocol_version: u32,
    pub kind: String,
    pub request_id: String,
    pub method: String,
}

/// The methods a request may call.
#[derive(Debug, Clone, Copy, PartialEq, Eq, Structural)]
pub enum RequestMethod {
    Initialize,
    SetOutputFolder,
    CheckTools,
    InstallTools,
    StartDownload,
    Cancel,
    Shutdown,
    Unknown,
}

pub open spec fn method_spec(name: Seq<char>) -> RequestMethod {
    if name == "initialize"@ {
        RequestMethod::Initialize
    } else if name == "setOutputFolder"@ {
        RequestMethod::SetOutputFolder
    } else if name == "checkTools"@ {
        RequestMethod::CheckTools
    } else if name == "installTools"@ {
        RequestMethod::InstallTools
    } else if name == "startDownload"@ {
        RequestMethod::StartDownload
    } else if name == "cancel"@ {
        RequestMethod::Cancel
    } else if name == "shutdown"@ {
        RequestMethod::Shutdown
    } else {
        RequestMethod::Unknown
    }
}

/// The method a name calls.
pub fn method_of(name: &str) -> (r: RequestMethod)
    ensures
        r == method_spec(name@),
{
    if str_equal(name, "initialize") {
        RequestMethod::Initialize
    } else if str_equal(name, "setOutputFolder") {
        RequestMethod::SetOutputFolder
    } else if str_equal(name, "checkTools") {
        RequestMethod::CheckTools
    } else if str_equal(name, "installTools") {
        RequestMethod::InstallTools
    } else if str_equal(name, "startDownload") {
        RequestMethod::StartDownload
    } else if str_equal(name, "cancel") {
        RequestMethod::Cancel
    } else if str_equal(name, "shutdown") {
        RequestMethod::Shutdown
    } else {
        RequestMethod::Unknown
    }
}

/// One step of serving a request.
#[derive(Debug, Clone, Copy, PartialEq, Eq, Structural)]
pub enum RequestStep {
    /// Read the method's parameters from the request.
    ReadParameters,
    /// Check the download's URL and output folder.
    ValidateDownload,
    /// Take the operation slot, or answer `busy`.
    ReserveOperation,
    /// Answer with the reserved operation's id.
    AnswerOperationId,
    /// Run the operation in the background; its end arrives as an event.
    RunInBackground,
    /// Do the work and answer with its result.
    RunAndAnswer,
    /// Cancel the running operation, if any.
    CancelRunningOperation,
    /// Answer that the backend shuts down.
    AnswerShuttingDown,
    /// Read no further requests.
    StopReading,
    /// Answer that the method is unknown.
    RejectUnknownMethod,
}

/// The steps that serve a request calling `method`, in order; the first that fails is
/// answered with its error and ends the request.
pub open spec fn request_steps_spec(method: RequestMethod) -> Seq<RequestStep> {
    match method {
        RequestMethod::Initialize => seq![RequestStep::RunAndAnswer],
        RequestMethod::SetOutputFolder => seq![
            RequestStep::ReadParameters,
            RequestStep::RunAndAnswer,
        ],
        RequestMethod::CheckTools => seq![RequestStep::ReserveOperation, RequestStep::RunAndAnswer],
        RequestMethod::InstallTools => seq![
            RequestStep::ReserveOperation,
            RequestStep::AnswerOperationId,
            RequestStep::RunInBackground,
        ],
        RequestMethod::StartDownload => seq![
            RequestStep::ReadParameters,
            RequestStep::ValidateDownload,
            RequestStep::ReserveOperation,
            RequestStep::AnswerOperationId,
            RequestStep::RunInBackground,
        ],
        RequestMethod::Cancel => seq![RequestStep::ReadParameters, RequestStep::RunAndAnswer],
        RequestMethod::Shutdown => seq![
            RequestStep::CancelRunningOperation,
            RequestStep::AnswerShuttingDown,
            RequestStep::StopReading,
        ],
        RequestMethod::Unknown => seq![RequestStep::RejectUnknownMethod],
    }
}

/// The steps that serve a request (see [`request_steps_spec`]).
pub fn request_steps(method: RequestMethod) -> (r: Vec<RequestStep>)
    ensures
        r@ == request_steps_spec(method),
{
    let r = match method {
        RequestMethod::Initialize => vec![RequestStep::RunAndAnswer],
        RequestMethod::SetOutputFolder => vec![RequestStep::ReadParameters, RequestStep::RunAndAnswer],
        RequestMethod::CheckTools => vec![RequestStep::ReserveOperation, RequestStep::RunAndAnswer],
        RequestMethod::InstallTools => vec![
            RequestStep::ReserveOperation,
            RequestStep::AnswerOperationId,
            RequestStep::RunInBackground,
        ],
        RequestMethod::StartDownload => vec![
            RequestStep::ReadParameters,
            RequestStep::ValidateDownload,
            RequestStep::ReserveOperation,
            RequestStep::AnswerOperationId,
            RequestStep::RunInBackground,
        ],
        RequestMethod::Cancel => vec![RequestStep::ReadParameters, RequestStep::RunAndAnswer],
        RequestMethod::Shutdown => vec![
            RequestStep::CancelRunningOperation,
            RequestStep::AnswerShuttingDown,
            RequestStep::StopReading,
        ],
        RequestMethod::Unknown => vec![RequestStep::RejectUnknownMethod],
    };
    assert(r@ =~= request_steps_spec(method));
    r
}

/// Every request is answered exactly once; an operation is reserved only after its request
/// has been read and checked, and one that runs in the background is answered with its id
/// before it starts.
pub proof fn law_requests_are_answered_once(method: RequestMethod)
    ensures
        ({
            let steps = request_steps_spec(method);
            let answers = steps.filter(
                |step: RequestStep|
                    step == RequestStep::AnswerOperationId || step == RequestStep::RunAndAnswer
                        || step == RequestStep::AnswerShuttingDown || step
                        == RequestStep::RejectUnknownMethod,
            );
            &&& answers.len() == 1
            &&& forall|i: int, j: int|
                0 <= i < steps.len() && 0 <= j < steps.len() && steps[j]
                    == RequestStep::ReserveOperation && (steps[i] == RequestStep::ReadParameters
                    || steps[i] == RequestStep::ValidateDownload) ==> i < j
            &&& forall|i: int, j: int|
                0 <= i < steps.len() && 0 <= j < steps.len() && steps[i]
                    == RequestStep::AnswerOperationId && steps[j] == RequestStep::RunInBackground
                    ==> i < j
            &&& steps.contains(RequestStep::RunInBackground) ==> steps.contains(
                RequestStep::ReserveOperation,
            )
        }),
{
    let steps = request_steps_spec(method);
    reveal_with_fuel(Seq::filter, 6);
    assert(steps.len() <= 5);
    match method {
        RequestMethod::Initialize => {
            assert(steps[0] == RequestStep::RunAndAnswer);
        },
        RequestMethod::InstallTools => {
            assert(steps[0] == RequestStep::ReserveOperation);
        },
        RequestMethod::StartDownload => {
            assert(steps[2] == RequestStep::ReserveOperation);
        },
        _ => {},
    }
}

/// The answer to a message the backend cannot take: the code, a fixed message, the details.
pub open spec fn protocol_error_is(p: ErrorPayload, code: Seq<char>, details: Seq<char>) -> bool {
    &&& p.code@ == code
    &&& p.message@ == "The backend received an invalid protocol message."@
    &&& p.details matches Some(d) && d@ == details
}

/// The error payload for a message that breaks the protocol.
pub fn protocol_error_payload(code: &str, details: String) -> (r: ErrorPayload)
    ensures
        protocol_error_is(r, code@, details@),
{
    ErrorPayload {
        code: code.to_owned(),
        message: "The backend received an invalid protocol message.".to_owned(),
        details: Some(details),
    }
}

/// Screens a request: it must be of kind `request` and speak this protocol version; then the
/// method it calls.
pub fn screen_request(envelope: &RequestEnvelope) -> (r: Result<RequestMethod, ErrorPayload>)
    ensures
        envelope.kind@ != "request"@ ==> (r matches Err(p) && protocol_error_is(
            p,
            "invalidKind"@,
            "expected a request message"@,
        )),
        envelope.kind@ == "request"@ && envelope.protocol_version != PROTOCOL_VERSION ==> (r matches Err(p)
            && protocol_error_is(
            p,
            "protocolMismatch"@,
            "backend protocol 1 does not support protocol "@ + crate::text::decimal_spec(
                envelope.protocol_version as nat,
            ),
        )),
        envelope.kind@ == "request"@ && envelope.protocol_version == PROTOCOL_VERSION ==> r
            == Ok::<RequestMethod, ErrorPayload>(method_spec(envelope.method@)),
{
    if !str_equal(envelope.kind.as_str(), "request") {
        return Err(protocol_error_payload("invalidKind", "expected a request message".to_owned()));
    }
    if envelope.protocol_version != PROTOCOL_VERSION {
        let mut v = chars_of("backend protocol 1 does not support protocol ");
        push_decimal(&mut v, envelope.protocol_version as u64);
        return Err(protocol_error_payload("protocolMismatch", string_of(v.as_slice())));
    }
    Ok(method_of(envelope.method.as_str()))
}

/// The error for a method the backend does not know: `unknown method "<name>"`.
pub fn unknown_method_error(method: &str) -> (r: BackendError)
    ensures
        r matches BackendError::InvalidRequest(m) && m@ == "unknown method "@ + debug_text(method@),
        is_plain_debug_text(method@) ==> (r matches BackendError::InvalidRequest(m) && m@
            == "unknown method "@ + quoted(method@)),
{
    let mut v = chars_of("unknown method ");
    extend_str(&mut v, debug_quoted(method).as_str());
    BackendError::InvalidRequest(string_of(v.as_slice()))
}

/// The parameters of a `startDownload` request, as read from JSON.
#[derive(Debug, Clone)]
pub struct DownloadParams {
    pub url: String,
    pub mode: String,
    pub video_quality: String,
    pub output_folder: String,
}

pub open spec fn mode_spec(name: Seq<char>) -> Option<DownloadMode> {
    if name == "video"@ {
        Some(DownloadMode::Video)
    } else if name == "audioOnly"@ {
        Some(DownloadMode::AudioOnly)
    } else {
        None
    }
}

pub open spec fn quality_spec(name: Seq<char>) -> Option<VideoQuality> {
    if name == "p1080"@ {
        Some(VideoQuality::P1080)
    } else if name == "p1440"@ {
        Some(VideoQuality::P1440)
    } else if name == "best"@ {
        Some(VideoQuality::Best)
    } else {
        None
    }
}

/// The mode and quality names read as what they name: `video` as a video download and
/// `audioOnly` as sound only; `p1080`, `p1440` and `best` as those qualities; no other name
/// reads as any of them.
pub proof fn law_download_names(name: Seq<char>)
    ensures
        mode_spec(name) == Some(DownloadMode::Video) <==> name == "video"@,
        mode_spec(name) == Some(DownloadMode::AudioOnly) <==> name == "audioOnly"@,
        mode_spec(name) is None <==> name != "video"@ && name != "audioOnly"@,
        quality_spec(name) == Some(VideoQuality::P1080) <==> name == "p1080"@,
        quality_spec(name) == Some(VideoQuality::P1440) <==> name == "p1440"@,
        quality_spec(name) == Some(VideoQuality::Best) <==> name == "best"@,
        quality_spec(name) is None <==> name != "p1080"@ && name != "p1440"@ && name != "best"@,
{
    reveal_strlit("video");
    reveal_strlit("audioOnly");
    reveal_strlit("p1080");
    reveal_strlit("p1440");
    reveal_strlit("best");
    assert("p1080"@[2] != "p1440"@[2]);
    assert("video"@.len() != "audioOnly"@.len());
}

/// Reads the platform-neutral values of a download request: the mode (`video`,
/// `audioOnly`) and quality (`p1080`, `p1440`, `best`) names, an invalid-request error naming
/// the first unknown one.
pub fn parse_download(params: DownloadParams) -> (r: Result<DownloadParameters, BackendError>)
    ensures
        mode_spec(params.mode@) is None ==> (r matches Err(BackendError::InvalidRequest(m)) && m@
            == "unknown download mode "@ + debug_text(params.mode@)),
        mode_spec(params.mode@) is None && is_plain_debug_text(params.mode@) ==> (r matches Err(
            BackendError::InvalidRequest(m),
        ) && m@ == "unknown download mode "@ + quoted(params.mode@)),
        mode_spec(params.mode@) is Some && quality_spec(params.video_quality@) is None ==> (r matches Err(
            BackendError::InvalidRequest(m),
        ) && m@ == "unknown video quality "@ + debug_text(params.video_quality@)),
        mode_spec(params.mode@) is Some && quality_spec(params.video_quality@) is None
            && is_plain_debug_text(params.video_quality@) ==> (r matches Err(
            BackendError::InvalidRequest(m),
        ) && m@ == "unknown video quality "@ + quoted(params.video_quality@)),
        params.mode@ == "video"@ && quality_spec(params.video_quality@) is Some ==> (r matches Ok(p)
            && p.mode == DownloadMode::Video),
        params.mode@ == "audioOnly"@ && quality_spec(params.video_quality@) is Some ==> (r matches Ok(
            p,
        ) && p.mode == DownloadMode::AudioOnly),
        mode_spec(params.mode@) is Some && quality_spec(params.video_quality@) is Some ==> (r matches Ok(
            p,
        ) && p.url == params.url && p.mode == mode_spec(params.mode@)->0 && p.video_quality
            == quality_spec(params.video_quality@)->0 && p.output_directory == params.output_folder),
{
    proof {
        reveal_strlit("video");
        reveal_strlit("audioOnly");
        assert("video"@.len() != "audioOnly"@.len());
    }
    let mode = if str_equal(params.mode.as_str(), "video") {
        DownloadMode::Video
    } else if str_equal(params.mode.as_str(), "audioOnly") {
        DownloadMode::AudioOnly
    } else {
        let mut v = chars_of("unknown download mode ");
        extend_str(&mut v, debug_quoted(params.mode.as_str()).as_str());
        return Err(BackendError::InvalidRequest(string_of(v.as_slice())));
    };
    let video_quality = if str_equal(params.video_quality.as_str(), "p1080") {
        VideoQuality::P1080
    } else if str_equal(params.video_quality.as_str(), "p1440") {
        VideoQuality::P1440
    } else if str_equal(params.video_quality.as_str(), "best") {
        VideoQuality::Best
    } else {
        let mut v = chars_of("unknown video quality ");
        extend_str(&mut v, debug_quoted(params.video_quality.as_str()).as_str());
        return Err(BackendError::InvalidRequest(string_of(v.as_slice())));
    };
    Ok(
        DownloadParameters {
            url: params.url,
            mode,
            video_quality,
            output_directory: params.output_folder,
        },
    )
}

} // verus!
