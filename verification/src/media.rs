//! The decisions of the media pipeline: the yt-dlp and FFmpeg command lines, what their
//! output lines mean, the progress text and the names of the files written.
use crate::model::{DownloadMode, JobPhase, ProgressUpdate};
use crate::text::{
    chars_of, eq_ignore_ascii_case, eq_ignore_ascii_case_spec, extend_str,
    parse_u64, parse_u64_spec, push_chars_to, push_str_to, rows, split_chars, split_spec,
    starts_with_spec, str_equal, string_of, string_rows, strip_prefix, trim, trim_end_char,
    trim_end_char_spec, trim_spec, join_chars, join_spec, replace_chars, replace_spec, push_decimal,
    decimal_spec, occurs_in, lemma_replace_leaves_no_occurrence, lemma_join_lines_no_occurrence,
    digit_of, is_ascii_digit,
};
use crate::unique::is_random_uuid_text;
use vstd::prelude::*;

verus! {

/// yt-dlp prints progress lines after this marker.
pub const PROGRESS_PREFIX: &'static str = "__YTDLP_WRAPPER_PROGRESS__";

/// yt-dlp prints the final file path, as a JSON string, after this marker.
pub const FILE_PREFIX: &'static str = "__YTDLP_WRAPPER_FILE__";

/// Where yt-dlp names the downloaded file.
pub const OUTPUT_TEMPLATE: &'static str = "%(title).180B [%(id)s].%(ext)s";

/// The progress line yt-dlp prints: the progress marker, then five `|`-separated fields.
pub const PROGRESS_TEMPLATE: &'static str =
    "download:__YTDLP_WRAPPER_PROGRESS__%(progress._percent_str)s|%(progress.downloaded_bytes)s|%(progress.total_bytes)s|%(progress.speed)s|%(progress.eta)s";

/// The line yt-dlp prints once the file is in place: the file marker and the path as JSON.
pub const FILE_TEMPLATE: &'static str = "after_move:__YTDLP_WRAPPER_FILE__%(filepath)j";

/// How many of a tool's last diagnostic lines a failure report keeps.
pub const DIAGNOSTIC_LINES: usize = 30;

/// Why a download failed.
#[derive(Debug, Clone, PartialEq, Eq)]
pub enum MediaError {
    Io(String),
    Json(String),
    Cancelled,
    YtDlp(String),
    Ffmpeg(String),
    MissingOutput,
    MissingStream,
}

impl MediaError {
    pub open spec fn message_spec(self) -> Seq<char> {
        match self {
            MediaError::Io(e) => "file operation failed: "@ + e@,
            MediaError::Json(e) => "media information is invalid: "@ + e@,
            MediaError::Cancelled => "the operation was cancelled"@,
            MediaError::YtDlp(e) => "yt-dlp failed: "@ + e@,
            MediaError::Ffmpeg(e) => "FFmpeg failed: "@ + e@,
            MediaError::MissingOutput => "yt-dlp did not report the downloaded file"@,
            MediaError::MissingStream => "the downloaded file has no supported media stream"@,
        }
    }

    /// The error's text.
    pub fn message(&self) -> (r: String)
        ensures
            r@ == self.message_spec(),
    {
        let (head, detail): (&str, Option<&String>) = match self {
            MediaError::Io(e) => ("file operation failed: ", Some(e)),
            MediaError::Json(e) => ("media information is invalid: ", Some(e)),
            MediaError::Cancelled => ("the operation was cancelled", None),
            MediaError::YtDlp(e) => ("yt-dlp failed: ", Some(e)),
            MediaError::Ffmpeg(e) => ("FFmpeg failed: ", Some(e)),
            MediaError::MissingOutput => ("yt-dlp did not report the downloaded file", None),
            MediaError::MissingStream => ("the downloaded file has no supported media stream", None),
        };
        let mut v = chars_of(head);
        if let Some(e) = detail {
            extend_str(&mut v, e.as_str());
        }
        string_of(v.as_slice())
    }
}

/// One stream as ffprobe describes it; a picture stream also has its size and its average
/// frame rate (the `numerator/denominator` text that ffprobe prints).
#[derive(Debug, Clone)]
pub struct ProbeStream {
    pub codec_type: Option<String>,
    pub codec_name: Option<String>,
    pub pix_fmt: Option<String>,
    pub width: Option<u64>,
    pub height: Option<u64>,
    pub avg_frame_rate: Option<String>,
}

/// What ffprobe reports about a downloaded file.
#[derive(Debug, Clone)]
pub struct ProbeResult {
    pub streams: Vec<ProbeStream>,
    pub duration: Option<String>,
}

/// Whether an optional text is present and equal to `text`.
pub open spec fn text_is(o: Option<String>, text: Seq<char>) -> bool {
    o matches Some(x) && x@ == text
}

fn option_text_is(o: &Option<String>, text: &str) -> (r: bool)
    ensures
        r == text_is(*o, text@),
{
    match o {
        Some(x) => str_equal(x.as_str(), text),
        None => false,
    }
}

pub open spec fn is_compatible_h264_spec(stream: ProbeStream) -> bool {
    &&& text_is(stream.codec_name, "h264"@)
    &&& text_is(stream.pix_fmt, "yuv420p"@) || text_is(stream.pix_fmt, "yuvj420p"@)
}

/// Whether a video stream can be copied into an MP4 as it is: H.264 in 4:2:0 pixels.
pub fn is_compatible_h264(stream: &ProbeStream) -> (r: bool)
    ensures
        r == is_compatible_h264_spec(*stream),
{
    option_text_is(&stream.codec_name, "h264") && (option_text_is(&stream.pix_fmt, "yuv420p")
        || option_text_is(&stream.pix_fmt, "yuvj420p"))
}

/// Whether `i` is the first stream of the given type.
pub open spec fn is_first_of_type(streams: Seq<ProbeStream>, i: int, kind: Seq<char>) -> bool {
    &&& 0 <= i < streams.len()
    &&& text_is(streams[i].codec_type, kind)
    &&& forall|j: int| 0 <= j < i ==> !text_is(#[trigger] streams[j].codec_type, kind)
}

/// The first stream of the given type, if any.
pub open spec fn first_of_type(streams: Seq<ProbeStream>, kind: Seq<char>) -> Option<int> {
    if exists|i: int| is_first_of_type(streams, i, kind) {
        Some(choose|i: int| is_first_of_type(streams, i, kind))
    } else {
        None
    }
}

proof fn lemma_first_of_type_unique(streams: Seq<ProbeStream>, i: int, kind: Seq<char>)
    requires
        is_first_of_type(streams, i, kind),
    ensures
        first_of_type(streams, kind) == Some(i),
{
    let c = choose|i: int| is_first_of_type(streams, i, kind);
    assert(is_first_of_type(streams, c, kind));
    if c < i {
        assert(!text_is(streams[c].codec_type, kind));
    }
    if c > i {
        assert(!text_is(streams[i].codec_type, kind));
    }
}

fn find_stream(streams: &Vec<ProbeStream>, kind: &str) -> (r: Option<usize>)
    ensures
        r matches Some(i) ==> first_of_type(streams@, kind@) == Some(i as int) && i < streams@.len(),
        r is None ==> first_of_type(streams@, kind@) is None,
{
    let mut i: usize = 0;
    while i < streams.len()
        invariant
            i <= streams@.len(),
            forall|j: int| 0 <= j < i ==> !text_is(#[trigger] streams@[j].codec_type, kind@),
        decreases streams@.len() - i,
    {
        if option_text_is(&streams[i].codec_type, kind) {
            proof {
                lemma_first_of_type_unique(streams@, i as int, kind@);
            }
            return Some(i);
        }
        i += 1;
    }
    assert(!exists|i: int| is_first_of_type(streams@, i, kind@));
    None
}

/// The codec arguments for a sound stream: copied when it is AAC, re-encoded otherwise.
pub open spec fn audio_codec_arguments(audio: ProbeStream) -> Seq<Seq<char>> {
    if text_is(audio.codec_name, "aac"@) {
        seq!["-c:a"@, "copy"@]
    } else {
        seq!["-c:a"@, "aac"@, "-b:a"@, "256k"@]
    }
}

/// The average frame rate of a stream as the fraction ffprobe prints (`30000/1001`); `0/0`,
/// which ffprobe prints for an unknown rate, when the text is absent or not two whole numbers.
pub open spec fn frame_rate_spec(text: Option<String>) -> (u64, u64) {
    match text {
        Some(t) => {
            let parts = split_spec(t@, '/');
            if parts.len() == 2 && parse_u64_spec(parts[0]) is Some && parse_u64_spec(
                parts[1],
            ) is Some {
                (parse_u64_spec(parts[0])->0, parse_u64_spec(parts[1])->0)
            } else {
                (0, 0)
            }
        },
        None => (0, 0),
    }
}

/// The rate cap of a re-encode: the maximum of the bitrate guidance for the stream's size and
/// frame rate, as `-maxrate` and as a one-second `-bufsize`; none when the size is unknown.
pub open spec fn rate_cap_arguments(video: ProbeStream) -> Seq<Seq<char>> {
    match (video.width, video.height) {
        (Some(w), Some(h)) => if w > 0 && h > 0 {
            let rate = frame_rate_spec(video.avg_frame_rate);
            let maximum = bitrate_limits_spec(w, h, rate.0, rate.1).maximum_kbps;
            seq![
                "-maxrate"@,
                decimal_spec(maximum as nat) + "k"@,
                "-bufsize"@,
                decimal_spec(maximum as nat) + "k"@,
            ]
        } else {
            Seq::empty()
        },
        _ => Seq::empty(),
    }
}

/// The codec arguments for a picture stream: copied when compatible, re-encoded otherwise
/// with libx264 at CRF 18, capped at the bitrate guidance's maximum.
pub open spec fn video_codec_arguments(video: ProbeStream) -> Seq<Seq<char>> {
    if is_compatible_h264_spec(video) {
        seq!["-c:v"@, "copy"@]
    } else {
        seq!["-c:v"@, "libx264"@, "-preset"@, "medium"@, "-crf"@, "18"@] + rate_cap_arguments(
            video,
        ) + seq!["-pix_fmt"@, "yuv420p"@, "-tag:v"@, "avc1"@]
    }
}

/// The FFmpeg command line that turns the download into an MP4 (video) or M4A (sound only)
/// at `partial`, or `None` when the file lacks the stream the mode needs.
pub open spec fn ffmpeg_arguments_spec(
    input: Seq<char>,
    partial: Seq<char>,
    mode: DownloadMode,
    streams: Seq<ProbeStream>,
) -> Option<Seq<Seq<char>>> {
    let head = seq!["-hide_banner"@, "-y"@, "-i"@, input];
    let tail = seq!["-progress"@, "pipe:1"@, "-nostats"@, partial];
    let audio = first_of_type(streams, "audio"@);
    match mode {
        DownloadMode::Video => match first_of_type(streams, "video"@) {
            None => None,
            Some(v) => Some(
                head + seq!["-map"@, "0:v:0"@, "-map"@, "0:a:0?"@] + video_codec_arguments(
                    streams[v],
                ) + match audio {
                    Some(a) => audio_codec_arguments(streams[a]),
                    None => Seq::empty(),
                } + seq![
                    "-map_metadata"@,
                    "0"@,
                    "-map_chapters"@,
                    "0"@,
                    "-movflags"@,
                    "+faststart"@,
                ] + tail,
            ),
        },
        DownloadMode::AudioOnly => match audio {
            None => None,
            Some(a) => Some(
                head + seq!["-map"@, "0:a:0"@, "-vn"@] + audio_codec_arguments(streams[a]) + seq![
                    "-map_metadata"@,
                    "0"@,
                    "-movflags"@,
                    "+faststart"@,
                ] + tail,
            ),
        },
    }
}

fn push_audio_codec(args: &mut Vec<String>, audio: &ProbeStream)
    ensures
        string_rows(final(args)@) == string_rows(old(args)@) + audio_codec_arguments(*audio),
{
    if option_text_is(&audio.codec_name, "aac") {
        push_str_to(args, "-c:a");
        push_str_to(args, "copy");
    } else {
        push_str_to(args, "-c:a");
        push_str_to(args, "aac");
        push_str_to(args, "-b:a");
        push_str_to(args, "256k");
    }
    assert(string_rows(args@) =~= string_rows(old(args)@) + audio_codec_arguments(*audio));
}

/// The frame rate of a stream (see [`frame_rate_spec`]).
pub fn frame_rate(text: &Option<String>) -> (r: (u64, u64))
    ensures
        r == frame_rate_spec(*text),
{
    match text {
        Some(t) => {
            let chars = chars_of(t.as_str());
            let parts = split_chars(chars.as_slice(), '/');
            if parts.len() != 2 {
                return (0, 0);
            }
            assert(rows(parts@)[0] == parts@[0]@);
            assert(rows(parts@)[1] == parts@[1]@);
            match (parse_u64(parts[0].as_slice()), parse_u64(parts[1].as_slice())) {
                (Some(numerator), Some(denominator)) => (numerator, denominator),
                _ => (0, 0),
            }
        },
        None => (0, 0),
    }
}

fn push_rate_cap(args: &mut Vec<String>, video: &ProbeStream)
    ensures
        string_rows(final(args)@) == string_rows(old(args)@) + rate_cap_arguments(*video),
{
    let (width, height) = match (video.width, video.height) {
        (Some(w), Some(h)) => (w, h),
        _ => {
            assert(string_rows(args@) =~= string_rows(old(args)@) + rate_cap_arguments(*video));
            return;
        },
    };
    if width == 0 || height == 0 {
        assert(string_rows(args@) =~= string_rows(old(args)@) + rate_cap_arguments(*video));
        return;
    }
    let (numerator, denominator) = frame_rate(&video.avg_frame_rate);
    let limits = bitrate_limits(width, height, numerator, denominator);
    let mut rate: Vec<char> = Vec::new();
    push_decimal(&mut rate, limits.maximum_kbps);
    extend_str(&mut rate, "k");
    let ghost before = string_rows(args@);
    push_str_to(args, "-maxrate");
    push_chars_to(args, rate.as_slice());
    push_str_to(args, "-bufsize");
    push_chars_to(args, rate.as_slice());
    assert(rate@ =~= decimal_spec(limits.maximum_kbps as nat) + "k"@);
    assert(string_rows(args@) =~= before + rate_cap_arguments(*video));
}

fn push_video_codec(args: &mut Vec<String>, video: &ProbeStream)
    ensures
        string_rows(final(args)@) == string_rows(old(args)@) + video_codec_arguments(*video),
{
    if is_compatible_h264(video) {
        push_str_to(args, "-c:v");
        push_str_to(args, "copy");
        assert(string_rows(args@) =~= string_rows(old(args)@) + video_codec_arguments(*video));
    } else {
        push_str_to(args, "-c:v");
        push_str_to(args, "libx264");
        push_str_to(args, "-preset");
        push_str_to(args, "medium");
        push_str_to(args, "-crf");
        push_str_to(args, "18");
        let ghost encoder = string_rows(args@);
        push_rate_cap(args, video);
        let ghost capped = string_rows(args@);
        push_str_to(args, "-pix_fmt");
        push_str_to(args, "yuv420p");
        push_str_to(args, "-tag:v");
        push_str_to(args, "avc1");
        assert(encoder =~= string_rows(old(args)@) + seq![
            "-c:v"@,
            "libx264"@,
            "-preset"@,
            "medium"@,
            "-crf"@,
            "18"@,
        ]);
        assert(string_rows(args@) =~= capped + seq!["-pix_fmt"@, "yuv420p"@, "-tag:v"@, "avc1"@]);
        assert(string_rows(args@) =~= string_rows(old(args)@) + video_codec_arguments(*video));
    }
}

/// The FFmpeg arguments that convert `input` into `partial` for the given mode
/// (see [`ffmpeg_arguments_spec`]); `MissingStream` when the needed stream is absent.
pub fn ffmpeg_arguments(input: &str, partial: &str, mode: DownloadMode, probe: &ProbeResult) -> (r:
    Result<Vec<String>, MediaError>)
    ensures
        match ffmpeg_arguments_spec(input@, partial@, mode, probe.streams@) {
            Some(expected) => r matches Ok(args) && string_rows(args@) == expected,
            None => r == Err::<Vec<String>, MediaError>(MediaError::MissingStream),
        },
{
    let video = find_stream(&probe.streams, "video");
    let audio = find_stream(&probe.streams, "audio");
    let mut args: Vec<String> = Vec::new();
    push_str_to(&mut args, "-hide_banner");
    push_str_to(&mut args, "-y");
    push_str_to(&mut args, "-i");
    push_str_to(&mut args, input);
    let ghost head = string_rows(args@);
    assert(head =~= seq!["-hide_banner"@, "-y"@, "-i"@, input@]);
    match mode {
        DownloadMode::Video => {
            let v = match video {
                Some(v) => v,
                None => {
                    return Err(MediaError::MissingStream);
                },
            };
            push_str_to(&mut args, "-map");
            push_str_to(&mut args, "0:v:0");
            push_str_to(&mut args, "-map");
            push_str_to(&mut args, "0:a:0?");
            let ghost mapped = string_rows(args@);
            push_video_codec(&mut args, &probe.streams[v]);
            let ghost coded = string_rows(args@);
            match audio {
                Some(a) => push_audio_codec(&mut args, &probe.streams[a]),
                None => {},
            }
            let ghost with_audio = string_rows(args@);
            push_str_to(&mut args, "-map_metadata");
            push_str_to(&mut args, "0");
            push_str_to(&mut args, "-map_chapters");
            push_str_to(&mut args, "0");
            push_str_to(&mut args, "-movflags");
            push_str_to(&mut args, "+faststart");
            let ghost flagged = string_rows(args@);
            push_str_to(&mut args, "-progress");
            push_str_to(&mut args, "pipe:1");
            push_str_to(&mut args, "-nostats");
            push_str_to(&mut args, partial);
            proof {
                let audio_args = match first_of_type(probe.streams@, "audio"@) {
                    Some(a) => audio_codec_arguments(probe.streams@[a]),
                    None => Seq::empty(),
                };
                assert(mapped =~= head + seq!["-map"@, "0:v:0"@, "-map"@, "0:a:0?"@]);
                assert(with_audio =~= coded + audio_args);
                assert(flagged =~= with_audio + seq![
                    "-map_metadata"@,
                    "0"@,
                    "-map_chapters"@,
                    "0"@,
                    "-movflags"@,
                    "+faststart"@,
                ]);
                assert(string_rows(args@) =~= flagged + seq![
                    "-progress"@,
                    "pipe:1"@,
                    "-nostats"@,
                    partial@,
                ]);
            }
        },
        DownloadMode::AudioOnly => {
            let a = match audio {
                Some(a) => a,
                None => {
                    return Err(MediaError::MissingStream);
                },
            };
            push_str_to(&mut args, "-map");
            push_str_to(&mut args, "0:a:0");
            push_str_to(&mut args, "-vn");
            let ghost mapped = string_rows(args@);
            push_audio_codec(&mut args, &probe.streams[a]);
            let ghost coded = string_rows(args@);
            push_str_to(&mut args, "-map_metadata");
            push_str_to(&mut args, "0");
            push_str_to(&mut args, "-movflags");
            push_str_to(&mut args, "+faststart");
            let ghost flagged = string_rows(args@);
            push_str_to(&mut args, "-progress");
            push_str_to(&mut args, "pipe:1");
            push_str_to(&mut args, "-nostats");
            push_str_to(&mut args, partial);
            proof {
                assert(mapped =~= head + seq!["-map"@, "0:a:0"@, "-vn"@]);
                assert(flagged =~= coded + seq!["-map_metadata"@, "0"@, "-movflags"@, "+faststart"@]);
                assert(string_rows(args@) =~= flagged + seq![
                    "-progress"@,
                    "pipe:1"@,
                    "-nostats"@,
                    partial@,
                ]);
            }
        },
    }
    Ok(args)
}


/// The arguments that choose the formats yt-dlp downloads for a mode.
pub open spec fn format_arguments(mode: DownloadMode) -> Seq<Seq<char>> {
    match mode {
        DownloadMode::Video => seq!["--format"@, "bv*+ba/b"@, "--merge-output-format"@, "mkv"@],
        DownloadMode::AudioOnly => seq!["--format"@, "ba/b"@],
    }
}

/// The yt-dlp command line: no configuration files or self-update, one video, Windows-safe
/// names, the bundled FFmpeg and Deno, downloads into `staging`, machine-readable progress and
/// final path, then the URL after `--`.
pub open spec fn yt_dlp_arguments_spec(
    tool_directory: Seq<char>,
    deno: Seq<char>,
    staging: Seq<char>,
    mode: DownloadMode,
    url: Seq<char>,
) -> Seq<Seq<char>> {
    seq![
        "--no-config"@,
        "--no-update"@,
        "--no-playlist"@,
        "--windows-filenames"@,
        "--newline"@,
        "--ffmpeg-location"@,
        tool_directory,
        "--js-runtimes"@,
        "deno:"@ + deno,
        "--paths"@,
        "home:"@ + staging,
        "--output"@,
        OUTPUT_TEMPLATE@,
        "--progress-template"@,
        PROGRESS_TEMPLATE@,
        "--print"@,
        FILE_TEMPLATE@,
    ] + format_arguments(mode) + seq!["--"@, url]
}

/// The yt-dlp arguments for a download (see [`yt_dlp_arguments_spec`]); `deno` is the Deno
/// executable's path.
pub fn yt_dlp_arguments(
    tool_directory: &str,
    deno: &str,
    staging: &str,
    mode: DownloadMode,
    url: &str,
) -> (r: Vec<String>)
    ensures
        string_rows(r@) == yt_dlp_arguments_spec(tool_directory@, deno@, staging@, mode, url@),
{
    let mut args: Vec<String> = Vec::new();
    push_str_to(&mut args, "--no-config");
    push_str_to(&mut args, "--no-update");
    push_str_to(&mut args, "--no-playlist");
    push_str_to(&mut args, "--windows-filenames");
    push_str_to(&mut args, "--newline");
    push_str_to(&mut args, "--ffmpeg-location");
    push_str_to(&mut args, tool_directory);
    push_str_to(&mut args, "--js-runtimes");
    let mut runtime = chars_of("deno:");
    extend_str(&mut runtime, deno);
    push_chars_to(&mut args, runtime.as_slice());
    push_str_to(&mut args, "--paths");
    let mut home = chars_of("home:");
    extend_str(&mut home, staging);
    push_chars_to(&mut args, home.as_slice());
    push_str_to(&mut args, "--output");
    push_str_to(&mut args, OUTPUT_TEMPLATE);
    push_str_to(&mut args, "--progress-template");
    push_str_to(&mut args, PROGRESS_TEMPLATE);
    push_str_to(&mut args, "--print");
    push_str_to(&mut args, FILE_TEMPLATE);
    let ghost fixed = string_rows(args@);
    match mode {
        DownloadMode::Video => {
            push_str_to(&mut args, "--format");
            push_str_to(&mut args, "bv*+ba/b");
            push_str_to(&mut args, "--merge-output-format");
            push_str_to(&mut args, "mkv");
        },
        DownloadMode::AudioOnly => {
            push_str_to(&mut args, "--format");
            push_str_to(&mut args, "ba/b");
        },
    }
    let ghost formatted = string_rows(args@);
    assert(formatted =~= fixed + format_arguments(mode));
    push_str_to(&mut args, "--");
    push_str_to(&mut args, url);
    assert(string_rows(args@) =~= formatted + seq!["--"@, url@]);
    args
}

/// yt-dlp reads no configuration files, and the URL reaches it as a plain argument after `--`,
/// so it is never taken for an option.
pub proof fn law_url_is_passed_after_double_dash(
    tool_directory: Seq<char>,
    deno: Seq<char>,
    staging: Seq<char>,
    mode: DownloadMode,
    url: Seq<char>,
)
    ensures
        ({
            let args = yt_dlp_arguments_spec(tool_directory, deno, staging, mode, url);
            &&& args[0] == "--no-config"@
            &&& args.last() == url
            &&& args[args.len() - 2] == "--"@
        }),
{
}

/// The yt-dlp command downloads, for a video, the best picture together with the best sound
/// (falling back to the best single file) merged into MKV, and for sound only, the best sound
/// (falling back to the best single file).
pub proof fn law_yt_dlp_fetches_picture_and_sound(
    tool_directory: Seq<char>,
    deno: Seq<char>,
    staging: Seq<char>,
    mode: DownloadMode,
    url: Seq<char>,
)
    ensures
        ({
            let args = yt_dlp_arguments_spec(tool_directory, deno, staging, mode, url);
            let n = args.len() as int;
            match mode {
                DownloadMode::Video => n >= 6 && args.subrange(n - 6, n) == seq![
                    "--format"@,
                    "bv*+ba/b"@,
                    "--merge-output-format"@,
                    "mkv"@,
                    "--"@,
                    url,
                ],
                DownloadMode::AudioOnly => n >= 4 && args.subrange(n - 4, n) == seq![
                    "--format"@,
                    "ba/b"@,
                    "--"@,
                    url,
                ],
            }
        }),
{
    let args = yt_dlp_arguments_spec(tool_directory, deno, staging, mode, url);
    let n = args.len() as int;
    match mode {
        DownloadMode::Video => {
            assert(args.subrange(n - 6, n) =~= seq![
                "--format"@,
                "bv*+ba/b"@,
                "--merge-output-format"@,
                "mkv"@,
                "--"@,
                url,
            ]);
        },
        DownloadMode::AudioOnly => {
            assert(args.subrange(n - 4, n) =~= seq!["--format"@, "ba/b"@, "--"@, url]);
        },
    }
}

/// A video command: the download as input, its first picture and (if any) first sound
/// stream mapped, the picture copied only when it is compatible H.264 and encoded with
/// libx264 otherwise, the sound (when there is one) copied only when it is AAC and encoded to
/// AAC otherwise, then the metadata, chapters, fast start and the progress output to
/// `partial`.
pub proof fn law_video_command_keeps_h264_and_aac(
    input: Seq<char>,
    partial: Seq<char>,
    streams: Seq<ProbeStream>,
    v: int,
)
    requires
        is_first_of_type(streams, v, "video"@),
    ensures
        match ffmpeg_arguments_spec(input, partial, DownloadMode::Video, streams) {
            Some(args) => {
                let n = args.len() as int;
                &&& n >= 20
                &&& args.take(9) == seq![
                    "-hide_banner"@,
                    "-y"@,
                    "-i"@,
                    input,
                    "-map"@,
                    "0:v:0"@,
                    "-map"@,
                    "0:a:0?"@,
                    "-c:v"@,
                ]
                &&& (args[9] == "copy"@ <==> is_compatible_h264_spec(streams[v]))
                &&& (!is_compatible_h264_spec(streams[v]) ==> args[9] == "libx264"@)
                &&& args.subrange(n - 10, n) == seq![
                    "-map_metadata"@,
                    "0"@,
                    "-map_chapters"@,
                    "0"@,
                    "-movflags"@,
                    "+faststart"@,
                    "-progress"@,
                    "pipe:1"@,
                    "-nostats"@,
                    partial,
                ]
                &&& forall|a: int|
                    #[trigger] is_first_of_type(streams, a, "audio"@) ==> if text_is(
                        streams[a].codec_name,
                        "aac"@,
                    ) {
                        args.subrange(n - 12, n - 10) == seq!["-c:a"@, "copy"@]
                    } else {
                        args.subrange(n - 14, n - 10) == seq!["-c:a"@, "aac"@, "-b:a"@, "256k"@]
                    }
                &&& (forall|a: int| !#[trigger] is_first_of_type(streams, a, "audio"@)) ==> (
                args[n - 11] == "avc1"@ || args[n - 11] == "copy"@)
            },
            None => false,
        },
{
    reveal_strlit("copy");
    reveal_strlit("libx264");
    reveal_strlit("avc1");
    reveal_strlit("aac");
    lemma_first_of_type_unique(streams, v, "video"@);
    let head = seq!["-hide_banner"@, "-y"@, "-i"@, input];
    let tail = seq!["-progress"@, "pipe:1"@, "-nostats"@, partial];
    let mapped = head + seq!["-map"@, "0:v:0"@, "-map"@, "0:a:0?"@];
    let video = video_codec_arguments(streams[v]);
    let sound = match first_of_type(streams, "audio"@) {
        Some(a) => audio_codec_arguments(streams[a]),
        None => Seq::<Seq<char>>::empty(),
    };
    let meta = seq![
        "-map_metadata"@,
        "0"@,
        "-map_chapters"@,
        "0"@,
        "-movflags"@,
        "+faststart"@,
    ];
    let args = mapped + video + sound + meta + tail;
    assert(ffmpeg_arguments_spec(input, partial, DownloadMode::Video, streams) == Some(args));
    let n = args.len() as int;
    assert(args.take(9) =~= mapped + seq!["-c:v"@]);
    assert(args[9] == video[1]);
    assert("copy"@[0] != "libx264"@[0]);
    assert(args.subrange(n - 10, n) =~= meta + tail);
    assert forall|a: int| #[trigger] is_first_of_type(streams, a, "audio"@) implies if text_is(
        streams[a].codec_name,
        "aac"@,
    ) {
        args.subrange(n - 12, n - 10) == seq!["-c:a"@, "copy"@]
    } else {
        args.subrange(n - 14, n - 10) == seq!["-c:a"@, "aac"@, "-b:a"@, "256k"@]
    } by {
        lemma_first_of_type_unique(streams, a, "audio"@);
        assert(args.subrange(n - 10 - sound.len(), n - 10) =~= sound);
    }
    if forall|a: int| !#[trigger] is_first_of_type(streams, a, "audio"@) {
        assert(sound.len() == 0);
        assert(args[n - 11] == video.last());
    }
}

/// A sound-only command: the download as input, its first sound stream mapped without
/// picture, copied only when it is AAC and encoded to AAC otherwise, then the metadata, fast
/// start and the progress output to `partial`.
pub proof fn law_sound_command_is_aac(
    input: Seq<char>,
    partial: Seq<char>,
    streams: Seq<ProbeStream>,
    a: int,
)
    requires
        is_first_of_type(streams, a, "audio"@),
    ensures
        match ffmpeg_arguments_spec(input, partial, DownloadMode::AudioOnly, streams) {
            Some(args) => {
                let n = args.len() as int;
                &&& n >= 17
                &&& args.take(7) == seq![
                    "-hide_banner"@,
                    "-y"@,
                    "-i"@,
                    input,
                    "-map"@,
                    "0:a:0"@,
                    "-vn"@,
                ]
                &&& if text_is(streams[a].codec_name, "aac"@) {
                    n == 17 && args.subrange(7, 9) == seq!["-c:a"@, "copy"@]
                } else {
                    n == 19 && args.subrange(7, 11) == seq!["-c:a"@, "aac"@, "-b:a"@, "256k"@]
                }
                &&& args.subrange(n - 8, n) == seq![
                    "-map_metadata"@,
                    "0"@,
                    "-movflags"@,
                    "+faststart"@,
                    "-progress"@,
                    "pipe:1"@,
                    "-nostats"@,
                    partial,
                ]
            },
            None => false,
        },
{
    lemma_first_of_type_unique(streams, a, "audio"@);
    let sound = audio_codec_arguments(streams[a]);
    let args = seq!["-hide_banner"@, "-y"@, "-i"@, input] + seq!["-map"@, "0:a:0"@, "-vn"@]
        + sound + seq!["-map_metadata"@, "0"@, "-movflags"@, "+faststart"@] + seq![
        "-progress"@,
        "pipe:1"@,
        "-nostats"@,
        partial,
    ];
    assert(ffmpeg_arguments_spec(input, partial, DownloadMode::AudioOnly, streams) == Some(args));
    let n = args.len() as int;
    assert(args.take(7) =~= seq!["-hide_banner"@, "-y"@, "-i"@, input, "-map"@, "0:a:0"@, "-vn"@]);
    assert(args.subrange(7, 7 + sound.len() as int) =~= sound);
    assert(args.subrange(n - 8, n) =~= seq![
        "-map_metadata"@,
        "0"@,
        "-movflags"@,
        "+faststart"@,
        "-progress"@,
        "pipe:1"@,
        "-nostats"@,
        partial,
    ]);
}

/// Outputs hold H.264 video and AAC sound: a picture stream is copied only when it is
/// compatible H.264 and encoded with libx264 otherwise; a sound stream is copied only when it is
/// AAC and encoded to AAC otherwise.
pub proof fn law_outputs_are_h264_and_aac(video: ProbeStream, audio: ProbeStream)
    ensures
        video_codec_arguments(video)[0] == "-c:v"@,
        (video_codec_arguments(video)[1] == "copy"@) == is_compatible_h264_spec(video),
        !is_compatible_h264_spec(video) ==> video_codec_arguments(video)[1] == "libx264"@,
        audio_codec_arguments(audio)[0] == "-c:a"@,
        (audio_codec_arguments(audio)[1] == "copy"@) == text_is(audio.codec_name, "aac"@),
        !text_is(audio.codec_name, "aac"@) ==> audio_codec_arguments(audio)[1] == "aac"@,
{
    reveal_strlit("copy");
    reveal_strlit("libx264");
    reveal_strlit("aac");
    assert("copy"@[0] != "libx264"@[0]);
    assert("copy"@[0] != "aac"@[0]);
}

// ---------------------------------------------------------------- bitrate guidance

/// The video bitrates of a re-encode, in kilobits per second: the target, and the maximum.
#[derive(Debug, Clone, Copy, PartialEq, Eq)]
pub struct BitrateLimits {
    pub target_kbps: u64,
    pub maximum_kbps: u64,
}

/// A high frame rate: an average of 48 frames per second or more, the rate given as the
/// fraction `numerator / denominator` that ffprobe reports (`0/0` when it is unknown).
pub open spec fn is_high_frame_rate(numerator: u64, denominator: u64) -> bool {
    denominator > 0 && numerator >= 48 * denominator
}

/// The YouTube SDR guidance, by the shorter side of the picture, as (target, maximum) kbps.
pub open spec fn bitrate_guidance(short_side: u64, high_frame_rate: bool) -> (u64, u64) {
    if short_side >= 4320 {
        if high_frame_rate { (120000, 240000) } else { (80000, 160000) }
    } else if short_side >= 2160 {
        if high_frame_rate { (53000, 68000) } else { (35000, 45000) }
    } else if short_side >= 1440 {
        if high_frame_rate { (24000, 24000) } else { (16000, 16000) }
    } else if short_side >= 1080 {
        if high_frame_rate { (12000, 12000) } else { (8000, 8000) }
    } else if short_side >= 720 {
        if high_frame_rate { (7500, 7500) } else { (5000, 5000) }
    } else if short_side >= 480 {
        if high_frame_rate { (4000, 4000) } else { (2500, 2500) }
    } else {
        if high_frame_rate { (1500, 1500) } else { (1000, 1000) }
    }
}

/// The limits for a `width` x `height` picture at the given average frame rate.
pub open spec fn bitrate_limits_spec(
    width: u64,
    height: u64,
    rate_numerator: u64,
    rate_denominator: u64,
) -> BitrateLimits {
    let short_side = if width <= height { width } else { height };
    let (target, maximum) = bitrate_guidance(
        short_side,
        is_high_frame_rate(rate_numerator, rate_denominator),
    );
    BitrateLimits { target_kbps: target, maximum_kbps: maximum }
}

/// The bitrates a re-encode of a `width` x `height` picture aims at and stays under, by its
/// shorter side and whether its average frame rate is high.
pub fn bitrate_limits(width: u64, height: u64, rate_numerator: u64, rate_denominator: u64) -> (r:
    BitrateLimits)
    ensures
        r == bitrate_limits_spec(width, height, rate_numerator, rate_denominator),
{
    let short_side = if width <= height {
        width
    } else {
        height
    };
    let high = rate_denominator > 0 && (rate_numerator as u128) >= 48 * (rate_denominator as u128);
    let (target, maximum): (u64, u64) = if short_side >= 4320 {
        if high { (120000, 240000) } else { (80000, 160000) }
    } else if short_side >= 2160 {
        if high { (53000, 68000) } else { (35000, 45000) }
    } else if short_side >= 1440 {
        if high { (24000, 24000) } else { (16000, 16000) }
    } else if short_side >= 1080 {
        if high { (12000, 12000) } else { (8000, 8000) }
    } else if short_side >= 720 {
        if high { (7500, 7500) } else { (5000, 5000) }
    } else if short_side >= 480 {
        if high { (4000, 4000) } else { (2500, 2500) }
    } else {
        if high { (1500, 1500) } else { (1000, 1000) }
    };
    BitrateLimits { target_kbps: target, maximum_kbps: maximum }
}

/// A portrait picture gets the limits of the same picture turned on its side, and the
/// target never exceeds the maximum.
pub proof fn law_bitrate_ignores_orientation(
    width: u64,
    height: u64,
    rate_numerator: u64,
    rate_denominator: u64,
)
    ensures
        bitrate_limits_spec(width, height, rate_numerator, rate_denominator) == bitrate_limits_spec(
            height,
            width,
            rate_numerator,
            rate_denominator,
        ),
        bitrate_limits_spec(width, height, rate_numerator, rate_denominator).target_kbps
            <= bitrate_limits_spec(width, height, rate_numerator, rate_denominator).maximum_kbps,
{
}

/// A high frame rate never lowers the limits of a picture.
pub proof fn law_high_frame_rate_never_lowers_bitrate(short_side: u64)
    ensures
        bitrate_guidance(short_side, false).0 <= bitrate_guidance(short_side, true).0,
        bitrate_guidance(short_side, false).1 <= bitrate_guidance(short_side, true).1,
{
}

/// A picture stream that must be re-encoded and whose size is known is capped at the
/// maximum of the bitrate guidance for its shorter side and average frame rate.
pub proof fn law_reencode_is_capped(video: ProbeStream, width: u64, height: u64)
    requires
        !is_compatible_h264_spec(video),
        video.width == Some(width),
        video.height == Some(height),
        width > 0,
        height > 0,
    ensures
        ({
            let args = video_codec_arguments(video);
            let rate = frame_rate_spec(video.avg_frame_rate);
            let limits = bitrate_limits_spec(width, height, rate.0, rate.1);
            &&& args[1] == "libx264"@
            &&& args[6] == "-maxrate"@
            &&& args[7] == decimal_spec(limits.maximum_kbps as nat) + "k"@
            &&& args[8] == "-bufsize"@
        }),
{
}

// ---------------------------------------------------------------- progress lines

/// `optional_u64`: a byte count or time that yt-dlp may leave out (`NA`, `none`, or blank).
pub open spec fn optional_u64_spec(value: Seq<char>) -> Option<u64> {
    let v = trim_spec(value);
    if v.len() == 0 || eq_ignore_ascii_case_spec(v, "NA"@) || eq_ignore_ascii_case_spec(
        v,
        "none"@,
    ) {
        None
    } else {
        parse_u64_spec(v)
    }
}

/// Reads a field that yt-dlp may leave out (see [`optional_u64_spec`]).
pub fn optional_u64(value: &str) -> (r: Option<u64>)
    ensures
        r == optional_u64_spec(value@),
{
    let chars = chars_of(value);
    optional_u64_chars(chars.as_slice())
}

fn optional_u64_chars(value: &[char]) -> (r: Option<u64>)
    ensures
        r == optional_u64_spec(value@),
{
    let v = trim(value);
    let na = chars_of("NA");
    let none = chars_of("none");
    if v.len() == 0 || eq_ignore_ascii_case(v.as_slice(), na.as_slice()) || eq_ignore_ascii_case(
        v.as_slice(),
        none.as_slice(),
    ) {
        None
    } else {
        parse_u64(v.as_slice())
    }
}

/// What a progress line holding `value` reports (five `|`-separated fields: percentage,
/// downloaded bytes, total bytes, speed, seconds left).
pub open spec fn progress_report_of(u: ProgressUpdate, value: Seq<char>) -> bool {
    let f = split_spec(value, '|');
    &&& f.len() == 5
    &&& u.phase == JobPhase::Downloading
    &&& u.reported_percent matches Some(p) && p@ == trim_end_char_spec(trim_spec(f[0]), '%')
    &&& u.downloaded_bytes == optional_u64_spec(f[1])
    &&& u.total_bytes == optional_u64_spec(f[2])
    &&& u.speed_bytes_per_second == optional_u64_spec(f[3])
    &&& u.eta_seconds == optional_u64_spec(f[4])
    &&& u.message@ == "Downloading media…"@
}

/// Reads the fields of a yt-dlp progress line; `None` unless there are exactly five.
pub fn parse_ytdlp_progress(value: &str) -> (r: Option<ProgressUpdate>)
    ensures
        r is Some <==> split_spec(value@, '|').len() == 5,
        r matches Some(u) ==> progress_report_of(u, value@),
{
    let chars = chars_of(value);
    let fields = split_chars(chars.as_slice(), '|');
    if fields.len() != 5 {
        return None;
    }
    assert(rows(fields@)[0] == fields@[0]@);
    let percent = trim_end_char(trim(fields[0].as_slice()).as_slice(), '%');
    let downloaded = optional_u64_chars(fields[1].as_slice());
    let total = optional_u64_chars(fields[2].as_slice());
    let speed = optional_u64_chars(fields[3].as_slice());
    let eta = optional_u64_chars(fields[4].as_slice());
    assert(rows(fields@)[1] == fields@[1]@);
    assert(rows(fields@)[2] == fields@[2]@);
    assert(rows(fields@)[3] == fields@[3]@);
    assert(rows(fields@)[4] == fields@[4]@);
    Some(
        ProgressUpdate {
            phase: JobPhase::Downloading,
            reported_percent: Some(string_of(percent.as_slice())),
            downloaded_bytes: downloaded,
            total_bytes: total,
            speed_bytes_per_second: speed,
            eta_seconds: eta,
            message: "Downloading media…".to_owned(),
        },
    )
}

/// What a line of yt-dlp's standard output tells the pipeline.
#[derive(Debug, Clone)]
pub enum YtDlpOutput {
    /// A progress report.
    Progress(ProgressUpdate),
    /// The path of the finished file.
    OutputFile(String),
    /// Anything else.
    Ignored,
}

/// What `serde_json::from_str::<String>` decodes from a JSON text, or `None` where it fails.
pub uninterp spec fn json_string_value(text: Seq<char>) -> Option<Seq<char>>;

/// A JSON string literal without escapes: quotes around characters that need none.
pub open spec fn plain_json_string(text: Seq<char>) -> bool {
    &&& text.len() >= 2
    &&& text[0] == '"'
    &&& text.last() == '"'
    &&& forall|i: int|
        1 <= i < text.len() - 1 ==> #[trigger] text[i] != '"' && text[i] != '\\' && (text[i] as u32)
            >= 0x20
}

/// Decodes a JSON string (`serde_json::from_str::<String>`); `None` where that fails.
///
/// Its result is named by [`json_string_value`]; beyond that the contract states only the
/// decoding of a string literal without escapes.
#[verifier::external_body]
fn decode_json_string(text: &str) -> (r: Option<String>)
    ensures
        match r {
            Some(s) => json_string_value(text@) == Some(s@),
            None => json_string_value(text@) is None,
        },
        plain_json_string(text@) ==> r is Some && r->0@ == text@.subrange(1, text@.len() - 1),
{
    serde_json::from_str::<String>(text).ok()
}

/// How a line of yt-dlp's standard output is read: progress after the progress marker, the
/// final path (a JSON string) after the file marker, nothing otherwise.
pub open spec fn yt_dlp_output_of(r: YtDlpOutput, line: Seq<char>) -> bool {
    if starts_with_spec(line, PROGRESS_PREFIX@) {
        let rest = line.skip(PROGRESS_PREFIX@.len() as int);
        if split_spec(rest, '|').len() == 5 {
            r matches YtDlpOutput::Progress(u) && progress_report_of(u, rest)
        } else {
            r is Ignored
        }
    } else if starts_with_spec(line, FILE_PREFIX@) {
        match json_string_value(line.skip(FILE_PREFIX@.len() as int)) {
            Some(path) => r matches YtDlpOutput::OutputFile(p) && p@ == path,
            None => r is Ignored,
        }
    } else {
        r is Ignored
    }
}

/// Reads one line of yt-dlp's standard output (see [`yt_dlp_output_of`]).
pub fn classify_yt_dlp_line(line: &str) -> (r: YtDlpOutput)
    ensures
        yt_dlp_output_of(r, line@),
{
    let chars = chars_of(line);
    let progress = chars_of(PROGRESS_PREFIX);
    if let Some(rest) = strip_prefix(chars.as_slice(), progress.as_slice()) {
        let text = string_of(rest.as_slice());
        match parse_ytdlp_progress(text.as_str()) {
            Some(update) => YtDlpOutput::Progress(update),
            None => YtDlpOutput::Ignored,
        }
    } else {
        let file = chars_of(FILE_PREFIX);
        if let Some(rest) = strip_prefix(chars.as_slice(), file.as_slice()) {
            let text = string_of(rest.as_slice());
            match decode_json_string(text.as_str()) {
                Some(path) => YtDlpOutput::OutputFile(path),
                None => YtDlpOutput::Ignored,
            }
        } else {
            YtDlpOutput::Ignored
        }
    }
}

/// What yt-dlp's standard output has told so far: the last final path it printed.
pub struct YtDlpStdout {
    output: Option<String>,
}

impl View for YtDlpStdout {
    type V = Option<Seq<char>>;

    closed spec fn view(&self) -> Option<Seq<char>> {
        match self.output {
            Some(p) => Some(p@),
            None => None,
        }
    }
}

impl YtDlpStdout {
    /// Nothing read yet.
    pub fn new() -> (r: Self)
        ensures
            r@ is None,
    {
        YtDlpStdout { output: None }
    }

    /// Reads one line (see [`classify_yt_dlp_line`]) and remembers the path it prints, if it
    /// prints one; a later path replaces an earlier one.
    pub fn read_line(&mut self, line: &str) -> (r: YtDlpOutput)
        ensures
            yt_dlp_output_of(r, line@),
            final(self)@ == match r {
                YtDlpOutput::OutputFile(p) => Some(p@),
                _ => old(self)@,
            },
    {
        let r = classify_yt_dlp_line(line);
        match &r {
            YtDlpOutput::OutputFile(p) => {
                self.output = Some(p.clone());
            },
            _ => {},
        }
        r
    }

    /// The downloaded file: the last path yt-dlp printed, or `MissingOutput` when it printed
    /// none.
    pub fn final_output(&self) -> (r: Result<String, MediaError>)
        ensures
            match self@ {
                Some(p) => r matches Ok(s) && s@ == p,
                None => r == Err::<String, MediaError>(MediaError::MissingOutput),
            },
    {
        match &self.output {
            Some(p) => Ok(p.clone()),
            None => Err(MediaError::MissingOutput),
        }
    }
}

/// The value of an FFmpeg `-progress` line that reports the output position
/// (`out_time_us=<microseconds>`), as text.
pub fn ffmpeg_progress_position(line: &str) -> (r: Option<String>)
    ensures
        r is Some <==> starts_with_spec(line@, "out_time_us="@),
        r matches Some(v) ==> v@ == line@.skip("out_time_us="@.len() as int),
{
    let chars = chars_of(line);
    let prefix = chars_of("out_time_us=");
    match strip_prefix(chars.as_slice(), prefix.as_slice()) {
        Some(rest) => Some(string_of(rest.as_slice())),
        None => None,
    }
}


// ---------------------------------------------------------------- diagnostics

/// The last (at most) thirty lines of a sequence.
pub open spec fn last_lines(lines: Seq<Seq<char>>) -> Seq<Seq<char>> {
    if lines.len() > DIAGNOSTIC_LINES {
        lines.skip(lines.len() - DIAGNOSTIC_LINES)
    } else {
        lines
    }
}

/// The last lines a tool wrote to its error stream, kept for a failure report.
pub struct DiagnosticTail {
    lines: Vec<Vec<char>>,
}

impl View for DiagnosticTail {
    type V = Seq<Seq<char>>;

    closed spec fn view(&self) -> Seq<Seq<char>> {
        rows(self.lines@)
    }
}

impl DiagnosticTail {
    #[verifier::type_invariant]
    spec fn bounded(&self) -> bool {
        self.lines@.len() <= DIAGNOSTIC_LINES
    }

    /// An empty tail.
    pub fn new() -> (r: Self)
        ensures
            r@ == Seq::<Seq<char>>::empty(),
    {
        let r = DiagnosticTail { lines: Vec::new() };
        assert(r@ =~= Seq::<Seq<char>>::empty());
        r
    }

    /// Records a line, dropping the oldest once thirty are kept.
    pub fn push(&mut self, line: &str)
        ensures
            final(self)@ == last_lines(old(self)@.push(line@)),
            final(self)@.len() <= DIAGNOSTIC_LINES,
    {
        proof {
            use_type_invariant(&*self);
        }
        let chars = chars_of(line);
        let mut lines: Vec<Vec<char>> = Vec::new();
        std::mem::swap(&mut lines, &mut self.lines);
        let ghost before = rows(lines@);
        assert(before == old(self)@);
        if lines.len() == DIAGNOSTIC_LINES {
            lines.remove(0);
            assert(rows(lines@) =~= before.skip(1));
        }
        lines.push(chars);
        assert(rows(lines@) =~= last_lines(before.push(line@)));
        self.lines = lines;
    }

    /// The kept lines joined by line breaks, or `status` when that text is empty.
    pub fn details(&self, status: &str) -> (r: String)
        ensures
            r@ == failure_details_spec(self@, status@),
    {
        let joined = join_chars(&self.lines, chars_of("\n").as_slice());
        if joined.len() == 0 {
            status.to_owned()
        } else {
            string_of(joined.as_slice())
        }
    }
}

/// A failure's details: the diagnostic lines, or the exit status when they are empty.
pub open spec fn failure_details_spec(lines: Seq<Seq<char>>, status: Seq<char>) -> Seq<char> {
    let joined = join_spec(lines, "\n"@);
    if joined.len() == 0 {
        status
    } else {
        joined
    }
}

/// The error-stream lines of a download as the tail keeps them: each redacted, the last
/// thirty kept.
pub open spec fn redacted_tail(raw: Seq<Seq<char>>, url: Seq<char>) -> Seq<Seq<char>> {
    last_lines(raw.map_values(|line: Seq<char>| replace_spec(line, url, "[URL]"@)))
}

/// The failure report of a download never shows the submitted URL: neither a kept line nor
/// the joins between lines spell it, for any URL without a bracket or line break that is not a
/// part of the marker, as long as the exit status text does not show it either.
pub proof fn law_failure_details_hide_the_url(
    raw: Seq<Seq<char>>,
    url: Seq<char>,
    status: Seq<char>,
)
    requires
        url.len() > 0,
        forall|j: int|
            0 <= j < url.len() ==> #[trigger] url[j] != '[' && url[j] != ']' && url[j] != '\n',
        !occurs_in("[URL]"@, url),
        !occurs_in(status, url),
    ensures
        !occurs_in(failure_details_spec(redacted_tail(raw, url), status), url),
{
    let redacted = raw.map_values(|line: Seq<char>| replace_spec(line, url, "[URL]"@));
    let kept = redacted_tail(raw, url);
    assert forall|k: int| 0 <= k < kept.len() implies !occurs_in(#[trigger] kept[k], url) by {
        let m = if redacted.len() > DIAGNOSTIC_LINES {
            k + (redacted.len() - DIAGNOSTIC_LINES)
        } else {
            k
        };
        assert(kept[k] == redacted[m]);
        law_redacted_lines_hide_the_url(raw[m], url);
    }
    lemma_join_lines_no_occurrence(kept, url);
}

/// Recording lines one by one into an empty tail keeps the last thirty of them.
pub proof fn law_tail_keeps_latest_lines(lines: Seq<Seq<char>>, line: Seq<char>)
    ensures
        last_lines(last_lines(lines).push(line)) == last_lines(lines.push(line)),
{
    let l = last_lines(lines);
    if lines.len() > DIAGNOSTIC_LINES {
        assert(last_lines(l.push(line)) =~= last_lines(lines.push(line)));
    } else if lines.len() == DIAGNOSTIC_LINES {
        assert(last_lines(l.push(line)) =~= last_lines(lines.push(line)));
    }
}

/// A diagnostic line with every occurrence of the requested URL replaced by `[URL]`.
pub fn redact_url(line: &str, url: &str) -> (r: String)
    ensures
        r@ == replace_spec(line@, url@, "[URL]"@),
{
    let l = chars_of(line);
    let u = chars_of(url);
    let marker = chars_of("[URL]");
    let out = replace_chars(l.as_slice(), u.as_slice(), marker.as_slice());
    string_of(out.as_slice())
}

/// A redacted line never shows the submitted URL: every occurrence is replaced, and the marker
/// cannot spell the URL anew with the text around it, for any URL that holds no bracket and is
/// not a part of the marker.
pub proof fn law_redacted_lines_hide_the_url(line: Seq<char>, url: Seq<char>)
    requires
        url.len() > 0,
        forall|j: int| 0 <= j < url.len() ==> #[trigger] url[j] != '[' && url[j] != ']',
        !occurs_in("[URL]"@, url),
    ensures
        !occurs_in(replace_spec(line, url, "[URL]"@), url),
{
    reveal_strlit("[URL]");
    lemma_replace_leaves_no_occurrence(line, url, "[URL]"@);
}

// ---------------------------------------------------------------- progress text

/// The unit a byte count is shown in: 0 bytes, 1 KiB, 2 MiB, 3 GiB.
pub open spec fn byte_unit(bytes: nat) -> nat {
    if bytes < 1024 {
        0
    } else if bytes < 1048576 {
        1
    } else if bytes < 1073741824 {
        2
    } else {
        3
    }
}

pub open spec fn unit_size(unit: nat) -> nat {
    if unit == 0 {
        1
    } else if unit == 1 {
        1024
    } else if unit == 2 {
        1048576
    } else {
        1073741824
    }
}

pub open spec fn unit_name(unit: nat) -> Seq<char> {
    if unit == 0 {
        "B"@
    } else if unit == 1 {
        "KiB"@
    } else if unit == 2 {
        "MiB"@
    } else {
        "GiB"@
    }
}

/// `numerator / denominator` rounded to the nearest whole number, ties to the even one.
pub open spec fn rounded_quotient(numerator: nat, denominator: nat) -> nat {
    let q = numerator / denominator;
    let r = numerator % denominator;
    if 2 * r > denominator || (2 * r == denominator && q % 2 == 1) {
        q + 1
    } else {
        q
    }
}

/// A byte count in its unit with one decimal, e.g. `1.5 KiB`.
pub open spec fn format_bytes_spec(bytes: nat) -> Seq<char> {
    let unit = byte_unit(bytes);
    let tenths = rounded_quotient(bytes * 10, unit_size(unit));
    decimal_spec(tenths / 10) + "."@ + decimal_spec(tenths % 10) + " "@ + unit_name(unit)
}

fn rounded_quotient_u128(numerator: u128, denominator: u128) -> (r: u128)
    requires
        denominator > 0,
        numerator <= 0xffff_ffff_ffff_ffff_ffff,
    ensures
        r == rounded_quotient(numerator as nat, denominator as nat),
{
    let q = numerator / denominator;
    let r = numerator % denominator;
    assert(q <= numerator) by (nonlinear_arith)
        requires
            q == numerator / denominator,
            denominator > 0,
    ;
    assert(r < denominator) by (nonlinear_arith)
        requires
            r == numerator % denominator,
            denominator > 0,
    ;
    if r > denominator - r || (r == denominator - r && q % 2 == 1) {
        q + 1
    } else {
        q
    }
}

/// A byte count in binary units with one decimal (see [`format_bytes_spec`]).
pub fn format_bytes(bytes: u64) -> (r: String)
    ensures
        r@ == format_bytes_spec(bytes as nat),
{
    let (unit, size, name): (u8, u128, &str) = if bytes < 1024 {
        (0, 1, "B")
    } else if bytes < 1048576 {
        (1, 1024, "KiB")
    } else if bytes < 1073741824 {
        (2, 1048576, "MiB")
    } else {
        (3, 1073741824, "GiB")
    };
    let tenths = rounded_quotient_u128(bytes as u128 * 10, size);
    assert(tenths <= bytes as u128 * 10 + 1) by (nonlinear_arith)
        requires
            tenths == rounded_quotient(bytes as nat * 10, size as nat),
            size >= 1,
    ;
    let whole = (tenths / 10) as u64;
    let fraction = (tenths % 10) as u64;
    let mut v: Vec<char> = Vec::new();
    push_decimal(&mut v, whole);
    extend_str(&mut v, ".");
    push_decimal(&mut v, fraction);
    extend_str(&mut v, " ");
    extend_str(&mut v, name);
    proof {
        assert(unit as nat == byte_unit(bytes as nat));
        assert(size as nat == unit_size(unit as nat));
        assert(name@ == unit_name(unit as nat));
    }
    assert(v@ =~= format_bytes_spec(bytes as nat));
    string_of(v.as_slice())
}

/// Separates the parts of a progress description.
pub open spec fn progress_separator() -> Seq<char> {
    " · "@
}

/// A number below 100 with at least two digits (`{:02}`).
pub open spec fn two_digits(n: nat) -> Seq<char> {
    if n < 10 {
        seq!['0'] + decimal_spec(n)
    } else {
        decimal_spec(n)
    }
}

/// A number below a hundred written as `{:02}` writes it: exactly two digits, whose value is
/// the number.
pub proof fn law_two_digits(n: nat)
    requires
        n < 100,
    ensures
        two_digits(n).len() == 2,
        is_ascii_digit(two_digits(n)[0]) && is_ascii_digit(two_digits(n)[1]),
        digit_of(two_digits(n)[0]) * 10 + digit_of(two_digits(n)[1]) == n,
{
    let t = two_digits(n);
    if n < 10 {
        assert((n + 48) as char as u32 == n + 48);
        assert(t[0] == '0' && t[1] == (n + 48) as char);
    } else {
        assert((n / 10 + 48) as char as u32 == n / 10 + 48);
        assert((n % 10 + 48) as char as u32 == n % 10 + 48);
        assert(decimal_spec(n / 10) == seq![((n / 10) + 48) as char]);
        assert(t[0] == ((n / 10) + 48) as char && t[1] == ((n % 10) + 48) as char);
    }
}

/// The time left reads `ETA <minutes>:<ss>`: the whole minutes, a colon, and the seconds past
/// the minute as exactly two digits.
pub proof fn law_eta_seconds_have_two_digits(eta: u64)
    ensures
        ({
            let t = eta_part(Some(eta));
            let n = t.len() as int;
            &&& n >= 3
            &&& t.take(n - 3) == " · ETA "@ + decimal_spec((eta / 60) as nat)
            &&& t[n - 3] == ':'
            &&& is_ascii_digit(t[n - 2]) && is_ascii_digit(t[n - 1])
            &&& digit_of(t[n - 2]) * 10 + digit_of(t[n - 1]) == eta % 60
        }),
{
    reveal_strlit(" · ");
    reveal_strlit("ETA ");
    reveal_strlit(" · ETA ");
    reveal_strlit(":");
    law_two_digits((eta % 60) as nat);
    let head = progress_separator() + "ETA "@ + decimal_spec((eta / 60) as nat);
    let t = eta_part(Some(eta));
    let two = two_digits((eta % 60) as nat);
    assert(t == head + ":"@ + two);
    let n = t.len() as int;
    assert(t.take(n - 3) =~= " · ETA "@ + decimal_spec((eta / 60) as nat));
    assert(t[n - 2] == two[0] && t[n - 1] == two[1]);
}

pub open spec fn bytes_part(done: Option<u64>, total: Option<u64>) -> Seq<char> {
    match (done, total) {
        (Some(d), Some(t)) => progress_separator() + format_bytes_spec(d as nat) + " / "@
            + format_bytes_spec(t as nat),
        _ => Seq::empty(),
    }
}

pub open spec fn speed_part(speed: Option<u64>) -> Seq<char> {
    match speed {
        Some(s) => progress_separator() + format_bytes_spec(s as nat) + "/s"@,
        None => Seq::empty(),
    }
}

pub open spec fn eta_part(eta: Option<u64>) -> Seq<char> {
    match eta {
        Some(e) => progress_separator() + "ETA "@ + decimal_spec((e / 60) as nat) + ":"@
            + two_digits((e % 60) as nat),
        None => Seq::empty(),
    }
}

/// The text shown for a progress report: its message and, while downloading, the bytes done
/// of the total, the speed and the time left.
pub open spec fn describe_progress_spec(u: ProgressUpdate) -> Seq<char> {
    if u.phase == JobPhase::Downloading {
        u.message@ + bytes_part(u.downloaded_bytes, u.total_bytes) + speed_part(
            u.speed_bytes_per_second,
        ) + eta_part(u.eta_seconds)
    } else {
        u.message@
    }
}

fn push_bytes_part(v: &mut Vec<char>, done: Option<u64>, total: Option<u64>)
    ensures
        final(v)@ == old(v)@ + bytes_part(done, total),
{
    match (done, total) {
        (Some(d), Some(t)) => {
            extend_str(v, " · ");
            extend_str(v, format_bytes(d).as_str());
            extend_str(v, " / ");
            extend_str(v, format_bytes(t).as_str());
            assert(v@ =~= old(v)@ + bytes_part(done, total));
        },
        _ => {
            assert(v@ =~= old(v)@ + bytes_part(done, total));
        },
    }
}

fn push_speed_part(v: &mut Vec<char>, speed: Option<u64>)
    ensures
        final(v)@ == old(v)@ + speed_part(speed),
{
    match speed {
        Some(s) => {
            extend_str(v, " · ");
            extend_str(v, format_bytes(s).as_str());
            extend_str(v, "/s");
            assert(v@ =~= old(v)@ + speed_part(speed));
        },
        None => {
            assert(v@ =~= old(v)@ + speed_part(speed));
        },
    }
}

fn push_eta_part(v: &mut Vec<char>, eta: Option<u64>)
    ensures
        final(v)@ == old(v)@ + eta_part(eta),
{
    match eta {
        Some(e) => {
            extend_str(v, " · ");
            extend_str(v, "ETA ");
            push_decimal(v, e / 60);
            extend_str(v, ":");
            let ghost before = v@;
            let seconds = e % 60;
            if seconds < 10 {
                v.push('0');
            }
            push_decimal(v, seconds);
            assert(v@ =~= before + two_digits(seconds as nat));
            assert(v@ =~= old(v)@ + eta_part(eta));
        },
        None => {
            assert(v@ =~= old(v)@ + eta_part(eta));
        },
    }
}

/// The text shown for a progress report (see [`describe_progress_spec`]).
pub fn describe_progress(update: &ProgressUpdate) -> (r: String)
    ensures
        r@ == describe_progress_spec(*update),
{
    let mut v = chars_of(update.message.as_str());
    if update.phase == JobPhase::Downloading {
        push_bytes_part(&mut v, update.downloaded_bytes, update.total_bytes);
        push_speed_part(&mut v, update.speed_bytes_per_second);
        push_eta_part(&mut v, update.eta_seconds);
    }
    string_of(v.as_slice())
}

// ---------------------------------------------------------------- output files

/// The extension of the converted file: `mp4` for video, `m4a` for sound only.
pub open spec fn output_extension_spec(mode: DownloadMode) -> Seq<char> {
    match mode {
        DownloadMode::Video => "mp4"@,
        DownloadMode::AudioOnly => "m4a"@,
    }
}

pub fn output_extension(mode: DownloadMode) -> (r: &'static str)
    ensures
        r@ == output_extension_spec(mode),
{
    match mode {
        DownloadMode::Video => "mp4",
        DownloadMode::AudioOnly => "m4a",
    }
}

/// The stem the converted file takes from the downloaded file's name, or `download` when the
/// download has no readable name.
pub fn output_stem(downloaded_name: Option<&str>) -> (r: String)
    ensures
        match downloaded_name {
            Some(name) => r@ == crate::paths::file_stem_spec(name@),
            None => r@ == "download"@,
        },
{
    match downloaded_name {
        Some(name) => crate::paths::file_stem(name),
        None => "download".to_owned(),
    }
}

/// How many numbered names are tried before a random one.
pub const NUMBERED_ATTEMPTS: u32 = 10000;

/// The file name tried at a given attempt: `stem.ext`, then `stem (n).ext` for n up to 9999,
/// then `stem-<unique>.ext`.
pub open spec fn output_candidate_spec(
    stem: Seq<char>,
    extension: Seq<char>,
    attempt: nat,
    unique: Seq<char>,
) -> Seq<char> {
    if attempt == 0 {
        stem + "."@ + extension
    } else if attempt < NUMBERED_ATTEMPTS {
        stem + " ("@ + decimal_spec(attempt) + ")."@ + extension
    } else {
        stem + "-"@ + unique + "."@ + extension
    }
}

/// The file name tried at a given attempt (see [`output_candidate_spec`]).
pub fn output_candidate(stem: &str, extension: &str, attempt: u32, unique: &str) -> (r: String)
    ensures
        r@ == output_candidate_spec(stem@, extension@, attempt as nat, unique@),
{
    let mut v = chars_of(stem);
    if attempt == 0 {
        extend_str(&mut v, ".");
    } else if attempt < NUMBERED_ATTEMPTS {
        extend_str(&mut v, " (");
        push_decimal(&mut v, attempt as u64);
        extend_str(&mut v, ").");
    } else {
        extend_str(&mut v, "-");
        extend_str(&mut v, unique);
        extend_str(&mut v, ".");
    }
    extend_str(&mut v, extension);
    assert(v@ =~= output_candidate_spec(stem@, extension@, attempt as nat, unique@));
    string_of(v.as_slice())
}

/// Whether `taken`, asked about a name with the text `name`, answered `answer`.
pub open spec fn answered<F: Fn(&str) -> bool>(taken: F, name: Seq<char>, answer: bool) -> bool {
    exists|s: &str| s@ == name && #[trigger] call_ensures(taken, (s,), answer)
}

/// Whether `name` is the output name chosen at attempt `k`: every earlier numbered name was
/// reported taken, and `name` is the numbered name of attempt `k` reported free, or, after
/// the last numbered attempt, the name with a fresh id.
pub open spec fn chosen_output_name<F: Fn(&str) -> bool>(
    taken: F,
    stem: Seq<char>,
    extension: Seq<char>,
    name: Seq<char>,
    k: int,
) -> bool {
    &&& 0 <= k <= NUMBERED_ATTEMPTS
    &&& forall|j: int|
        0 <= j < k ==> answered(
            taken,
            #[trigger] output_candidate_spec(stem, extension, j as nat, ""@),
            true,
        )
    &&& if k < NUMBERED_ATTEMPTS {
        name == output_candidate_spec(stem, extension, k as nat, ""@) && answered(
            taken,
            name,
            false,
        )
    } else {
        exists|id: Seq<char>|
            is_random_uuid_text(id) && name == #[trigger] output_candidate_spec(
                stem,
                extension,
                k as nat,
                id,
            )
    }
}

/// The name for the output: the first of `stem.ext`, `stem (1).ext`, ..., `stem (9999).ext`
/// that `taken` does not report as taken, else `stem-<unique id>.ext`; `taken` is asked about
/// the numbered names in order, up to the first free one.
pub fn first_free_output_name<F: Fn(&str) -> bool>(stem: &str, extension: &str, taken: F) -> (r:
    String)
    requires
        forall|s: &str| call_requires(taken, (s,)),
    ensures
        exists|k: int| #[trigger] chosen_output_name(taken, stem@, extension@, r@, k),
{
    let mut attempt: u32 = 0;
    while attempt < NUMBERED_ATTEMPTS
        invariant
            attempt <= NUMBERED_ATTEMPTS,
            forall|s: &str| call_requires(taken, (s,)),
            forall|j: int|
                0 <= j < attempt ==> answered(
                    taken,
                    #[trigger] output_candidate_spec(stem@, extension@, j as nat, ""@),
                    true,
                ),
        decreases NUMBERED_ATTEMPTS - attempt,
    {
        let candidate = output_candidate(stem, extension, attempt, "");
        let is_taken = taken(candidate.as_str());
        assert(answered(taken, candidate@, is_taken));
        if !is_taken {
            assert(chosen_output_name(taken, stem@, extension@, candidate@, attempt as int));
            return candidate;
        }
        attempt += 1;
    }
    let unique = crate::unique::new_unique_id();
    let r = output_candidate(stem, extension, NUMBERED_ATTEMPTS, unique.as_str());
    let ghost k: int = NUMBERED_ATTEMPTS as int;
    assert(r@ == output_candidate_spec(stem@, extension@, k as nat, unique@));
    assert(chosen_output_name(taken, stem@, extension@, r@, k));
    r
}

/// The report of a finished download: `Saved <path>`.
pub fn completed_update(path: &str) -> (r: ProgressUpdate)
    ensures
        r.phase == JobPhase::Completed,
        r.message@ == "Saved "@ + path@,
        r.reported_percent is None && r.downloaded_bytes is None && r.total_bytes is None,
        r.speed_bytes_per_second is None && r.eta_seconds is None,
{
    let mut v = chars_of("Saved ");
    extend_str(&mut v, path);
    ProgressUpdate::message(JobPhase::Completed, string_of(v.as_slice()))
}

/// The name of a download's private working directory: `.yt-dlp-wrapper-<unique>`.
pub fn staging_directory_name() -> (r: String)
    ensures
        exists|id: Seq<char>|
            crate::unique::is_random_uuid_text(id) && r@ == ".yt-dlp-wrapper-"@ + id,
{
    let mut v = chars_of(".yt-dlp-wrapper-");
    let id = crate::unique::new_unique_id();
    extend_str(&mut v, id.as_str());
    assert(v@ =~= ".yt-dlp-wrapper-"@ + id@);
    string_of(v.as_slice())
}

} // verus!
