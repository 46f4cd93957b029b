use yt_dlp_wrapper::media::{
    bitrate_limits, classify_yt_dlp_line, completed_update, describe_progress, ffmpeg_arguments,
    ffmpeg_progress_position, first_free_output_name, format_bytes, frame_rate,
    is_compatible_h264, optional_u64, output_candidate, output_extension, output_stem,
    parse_ytdlp_progress, redact_url, staging_directory_name, yt_dlp_arguments, BitrateLimits,
    DiagnosticTail, MediaError, ProbeResult, ProbeStream, YtDlpOutput, YtDlpStdout,
};
use yt_dlp_wrapper::model::{DownloadMode, JobPhase, ProgressUpdate};
use yt_dlp_wrapper::paths::partial_file_name;

fn fraction_of(update: &ProgressUpdate) -> Option<f32> {
    update
        .reported_percent
        .as_deref()
        .and_then(|text| text.parse::<f32>().ok())
        .map(|number| (number / 100.0).clamp(0.0, 1.0))
}

#[test]
fn parses_download_progress() {
    let result = parse_ytdlp_progress(" 42.5%|425|1000|50|12").unwrap();
    assert_eq!(result.reported_percent.as_deref(), Some("42.5"));
    assert_eq!(fraction_of(&result), Some(0.425));
    assert_eq!(result.downloaded_bytes, Some(425));
    assert_eq!(result.eta_seconds, Some(12));
}

#[test]
fn accepts_only_compatible_h264_pixel_formats() {
    let compatible = ProbeStream {
        codec_type: Some("video".into()),
        codec_name: Some("h264".into()),
        pix_fmt: Some("yuv420p".into()),
        width: None,
        height: None,
        avg_frame_rate: None,
    };
    assert!(is_compatible_h264(&compatible));
    let incompatible = ProbeStream {
        pix_fmt: Some("yuv444p10le".into()),
        ..compatible
    };
    assert!(!is_compatible_h264(&incompatible));
}

#[test]
fn progress_fields_may_be_missing() {
    let result = parse_ytdlp_progress("  N/A|NA|none| |+7").unwrap();
    assert_eq!(result.reported_percent.as_deref(), Some("N/A"));
    assert_eq!(result.downloaded_bytes, None);
    assert_eq!(result.total_bytes, None);
    assert_eq!(result.speed_bytes_per_second, None);
    assert_eq!(result.eta_seconds, Some(7));
    assert_eq!(result.phase, JobPhase::Downloading);
    assert_eq!(result.message, "Downloading media…");
    assert!(parse_ytdlp_progress("1|2|3|4").is_none());
    assert!(parse_ytdlp_progress("1|2|3|4|5|6").is_none());
    assert_eq!(optional_u64(" 18446744073709551615 "), Some(u64::MAX));
    assert_eq!(optional_u64("18446744073709551616"), None);
    assert_eq!(optional_u64("-1"), None);
    assert_eq!(optional_u64("nA"), None);
}

#[test]
fn reads_yt_dlp_output_lines() {
    match classify_yt_dlp_line("__YTDLP_WRAPPER_PROGRESS__ 10.0%|1|2|3|4") {
        YtDlpOutput::Progress(update) => assert_eq!(update.total_bytes, Some(2)),
        other => panic!("unexpected {other:?}"),
    }
    match classify_yt_dlp_line("__YTDLP_WRAPPER_FILE__\"C:\\\\out\\\\clip [x].mkv\"") {
        YtDlpOutput::OutputFile(path) => assert_eq!(path, "C:\\out\\clip [x].mkv"),
        other => panic!("unexpected {other:?}"),
    }
    assert!(matches!(classify_yt_dlp_line("__YTDLP_WRAPPER_FILE__not json"), YtDlpOutput::Ignored));
    assert!(matches!(classify_yt_dlp_line("__YTDLP_WRAPPER_PROGRESS__1|2"), YtDlpOutput::Ignored));
    assert!(matches!(classify_yt_dlp_line("[download] 5%"), YtDlpOutput::Ignored));
    assert_eq!(ffmpeg_progress_position("out_time_us=1500000").as_deref(), Some("1500000"));
    assert_eq!(ffmpeg_progress_position("progress=end"), None);
}

fn stream(kind: &str, codec: &str, pixels: Option<&str>) -> ProbeStream {
    ProbeStream {
        codec_type: Some(kind.to_string()),
        codec_name: Some(codec.to_string()),
        pix_fmt: pixels.map(str::to_string),
        width: None,
        height: None,
        avg_frame_rate: None,
    }
}

fn sized(stream: ProbeStream, width: u64, height: u64, rate: &str) -> ProbeStream {
    ProbeStream {
        width: Some(width),
        height: Some(height),
        avg_frame_rate: Some(rate.to_string()),
        ..stream
    }
}

#[test]
fn builds_ffmpeg_arguments() {
    let probe = ProbeResult {
        streams: vec![stream("video", "vp9", Some("yuv420p")), stream("audio", "aac", None)],
        duration: Some("12.5".into()),
    };
    let args = ffmpeg_arguments("in.mkv", "out.partial.mp4", DownloadMode::Video, &probe).unwrap();
    assert_eq!(
        args,
        [
            "-hide_banner", "-y", "-i", "in.mkv", "-map", "0:v:0", "-map", "0:a:0?", "-c:v",
            "libx264", "-preset", "medium", "-crf", "18", "-pix_fmt", "yuv420p", "-tag:v", "avc1",
            "-c:a", "copy", "-map_metadata", "0", "-map_chapters", "0", "-movflags", "+faststart",
            "-progress", "pipe:1", "-nostats", "out.partial.mp4"
        ]
    );
    let audio = ffmpeg_arguments("in.webm", "a.partial.m4a", DownloadMode::AudioOnly, &ProbeResult {
        streams: vec![stream("audio", "opus", None)],
        duration: None,
    })
    .unwrap();
    assert_eq!(
        audio,
        [
            "-hide_banner", "-y", "-i", "in.webm", "-map", "0:a:0", "-vn", "-c:a", "aac", "-b:a",
            "256k", "-map_metadata", "0", "-movflags", "+faststart", "-progress", "pipe:1",
            "-nostats", "a.partial.m4a"
        ]
    );
    let capped = |video: ProbeStream| {
        let probe = ProbeResult { streams: vec![video], duration: None };
        ffmpeg_arguments("in.mkv", "out.mp4", DownloadMode::Video, &probe).unwrap()[8..18].to_vec()
    };
    assert_eq!(
        capped(sized(stream("video", "vp9", Some("yuv420p")), 1920, 1080, "30/1")),
        [
            "-c:v", "libx264", "-preset", "medium", "-crf", "18", "-maxrate", "8000k", "-bufsize",
            "8000k"
        ]
    );
    assert_eq!(
        capped(sized(stream("video", "vp9", Some("yuv420p")), 1080, 1920, "60000/1001"))[7],
        "12000k"
    );
    assert_eq!(
        capped(sized(stream("video", "av1", Some("yuv420p")), 3840, 2160, "0/0"))[7],
        "45000k"
    );
    assert_eq!(
        capped(sized(stream("video", "h264", Some("yuv420p")), 3840, 2160, "30/1"))[..2],
        ["-c:v", "copy"]
    );
    let only_audio = ProbeResult { streams: vec![stream("audio", "aac", None)], duration: None };
    assert_eq!(
        ffmpeg_arguments("a", "b", DownloadMode::Video, &only_audio),
        Err(MediaError::MissingStream)
    );
}

#[test]
fn builds_yt_dlp_arguments() {
    let args = yt_dlp_arguments("/tools", "/tools/deno", "/out/.stage", DownloadMode::AudioOnly, "https://e.x/v");
    assert_eq!(args[6], "/tools");
    assert_eq!(args[8], "deno:/tools/deno");
    assert_eq!(args[10], "home:/out/.stage");
    assert_eq!(
        args[14],
        "download:__YTDLP_WRAPPER_PROGRESS__%(progress._percent_str)s|%(progress.downloaded_bytes)s|%(progress.total_bytes)s|%(progress.speed)s|%(progress.eta)s"
    );
    assert_eq!(&args[17..], ["--format", "ba/b", "--", "https://e.x/v"]);
}

#[test]
fn formats_byte_counts_like_float_formatting() {
    for bytes in [0u64, 1, 1023, 1024, 1280, 1536, 1075, 1076, 52480, 1048575, 1048576, 5_000_000,
        1_073_741_823, 1_073_741_824, 1_234_567_890_123, u32::MAX as u64]
    {
        let mut value = bytes as f64;
        let units = ["B", "KiB", "MiB", "GiB"];
        let mut unit = 0;
        while value >= 1024.0 && unit < 3 {
            value /= 1024.0;
            unit += 1;
        }
        assert_eq!(format_bytes(bytes), format!("{value:.1} {}", units[unit]), "bytes {bytes}");
    }
    assert_eq!(format_bytes(1536), "1.5 KiB");
}

#[test]
fn describes_progress() {
    let update = parse_ytdlp_progress("50%|1024|2048|512|125").unwrap();
    assert_eq!(
        describe_progress(&update),
        "Downloading media… · 1.0 KiB / 2.0 KiB · 512.0 B/s · ETA 2:05"
    );
    let plain = ProgressUpdate::message(JobPhase::Converting, "Converting…".to_string());
    assert_eq!(describe_progress(&plain), "Converting…");
    assert_eq!(completed_update("/out/a.mp4").message, "Saved /out/a.mp4");
}

#[test]
fn keeps_the_last_thirty_diagnostic_lines() {
    let mut tail = DiagnosticTail::new();
    assert_eq!(tail.details("exit status: 1"), "exit status: 1");
    for number in 0..35 {
        tail.push(&format!("line {number}"));
    }
    let details = tail.details("unused");
    let lines: Vec<_> = details.lines().collect();
    assert_eq!(lines.len(), 30);
    assert_eq!(lines[0], "line 5");
    assert_eq!(lines[29], "line 34");
}

#[test]
fn redacts_the_url() {
    assert_eq!(
        redact_url("ERROR: https://e.x/v failed; https://e.x/v", "https://e.x/v"),
        "ERROR: [URL] failed; [URL]"
    );
    assert_eq!(redact_url("aaa", "aa"), "[URL]a");
    assert_eq!(redact_url("ab", ""), "ab".replace("", "[URL]"));
    let url = "https://e.x/watch?v=ab";
    let line = "https://e.x/watch?v=abhttps://e.x/watch?v=ab: https://e.x/watch?v=a";
    assert!(!redact_url(line, url).contains(url));
    let mut tail = DiagnosticTail::new();
    for raw in ["ERROR: https://e.x/watch", "?v=ab failed", "retrying https://e.x/watch?v=ab"] {
        tail.push(&redact_url(raw, url));
    }
    let details = tail.details("exit status: 1");
    assert!(!details.contains(url));
    assert!(details.ends_with("retrying [URL]"));
}

#[test]
fn names_output_files() {
    assert_eq!(output_candidate("clip", "mp4", 0, "u"), "clip.mp4");
    assert_eq!(output_candidate("clip", "mp4", 1, "u"), "clip (1).mp4");
    assert_eq!(output_candidate("clip", "mp4", 9999, "u"), "clip (9999).mp4");
    assert_eq!(output_candidate("clip", "m4a", 10000, "abc"), "clip-abc.m4a");
    assert_eq!(output_extension(DownloadMode::AudioOnly), "m4a");
    assert_eq!(output_stem(Some("Title [id].mkv")), "Title [id]");
    assert_eq!(output_stem(Some(".hidden")), ".hidden");
    assert_eq!(output_stem(None), "download");
    assert_eq!(partial_file_name("clip (1).mp4"), "clip (1).partial.mp4");
    assert_eq!(partial_file_name("archive.tar.gz"), "archive.tar.partial.gz");
    assert_eq!(partial_file_name("README"), "README.partial.tmp");
    assert_eq!(partial_file_name(".profile"), ".profile.partial.tmp");
    let staging = staging_directory_name();
    let id = staging.strip_prefix(".yt-dlp-wrapper-").unwrap();
    assert_eq!(id.len(), 36);
    for (i, c) in id.chars().enumerate() {
        if [8, 13, 18, 23].contains(&i) {
            assert_eq!(c, '-');
        } else {
            assert!(c.is_ascii_digit() || ('a'..='f').contains(&c));
        }
    }
    assert_eq!(id.chars().nth(14), Some('4'));
}

#[test]
fn media_error_messages() {
    assert_eq!(MediaError::Ffmpeg("boom".into()).message(), "FFmpeg failed: boom");
    assert_eq!(MediaError::MissingOutput.message(), "yt-dlp did not report the downloaded file");
}

fn limits(target_kbps: u64, maximum_kbps: u64) -> BitrateLimits {
    BitrateLimits { target_kbps, maximum_kbps }
}

#[test]
fn follows_the_bitrate_table() {
    let rows = [
        (7680, 4320, limits(80000, 160000), limits(120000, 240000)),
        (3840, 2160, limits(35000, 45000), limits(53000, 68000)),
        (2560, 1440, limits(16000, 16000), limits(24000, 24000)),
        (1920, 1080, limits(8000, 8000), limits(12000, 12000)),
        (1280, 720, limits(5000, 5000), limits(7500, 7500)),
        (854, 480, limits(2500, 2500), limits(4000, 4000)),
        (640, 360, limits(1000, 1000), limits(1500, 1500)),
        (256, 144, limits(1000, 1000), limits(1500, 1500)),
    ];
    for (width, height, standard, high) in rows {
        assert_eq!(bitrate_limits(width, height, 30, 1), standard);
        assert_eq!(bitrate_limits(width, height, 60, 1), high);
    }
}

#[test]
fn classifies_portrait_video_by_its_shorter_side() {
    assert_eq!(bitrate_limits(1080, 1920, 30, 1), limits(8000, 8000));
    assert_eq!(bitrate_limits(1080, 1920, 30, 1), bitrate_limits(1920, 1080, 30, 1));
}

#[test]
fn high_frame_rate_starts_at_48_fps() {
    assert_eq!(bitrate_limits(1920, 1080, 48, 1), limits(12000, 12000));
    assert_eq!(bitrate_limits(1920, 1080, 48000, 1001), limits(8000, 8000));
    assert_eq!(bitrate_limits(1920, 1080, 60000, 1001), limits(12000, 12000));
    assert_eq!(bitrate_limits(1920, 1080, 0, 0), limits(8000, 8000));
    assert_eq!(bitrate_limits(1920, 1080, u64::MAX, u64::MAX), limits(8000, 8000));
}

#[test]
fn reads_frame_rates() {
    assert_eq!(frame_rate(&Some("30000/1001".to_owned())), (30000, 1001));
    assert_eq!(frame_rate(&Some("0/0".to_owned())), (0, 0));
    assert_eq!(frame_rate(&Some("25".to_owned())), (0, 0));
    assert_eq!(frame_rate(&Some("a/b".to_owned())), (0, 0));
    assert_eq!(frame_rate(&None), (0, 0));
}

#[test]
fn creates_a_non_conflicting_name() {
    let existing = ["clip.mp4"];
    assert_eq!(
        first_free_output_name("clip", "mp4", |name: &str| existing.contains(&name)),
        "clip (1).mp4"
    );
}

#[test]
fn output_names_fall_back_to_a_unique_one() {
    assert_eq!(first_free_output_name("clip", "m4a", |_: &str| false), "clip.m4a");
    let asked = std::cell::Cell::new(0);
    let name = first_free_output_name("clip", "mp4", |_: &str| {
        asked.set(asked.get() + 1);
        true
    });
    assert_eq!(asked.get(), 10000);
    assert!(name.starts_with("clip-") && name.ends_with(".mp4"));
    assert_eq!(name.len(), "clip-".len() + 36 + ".mp4".len());
}

#[test]
fn remembers_the_last_output_path() {
    let mut stdout = YtDlpStdout::new();
    assert_eq!(stdout.final_output(), Err(MediaError::MissingOutput));
    assert!(matches!(
        stdout.read_line("__YTDLP_WRAPPER_FILE__\"/tmp/a.mkv\""),
        YtDlpOutput::OutputFile(ref p) if p == "/tmp/a.mkv"
    ));
    assert!(matches!(
        stdout.read_line("__YTDLP_WRAPPER_PROGRESS__ 1.0%|1|100|1|1"),
        YtDlpOutput::Progress(_)
    ));
    stdout.read_line("[download] something else");
    assert_eq!(stdout.final_output(), Ok("/tmp/a.mkv".to_owned()));
    stdout.read_line("__YTDLP_WRAPPER_FILE__\"/tmp/b.mkv\"");
    assert_eq!(stdout.final_output(), Ok("/tmp/b.mkv".to_owned()));
}
