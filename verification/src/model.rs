//! The values the backend passes between its protocol, engine, tools and media pipeline.
use crate::paths::{join_path, joined};
use vstd::prelude::*;

verus! {

/// What a download keeps: the picture and sound, or the sound alone.
#[derive(Debug, Clone, Copy, PartialEq, Eq, Structural)]
pub enum DownloadMode {
    Video,
    AudioOnly,
}

/// The largest picture a video download may keep.
#[derive(Debug, Clone, Copy, PartialEq, Eq, Structural)]
pub enum VideoQuality {
    P1080,
    P1440,
    Best,
}

impl VideoQuality {
    pub open spec fn maximum_dimension_spec(self) -> Option<u32> {
        match self {
            VideoQuality::P1080 => Some(1080),
            VideoQuality::P1440 => Some(1440),
            VideoQuality::Best => None,
        }
    }

    /// The limit on the picture's shorter side, in pixels; `None` for no limit.
    pub fn maximum_dimension(self) -> (r: Option<u32>)
        ensures
            r == self.maximum_dimension_spec(),
    {
        match self {
            VideoQuality::P1080 => Some(1080),
            VideoQuality::P1440 => Some(1440),
            VideoQuality::Best => None,
        }
    }
}

/// One download as the media pipeline receives it.
#[derive(Debug, Clone)]
pub struct DownloadRequest {
    pub url: String,
    pub mode: DownloadMode,
    pub video_quality: VideoQuality,
    pub output_directory: String,
}

/// The stage a download has reached.
#[derive(Debug, Clone, Copy, PartialEq, Eq, Structural)]
pub enum JobPhase {
    Preparing,
    Downloading,
    Inspecting,
    Remuxing,
    Converting,
    Finalizing,
    Completed,
    Cancelled,
    Failed,
}

/// A progress report of a download.
///
/// `reported_percent` is the percentage text that yt-dlp printed (sign and padding removed);
/// the front end turns it into a fraction.
#[derive(Debug, Clone)]
pub struct ProgressUpdate {
    pub phase: JobPhase,
    pub reported_percent: Option<String>,
    pub downloaded_bytes: Option<u64>,
    pub total_bytes: Option<u64>,
    pub speed_bytes_per_second: Option<u64>,
    pub eta_seconds: Option<u64>,
    pub message: String,
}

impl ProgressUpdate {
    /// A report that carries only a phase and a message.
    pub fn message(phase: JobPhase, message: String) -> (r: Self)
        ensures
            r.phase == phase,
            r.message@ == message@,
            r.reported_percent is None,
            r.downloaded_bytes is None,
            r.total_bytes is None,
            r.speed_bytes_per_second is None,
            r.eta_seconds is None,
    {
        ProgressUpdate {
            phase,
            reported_percent: None,
            downloaded_bytes: None,
            total_bytes: None,
            speed_bytes_per_second: None,
            eta_seconds: None,
            message,
        }
    }
}

/// The installed set of tools: versions, directory and each tool's path inside it.
#[derive(Debug, Clone)]
pub struct ActiveToolset {
    pub id: String,
    pub yt_dlp_version: String,
    pub ffmpeg_version: String,
    pub deno_version: String,
    pub directory: String,
    pub platform: String,
    pub yt_dlp_path: String,
    pub ffmpeg_path: String,
    pub ffprobe_path: String,
    pub deno_path: String,
}

impl ActiveToolset {
    /// The yt-dlp executable: the tool directory joined with its recorded path.
    pub fn yt_dlp(&self) -> (r: String)
        ensures
            joined(r@, self.directory@, self.yt_dlp_path@),
    {
        join_path(self.directory.as_str(), self.yt_dlp_path.as_str())
    }

    /// The FFmpeg executable.
    pub fn ffmpeg(&self) -> (r: String)
        ensures
            joined(r@, self.directory@, self.ffmpeg_path@),
    {
        join_path(self.directory.as_str(), self.ffmpeg_path.as_str())
    }

    /// The ffprobe executable.
    pub fn ffprobe(&self) -> (r: String)
        ensures
            joined(r@, self.directory@, self.ffprobe_path@),
    {
        join_path(self.directory.as_str(), self.ffprobe_path.as_str())
    }

    /// The Deno executable.
    pub fn deno(&self) -> (r: String)
        ensures
            joined(r@, self.directory@, self.deno_path@),
    {
        join_path(self.directory.as_str(), self.deno_path.as_str())
    }
}

} // verus!
