//! The values of the stand-alone desktop front end, whose tool set uses fixed Windows names.
use crate::paths::joined;
use crate::paths::join_path;
use vstd::prelude::*;

verus! {

/// What a download keeps: the picture and sound, or the sound alone.
#[derive(Debug, Clone, Copy, PartialEq, Eq, Structural)]
pub enum DownloadMode {
    Video,
    AudioOnly,
}

/// The largest picture a video download may keep; the desktop slider has four stops.
#[derive(Debug, Clone, Copy, PartialEq, Eq, Structural)]
pub enum VideoQuality {
    P1080,
    P1440,
    P2160,
    Best,
}

impl VideoQuality {
    pub open spec fn from_slider_step_spec(step: i32) -> VideoQuality {
        if step <= 0 {
            VideoQuality::P1080
        } else if step == 1 {
            VideoQuality::P1440
        } else if step == 2 {
            VideoQuality::P2160
        } else {
            VideoQuality::Best
        }
    }

    /// The quality at a slider stop (the slider's value rounded to the nearest whole number).
    pub fn from_slider_step(step: i32) -> (r: VideoQuality)
        ensures
            r == Self::from_slider_step_spec(step),
    {
        if step <= 0 {
            VideoQuality::P1080
        } else if step == 1 {
            VideoQuality::P1440
        } else if step == 2 {
            VideoQuality::P2160
        } else {
            VideoQuality::Best
        }
    }

    pub open spec fn maximum_dimension_spec(self) -> Option<u32> {
        match self {
            VideoQuality::P1080 => Some(1080),
            VideoQuality::P1440 => Some(1440),
            VideoQuality::P2160 => Some(2160),
            VideoQuality::Best => None,
        }
    }

    /// The limit on the picture's shorter side, in pixels; `None` for no limit.
    pub fn maximum_dimension(self) -> (r: Option<u32>)
        ensures
            r == self.maximum_dimension_spec(),
    {
        match self {
            VideoQuality::P1080 => Some(1080),
            VideoQuality::P1440 => Some(1440),
            VideoQuality::P2160 => Some(2160),
            VideoQuality::Best => None,
        }
    }
}

/// One download as the desktop front end requests it.
#[derive(Debug, Clone)]
pub struct DownloadRequest {
    pub url: String,
    pub mode: DownloadMode,
    pub video_quality: VideoQuality,
    pub output_directory: String,
}

/// The stage a download has reached.
#[derive(Debug, Clone, Copy, PartialEq, Eq, Structural)]
pub enum JobPhase {
    Preparing,
    Downloading,
    Inspecting,
    Remuxing,
    Converting,
    Finalizing,
    Completed,
    Cancelled,
    Failed,
}

/// The installed set of tools, whose executables carry fixed Windows names.
#[derive(Debug, Clone, PartialEq, Eq)]
pub struct ActiveToolset {
    pub id: String,
    pub yt_dlp_version: String,
    pub ffmpeg_version: String,
    pub deno_version: String,
    pub directory: String,
}

impl ActiveToolset {
    /// `yt-dlp.exe` in the tool directory.
    pub fn yt_dlp(&self) -> (r: String)
        ensures
            joined(r@, self.directory@, "yt-dlp.exe"@),
    {
        join_path(self.directory.as_str(), "yt-dlp.exe")
    }

    /// `ffmpeg.exe` in the tool directory.
    pub fn ffmpeg(&self) -> (r: String)
        ensures
            joined(r@, self.directory@, "ffmpeg.exe"@),
    {
        join_path(self.directory.as_str(), "ffmpeg.exe")
    }

    /// `ffprobe.exe` in the tool directory.
    pub fn ffprobe(&self) -> (r: String)
        ensures
            joined(r@, self.directory@, "ffprobe.exe"@),
    {
        join_path(self.directory.as_str(), "ffprobe.exe")
    }

    /// `deno.exe` in the tool directory.
    pub fn deno(&self) -> (r: String)
        ensures
            joined(r@, self.directory@, "deno.exe"@),
    {
        join_path(self.directory.as_str(), "deno.exe")
    }
}

} // verus!
