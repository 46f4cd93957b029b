//! The platforms this release supports, with where each one's tools come from.
use crate::text::str_equal;
use vstd::prelude::*;

verus! {

pub const WINDOWS_X64: &'static str = "windows-x64";

pub const MACOS_ARM64: &'static str = "macos-arm64";

pub const WINDOWS_FFMPEG_RELEASE_API: &'static str =
    "https://api.github.com/repos/yt-dlp/FFmpeg-Builds/releases/latest";

pub const MACOS_FFMPEG_RELEASE_API: &'static str =
    "https://api.github.com/repos/shaka-project/static-ffmpeg-binaries/releases/latest";

/// Where each tool lies, relative to the tool set's directory.
#[derive(Debug, Clone)]
pub struct ToolLayout {
    pub yt_dlp: String,
    pub ffmpeg: String,
    pub ffprobe: String,
    pub deno: String,
}

impl ToolLayout {
    /// Windows executables carry the `.exe` suffix.
    pub fn windows_x64() -> (r: Self)
        ensures
            r.yt_dlp@ == "yt-dlp.exe"@,
            r.ffmpeg@ == "ffmpeg.exe"@,
            r.ffprobe@ == "ffprobe.exe"@,
            r.deno@ == "deno.exe"@,
    {
        ToolLayout {
            yt_dlp: "yt-dlp.exe".to_owned(),
            ffmpeg: "ffmpeg.exe".to_owned(),
            ffprobe: "ffprobe.exe".to_owned(),
            deno: "deno.exe".to_owned(),
        }
    }

    /// macOS executables carry no suffix.
    pub fn macos_arm64() -> (r: Self)
        ensures
            r.yt_dlp@ == "yt-dlp"@,
            r.ffmpeg@ == "ffmpeg"@,
            r.ffprobe@ == "ffprobe"@,
            r.deno@ == "deno"@,
    {
        ToolLayout {
            yt_dlp: "yt-dlp".to_owned(),
            ffmpeg: "ffmpeg".to_owned(),
            ffprobe: "ffprobe".to_owned(),
            deno: "deno".to_owned(),
        }
    }
}

/// A supported platform: its id, the release assets to fetch and the layout they unpack to.
#[derive(Debug, Clone)]
pub struct ToolPlatform {
    pub id: &'static str,
    pub yt_dlp_asset: &'static str,
    pub yt_dlp_checksums: &'static str,
    pub ffmpeg_release_api: &'static str,
    pub ffmpeg_asset: &'static str,
    pub ffprobe_asset: Option<&'static str>,
    pub ffmpeg_checksums: Option<&'static str>,
    pub deno_asset: &'static str,
    pub deno_checksums: &'static str,
    pub layout: ToolLayout,
}

/// The description of the Windows x64 platform.
pub open spec fn is_windows_x64(p: ToolPlatform) -> bool {
    &&& p.id@ == WINDOWS_X64@
    &&& p.yt_dlp_asset@ == "yt-dlp.exe"@
    &&& p.yt_dlp_checksums@ == "SHA2-256SUMS"@
    &&& p.ffmpeg_release_api@ == WINDOWS_FFMPEG_RELEASE_API@
    &&& p.ffmpeg_asset@ == "ffmpeg-master-latest-win64-gpl.zip"@
    &&& p.ffprobe_asset is None
    &&& p.ffmpeg_checksums matches Some(c) && c@ == "checksums.sha256"@
    &&& p.deno_asset@ == "deno-x86_64-pc-windows-msvc.zip"@
    &&& p.deno_checksums@ == "deno-x86_64-pc-windows-msvc.zip.sha256sum"@
    &&& p.layout.yt_dlp@ == "yt-dlp.exe"@
    &&& p.layout.ffmpeg@ == "ffmpeg.exe"@
    &&& p.layout.ffprobe@ == "ffprobe.exe"@
    &&& p.layout.deno@ == "deno.exe"@
}

/// The description of the Apple Silicon macOS platform.
pub open spec fn is_macos_arm64(p: ToolPlatform) -> bool {
    &&& p.id@ == MACOS_ARM64@
    &&& p.yt_dlp_asset@ == "yt-dlp_macos"@
    &&& p.yt_dlp_checksums@ == "SHA2-256SUMS"@
    &&& p.ffmpeg_release_api@ == MACOS_FFMPEG_RELEASE_API@
    &&& p.ffmpeg_asset@ == "ffmpeg-osx-arm64"@
    &&& p.ffprobe_asset matches Some(a) && a@ == "ffprobe-osx-arm64"@
    &&& p.ffmpeg_checksums is None
    &&& p.deno_asset@ == "deno-aarch64-apple-darwin.zip"@
    &&& p.deno_checksums@ == "deno-aarch64-apple-darwin.zip.sha256sum"@
    &&& p.layout.yt_dlp@ == "yt-dlp"@
    &&& p.layout.ffmpeg@ == "ffmpeg"@
    &&& p.layout.ffprobe@ == "ffprobe"@
    &&& p.layout.deno@ == "deno"@
}

/// `<os>-<arch>`, the id of a platform.
pub open spec fn platform_id_spec(os: Seq<char>, arch: Seq<char>) -> Seq<char> {
    os.push('-') + arch
}

impl ToolPlatform {
    /// The platform with the given operating system and architecture (as
    /// `std::env::consts::OS` and `ARCH` name them), or the error naming it.
    pub fn current(os: &str, arch: &str) -> (r: Result<Self, PlatformError>)
        ensures
            os@ == "windows"@ && arch@ == "x86_64"@ ==> (r matches Ok(p) && is_windows_x64(p)),
            os@ == "macos"@ && arch@ == "aarch64"@ ==> (r matches Ok(p) && is_macos_arm64(p)),
            !(os@ == "windows"@ && arch@ == "x86_64"@) && !(os@ == "macos"@ && arch@
                == "aarch64"@) ==> (r matches Err(PlatformError::Unsupported(id)) && id@
                == platform_id_spec(os@, arch@)),
    {
        proof {
            reveal_strlit("windows");
            reveal_strlit("macos");
            assert("windows"@[0] != "macos"@[0]);
        }
        if str_equal(os, "windows") && str_equal(arch, "x86_64") {
            Ok(Self::windows_x64())
        } else if str_equal(os, "macos") && str_equal(arch, "aarch64") {
            Ok(Self::macos_arm64())
        } else {
            Err(PlatformError::Unsupported(current_platform_id(os, arch)))
        }
    }

    pub fn windows_x64() -> (r: Self)
        ensures
            is_windows_x64(r),
    {
        ToolPlatform {
            id: WINDOWS_X64,
            yt_dlp_asset: "yt-dlp.exe",
            yt_dlp_checksums: "SHA2-256SUMS",
            ffmpeg_release_api: WINDOWS_FFMPEG_RELEASE_API,
            ffmpeg_asset: "ffmpeg-master-latest-win64-gpl.zip",
            ffprobe_asset: None,
            ffmpeg_checksums: Some("checksums.sha256"),
            deno_asset: "deno-x86_64-pc-windows-msvc.zip",
            deno_checksums: "deno-x86_64-pc-windows-msvc.zip.sha256sum",
            layout: ToolLayout::windows_x64(),
        }
    }

    pub fn macos_arm64() -> (r: Self)
        ensures
            is_macos_arm64(r),
    {
        ToolPlatform {
            id: MACOS_ARM64,
            yt_dlp_asset: "yt-dlp_macos",
            yt_dlp_checksums: "SHA2-256SUMS",
            ffmpeg_release_api: MACOS_FFMPEG_RELEASE_API,
            ffmpeg_asset: "ffmpeg-osx-arm64",
            ffprobe_asset: Some("ffprobe-osx-arm64"),
            ffmpeg_checksums: None,
            deno_asset: "deno-aarch64-apple-darwin.zip",
            deno_checksums: "deno-aarch64-apple-darwin.zip.sha256sum",
            layout: ToolLayout::macos_arm64(),
        }
    }
}

/// Why no tools can be managed here.
#[derive(Debug, Clone, PartialEq, Eq)]
pub enum PlatformError {
    Unsupported(String),
}

impl PlatformError {
    pub open spec fn message_spec(self) -> Seq<char> {
        match self {
            PlatformError::Unsupported(id) => "platform "@ + id@ + " is not supported by this release"@,
        }
    }

    /// The error's text.
    pub fn message(&self) -> (r: String)
        ensures
            r@ == self.message_spec(),
    {
        match self {
            PlatformError::Unsupported(id) => {
                let mut v = crate::text::chars_of("platform ");
                crate::text::extend_str(&mut v, id.as_str());
                crate::text::extend_str(&mut v, " is not supported by this release");
                crate::text::string_of(v.as_slice())
            },
        }
    }
}

/// The id of the platform with the given operating system and architecture: `<os>-<arch>`.
pub fn current_platform_id(os: &str, arch: &str) -> (r: String)
    ensures
        r@ == platform_id_spec(os@, arch@),
{
    let mut v = crate::text::chars_of(os);
    v.push('-');
    crate::text::extend_str(&mut v, arch);
    crate::text::string_of(v.as_slice())
}

/// Extra yt-dlp arguments that keep file names valid on the platform.
pub fn yt_dlp_filename_arguments(platform: &str) -> (r: &'static [&'static str])
    ensures
        platform@ == WINDOWS_X64@ ==> r@.len() == 1 && r@[0]@ == "--windows-filenames"@,
        platform@ != WINDOWS_X64@ ==> r@.len() == 0,
{
    if str_equal(platform, WINDOWS_X64) {
        let r: &'static [&'static str] = &["--windows-filenames"];
        r
    } else {
        let r: &'static [&'static str] = &[];
        r
    }
}

} // verus!
