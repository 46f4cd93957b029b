use std::path::{Path, PathBuf};
use yt_dlp_wrapper::platform::{
    current_platform_id, yt_dlp_filename_arguments, PlatformError, ToolLayout, ToolPlatform,
    MACOS_ARM64, WINDOWS_X64,
};

#[test]
fn windows_layout_contains_relative_platform_paths() {
    let platform = ToolPlatform::windows_x64();
    assert_eq!(platform.id, WINDOWS_X64);
    assert!(Path::new(&platform.layout.yt_dlp).is_relative());
    assert_eq!(PathBuf::from(&platform.layout.ffmpeg), PathBuf::from("ffmpeg.exe"));
    assert_eq!(
        yt_dlp_filename_arguments(platform.id),
        &["--windows-filenames"]
    );
}

#[test]
fn macos_arm64_uses_native_standalone_tools() {
    let platform = ToolPlatform::macos_arm64();
    assert_eq!(platform.id, MACOS_ARM64);
    assert_eq!(platform.yt_dlp_asset, "yt-dlp_macos");
    assert_eq!(platform.ffprobe_asset, Some("ffprobe-osx-arm64"));
    assert_eq!(PathBuf::from(&platform.layout.ffmpeg), PathBuf::from("ffmpeg"));
    assert_eq!(PathBuf::from(&platform.layout.deno), PathBuf::from("deno"));
    assert!(yt_dlp_filename_arguments(platform.id).is_empty());
}

#[test]
fn current_platform_follows_the_target() {
    assert_eq!(ToolPlatform::current("windows", "x86_64").unwrap().id, WINDOWS_X64);
    assert_eq!(ToolPlatform::current("macos", "aarch64").unwrap().id, MACOS_ARM64);
    match ToolPlatform::current("linux", "x86_64") {
        Err(PlatformError::Unsupported(id)) => assert_eq!(id, "linux-x86_64"),
        Ok(_) => panic!("linux is not supported"),
    }
    assert!(ToolPlatform::current("windows", "aarch64").is_err());
    assert_eq!(current_platform_id("macos", "x86_64"), "macos-x86_64");
}

#[test]
fn unsupported_platform_message_names_the_platform() {
    let error = PlatformError::Unsupported("linux-riscv64".to_string());
    assert_eq!(error.message(), "platform linux-riscv64 is not supported by this release");
}

#[test]
fn windows_assets_and_layout() {
    let platform = ToolPlatform::windows_x64();
    assert_eq!(platform.ffmpeg_checksums, Some("checksums.sha256"));
    assert_eq!(platform.ffprobe_asset, None);
    assert_eq!(platform.deno_asset, "deno-x86_64-pc-windows-msvc.zip");
    let layout = ToolLayout::windows_x64();
    assert_eq!(layout.deno, "deno.exe");
    assert_eq!(ToolLayout::macos_arm64().yt_dlp, "yt-dlp");
    assert!(yt_dlp_filename_arguments("linux-x86_64").is_empty());
}

#[test]
fn tool_paths_lie_inside_the_tool_directory() {
    let tools = yt_dlp_wrapper::model::ActiveToolset {
        id: "set".to_owned(),
        yt_dlp_version: "1".to_owned(),
        ffmpeg_version: "2".to_owned(),
        deno_version: "3".to_owned(),
        directory: "/data/tools/x".to_owned(),
        platform: MACOS_ARM64.to_owned(),
        yt_dlp_path: "yt-dlp".to_owned(),
        ffmpeg_path: "ffmpeg".to_owned(),
        ffprobe_path: "ffprobe".to_owned(),
        deno_path: "deno".to_owned(),
    };
    assert_eq!(tools.yt_dlp(), "/data/tools/x/yt-dlp");
    assert_eq!(tools.ffmpeg(), "/data/tools/x/ffmpeg");
    assert_eq!(tools.ffprobe(), "/data/tools/x/ffprobe");
    assert_eq!(tools.deno(), "/data/tools/x/deno");
    let desktop = yt_dlp_wrapper::desktop_model::ActiveToolset {
        id: "set".to_owned(),
        yt_dlp_version: "1".to_owned(),
        ffmpeg_version: "2".to_owned(),
        deno_version: "3".to_owned(),
        directory: "/data/tools/x/".to_owned(),
    };
    assert_eq!(desktop.yt_dlp(), "/data/tools/x/yt-dlp.exe");
}
