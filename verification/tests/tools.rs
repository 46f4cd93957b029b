use yt_dlp_wrapper::desktop_model::ActiveToolset;
use yt_dlp_wrapper::tools::{
    checksum_for, checksum_matches, hex_lower, install_steps, installed_toolset, plan_updates,
    release_not_modified, safe_id, sha256_hex, short_version, toolset_id, toolsets_to_remove,
    verify_checksum, DenoArchiveScan, FfmpegArchiveScan, GithubAsset, GithubRelease, InstallStep,
    ToolError, ToolsetDirectory, UpdatePlan,
};

#[test]
fn parses_common_checksum_formats() {
    let hash = "a".repeat(64);
    assert_eq!(
        checksum_for(&format!("{hash}  yt-dlp.exe\n"), "yt-dlp.exe"),
        Some(hash.clone())
    );
    assert_eq!(
        checksum_for(&format!("{hash} *yt-dlp.exe\n"), "yt-dlp.exe"),
        Some(hash)
    );
}

#[test]
fn rejects_wrong_checksum_name() {
    let hash = "b".repeat(64);
    assert_eq!(
        checksum_for(&format!("{hash} other.exe\n"), "yt-dlp.exe"),
        None
    );
}

#[test]
fn checksum_listing_edge_cases() {
    let upper = "ABCDEF0123456789".repeat(4);
    let listing = format!("junk\n{}  yt-dlp.exe\r\n{upper} **yt-dlp.exe extra\n", "g".repeat(64));
    assert_eq!(checksum_for(&listing, "yt-dlp.exe"), Some(upper.to_lowercase()));
    assert_eq!(checksum_for("", "yt-dlp.exe"), None);
    assert_eq!(checksum_for(&format!("{} yt-dlp.exe", "a".repeat(63)), "yt-dlp.exe"), None);
    assert!(checksum_matches("ABcd", "abCD"));
    assert!(!checksum_matches("abcd", "abce"));
    assert_eq!(
        verify_checksum("aa", "bb", "ffmpeg.zip"),
        Err(ToolError::Checksum("ffmpeg.zip".into()))
    );
}

#[test]
fn hashes_in_lowercase_hex() {
    assert_eq!(hex_lower(&[0xbe, 0xef, 0x01]), "beef01");
    assert_eq!(
        sha256_hex(b"abc"),
        "ba7816bf8f01cfea414140de5dae2223b00361a396177a9cb410ff61f20015ad"
    );
}

fn asset(name: &str, size: u64, updated_at: &str) -> GithubAsset {
    GithubAsset {
        name: name.into(),
        browser_download_url: format!("https://example.com/{name}"),
        size,
        updated_at: updated_at.into(),
    }
}

fn releases() -> (GithubRelease, GithubRelease, GithubRelease) {
    (
        GithubRelease {
            tag_name: "2025.01.02".into(),
            assets: vec![asset("yt-dlp.exe", 20 * 1048576, "t"), asset("SHA2-256SUMS", 1, "t")],
        },
        GithubRelease {
            tag_name: "latest".into(),
            assets: vec![
                asset("checksums.sha256", 1, "t"),
                asset("ffmpeg-master-latest-win64-gpl.zip", 150 * 1048576 + 524288, "2025-01-03T04:05:06Z"),
            ],
        },
        GithubRelease {
            tag_name: "v2.1.4".into(),
            assets: vec![
                asset("deno-x86_64-pc-windows-msvc.zip", 40 * 1048576, "t"),
                asset("deno-x86_64-pc-windows-msvc.zip.sha256sum", 1, "t"),
            ],
        },
    )
}

fn plan_for(active: Option<&ActiveToolset>) -> UpdatePlan {
    let (yt, ffmpeg, deno) = releases();
    plan_updates(&yt, &ffmpeg, &deno, active).unwrap()
}

#[test]
fn first_setup_updates_everything() {
    let plan = plan_for(None);
    assert!(plan.has_updates());
    assert!(plan.update_yt_dlp && plan.update_ffmpeg && plan.update_deno);
    assert_eq!(plan.ffmpeg.version, "2025-01-03T04:05:06Z");
    assert_eq!(plan.required_download_bytes(), 210 * 1048576 + 524288);
    assert_eq!(
        plan.summary(),
        "yt-dlp 2025.01.02, FFmpeg 2025-01-03T04:05:06, Deno v2.1.4 (210 MiB download)"
    );
    let mib = plan.required_download_bytes() as f64 / 1_048_576.0;
    assert_eq!(format!("{mib:.0}"), "210");
}

#[test]
fn current_tools_need_no_update() {
    let installed = ActiveToolset {
        id: "x".into(),
        yt_dlp_version: "2025.01.02".into(),
        ffmpeg_version: "2025-01-03T04:05:06Z".into(),
        deno_version: "v2.1.3".into(),
        directory: "tools/x".into(),
    };
    let plan = plan_for(Some(&installed));
    assert!(!plan.update_yt_dlp && !plan.update_ffmpeg && plan.update_deno);
    assert_eq!(plan.summary(), "Deno v2.1.4 (40 MiB download)");
    let steps = install_steps(&plan);
    assert!(matches!(steps[1], InstallStep::CopyActive { ref relative } if relative == "yt-dlp.exe"));
    assert!(matches!(steps.last(), Some(InstallStep::SmokeTest { file, argument }) if file == "deno.exe" && argument == "--version"));
    let current = ActiveToolset { deno_version: "v2.1.4".into(), ..installed };
    assert!(!plan_for(Some(&current)).has_updates());
}

#[test]
fn missing_assets_are_reported_in_order() {
    let (mut yt, ffmpeg, deno) = releases();
    yt.assets.clear();
    match plan_updates(&yt, &ffmpeg, &deno, None) {
        Err(ToolError::Metadata(message)) => {
            assert_eq!(message, "release asset \"yt-dlp.exe\" is missing")
        }
        other => panic!("unexpected {other:?}"),
    }
}

#[test]
fn install_steps_and_toolset_id() {
    let plan = plan_for(None);
    let steps = install_steps(&plan);
    assert_eq!(steps.len(), 22);
    assert!(matches!(steps[0], InstallStep::CheckCancelled));
    assert!(matches!(&steps[2], InstallStep::Download { asset, file } if asset.name == "yt-dlp.exe" && file == "yt-dlp.exe"));
    assert!(matches!(&steps[8], InstallStep::ExtractFfmpeg { archive } if archive == "ffmpeg.zip"));
    assert_eq!(toolset_id(&plan), "2025-01-02-2025-01-03T04-05-06-v2-1-4");
    let stored = installed_toolset(&plan, "tools/id".into());
    assert_eq!(stored.deno_version, "v2.1.4");
    assert_eq!(stored.directory, "tools/id");
    assert_eq!(short_version("2025-01-03T04:05:06Z"), "2025-01-03T04:05:06");
    assert_eq!(safe_id("a.b-c_é"), "a-b-c--");
}

#[test]
fn scans_archives() {
    let mut scan = FfmpegArchiveScan::new();
    assert_eq!(scan.record("FFMPEG.EXE").as_deref(), Some("ffmpeg.exe"));
    assert_eq!(scan.record("LICENSE.txt").as_deref(), Some("licences/ffmpeg-license.txt"));
    assert_eq!(scan.record("readme.md"), None);
    assert!(scan.finish().is_err());
    scan.record("ffprobe.exe");
    assert!(scan.finish().is_ok());
    let mut deno = DenoArchiveScan::new();
    assert_eq!(deno.record("license.MD").as_deref(), Some("licences/deno-license.txt"));
    assert_eq!(
        deno.finish(),
        Err(ToolError::Validation("Deno ZIP does not contain deno.exe".into()))
    );
    deno.record("Deno.exe");
    assert!(deno.finish().is_ok());
}

#[test]
fn removes_all_but_the_newest_old_toolset() {
    let dir = |path: &str, modified: Option<i128>| ToolsetDirectory { path: path.into(), modified };
    assert!(toolsets_to_remove(&vec![dir("a", Some(1))]).is_empty());
    let removed = toolsets_to_remove(&vec![
        dir("a", Some(5)),
        dir("b", None),
        dir("c", Some(5)),
        dir("d", Some(2)),
    ]);
    assert_eq!(removed, ["a", "b", "d"]);
}

#[test]
fn tool_error_messages() {
    assert_eq!(ToolError::UpdateLocked.message(), "another process is updating the tools");
    assert_eq!(ToolError::Checksum("x".into()).message(), "checksum verification failed for x");
}

#[test]
fn not_modified_answers_come_from_the_cache() {
    let cached = GithubRelease { tag_name: "v2".to_owned(), assets: Vec::new() };
    let release = release_not_modified(Some(cached)).unwrap();
    assert_eq!(release.tag_name, "v2");
    assert!(release.assets.is_empty());
    assert_eq!(
        release_not_modified(None).unwrap_err(),
        ToolError::Metadata("server returned 304 without cached metadata".to_owned())
    );
}
