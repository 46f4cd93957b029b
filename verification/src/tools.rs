//! The decisions of tool management: which release assets to fetch, whether an update is
//! due, the steps of an installation, checksum files, archive contents and old tool sets.
use crate::desktop_model::ActiveToolset;
use crate::media::rounded_quotient;
use crate::text::{
    ascii_lower_seq, chars_equal, chars_of, debug_quoted, debug_text, decimal_spec, is_plain_debug_text, quoted,
    eq_ignore_ascii_case, eq_ignore_ascii_case_spec, extend_str, is_white_space,
    is_white_space_char, push_decimal, rows, split_chars, split_spec, str_equal, string_of,
    string_rows,
    to_ascii_lowercase, trim_start, trim_start_char, trim_start_char_spec, trim_start_spec,
};
use vstd::prelude::*;

verus! {

pub const YT_DLP_RELEASE_API: &'static str =
    "https://api.github.com/repos/yt-dlp/yt-dlp-nightly-builds/releases/latest";

pub const FFMPEG_RELEASE_API: &'static str =
    "https://api.github.com/repos/yt-dlp/FFmpeg-Builds/releases/latest";

pub const DENO_RELEASE_API: &'static str =
    "https://api.github.com/repos/denoland/deno/releases/latest";

pub const YT_DLP_ASSET: &'static str = "yt-dlp.exe";

pub const YT_DLP_CHECKSUMS: &'static str = "SHA2-256SUMS";

pub const FFMPEG_ASSET: &'static str = "ffmpeg-master-latest-win64-gpl.zip";

pub const FFMPEG_CHECKSUMS: &'static str = "checksums.sha256";

pub const DENO_ASSET: &'static str = "deno-x86_64-pc-windows-msvc.zip";

pub const DENO_CHECKSUMS: &'static str = "deno-x86_64-pc-windows-msvc.zip.sha256sum";

/// Why a tool operation failed.
#[derive(Debug, Clone, PartialEq, Eq)]
pub enum ToolError {
    Network(String),
    Io(String),
    Metadata(String),
    Archive(String),
    Checksum(String),
    Validation(String),
    UpdateLocked,
    Cancelled,
}

impl ToolError {
    pub open spec fn message_spec(self) -> Seq<char> {
        match self {
            ToolError::Network(e) => "network request failed: "@ + e@,
            ToolError::Io(e) => "file operation failed: "@ + e@,
            ToolError::Metadata(e) => "release metadata is invalid: "@ + e@,
            ToolError::Archive(e) => "archive is invalid: "@ + e@,
            ToolError::Checksum(e) => "checksum verification failed for "@ + e@,
            ToolError::Validation(e) => "tool validation failed: "@ + e@,
            ToolError::UpdateLocked => "another process is updating the tools"@,
            ToolError::Cancelled => "tool installation was cancelled"@,
        }
    }

    /// The error's text.
    pub fn message(&self) -> (r: String)
        ensures
            r@ == self.message_spec(),
    {
        let (head, detail): (&str, Option<&String>) = match self {
            ToolError::Network(e) => ("network request failed: ", Some(e)),
            ToolError::Io(e) => ("file operation failed: ", Some(e)),
            ToolError::Metadata(e) => ("release metadata is invalid: ", Some(e)),
            ToolError::Archive(e) => ("archive is invalid: ", Some(e)),
            ToolError::Checksum(e) => ("checksum verification failed for ", Some(e)),
            ToolError::Validation(e) => ("tool validation failed: ", Some(e)),
            ToolError::UpdateLocked => ("another process is updating the tools", None),
            ToolError::Cancelled => ("tool installation was cancelled", None),
        };
        let mut v = chars_of(head);
        if let Some(e) = detail {
            extend_str(&mut v, e.as_str());
        }
        string_of(v.as_slice())
    }
}

/// A file attached to a GitHub release.
#[derive(Debug)]
pub struct GithubAsset {
    pub name: String,
    pub browser_download_url: String,
    pub size: u64,
    pub updated_at: String,
}

impl Clone for GithubAsset {
    fn clone(&self) -> (r: Self)
        ensures
            r == *self,
    {
        GithubAsset {
            name: self.name.clone(),
            browser_download_url: self.browser_download_url.clone(),
            size: self.size,
            updated_at: self.updated_at.clone(),
        }
    }
}

/// A GitHub release: its tag and assets.
#[derive(Debug, Clone)]
pub struct GithubRelease {
    pub tag_name: String,
    pub assets: Vec<GithubAsset>,
}

/// The first asset of a release with the given name.
pub open spec fn find_asset_spec(assets: Seq<GithubAsset>, name: Seq<char>) -> Option<GithubAsset>
    decreases assets.len(),
{
    if assets.len() == 0 {
        None
    } else if assets[0].name@ == name {
        Some(assets[0])
    } else {
        find_asset_spec(assets.drop_first(), name)
    }
}

/// The error text for a release that lacks an asset.
pub open spec fn missing_asset_text(name: Seq<char>) -> Seq<char> {
    "release asset "@ + debug_text(name) + " is missing"@
}

impl GithubRelease {
    /// The asset with the given name, or a metadata error naming it.
    pub fn asset(&self, name: &str) -> (r: Result<GithubAsset, ToolError>)
        ensures
            match find_asset_spec(self.assets@, name@) {
                Some(a) => r == Ok::<GithubAsset, ToolError>(a),
                None => r matches Err(ToolError::Metadata(m)) && m@ == missing_asset_text(name@)
                    && (is_plain_debug_text(name@) ==> m@ == "release asset "@ + quoted(name@)
                    + " is missing"@),
            },
    {
        let mut i: usize = 0;
        assert(self.assets@.skip(0) == self.assets@);
        while i < self.assets.len()
            invariant
                i <= self.assets@.len(),
                find_asset_spec(self.assets@.skip(i as int), name@) == find_asset_spec(
                    self.assets@,
                    name@,
                ),
            decreases self.assets@.len() - i,
        {
            let ghost rest = self.assets@.skip(i as int);
            assert(rest[0] == self.assets@[i as int]);
            if str_equal(self.assets[i].name.as_str(), name) {
                return Ok(self.assets[i].clone());
            }
            assert(rest.drop_first() == self.assets@.skip(i + 1));
            i += 1;
        }
        let mut v = chars_of("release asset ");
        extend_str(&mut v, debug_quoted(name).as_str());
        extend_str(&mut v, " is missing");
        Err(ToolError::Metadata(string_of(v.as_slice())))
    }
}

/// The release to use when the server answers that its copy is not modified: the cached
/// copy, or a metadata error when none is cached.
pub fn release_not_modified(cached: Option<GithubRelease>) -> (r: Result<GithubRelease, ToolError>)
    ensures
        match cached {
            Some(release) => r == Ok::<GithubRelease, ToolError>(release),
            None => r matches Err(ToolError::Metadata(m)) && m@
                == "server returned 304 without cached metadata"@,
        },
{
    match cached {
        Some(release) => Ok(release),
        None => Err(ToolError::Metadata("server returned 304 without cached metadata".to_owned())),
    }
}

/// One tool of an update: its version and the archive and checksum assets.
#[derive(Debug, Clone)]
pub struct RemoteComponent {
    pub version: String,
    pub archive: GithubAsset,
    pub checksums: GithubAsset,
}

/// What an update would fetch: the latest of each tool and which of them differ from the
/// installed set.
#[derive(Debug, Clone)]
pub struct UpdatePlan {
    pub yt_dlp: RemoteComponent,
    pub ffmpeg: RemoteComponent,
    pub deno: RemoteComponent,
    pub update_yt_dlp: bool,
    pub update_ffmpeg: bool,
    pub update_deno: bool,
}

/// The bytes a component adds to a download when it is due.
pub open spec fn due_bytes(due: bool, component: RemoteComponent) -> nat {
    if due {
        component.archive.size as nat
    } else {
        0
    }
}

impl UpdatePlan {
    /// The size of every archive the plan downloads.
    pub open spec fn download_bytes_spec(self) -> nat {
        due_bytes(self.update_yt_dlp, self.yt_dlp) + due_bytes(
            self.update_ffmpeg,
            self.ffmpeg,
        ) + due_bytes(self.update_deno, self.deno)
    }

    pub open spec fn has_updates_spec(self) -> bool {
        self.update_yt_dlp || self.update_ffmpeg || self.update_deno
    }

    /// Whether any tool is due for an update.
    pub fn has_updates(&self) -> (r: bool)
        ensures
            r == self.has_updates_spec(),
    {
        self.update_yt_dlp || self.update_ffmpeg || self.update_deno
    }

    fn download_bytes_wide(&self) -> (r: u128)
        ensures
            r == self.download_bytes_spec(),
    {
        let mut total: u128 = 0;
        if self.update_yt_dlp {
            total = total + self.yt_dlp.archive.size as u128;
        }
        if self.update_ffmpeg {
            total = total + self.ffmpeg.archive.size as u128;
        }
        if self.update_deno {
            total = total + self.deno.archive.size as u128;
        }
        total
    }

    /// The number of bytes the update downloads. The sum must fit in 64 bits, as the
    /// standard `sum` would otherwise overflow.
    pub fn required_download_bytes(&self) -> (r: u64)
        requires
            self.download_bytes_spec() <= u64::MAX,
        ensures
            r == self.download_bytes_spec(),
    {
        self.download_bytes_wide() as u64
    }

    /// The text that announces the update: the tools due and the download size in MiB.
    pub open spec fn summary_spec(self) -> Seq<char> {
        join_spec_names(self) + " ("@ + decimal_spec(
            rounded_quotient(self.download_bytes_spec(), 1048576),
        ) + " MiB download)"@
    }

    /// The announcement of the update (see [`UpdatePlan::summary_spec`]).
    pub fn summary(&self) -> (r: String)
        ensures
            r@ == self.summary_spec(),
    {
        let mut parts: Vec<Vec<char>> = Vec::new();
        if self.update_yt_dlp {
            let mut p = chars_of("yt-dlp ");
            extend_str(&mut p, self.yt_dlp.version.as_str());
            parts.push(p);
        }
        if self.update_ffmpeg {
            let mut p = chars_of("FFmpeg ");
            extend_str(&mut p, short_version(self.ffmpeg.version.as_str()).as_str());
            parts.push(p);
        }
        if self.update_deno {
            let mut p = chars_of("Deno ");
            extend_str(&mut p, self.deno.version.as_str());
            parts.push(p);
        }
        assert(rows(parts@) =~= summary_parts(*self));
        let mut v = crate::text::join_chars(&parts, chars_of(", ").as_slice());
        extend_str(&mut v, " (");
        let bytes = self.download_bytes_wide();
        let mib = rounded_mib(bytes);
        push_decimal(&mut v, mib);
        extend_str(&mut v, " MiB download)");
        string_of(v.as_slice())
    }
}

fn rounded_mib(bytes: u128) -> (r: u64)
    requires
        bytes <= 3 * (u64::MAX as u128),
    ensures
        r == rounded_quotient(bytes as nat, 1048576),
{
    let q = bytes / 1048576;
    let rem = bytes % 1048576;
    let r = if rem > 524288 || (rem == 524288 && q % 2 == 1) {
        q + 1
    } else {
        q
    };
    r as u64
}

/// The announced name of each tool the plan updates.
pub open spec fn summary_parts(plan: UpdatePlan) -> Seq<Seq<char>> {
    (if plan.update_yt_dlp {
        seq!["yt-dlp "@ + plan.yt_dlp.version@]
    } else {
        Seq::empty()
    }) + (if plan.update_ffmpeg {
        seq!["FFmpeg "@ + short_version_spec(plan.ffmpeg.version@)]
    } else {
        Seq::empty()
    }) + (if plan.update_deno {
        seq!["Deno "@ + plan.deno.version@]
    } else {
        Seq::empty()
    })
}

pub open spec fn join_spec_names(plan: UpdatePlan) -> Seq<char> {
    crate::text::join_spec(summary_parts(plan), ", "@)
}

/// `short_version`: the first nineteen characters (an FFmpeg build date and time).
pub open spec fn short_version_spec(value: Seq<char>) -> Seq<char> {
    if value.len() <= 19 {
        value
    } else {
        value.take(19)
    }
}

/// The first nineteen characters of a version.
pub fn short_version(value: &str) -> (r: String)
    ensures
        r@ == short_version_spec(value@),
{
    let chars = chars_of(value);
    if chars.len() <= 19 {
        return value.to_owned();
    }
    let mut v: Vec<char> = Vec::new();
    let mut i: usize = 0;
    while i < 19
        invariant
            chars@.len() > 19,
            i <= 19,
            v@ == chars@.take(i as int),
        decreases 19 - i,
    {
        v.push(chars[i]);
        assert(chars@.take(i + 1) == chars@.take(i as int).push(chars@[i as int]));
        i += 1;
    }
    string_of(v.as_slice())
}

pub open spec fn is_ascii_alphanumeric(c: char) -> bool {
    let v = c as u32;
    (48 <= v && v <= 57) || (65 <= v && v <= 90) || (97 <= v && v <= 122)
}

/// `safe_id`: every character that is not an ASCII letter or digit becomes `-`.
pub open spec fn safe_id_spec(value: Seq<char>) -> Seq<char> {
    Seq::new(value.len(), |i: int| if is_ascii_alphanumeric(value[i]) { value[i] } else { '-' })
}

/// A version turned into a directory-name-safe id.
pub fn safe_id(value: &str) -> (r: String)
    ensures
        r@ == safe_id_spec(value@),
{
    let chars = chars_of(value);
    let mut v: Vec<char> = Vec::new();
    let mut i: usize = 0;
    while i < chars.len()
        invariant
            i <= chars@.len(),
            v@ == safe_id_spec(chars@.take(i as int)),
        decreases chars@.len() - i,
    {
        let c = chars[i];
        let x = c as u32;
        let keep = (48 <= x && x <= 57) || (65 <= x && x <= 90) || (97 <= x && x <= 122);
        v.push(if keep { c } else { '-' });
        assert(v@ =~= safe_id_spec(chars@.take(i + 1)));
        i += 1;
    }
    assert(chars@.take(chars@.len() as int) == chars@);
    string_of(v.as_slice())
}

/// An id only ever holds ASCII letters, digits and `-`, and is as long as the version.
pub proof fn law_safe_id_is_safe(value: Seq<char>)
    ensures
        safe_id_spec(value).len() == value.len(),
        forall|i: int|
            0 <= i < value.len() ==> is_ascii_alphanumeric(#[trigger] safe_id_spec(value)[i])
                || safe_id_spec(value)[i] == '-',
{
}


// ---------------------------------------------------------------- update checks

/// The first asset that the three releases lack, in the order the update check asks for them.
pub open spec fn first_missing_asset(
    yt_dlp: GithubRelease,
    ffmpeg: GithubRelease,
    deno: GithubRelease,
) -> Option<Seq<char>> {
    if find_asset_spec(yt_dlp.assets@, YT_DLP_ASSET@) is None {
        Some(YT_DLP_ASSET@)
    } else if find_asset_spec(yt_dlp.assets@, YT_DLP_CHECKSUMS@) is None {
        Some(YT_DLP_CHECKSUMS@)
    } else if find_asset_spec(ffmpeg.assets@, FFMPEG_ASSET@) is None {
        Some(FFMPEG_ASSET@)
    } else if find_asset_spec(ffmpeg.assets@, FFMPEG_CHECKSUMS@) is None {
        Some(FFMPEG_CHECKSUMS@)
    } else if find_asset_spec(deno.assets@, DENO_ASSET@) is None {
        Some(DENO_ASSET@)
    } else if find_asset_spec(deno.assets@, DENO_CHECKSUMS@) is None {
        Some(DENO_CHECKSUMS@)
    } else {
        None
    }
}

/// Whether a tool is due: always without an installed set, else when the versions differ.
pub open spec fn is_due(installed: Option<Seq<char>>, latest: Seq<char>) -> bool {
    match installed {
        None => true,
        Some(v) => v != latest,
    }
}

/// The plan for the three latest releases against the installed set: yt-dlp and Deno are
/// versioned by their release tag, FFmpeg by its archive's upload time.
pub open spec fn is_plan_for(
    p: UpdatePlan,
    yt_dlp: GithubRelease,
    ffmpeg: GithubRelease,
    deno: GithubRelease,
    active: Option<ActiveToolset>,
) -> bool {
    let ffmpeg_archive = find_asset_spec(ffmpeg.assets@, FFMPEG_ASSET@)->0;
    &&& p.yt_dlp.version == yt_dlp.tag_name
    &&& p.yt_dlp.archive == find_asset_spec(yt_dlp.assets@, YT_DLP_ASSET@)->0
    &&& p.yt_dlp.checksums == find_asset_spec(yt_dlp.assets@, YT_DLP_CHECKSUMS@)->0
    &&& p.ffmpeg.version == ffmpeg_archive.updated_at
    &&& p.ffmpeg.archive == ffmpeg_archive
    &&& p.ffmpeg.checksums == find_asset_spec(ffmpeg.assets@, FFMPEG_CHECKSUMS@)->0
    &&& p.deno.version == deno.tag_name
    &&& p.deno.archive == find_asset_spec(deno.assets@, DENO_ASSET@)->0
    &&& p.deno.checksums == find_asset_spec(deno.assets@, DENO_CHECKSUMS@)->0
    &&& p.update_yt_dlp == is_due(installed_version(active, 0), p.yt_dlp.version@)
    &&& p.update_ffmpeg == is_due(installed_version(active, 1), p.ffmpeg.version@)
    &&& p.update_deno == is_due(installed_version(active, 2), p.deno.version@)
}

/// The installed version of a tool (0 yt-dlp, 1 FFmpeg, 2 Deno), if a set is installed.
pub open spec fn installed_version(active: Option<ActiveToolset>, tool: nat) -> Option<Seq<char>> {
    match active {
        None => None,
        Some(a) => Some(
            if tool == 0 {
                a.yt_dlp_version@
            } else if tool == 1 {
                a.ffmpeg_version@
            } else {
                a.deno_version@
            },
        ),
    }
}

pub open spec fn installed_set(active: Option<&ActiveToolset>) -> Option<ActiveToolset> {
    match active {
        None => None,
        Some(a) => Some(*a),
    }
}

fn due(active: Option<&ActiveToolset>, tool: u8, latest: &String) -> (r: bool)
    requires
        tool < 3,
    ensures
        r == is_due(installed_version(installed_set(active), tool as nat), latest@),
{
    match active {
        None => true,
        Some(a) => {
            let installed = if tool == 0 {
                &a.yt_dlp_version
            } else if tool == 1 {
                &a.ffmpeg_version
            } else {
                &a.deno_version
            };
            !str_equal(installed.as_str(), latest.as_str())
        },
    }
}

/// The update plan for the latest yt-dlp, FFmpeg and Deno releases: a metadata error naming
/// the first asset a release lacks, else the plan of [`is_plan_for`].
pub fn plan_updates(
    yt_dlp: &GithubRelease,
    ffmpeg: &GithubRelease,
    deno: &GithubRelease,
    active: Option<&ActiveToolset>,
) -> (r: Result<UpdatePlan, ToolError>)
    ensures
        match first_missing_asset(*yt_dlp, *ffmpeg, *deno) {
            Some(name) => r matches Err(ToolError::Metadata(m)) && m@ == missing_asset_text(name),
            None => r matches Ok(p) && is_plan_for(p, *yt_dlp, *ffmpeg, *deno, installed_set(active)),
        },
{
    let yt_archive = match yt_dlp.asset(YT_DLP_ASSET) {
        Ok(a) => a,
        Err(e) => return Err(e),
    };
    let yt_checksums = match yt_dlp.asset(YT_DLP_CHECKSUMS) {
        Ok(a) => a,
        Err(e) => return Err(e),
    };
    let yt_component = RemoteComponent {
        version: yt_dlp.tag_name.clone(),
        archive: yt_archive,
        checksums: yt_checksums,
    };
    let ffmpeg_archive = match ffmpeg.asset(FFMPEG_ASSET) {
        Ok(a) => a,
        Err(e) => return Err(e),
    };
    let ffmpeg_checksums = match ffmpeg.asset(FFMPEG_CHECKSUMS) {
        Ok(a) => a,
        Err(e) => return Err(e),
    };
    let ffmpeg_component = RemoteComponent {
        version: ffmpeg_archive.updated_at.clone(),
        archive: ffmpeg_archive,
        checksums: ffmpeg_checksums,
    };
    let deno_archive = match deno.asset(DENO_ASSET) {
        Ok(a) => a,
        Err(e) => return Err(e),
    };
    let deno_checksums = match deno.asset(DENO_CHECKSUMS) {
        Ok(a) => a,
        Err(e) => return Err(e),
    };
    let deno_component = RemoteComponent {
        version: deno.tag_name.clone(),
        archive: deno_archive,
        checksums: deno_checksums,
    };
    let update_yt_dlp = due(active, 0, &yt_component.version);
    let update_ffmpeg = due(active, 1, &ffmpeg_component.version);
    let update_deno = due(active, 2, &deno_component.version);
    Ok(
        UpdatePlan {
            yt_dlp: yt_component,
            ffmpeg: ffmpeg_component,
            deno: deno_component,
            update_yt_dlp,
            update_ffmpeg,
            update_deno,
        },
    )
}

/// Without an installed tool set every tool is due; with one whose versions match the
/// releases, none is.
pub proof fn law_plan_due_tools(
    p: UpdatePlan,
    yt_dlp: GithubRelease,
    ffmpeg: GithubRelease,
    deno: GithubRelease,
    active: Option<ActiveToolset>,
)
    requires
        is_plan_for(p, yt_dlp, ffmpeg, deno, active),
    ensures
        active is None ==> p.has_updates_spec() && p.update_yt_dlp && p.update_ffmpeg
            && p.update_deno,
        active matches Some(a) && a.yt_dlp_version@ == p.yt_dlp.version@ && a.ffmpeg_version@
            == p.ffmpeg.version@ && a.deno_version@ == p.deno.version@ ==> !p.has_updates_spec(),
        !p.has_updates_spec() ==> p.download_bytes_spec() == 0,
{
}


// ---------------------------------------------------------------- installation

/// One step of installing an update into a staging directory; file names are relative to it.
#[derive(Debug, Clone)]
pub enum InstallStep {
    /// Stop with `Cancelled` if the operation was cancelled.
    CheckCancelled,
    /// Report progress to the user.
    Progress(String),
    /// Download an asset into a file.
    Download { asset: GithubAsset, file: String },
    /// Check a file against the checksum listed for `expected_name` in a checksum asset.
    Verify { file: String, checksums: GithubAsset, expected_name: String },
    /// Unpack FFmpeg and ffprobe from a ZIP archive.
    ExtractFfmpeg { archive: String },
    /// Unpack Deno from a ZIP archive.
    ExtractDeno { archive: String },
    /// Copy a file from the installed set; fails without one.
    CopyActive { relative: String },
    /// Copy a file from the installed set where it exists.
    CopyOptionalActive { relative: String },
    /// Delete a temporary file, ignoring failures.
    RemoveTemporary { file: String },
    /// Run a tool with one argument; it must exit successfully.
    SmokeTest { file: String, argument: String },
}

/// An installation step with its texts as character sequences.
pub enum StepView {
    CheckCancelled,
    Progress(Seq<char>),
    Download(GithubAsset, Seq<char>),
    Verify(Seq<char>, GithubAsset, Seq<char>),
    ExtractFfmpeg(Seq<char>),
    ExtractDeno(Seq<char>),
    CopyActive(Seq<char>),
    CopyOptionalActive(Seq<char>),
    RemoveTemporary(Seq<char>),
    SmokeTest(Seq<char>, Seq<char>),
}

pub open spec fn step_view(s: InstallStep) -> StepView {
    match s {
        InstallStep::CheckCancelled => StepView::CheckCancelled,
        InstallStep::Progress(m) => StepView::Progress(m@),
        InstallStep::Download { asset, file } => StepView::Download(asset, file@),
        InstallStep::Verify { file, checksums, expected_name } => StepView::Verify(
            file@,
            checksums,
            expected_name@,
        ),
        InstallStep::ExtractFfmpeg { archive } => StepView::ExtractFfmpeg(archive@),
        InstallStep::ExtractDeno { archive } => StepView::ExtractDeno(archive@),
        InstallStep::CopyActive { relative } => StepView::CopyActive(relative@),
        InstallStep::CopyOptionalActive { relative } => StepView::CopyOptionalActive(relative@),
        InstallStep::RemoveTemporary { file } => StepView::RemoveTemporary(file@),
        InstallStep::SmokeTest { file, argument } => StepView::SmokeTest(file@, argument@),
    }
}

pub open spec fn steps_view(steps: Seq<InstallStep>) -> Seq<StepView> {
    Seq::new(steps.len(), |i: int| step_view(steps[i]))
}

/// The steps for yt-dlp: download and verify the new executable, or keep the installed one.
pub open spec fn yt_dlp_steps(p: UpdatePlan) -> Seq<StepView> {
    if p.update_yt_dlp {
        seq![
            StepView::Progress("Downloading yt-dlp nightly…"@),
            StepView::Download(p.yt_dlp.archive, "yt-dlp.exe"@),
            StepView::Verify("yt-dlp.exe"@, p.yt_dlp.checksums, YT_DLP_ASSET@),
        ]
    } else {
        seq![StepView::CopyActive("yt-dlp.exe"@)]
    }
}

/// The steps for FFmpeg: download, verify and unpack the archive, or keep the installed tools.
pub open spec fn ffmpeg_steps(p: UpdatePlan) -> Seq<StepView> {
    if p.update_ffmpeg {
        seq![
            StepView::Progress("Downloading FFmpeg and ffprobe…"@),
            StepView::Download(p.ffmpeg.archive, "ffmpeg.zip"@),
            StepView::Verify("ffmpeg.zip"@, p.ffmpeg.checksums, FFMPEG_ASSET@),
            StepView::ExtractFfmpeg("ffmpeg.zip"@),
        ]
    } else {
        seq![
            StepView::CopyActive("ffmpeg.exe"@),
            StepView::CopyActive("ffprobe.exe"@),
            StepView::CopyOptionalActive("licences/ffmpeg-license.txt"@),
        ]
    }
}

/// The steps for Deno: download, verify and unpack the archive, or keep the installed one.
pub open spec fn deno_steps(p: UpdatePlan) -> Seq<StepView> {
    if p.update_deno {
        seq![
            StepView::Progress("Downloading Deno…"@),
            StepView::Download(p.deno.archive, "deno.zip"@),
            StepView::Verify("deno.zip"@, p.deno.checksums, DENO_ASSET@),
            StepView::ExtractDeno("deno.zip"@),
        ]
    } else {
        seq![
            StepView::CopyActive("deno.exe"@),
            StepView::CopyOptionalActive("licences/deno-license.txt"@),
        ]
    }
}

/// The closing steps: remove the archives and run each tool once.
pub open spec fn final_steps() -> Seq<StepView> {
    seq![
        StepView::RemoveTemporary("ffmpeg.zip"@),
        StepView::RemoveTemporary("deno.zip"@),
        StepView::Progress("Validating downloaded tools…"@),
        StepView::SmokeTest("yt-dlp.exe"@, "--version"@),
        StepView::SmokeTest("ffmpeg.exe"@, "-version"@),
        StepView::SmokeTest("ffprobe.exe"@, "-version"@),
        StepView::SmokeTest("deno.exe"@, "--version"@),
    ]
}

/// The whole installation, with a cancellation check before each tool and before the checks.
pub open spec fn install_steps_spec(p: UpdatePlan) -> Seq<StepView> {
    seq![StepView::CheckCancelled] + yt_dlp_steps(p) + seq![StepView::CheckCancelled]
        + ffmpeg_steps(p) + seq![StepView::CheckCancelled] + deno_steps(p) + seq![
        StepView::CheckCancelled,
    ] + final_steps()
}

fn push_step(steps: &mut Vec<InstallStep>, step: InstallStep)
    ensures
        steps_view(final(steps)@) == steps_view(old(steps)@).push(step_view(step)),
{
    let ghost s = step;
    steps.push(step);
    assert(steps_view(steps@) =~= steps_view(old(steps)@).push(step_view(s)));
}

fn push_yt_dlp_steps(steps: &mut Vec<InstallStep>, plan: &UpdatePlan)
    ensures
        steps_view(final(steps)@) == steps_view(old(steps)@) + yt_dlp_steps(*plan),
{
    if plan.update_yt_dlp {
        push_step(steps, InstallStep::Progress("Downloading yt-dlp nightly…".to_owned()));
        push_step(
            steps,
            InstallStep::Download { asset: plan.yt_dlp.archive.clone(), file: "yt-dlp.exe".to_owned() },
        );
        push_step(
            steps,
            InstallStep::Verify {
                file: "yt-dlp.exe".to_owned(),
                checksums: plan.yt_dlp.checksums.clone(),
                expected_name: YT_DLP_ASSET.to_owned(),
            },
        );
    } else {
        push_step(steps, InstallStep::CopyActive { relative: "yt-dlp.exe".to_owned() });
    }
    assert(steps_view(steps@) =~= steps_view(old(steps)@) + yt_dlp_steps(*plan));
}

fn push_ffmpeg_steps(steps: &mut Vec<InstallStep>, plan: &UpdatePlan)
    ensures
        steps_view(final(steps)@) == steps_view(old(steps)@) + ffmpeg_steps(*plan),
{
    if plan.update_ffmpeg {
        push_step(steps, InstallStep::Progress("Downloading FFmpeg and ffprobe…".to_owned()));
        push_step(
            steps,
            InstallStep::Download { asset: plan.ffmpeg.archive.clone(), file: "ffmpeg.zip".to_owned() },
        );
        push_step(
            steps,
            InstallStep::Verify {
                file: "ffmpeg.zip".to_owned(),
                checksums: plan.ffmpeg.checksums.clone(),
                expected_name: FFMPEG_ASSET.to_owned(),
            },
        );
        push_step(steps, InstallStep::ExtractFfmpeg { archive: "ffmpeg.zip".to_owned() });
    } else {
        push_step(steps, InstallStep::CopyActive { relative: "ffmpeg.exe".to_owned() });
        push_step(steps, InstallStep::CopyActive { relative: "ffprobe.exe".to_owned() });
        push_step(
            steps,
            InstallStep::CopyOptionalActive { relative: "licences/ffmpeg-license.txt".to_owned() },
        );
    }
    assert(steps_view(steps@) =~= steps_view(old(steps)@) + ffmpeg_steps(*plan));
}

fn push_deno_steps(steps: &mut Vec<InstallStep>, plan: &UpdatePlan)
    ensures
        steps_view(final(steps)@) == steps_view(old(steps)@) + deno_steps(*plan),
{
    if plan.update_deno {
        push_step(steps, InstallStep::Progress("Downloading Deno…".to_owned()));
        push_step(
            steps,
            InstallStep::Download { asset: plan.deno.archive.clone(), file: "deno.zip".to_owned() },
        );
        push_step(
            steps,
            InstallStep::Verify {
                file: "deno.zip".to_owned(),
                checksums: plan.deno.checksums.clone(),
                expected_name: DENO_ASSET.to_owned(),
            },
        );
        push_step(steps, InstallStep::ExtractDeno { archive: "deno.zip".to_owned() });
    } else {
        push_step(steps, InstallStep::CopyActive { relative: "deno.exe".to_owned() });
        push_step(
            steps,
            InstallStep::CopyOptionalActive { relative: "licences/deno-license.txt".to_owned() },
        );
    }
    assert(steps_view(steps@) =~= steps_view(old(steps)@) + deno_steps(*plan));
}

fn push_final_steps(steps: &mut Vec<InstallStep>)
    ensures
        steps_view(final(steps)@) == steps_view(old(steps)@) + final_steps(),
{
    push_step(steps, InstallStep::RemoveTemporary { file: "ffmpeg.zip".to_owned() });
    push_step(steps, InstallStep::RemoveTemporary { file: "deno.zip".to_owned() });
    push_step(steps, InstallStep::Progress("Validating downloaded tools…".to_owned()));
    push_step(
        steps,
        InstallStep::SmokeTest { file: "yt-dlp.exe".to_owned(), argument: "--version".to_owned() },
    );
    push_step(
        steps,
        InstallStep::SmokeTest { file: "ffmpeg.exe".to_owned(), argument: "-version".to_owned() },
    );
    push_step(
        steps,
        InstallStep::SmokeTest { file: "ffprobe.exe".to_owned(), argument: "-version".to_owned() },
    );
    push_step(
        steps,
        InstallStep::SmokeTest { file: "deno.exe".to_owned(), argument: "--version".to_owned() },
    );
    assert(steps_view(steps@) =~= steps_view(old(steps)@) + final_steps());
}

/// The steps that install an update into a staging directory (see [`install_steps_spec`]).
pub fn install_steps(plan: &UpdatePlan) -> (r: Vec<InstallStep>)
    ensures
        steps_view(r@) == install_steps_spec(*plan),
{
    let mut steps: Vec<InstallStep> = Vec::new();
    assert(steps_view(steps@) =~= Seq::<StepView>::empty());
    push_step(&mut steps, InstallStep::CheckCancelled);
    push_yt_dlp_steps(&mut steps, plan);
    push_step(&mut steps, InstallStep::CheckCancelled);
    push_ffmpeg_steps(&mut steps, plan);
    push_step(&mut steps, InstallStep::CheckCancelled);
    push_deno_steps(&mut steps, plan);
    push_step(&mut steps, InstallStep::CheckCancelled);
    push_final_steps(&mut steps);
    assert(steps_view(steps@) =~= install_steps_spec(*plan));
    steps
}

/// Whether step `i` of `s`, if it downloads a file, is followed by the check of that file.
pub open spec fn download_checked_next(s: Seq<StepView>, i: int) -> bool {
    match s[i] {
        StepView::Download(_, file) => i + 1 < s.len() && match s[i + 1] {
            StepView::Verify(checked, _, _) => checked == file,
            _ => false,
        },
        _ => true,
    }
}

/// Whether step `i` of `s`, if it unpacks an archive, comes right after the check of that archive.
pub open spec fn archive_checked_before(s: Seq<StepView>, i: int) -> bool {
    match s[i] {
        StepView::ExtractFfmpeg(archive) | StepView::ExtractDeno(archive) => i >= 1 && match s[i
            - 1] {
            StepView::Verify(checked, _, _) => checked == archive,
            _ => false,
        },
        _ => true,
    }
}

/// Every downloaded file is checked against its published checksum in the very next step, and
/// every unpacked archive was checked in the step just before it.
pub proof fn law_downloads_are_verified_before_use(p: UpdatePlan)
    ensures
        forall|i: int|
            0 <= i < install_steps_spec(p).len() ==> #[trigger] download_checked_next(
                install_steps_spec(p),
                i,
            ),
        forall|i: int|
            0 <= i < install_steps_spec(p).len() ==> #[trigger] archive_checked_before(
                install_steps_spec(p),
                i,
            ),
{
    let s = install_steps_spec(p);
    let y = yt_dlp_steps(p);
    let f = ffmpeg_steps(p);
    let d = deno_steps(p);
    assert(s =~= seq![StepView::CheckCancelled] + y + seq![StepView::CheckCancelled] + f + seq![
        StepView::CheckCancelled,
    ] + d + seq![StepView::CheckCancelled] + final_steps());
    assert(s.len() == 1 + y.len() + 1 + f.len() + 1 + d.len() + 1 + 7);
    let a = 1 + y.len();
    let b = a + 1 + f.len();
    let c = b + 1 + d.len();
    assert forall|i: int| 0 <= i < s.len() implies #[trigger] download_checked_next(s, i)
        && archive_checked_before(s, i) by {
        if i < 1 {
        } else if i < a {
            assert(s[i] == y[i - 1]);
            if i + 1 < a {
                assert(s[i + 1] == y[i]);
            }
            if i - 1 >= 1 {
                assert(s[i - 1] == y[i - 2]);
            }
        } else if i == a {
        } else if i < b {
            assert(s[i] == f[i - a - 1]);
            if i + 1 < b {
                assert(s[i + 1] == f[i - a]);
            }
            if i - 1 > a {
                assert(s[i - 1] == f[i - a - 2]);
            }
        } else if i == b {
        } else if i < c {
            assert(s[i] == d[i - b - 1]);
            if i + 1 < c {
                assert(s[i + 1] == d[i - b]);
            }
            if i - 1 > b {
                assert(s[i - 1] == d[i - b - 2]);
            }
        } else if i == c {
        } else {
            assert(s[i] == final_steps()[i - c - 1]);
        }
    }
}

/// The id of the tool set an update installs: the three versions as safe ids, FFmpeg's
/// shortened, joined by `-`.
pub open spec fn toolset_id_spec(p: UpdatePlan) -> Seq<char> {
    safe_id_spec(p.yt_dlp.version@) + "-"@ + safe_id_spec(short_version_spec(p.ffmpeg.version@))
        + "-"@ + safe_id_spec(p.deno.version@)
}

/// The id of the tool set an update installs (see [`toolset_id_spec`]).
pub fn toolset_id(plan: &UpdatePlan) -> (r: String)
    ensures
        r@ == toolset_id_spec(*plan),
{
    let mut v = chars_of(safe_id(plan.yt_dlp.version.as_str()).as_str());
    extend_str(&mut v, "-");
    extend_str(&mut v, safe_id(short_version(plan.ffmpeg.version.as_str()).as_str()).as_str());
    extend_str(&mut v, "-");
    extend_str(&mut v, safe_id(plan.deno.version.as_str()).as_str());
    string_of(v.as_slice())
}

/// The record of an installed update, stored with the given directory.
pub fn installed_toolset(plan: &UpdatePlan, directory: String) -> (r: ActiveToolset)
    ensures
        r.id@ == toolset_id_spec(*plan),
        r.yt_dlp_version == plan.yt_dlp.version,
        r.ffmpeg_version == plan.ffmpeg.version,
        r.deno_version == plan.deno.version,
        r.directory == directory,
{
    ActiveToolset {
        id: toolset_id(plan),
        yt_dlp_version: plan.yt_dlp.version.clone(),
        ffmpeg_version: plan.ffmpeg.version.clone(),
        deno_version: plan.deno.version.clone(),
        directory,
    }
}

/// Whether `step` puts `file` into the new tool set: a download to it, a copy of it from the
/// installed set, or the unpacking of an archive that holds it (FFmpeg's archive holds
/// `ffmpeg.exe` and `ffprobe.exe`, Deno's holds `deno.exe`).
pub open spec fn produces(step: StepView, file: Seq<char>) -> bool {
    match step {
        StepView::Download(_, target) => target == file,
        StepView::CopyActive(target) => target == file,
        StepView::ExtractFfmpeg(_) => file == "ffmpeg.exe"@ || file == "ffprobe.exe"@,
        StepView::ExtractDeno(_) => file == "deno.exe"@,
        _ => false,
    }
}

/// Whether step `i` of `s`, if it runs a tool to check it, runs one that an earlier step put
/// in place.
pub open spec fn checked_tool_in_place(s: Seq<StepView>, i: int) -> bool {
    match s[i] {
        StepView::SmokeTest(file, _) => exists|j: int| 0 <= j < i && #[trigger] produces(s[j], file),
        _ => true,
    }
}

/// Whether `s` runs `file` to check it.
pub open spec fn runs_check_of(s: Seq<StepView>, file: Seq<char>) -> bool {
    exists|i: int| 0 <= i < s.len() && #[trigger] s[i] == StepView::SmokeTest(file, smoke_argument(file))
}

/// The argument that checks a tool: `--version` for yt-dlp and Deno, `-version` for FFmpeg
/// and ffprobe.
pub open spec fn smoke_argument(file: Seq<char>) -> Seq<char> {
    if file == "ffmpeg.exe"@ || file == "ffprobe.exe"@ {
        "-version"@
    } else {
        "--version"@
    }
}

/// All four tools (yt-dlp, FFmpeg, ffprobe, Deno) are run once to check the new set, whatever
/// is updated, and every tool run was put into the new set by an earlier step: downloaded,
/// unpacked from its archive, or copied from the installed set.
pub proof fn law_checked_tools_are_in_place(p: UpdatePlan)
    ensures
        runs_check_of(install_steps_spec(p), "yt-dlp.exe"@),
        runs_check_of(install_steps_spec(p), "ffmpeg.exe"@),
        runs_check_of(install_steps_spec(p), "ffprobe.exe"@),
        runs_check_of(install_steps_spec(p), "deno.exe"@),
        forall|i: int|
            0 <= i < install_steps_spec(p).len() ==> #[trigger] checked_tool_in_place(
                install_steps_spec(p),
                i,
            ),
{
    reveal_strlit("yt-dlp.exe");
    reveal_strlit("ffmpeg.exe");
    reveal_strlit("ffprobe.exe");
    reveal_strlit("deno.exe");
    assert("yt-dlp.exe"@[0] != "ffmpeg.exe"@[0]);
    assert("deno.exe"@[0] != "ffmpeg.exe"@[0]);
    assert("ffprobe.exe"@.len() != "ffmpeg.exe"@.len());
    let s = install_steps_spec(p);
    let y = yt_dlp_steps(p);
    let f = ffmpeg_steps(p);
    let d = deno_steps(p);
    assert(s =~= seq![StepView::CheckCancelled] + y + seq![StepView::CheckCancelled] + f + seq![
        StepView::CheckCancelled,
    ] + d + seq![StepView::CheckCancelled] + final_steps());
    let a: int = 1 + y.len() as int;
    let b: int = a + 1 + f.len() as int;
    let c: int = b + 1 + d.len() as int;
    assert(s.len() == c + 8);
    let yt: int = if p.update_yt_dlp { 2 } else { 1 };
    let ff: int = if p.update_ffmpeg { a + 4 } else { a + 1 };
    let fp: int = if p.update_ffmpeg { a + 4 } else { a + 2 };
    let dn: int = if p.update_deno { b + 4 } else { b + 1 };
    assert(s[yt] == y[yt - 1]);
    assert(s[ff] == f[ff - a - 1]);
    assert(s[fp] == f[fp - a - 1]);
    assert(s[dn] == d[dn - b - 1]);
    assert(produces(s[yt], "yt-dlp.exe"@));
    assert(produces(s[ff], "ffmpeg.exe"@));
    assert(produces(s[fp], "ffprobe.exe"@));
    assert(produces(s[dn], "deno.exe"@));
    assert(s[c + 4] == StepView::SmokeTest("yt-dlp.exe"@, smoke_argument("yt-dlp.exe"@)));
    assert(s[c + 5] == StepView::SmokeTest("ffmpeg.exe"@, smoke_argument("ffmpeg.exe"@)));
    assert(s[c + 6] == StepView::SmokeTest("ffprobe.exe"@, smoke_argument("ffprobe.exe"@)));
    assert(s[c + 7] == StepView::SmokeTest("deno.exe"@, smoke_argument("deno.exe"@)));
    assert forall|i: int| 0 <= i < s.len() implies #[trigger] checked_tool_in_place(s, i) by {
        if i < 1 {
        } else if i < a {
            assert(s[i] == y[i - 1]);
        } else if i == a {
        } else if i < b {
            assert(s[i] == f[i - a - 1]);
        } else if i == b {
        } else if i < c {
            assert(s[i] == d[i - b - 1]);
        } else if i == c {
        } else if i < c + 4 {
            assert(s[i] == final_steps()[i - c - 1]);
        } else if i == c + 4 {
            assert(s[i] == StepView::SmokeTest("yt-dlp.exe"@, "--version"@));
            assert(0 <= yt < i && produces(s[yt], "yt-dlp.exe"@));
            assert(exists|j: int| 0 <= j < i && #[trigger] produces(s[j], "yt-dlp.exe"@));
            assert(s[i]->SmokeTest_0 == "yt-dlp.exe"@);
        } else if i == c + 5 {
            assert(s[i] == StepView::SmokeTest("ffmpeg.exe"@, "-version"@));
            assert(0 <= ff < i && produces(s[ff], "ffmpeg.exe"@));
            assert(exists|j: int| 0 <= j < i && #[trigger] produces(s[j], "ffmpeg.exe"@));
            assert(s[i]->SmokeTest_0 == "ffmpeg.exe"@);
        } else if i == c + 6 {
            assert(s[i] == StepView::SmokeTest("ffprobe.exe"@, "-version"@));
            assert(0 <= fp < i && produces(s[fp], "ffprobe.exe"@));
            assert(exists|j: int| 0 <= j < i && #[trigger] produces(s[j], "ffprobe.exe"@));
            assert(s[i]->SmokeTest_0 == "ffprobe.exe"@);
        } else {
            assert(s[i] == StepView::SmokeTest("deno.exe"@, "--version"@));
            assert(0 <= dn < i && produces(s[dn], "deno.exe"@));
            assert(exists|j: int| 0 <= j < i && #[trigger] produces(s[j], "deno.exe"@));
            assert(s[i]->SmokeTest_0 == "deno.exe"@);
        }
    }
}

/// Installing a plan and checking again against the same releases finds nothing to update.
pub proof fn law_installed_set_is_current(
    p: UpdatePlan,
    q: UpdatePlan,
    yt_dlp: GithubRelease,
    ffmpeg: GithubRelease,
    deno: GithubRelease,
    before: Option<ActiveToolset>,
    installed: ActiveToolset,
)
    requires
        is_plan_for(p, yt_dlp, ffmpeg, deno, before),
        installed.yt_dlp_version == p.yt_dlp.version,
        installed.ffmpeg_version == p.ffmpeg.version,
        installed.deno_version == p.deno.version,
        is_plan_for(q, yt_dlp, ffmpeg, deno, Some(installed)),
    ensures
        !q.has_updates_spec(),
{
}


// ---------------------------------------------------------------- checksums

/// The length of the run of non-white-space characters at the start.
pub open spec fn word_len(s: Seq<char>) -> nat
    decreases s.len(),
{
    if s.len() == 0 || is_white_space(s[0]) {
        0
    } else {
        1 + word_len(s.drop_first())
    }
}

/// The first white-space-separated field of a text and what follows it (`split_whitespace`).
pub open spec fn next_field(s: Seq<char>) -> Option<(Seq<char>, Seq<char>)> {
    let t = trim_start_spec(s);
    if t.len() == 0 {
        None
    } else {
        Some((t.take(word_len(t) as int), t.skip(word_len(t) as int)))
    }
}

pub open spec fn is_ascii_hex_digit(c: char) -> bool {
    let v = c as u32;
    (48 <= v && v <= 57) || (65 <= v && v <= 70) || (97 <= v && v <= 102)
}

/// The checksum a line gives for `expected`: the line's first field, when its second field
/// (leading `*` removed) is `expected` and the first is sixty-four hexadecimal digits;
/// lower-cased.
pub open spec fn line_checksum(line: Seq<char>, expected: Seq<char>) -> Option<Seq<char>> {
    match next_field(line) {
        None => None,
        Some((hash, rest)) => match next_field(rest) {
            None => None,
            Some((name, _)) => if trim_start_char_spec(name, '*') == expected && hash.len() == 64
                && forall|i: int| 0 <= i < hash.len() ==> #[trigger] is_ascii_hex_digit(hash[i]) {
                Some(ascii_lower_seq(hash))
            } else {
                None
            },
        },
    }
}

/// The checksum of the first line that gives one for `expected`.
pub open spec fn first_checksum(lines: Seq<Seq<char>>, expected: Seq<char>) -> Option<Seq<char>>
    decreases lines.len(),
{
    if lines.len() == 0 {
        None
    } else {
        match line_checksum(lines[0], expected) {
            Some(h) => Some(h),
            None => first_checksum(lines.drop_first(), expected),
        }
    }
}

/// `checksum_for`: the checksum that a `sha256sum`-style listing gives for a file.
pub open spec fn checksum_for_spec(contents: Seq<char>, expected: Seq<char>) -> Option<Seq<char>> {
    first_checksum(split_spec(contents, '\n'), expected)
}

fn take_word(t: &[char]) -> (r: (Vec<char>, Vec<char>))
    ensures
        r.0@ == t@.take(word_len(t@) as int),
        r.1@ == t@.skip(word_len(t@) as int),
{
    let mut i: usize = 0;
    assert(t@.skip(0) == t@);
    while i < t.len() && !is_white_space_char(t[i])
        invariant
            i <= t@.len(),
            word_len(t@) == i + word_len(t@.skip(i as int)),
        decreases t@.len() - i,
    {
        assert(t@.skip(i as int).drop_first() == t@.skip(i + 1));
        i += 1;
    }
    assert(word_len(t@.skip(i as int)) == 0) by {
        if i < t@.len() {
            assert(t@.skip(i as int)[0] == t@[i as int]);
        }
    }
    let mut word: Vec<char> = Vec::new();
    let mut k: usize = 0;
    while k < i
        invariant
            k <= i <= t@.len(),
            word@ == t@.take(k as int),
        decreases i - k,
    {
        word.push(t[k]);
        assert(t@.take(k + 1) == t@.take(k as int).push(t@[k as int]));
        k += 1;
    }
    let mut rest: Vec<char> = Vec::new();
    let mut m: usize = i;
    while m < t.len()
        invariant
            i <= m <= t@.len(),
            rest@ == t@.subrange(i as int, m as int),
        decreases t@.len() - m,
    {
        rest.push(t[m]);
        assert(t@.subrange(i as int, m + 1) == t@.subrange(i as int, m as int).push(t@[m as int]));
        m += 1;
    }
    assert(t@.skip(i as int) == t@.subrange(i as int, t@.len() as int));
    (word, rest)
}

fn next_field_of(s: &[char]) -> (r: Option<(Vec<char>, Vec<char>)>)
    ensures
        match next_field(s@) {
            None => r is None,
            Some((f, rest)) => r matches Some((a, b)) && a@ == f && b@ == rest,
        },
{
    let t = trim_start(s);
    if t.len() == 0 {
        None
    } else {
        Some(take_word(t.as_slice()))
    }
}

fn all_hex(s: &[char]) -> (r: bool)
    ensures
        r == forall|i: int| 0 <= i < s@.len() ==> #[trigger] is_ascii_hex_digit(s@[i]),
{
    let mut i: usize = 0;
    while i < s.len()
        invariant
            i <= s@.len(),
            forall|k: int| 0 <= k < i ==> #[trigger] is_ascii_hex_digit(s@[k]),
        decreases s@.len() - i,
    {
        let v = s[i] as u32;
        if !((48 <= v && v <= 57) || (65 <= v && v <= 70) || (97 <= v && v <= 102)) {
            assert(!is_ascii_hex_digit(s@[i as int]));
            return false;
        }
        i += 1;
    }
    true
}

fn line_checksum_of(line: &[char], expected: &[char]) -> (r: Option<Vec<char>>)
    ensures
        match line_checksum(line@, expected@) {
            None => r is None,
            Some(h) => r matches Some(v) && v@ == h,
        },
{
    let (hash, rest) = match next_field_of(line) {
        None => return None,
        Some(f) => f,
    };
    let (name, _) = match next_field_of(rest.as_slice()) {
        None => return None,
        Some(f) => f,
    };
    let bare = trim_start_char(name.as_slice(), '*');
    if chars_equal(bare.as_slice(), expected) && hash.len() == 64 && all_hex(hash.as_slice()) {
        Some(to_ascii_lowercase(hash.as_slice()))
    } else {
        None
    }
}

/// The checksum that a listing gives for `expected_name` (see [`checksum_for_spec`]).
pub fn checksum_for(contents: &str, expected_name: &str) -> (r: Option<String>)
    ensures
        match checksum_for_spec(contents@, expected_name@) {
            None => r is None,
            Some(h) => r matches Some(s) && s@ == h,
        },
{
    let text = chars_of(contents);
    let expected = chars_of(expected_name);
    let lines = split_chars(text.as_slice(), '\n');
    let mut i: usize = 0;
    assert(rows(lines@).skip(0) == rows(lines@));
    while i < lines.len()
        invariant
            i <= lines@.len(),
            first_checksum(rows(lines@).skip(i as int), expected@) == checksum_for_spec(
                contents@,
                expected_name@,
            ),
        decreases lines@.len() - i,
    {
        let ghost rest = rows(lines@).skip(i as int);
        assert(rest[0] == lines@[i as int]@);
        match line_checksum_of(lines[i].as_slice(), expected.as_slice()) {
            Some(h) => {
                return Some(string_of(h.as_slice()));
            },
            None => {},
        }
        assert(rest.drop_first() == rows(lines@).skip(i + 1));
        i += 1;
    }
    None
}

/// A checksum always has sixty-four lower-case hexadecimal digits.
pub proof fn law_checksum_is_lowercase_hex(contents: Seq<char>, expected: Seq<char>)
    ensures
        checksum_for_spec(contents, expected) matches Some(h) ==> (h.len() == 64 && forall|i: int|
            0 <= i < 64 ==> is_ascii_hex_digit(#[trigger] h[i]) && !(65 <= (h[i] as u32) <= 90)),
{
    lemma_first_checksum_hex(split_spec(contents, '\n'), expected);
}

proof fn lemma_first_checksum_hex(lines: Seq<Seq<char>>, expected: Seq<char>)
    ensures
        first_checksum(lines, expected) matches Some(h) ==> (h.len() == 64 && forall|i: int|
            0 <= i < 64 ==> is_ascii_hex_digit(#[trigger] h[i]) && !(65 <= (h[i] as u32) <= 90)),
    decreases lines.len(),
{
    if lines.len() > 0 {
        match line_checksum(lines[0], expected) {
            Some(h) => {
                let pair = next_field(lines[0])->0;
                let hash = pair.0;
                assert forall|i: int| 0 <= i < 64 implies is_ascii_hex_digit(#[trigger] h[i]) && !(
                65 <= (h[i] as u32) <= 90) by {
                    assert(is_ascii_hex_digit(hash[i]));
                    let c = hash[i];
                    if 65 <= (c as u32) <= 90 {
                        assert((((c as u32) + 32) as char) as u32 == (c as u32) + 32);
                    }
                }
            },
            None => {
                lemma_first_checksum_hex(lines.drop_first(), expected);
            },
        }
    }
}

/// The lower-case hexadecimal digit for a value below sixteen.
pub open spec fn hex_digit(d: nat) -> char {
    if d < 10 {
        (48 + d) as char
    } else {
        (87 + d) as char
    }
}

/// Bytes in lower-case hexadecimal, two digits each (`{:x}` of a digest).
pub open spec fn hex_lower_spec(bytes: Seq<u8>) -> Seq<char>
    decreases bytes.len(),
{
    if bytes.len() == 0 {
        Seq::empty()
    } else {
        hex_lower_spec(bytes.drop_last()) + seq![
            hex_digit((bytes.last() / 16) as nat),
            hex_digit((bytes.last() % 16) as nat),
        ]
    }
}

fn hex_char(d: u8) -> (c: char)
    requires
        d < 16,
    ensures
        c == hex_digit(d as nat),
{
    if d < 10 {
        let c = (48 + d) as char;
        c
    } else {
        let c = (87 + d) as char;
        c
    }
}

/// Bytes in lower-case hexadecimal (see [`hex_lower_spec`]).
pub fn hex_lower(bytes: &[u8]) -> (r: String)
    ensures
        r@ == hex_lower_spec(bytes@),
{
    let mut v: Vec<char> = Vec::new();
    let mut i: usize = 0;
    while i < bytes.len()
        invariant
            i <= bytes@.len(),
            v@ == hex_lower_spec(bytes@.take(i as int)),
        decreases bytes@.len() - i,
    {
        let b = bytes[i];
        v.push(hex_char(b / 16));
        v.push(hex_char(b % 16));
        assert(bytes@.take(i + 1).drop_last() == bytes@.take(i as int));
        assert(v@ =~= hex_lower_spec(bytes@.take(i + 1)));
        i += 1;
    }
    assert(bytes@.take(bytes@.len() as int) == bytes@);
    string_of(v.as_slice())
}

/// The SHA-256 digest of some bytes, as `sha2::Sha256::digest` computes it.
pub uninterp spec fn sha256_spec(data: Seq<u8>) -> Seq<u8>;

/// The SHA-256 digest of `data` (`sha2::Sha256::digest`): 32 bytes, named by [`sha256_spec`].
#[verifier::external_body]
fn sha256_digest(data: &[u8]) -> (r: Vec<u8>)
    ensures
        r@ == sha256_spec(data@),
        r@.len() == 32,
{
    <sha2::Sha256 as sha2::Digest>::digest(data).to_vec()
}

/// The SHA-256 digest of `data` in lower-case hexadecimal.
pub fn sha256_hex(data: &[u8]) -> (r: String)
    ensures
        r@ == hex_lower_spec(sha256_spec(data@)),
{
    let digest = sha256_digest(data);
    hex_lower(digest.as_slice())
}

/// Whether a computed digest matches the listed checksum, ignoring ASCII case.
pub fn checksum_matches(actual: &str, expected: &str) -> (r: bool)
    ensures
        r == eq_ignore_ascii_case_spec(actual@, expected@),
{
    let a = chars_of(actual);
    let e = chars_of(expected);
    eq_ignore_ascii_case(a.as_slice(), e.as_slice())
}

/// The verdict on a downloaded file: `Checksum` naming the file when its digest differs.
pub fn verify_checksum(actual: &str, expected: &str, expected_name: &str) -> (r: Result<(), ToolError>)
    ensures
        eq_ignore_ascii_case_spec(actual@, expected@) ==> r is Ok,
        !eq_ignore_ascii_case_spec(actual@, expected@) ==> (r matches Err(ToolError::Checksum(n))
            && n@ == expected_name@),
{
    if checksum_matches(actual, expected) {
        Ok(())
    } else {
        Err(ToolError::Checksum(expected_name.to_owned()))
    }
}

/// The error for a checksum listing that names no checksum for a file.
pub fn missing_checksum(expected_name: &str) -> (r: ToolError)
    ensures
        r matches ToolError::Metadata(m) && m@ == "no checksum exists for "@ + expected_name@,
{
    let mut v = chars_of("no checksum exists for ");
    extend_str(&mut v, expected_name);
    ToolError::Metadata(string_of(v.as_slice()))
}


// ---------------------------------------------------------------- archives

/// What a file inside the FFmpeg archive becomes.
#[derive(Debug, Clone, Copy, PartialEq, Eq, Structural)]
pub enum FfmpegEntry {
    Ffmpeg,
    Ffprobe,
    Licence,
}

/// What a file inside the Deno archive becomes.
#[derive(Debug, Clone, Copy, PartialEq, Eq, Structural)]
pub enum DenoEntry {
    Deno,
    Licence,
}

/// The FFmpeg archive entry a file name denotes, compared without ASCII case.
pub open spec fn ffmpeg_entry_spec(name: Seq<char>) -> Option<FfmpegEntry> {
    let lower = ascii_lower_seq(name);
    if lower == "ffmpeg.exe"@ {
        Some(FfmpegEntry::Ffmpeg)
    } else if lower == "ffprobe.exe"@ {
        Some(FfmpegEntry::Ffprobe)
    } else if lower == "license.txt"@ || lower == "copying"@ {
        Some(FfmpegEntry::Licence)
    } else {
        None
    }
}

/// The Deno archive entry a file name denotes, compared without ASCII case.
pub open spec fn deno_entry_spec(name: Seq<char>) -> Option<DenoEntry> {
    if eq_ignore_ascii_case_spec(name, "deno.exe"@) {
        Some(DenoEntry::Deno)
    } else if eq_ignore_ascii_case_spec(name, "LICENSE.md"@) {
        Some(DenoEntry::Licence)
    } else {
        None
    }
}

/// Where an FFmpeg archive entry is written, relative to the staging directory.
pub open spec fn ffmpeg_entry_target(entry: FfmpegEntry) -> Seq<char> {
    match entry {
        FfmpegEntry::Ffmpeg => "ffmpeg.exe"@,
        FfmpegEntry::Ffprobe => "ffprobe.exe"@,
        FfmpegEntry::Licence => "licences/ffmpeg-license.txt"@,
    }
}

/// Where a Deno archive entry is written, relative to the staging directory.
pub open spec fn deno_entry_target(entry: DenoEntry) -> Seq<char> {
    match entry {
        DenoEntry::Deno => "deno.exe"@,
        DenoEntry::Licence => "licences/deno-license.txt"@,
    }
}

/// The files found so far while unpacking the FFmpeg archive.
pub struct FfmpegArchiveScan {
    pub found_ffmpeg: bool,
    pub found_ffprobe: bool,
}

impl FfmpegArchiveScan {
    pub fn new() -> (r: Self)
        ensures
            !r.found_ffmpeg && !r.found_ffprobe,
    {
        FfmpegArchiveScan { found_ffmpeg: false, found_ffprobe: false }
    }

    /// Classifies an entry by its file name and notes the executables found; returns where to
    /// write it, or `None` to skip it.
    pub fn record(&mut self, name: &str) -> (r: Option<String>)
        ensures
            match ffmpeg_entry_spec(name@) {
                Some(e) => r matches Some(t) && t@ == ffmpeg_entry_target(e),
                None => r is None,
            },
            final(self).found_ffmpeg == (old(self).found_ffmpeg || ffmpeg_entry_spec(name@)
                == Some(FfmpegEntry::Ffmpeg)),
            final(self).found_ffprobe == (old(self).found_ffprobe || ffmpeg_entry_spec(name@)
                == Some(FfmpegEntry::Ffprobe)),
    {
        let lower = to_ascii_lowercase(chars_of(name).as_slice());
        if chars_equal(lower.as_slice(), chars_of("ffmpeg.exe").as_slice()) {
            self.found_ffmpeg = true;
            Some("ffmpeg.exe".to_owned())
        } else if chars_equal(lower.as_slice(), chars_of("ffprobe.exe").as_slice()) {
            self.found_ffprobe = true;
            Some("ffprobe.exe".to_owned())
        } else if chars_equal(lower.as_slice(), chars_of("license.txt").as_slice()) || chars_equal(
            lower.as_slice(),
            chars_of("copying").as_slice(),
        ) {
            Some("licences/ffmpeg-license.txt".to_owned())
        } else {
            None
        }
    }

    /// The verdict once every entry is seen: both executables must be present.
    pub fn finish(&self) -> (r: Result<(), ToolError>)
        ensures
            self.found_ffmpeg && self.found_ffprobe ==> r is Ok,
            !(self.found_ffmpeg && self.found_ffprobe) ==> (r matches Err(ToolError::Validation(m))
                && m@ == "FFmpeg ZIP does not contain ffmpeg.exe and ffprobe.exe"@),
    {
        if !self.found_ffmpeg || !self.found_ffprobe {
            Err(
                ToolError::Validation(
                    "FFmpeg ZIP does not contain ffmpeg.exe and ffprobe.exe".to_owned(),
                ),
            )
        } else {
            Ok(())
        }
    }
}

/// The files found so far while unpacking the Deno archive.
pub struct DenoArchiveScan {
    pub found_deno: bool,
}

impl DenoArchiveScan {
    pub fn new() -> (r: Self)
        ensures
            !r.found_deno,
    {
        DenoArchiveScan { found_deno: false }
    }

    /// Classifies an entry by its file name and notes the executable found; returns where to
    /// write it, or `None` to skip it.
    pub fn record(&mut self, name: &str) -> (r: Option<String>)
        ensures
            match deno_entry_spec(name@) {
                Some(e) => r matches Some(t) && t@ == deno_entry_target(e),
                None => r is None,
            },
            final(self).found_deno == (old(self).found_deno || deno_entry_spec(name@) == Some(
                DenoEntry::Deno,
            )),
    {
        let chars = chars_of(name);
        if eq_ignore_ascii_case(chars.as_slice(), chars_of("deno.exe").as_slice()) {
            self.found_deno = true;
            Some("deno.exe".to_owned())
        } else if eq_ignore_ascii_case(chars.as_slice(), chars_of("LICENSE.md").as_slice()) {
            Some("licences/deno-license.txt".to_owned())
        } else {
            None
        }
    }

    /// The verdict once every entry is seen: the executable must be present.
    pub fn finish(&self) -> (r: Result<(), ToolError>)
        ensures
            self.found_deno ==> r is Ok,
            !self.found_deno ==> (r matches Err(ToolError::Validation(m)) && m@
                == "Deno ZIP does not contain deno.exe"@),
    {
        if !self.found_deno {
            Err(ToolError::Validation("Deno ZIP does not contain deno.exe".to_owned()))
        } else {
            Ok(())
        }
    }
}

/// The error for an archive entry whose path would leave the staging directory.
pub fn unsafe_entry_error(ffmpeg: bool) -> (r: ToolError)
    ensures
        ffmpeg ==> (r matches ToolError::Validation(m) && m@ == "FFmpeg ZIP contains an unsafe path"@),
        !ffmpeg ==> (r matches ToolError::Validation(m) && m@ == "Deno ZIP contains an unsafe path"@),
{
    if ffmpeg {
        ToolError::Validation("FFmpeg ZIP contains an unsafe path".to_owned())
    } else {
        ToolError::Validation("Deno ZIP contains an unsafe path".to_owned())
    }
}

// ---------------------------------------------------------------- old tool sets

/// A tool set directory other than the current one, with its modification time in
/// nanoseconds since the Unix epoch (`None` when unknown).
#[derive(Debug, Clone)]
pub struct ToolsetDirectory {
    pub path: String,
    pub modified: Option<i128>,
}

/// The order of modification times, unknown ones first.
pub open spec fn time_le(a: Option<i128>, b: Option<i128>) -> bool {
    match (a, b) {
        (None, _) => true,
        (Some(_), None) => false,
        (Some(x), Some(y)) => x <= y,
    }
}

/// `k` is the directory a stable sort by time puts last: the latest, and the last listed
/// among equally late ones.
pub open spec fn is_newest(dirs: Seq<ToolsetDirectory>, k: int) -> bool {
    &&& 0 <= k < dirs.len()
    &&& forall|j: int| 0 <= j < dirs.len() ==> time_le(#[trigger] dirs[j].modified, dirs[k].modified)
    &&& forall|j: int| k < j < dirs.len() ==> !time_le(dirs[k].modified, #[trigger] dirs[j].modified)
}

/// The paths of all directories but the `k`th, in order.
pub open spec fn paths_except(dirs: Seq<ToolsetDirectory>, k: int) -> Seq<Seq<char>> {
    Seq::new((dirs.len() - 1) as nat, |i: int| if i < k { dirs[i].path@ } else { dirs[i + 1].path@ })
}

fn time_le_exec(a: Option<i128>, b: Option<i128>) -> (r: bool)
    ensures
        r == time_le(a, b),
{
    match (a, b) {
        (None, _) => true,
        (Some(_), None) => false,
        (Some(x), Some(y)) => x <= y,
    }
}

/// The old tool set directories to delete: all but the newest one (see [`is_newest`]).
pub fn toolsets_to_remove(dirs: &Vec<ToolsetDirectory>) -> (r: Vec<String>)
    ensures
        dirs@.len() <= 1 ==> r@.len() == 0,
        dirs@.len() > 1 ==> exists|k: int| is_newest(dirs@, k) && string_rows(r@) == paths_except(
            dirs@,
            k,
        ),
{
    if dirs.len() <= 1 {
        return Vec::new();
    }
    let mut k: usize = 0;
    let mut j: usize = 1;
    while j < dirs.len()
        invariant
            k < j <= dirs@.len(),
            forall|m: int| 0 <= m < j ==> time_le(#[trigger] dirs@[m].modified, dirs@[k as int].modified),
            forall|m: int| k < m < j ==> !time_le(dirs@[k as int].modified, #[trigger] dirs@[m].modified),
        decreases dirs@.len() - j,
    {
        if time_le_exec(dirs[k].modified, dirs[j].modified) {
            k = j;
        }
        j += 1;
    }
    let mut r: Vec<String> = Vec::new();
    let mut i: usize = 0;
    while i < dirs.len()
        invariant
            k < dirs@.len(),
            i <= dirs@.len(),
            string_rows(r@) == paths_except(dirs@, k as int).take(if i <= k { i as int } else { i - 1 }),
        decreases dirs@.len() - i,
    {
        if i != k {
            let ghost before = string_rows(r@);
            r.push(dirs[i].path.clone());
            assert(string_rows(r@) =~= before.push(dirs@[i as int].path@));
        }
        i += 1;
        assert(string_rows(r@) =~= paths_except(dirs@, k as int).take(if i <= k { i as int } else { i - 1 }));
    }
    assert(is_newest(dirs@, k as int));
    assert(paths_except(dirs@, k as int).take(dirs@.len() - 1) =~= paths_except(dirs@, k as int));
    r
}

/// At most one old tool set survives a cleanup: of two or more, all but one are deleted.
pub proof fn law_cleanup_keeps_one(dirs: Seq<ToolsetDirectory>, k: int)
    requires
        dirs.len() > 1,
        is_newest(dirs, k),
    ensures
        paths_except(dirs, k).len() == dirs.len() - 1,
        forall|j: int| 0 <= j < dirs.len() ==> time_le(#[trigger] dirs[j].modified, dirs[k].modified),
{
}

} // verus!
