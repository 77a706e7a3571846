//! The OmniSharp language server: where its binary comes from, and how it is
//! installed from the project's GitHub releases.
use vstd::prelude::*;
use vstd::string::StringExecFns;
use crate::csharp_ls::{asks, asks_executable, fails_with};
use crate::launch::{
    Architecture, ArchiveKind, HostReply, HostRequest, InstallStatus, Os, ReleaseAsset, ReleaseInfo,
    Step,
};
use crate::text::{chars_of, same_chars};
use crate::util::{
    binary_path_override_hint, download_error, download_error_text, feed_error, feed_error_text,
    override_hint_text,
};

verus! {

broadcast use vstd::string::group_string_axioms;

/// The setting that points at a local server binary.
pub const BINARY_PATH_SETTING: &'static str = "lsp.omnisharp.binary.path";

/// The repository whose releases carry the server.
pub const GITHUB_REPO: &'static str = "OmniSharp/omnisharp-roslyn";

/// The server's id, also the prefix of its cached version directories.
pub const LANGUAGE_SERVER_ID: &'static str = "omnisharp";

/// The name of a server executable on `PATH`.
pub const BINARY_NAME: &'static str = "OmniSharp";

/// Text of [`fix_hint`].
pub open spec fn omnisharp_fix_text() -> Seq<char> {
    override_hint_text(BINARY_PATH_SETTING@, "a local server binary"@)
}

/// The fix that install errors propose: setting the binary path.
pub fn fix_hint() -> (r: String)
    ensures
        r@ == omnisharp_fix_text(),
{
    binary_path_override_hint(BINARY_PATH_SETTING, "a local server binary")
}

/// Text of [`asset_error`].
pub open spec fn asset_error_text(asset_name: Seq<char>, release_version: Seq<char>) -> Seq<char> {
    "No release asset named '"@ + asset_name + "' was found in "@ + GITHUB_REPO@ + " release "@
        + release_version
        + "; your platform may not be supported by this release. Fix: "@ + omnisharp_fix_text()
        + "."@
}

/// A release without the archive for this platform.
pub fn asset_error(asset_name: &str, release_version: &str) -> (r: String)
    ensures
        r@ == asset_error_text(asset_name@, release_version@),
{
    let mut r = String::from_str("No release asset named '");
    r.append(asset_name);
    r.append("' was found in ");
    r.append(GITHUB_REPO);
    r.append(" release ");
    r.append(release_version);
    r.append("; your platform may not be supported by this release. Fix: ");
    let fix = fix_hint();
    r.append(fix.as_str());
    r.append(".");
    r
}

/// The binary to start and the user's arguments for it.
pub struct OmnisharpBinary {
    pub path: String,
    pub args: Option<Vec<String>>,
}

/// The operating-system part of an asset name.
pub open spec fn os_label(os: Os) -> Seq<char> {
    match os {
        Os::Mac => "osx"@,
        Os::Linux => "linux"@,
        Os::Windows => "win"@,
    }
}

/// The architecture part of an asset name.
pub open spec fn arch_label(arch: Architecture) -> Seq<char> {
    match arch {
        Architecture::Aarch64 => "arm64"@,
        Architecture::X86 => "x86"@,
        Architecture::X8664 => "x64"@,
    }
}

/// The archive kind of the release asset for an operating system.
pub open spec fn archive_kind_for(os: Os) -> ArchiveKind {
    match os {
        Os::Windows => ArchiveKind::Zip,
        _ => ArchiveKind::GzipTar,
    }
}

/// The file extension of the release asset for an operating system.
pub open spec fn archive_ext(os: Os) -> Seq<char> {
    match os {
        Os::Windows => "zip"@,
        _ => "tar.gz"@,
    }
}

/// Text of [`asset_name`].
pub open spec fn asset_name_text(os: Os, arch: Architecture) -> Seq<char> {
    "omnisharp-"@ + os_label(os) + "-"@ + arch_label(arch) + "-net6.0."@ + archive_ext(os)
}

/// The name of the release asset for a platform.
pub fn asset_name(os: &Os, arch: &Architecture) -> (r: String)
    ensures
        r@ == asset_name_text(*os, *arch),
{
    let mut r = String::from_str("omnisharp-");
    match os {
        Os::Mac => r.append("osx"),
        Os::Linux => r.append("linux"),
        Os::Windows => r.append("win"),
    }
    r.append("-");
    match arch {
        Architecture::Aarch64 => r.append("arm64"),
        Architecture::X86 => r.append("x86"),
        Architecture::X8664 => r.append("x64"),
    }
    r.append("-net6.0.");
    match os {
        Os::Windows => r.append("zip"),
        _ => r.append("tar.gz"),
    }
    r
}

/// Text of a version's cached directory.
pub open spec fn omnisharp_version_dir_text(version: Seq<char>) -> Seq<char> {
    LANGUAGE_SERVER_ID@ + "-"@ + version
}

/// Text of the binary's path inside a version directory.
pub open spec fn binary_path_text(version_dir: Seq<char>, os: Os) -> Seq<char> {
    match os {
        Os::Windows => version_dir + "/OmniSharp.exe"@,
        _ => version_dir + "/OmniSharp"@,
    }
}

/// The index of the first asset named `name`.
pub open spec fn first_asset_named(assets: Seq<ReleaseAsset>, name: Seq<char>) -> Option<int>
    decreases assets.len(),
{
    if assets.len() == 0 {
        None
    } else if assets[0].name@ == name {
        Some(0)
    } else {
        match first_asset_named(assets.drop_first(), name) {
            Some(i) => Some(i + 1),
            None => None,
        }
    }
}

/// Finds the first asset named `name`.
pub fn find_asset(assets: &Vec<ReleaseAsset>, name: &str) -> (r: Option<usize>)
    ensures
        match r {
            Some(i) => first_asset_named(assets@, name@) == Some(i as int) && i < assets@.len(),
            None => first_asset_named(assets@, name@) is None,
        },
{
    let want = chars_of(name);
    let mut i: usize = 0;
    while i < assets.len()
        invariant
            i <= assets@.len(),
            want@ == name@,
            forall|j: int| 0 <= j < i ==> assets@[j].name@ != name@,
        decreases assets.len() - i,
    {
        if same_chars(&chars_of(assets[i].name.as_str()), &want) {
            proof {
                lemma_first_asset_named(assets@, name@, i as int);
            }
            return Some(i);
        }
        i = i + 1;
    }
    proof {
        lemma_no_asset_named(assets@, name@);
    }
    None
}

proof fn lemma_first_asset_named(assets: Seq<ReleaseAsset>, name: Seq<char>, i: int)
    requires
        0 <= i < assets.len(),
        assets[i].name@ == name,
        forall|j: int| 0 <= j < i ==> assets[j].name@ != name,
    ensures
        first_asset_named(assets, name) == Some(i),
    decreases i,
{
    if i > 0 {
        lemma_first_asset_named(assets.drop_first(), name, i - 1);
    }
}

proof fn lemma_no_asset_named(assets: Seq<ReleaseAsset>, name: Seq<char>)
    requires
        forall|j: int| 0 <= j < assets.len() ==> assets[j].name@ != name,
    ensures
        first_asset_named(assets, name) is None,
    decreases assets.len(),
{
    if assets.len() > 0 {
        lemma_no_asset_named(assets.drop_first(), name);
    }
}


/// Text of the download error's description of the asset.
pub open spec fn asset_description_text(asset_name: Seq<char>, version: Seq<char>) -> Seq<char> {
    "the "@ + GITHUB_REPO@ + " release asset '"@ + asset_name + "' v"@ + version
}

/// Text of the error for a release list that could not be read.
pub open spec fn release_list_error_text(cause: Seq<char>) -> Seq<char> {
    feed_error_text(
        "the GitHub release list for '"@ + GITHUB_REPO@ + "'"@,
        cause,
        omnisharp_fix_text(),
    )
}

/// What is known of the install once a release and the platform are known.
pub struct OmnisharpInstall {
    pub binary_path: String,
    pub asset_url: String,
    pub asset_description: String,
    pub version_dir: String,
    pub kind: ArchiveKind,
}

/// The install that a release asset gives on a platform.
pub open spec fn planned(
    release: ReleaseInfo,
    os: Os,
    arch: Architecture,
    index: int,
    install: OmnisharpInstall,
) -> bool {
    let dir = omnisharp_version_dir_text(release.version@);
    &&& 0 <= index < release.assets@.len()
    &&& install.version_dir@ == dir
    &&& install.binary_path@ == binary_path_text(dir, os)
    &&& install.asset_url == release.assets@[index].download_url
    &&& install.asset_description@ == asset_description_text(
        asset_name_text(os, arch),
        release.version@,
    )
    &&& install.kind == archive_kind_for(os)
}

/// Where a launch of OmniSharp stands.
pub enum OmnisharpStage {
    /// No launch under way.
    Idle,
    /// Waiting for the user's binary settings.
    Settings,
    /// Waiting for `OmniSharp` on `PATH`.
    Which { args: Option<Vec<String>> },
    /// Waiting to learn whether the remembered binary is still a file.
    Cached { args: Option<Vec<String>>, path: String },
    /// Waiting for the checking-for-update status to be shown.
    CheckingStatus { args: Option<Vec<String>> },
    /// Waiting for the latest release.
    Release { args: Option<Vec<String>> },
    /// Waiting for the platform.
    Platform { args: Option<Vec<String>>, release: ReleaseInfo },
    /// Waiting to learn whether the release's binary is already in place.
    Installed { args: Option<Vec<String>>, install: OmnisharpInstall },
    /// Waiting for the downloading status to be shown.
    DownloadingStatus { args: Option<Vec<String>>, install: OmnisharpInstall },
    /// Waiting for the download.
    Download { args: Option<Vec<String>>, install: OmnisharpInstall },
    /// Waiting for older versions to be removed.
    Cleanup { args: Option<Vec<String>>, install: OmnisharpInstall },
}

/// The OmniSharp provider: the binary it last installed and where the
/// current launch stands.
pub struct Omnisharp {
    pub cached_binary_path: Option<String>,
    pub stage: OmnisharpStage,
}

/// Whether `reply` answers what the current stage waits for.
pub open spec fn omnisharp_expects(o: Omnisharp, reply: HostReply) -> bool {
    match o.stage {
        OmnisharpStage::Idle => false,
        OmnisharpStage::Settings => reply is BinarySettings,
        OmnisharpStage::Which { .. } => reply is Executable,
        OmnisharpStage::Cached { .. } => reply is IsFile,
        OmnisharpStage::CheckingStatus { .. } => reply is StatusSet,
        OmnisharpStage::Release { .. } => reply is Release,
        OmnisharpStage::Platform { .. } => reply is Platform,
        OmnisharpStage::Installed { .. } => reply is IsFile,
        OmnisharpStage::DownloadingStatus { .. } => reply is StatusSet,
        OmnisharpStage::Download { .. } => reply is Downloaded,
        OmnisharpStage::Cleanup { .. } => reply is Cleaned,
    }
}

/// `step` ends the launch with the binary `path` and the arguments `args`.
pub open spec fn yields_binary(step: Step<OmnisharpBinary>, path: Seq<char>, args: Option<Vec<String>>) -> bool {
    step matches Step::Done(Ok(b)) && b.path@ == path && b.args == args
}

/// One step of a launch of OmniSharp:
/// the user's binary path wins, then `OmniSharp` on `PATH`, then the binary
/// installed last time if it is still a file; otherwise the latest release's
/// archive for this platform is downloaded unless its binary is already in
/// place (older versions then removed), and the binary is remembered.
pub open spec fn omnisharp_resumes(
    old: Omnisharp,
    reply: HostReply,
    new: Omnisharp,
    step: Step<OmnisharpBinary>,
) -> bool {
    let same_cache = new.cached_binary_path == old.cached_binary_path;
    match (old.stage, reply) {
        (OmnisharpStage::Settings, HostReply::BinarySettings { path, arguments }) => same_cache
            && match path {
            Some(p) => new.stage is Idle && yields_binary(step, p@, arguments),
            None => new.stage == OmnisharpStage::Which { args: arguments } && asks_executable(
                step,
                BINARY_NAME@,
            ),
        },
        (OmnisharpStage::Which { args }, HostReply::Executable(found)) => same_cache && match found {
            Some(p) => new.stage is Idle && yields_binary(step, p@, args),
            None => match old.cached_binary_path {
                Some(path) => new.stage == OmnisharpStage::Cached { args, path } && asks(
                    step,
                    HostRequest::IsFile { path },
                ),
                None => new.stage == OmnisharpStage::CheckingStatus { args } && asks(
                    step,
                    HostRequest::SetStatus { status: InstallStatus::CheckingForUpdate },
                ),
            },
        },
        (OmnisharpStage::Cached { args, path }, HostReply::IsFile(is_file)) => same_cache
            && if is_file {
            new.stage is Idle && yields_binary(step, path@, args)
        } else {
            new.stage == OmnisharpStage::CheckingStatus { args } && asks(
                step,
                HostRequest::SetStatus { status: InstallStatus::CheckingForUpdate },
            )
        },
        (OmnisharpStage::CheckingStatus { args }, HostReply::StatusSet) => {
            &&& same_cache
            &&& new.stage == OmnisharpStage::Release { args }
            &&& step matches Step::Ask(HostRequest::LatestRelease { repo }) && repo@ == GITHUB_REPO@
        },
        (OmnisharpStage::Release { args }, HostReply::Release(found)) => same_cache && match found {
            Ok(release) => new.stage == OmnisharpStage::Platform { args, release } && asks(
                step,
                HostRequest::CurrentPlatform,
            ),
            Err(cause) => new.stage is Idle && fails_with(step, release_list_error_text(cause@)),
        },
        (OmnisharpStage::Platform { args, release }, HostReply::Platform { os, arch }) => same_cache
            && match first_asset_named(release.assets@, asset_name_text(os, arch)) {
            None => new.stage is Idle && fails_with(
                step,
                asset_error_text(asset_name_text(os, arch), release.version@),
            ),
            Some(i) => {
                &&& new.stage matches OmnisharpStage::Installed { args: a, install } && a == args
                    && planned(release, os, arch, i, install)
                &&& step == Step::<OmnisharpBinary>::Ask(
                    HostRequest::IsFile { path: new.stage->Installed_install.binary_path },
                )
            },
        },
        (OmnisharpStage::Installed { args, install }, HostReply::IsFile(is_file)) => if is_file {
            new.stage is Idle && new.cached_binary_path == Some(install.binary_path)
                && yields_binary(step, install.binary_path@, args)
        } else {
            same_cache && new.stage == OmnisharpStage::DownloadingStatus { args, install } && asks(
                step,
                HostRequest::SetStatus { status: InstallStatus::Downloading },
            )
        },
        (OmnisharpStage::DownloadingStatus { args, install }, HostReply::StatusSet) => {
            &&& same_cache
            &&& step == Step::<OmnisharpBinary>::Ask(
                HostRequest::DownloadArchive {
                    url: install.asset_url,
                    dest_dir: install.version_dir,
                    kind: install.kind,
                },
            )
            &&& new.stage == OmnisharpStage::Download { args, install }
        },
        (OmnisharpStage::Download { args, install }, HostReply::Downloaded(outcome)) => same_cache
            && match outcome {
            Ok(()) => {
                &&& step matches Step::Ask(HostRequest::RemoveOutdated { server_id, keep })
                    && server_id@ == LANGUAGE_SERVER_ID@ && keep == install.version_dir
                &&& new.stage == OmnisharpStage::Cleanup { args, install }
            },
            Err(cause) => new.stage is Idle && fails_with(
                step,
                download_error_text(
                    install.asset_description@,
                    cause@,
                    install.version_dir@,
                    omnisharp_fix_text(),
                ),
            ),
        },
        (OmnisharpStage::Cleanup { args, install }, HostReply::Cleaned(outcome)) => match outcome {
            Ok(()) => new.stage is Idle && new.cached_binary_path == Some(install.binary_path)
                && yields_binary(step, install.binary_path@, args),
            Err(e) => same_cache && new.stage is Idle && fails_with(step, e@),
        },
        _ => false,
    }
}

impl Omnisharp {
    /// The server's id.
    pub const LANGUAGE_SERVER_ID: &'static str = "omnisharp";

    /// A provider that has installed nothing yet.
    pub fn new() -> (r: Self)
        ensures
            r.cached_binary_path is None,
            r.stage is Idle,
    {
        Omnisharp { cached_binary_path: None, stage: OmnisharpStage::Idle }
    }

    /// Abandons any launch under way, keeping the remembered binary.
    pub fn reset(&mut self)
        ensures
            final(self).stage is Idle,
            final(self).cached_binary_path == old(self).cached_binary_path,
    {
        self.stage = OmnisharpStage::Idle;
    }

    /// Whether `reply` answers what the launch waits for.
    pub fn expects(&self, reply: &HostReply) -> (r: bool)
        ensures
            r == omnisharp_expects(*self, *reply),
    {
        match &self.stage {
            OmnisharpStage::Idle => false,
            OmnisharpStage::Settings => matches!(reply, HostReply::BinarySettings { .. }),
            OmnisharpStage::Which { .. } => matches!(reply, HostReply::Executable(_)),
            OmnisharpStage::Cached { .. } => matches!(reply, HostReply::IsFile(_)),
            OmnisharpStage::CheckingStatus { .. } => matches!(reply, HostReply::StatusSet),
            OmnisharpStage::Release { .. } => matches!(reply, HostReply::Release(_)),
            OmnisharpStage::Platform { .. } => matches!(reply, HostReply::Platform { .. }),
            OmnisharpStage::Installed { .. } => matches!(reply, HostReply::IsFile(_)),
            OmnisharpStage::DownloadingStatus { .. } => matches!(reply, HostReply::StatusSet),
            OmnisharpStage::Download { .. } => matches!(reply, HostReply::Downloaded(_)),
            OmnisharpStage::Cleanup { .. } => matches!(reply, HostReply::Cleaned(_)),
        }
    }

    /// Starts a launch: the first thing to learn is the user's binary
    /// settings.
    pub fn begin(&mut self) -> (step: Step<OmnisharpBinary>)
        requires
            old(self).stage is Idle,
        ensures
            final(self).stage is Settings,
            final(self).cached_binary_path == old(self).cached_binary_path,
            step matches Step::Ask(HostRequest::ReadBinarySettings { server_id })
                && server_id@ == LANGUAGE_SERVER_ID@,
    {
        self.stage = OmnisharpStage::Settings;
        Step::Ask(HostRequest::ReadBinarySettings { server_id: String::from_str(LANGUAGE_SERVER_ID) })
    }

    /// Takes the host's reply to the last request; see [`omnisharp_resumes`].
    pub fn resume(&mut self, reply: HostReply) -> (step: Step<OmnisharpBinary>)
        requires
            omnisharp_expects(*old(self), reply),
        ensures
            omnisharp_resumes(*old(self), reply, *final(self), step),
    {
        let mut stage = OmnisharpStage::Idle;
        std::mem::swap(&mut stage, &mut self.stage);
        match (stage, reply) {
            (OmnisharpStage::Settings, HostReply::BinarySettings { path, arguments }) => match path {
                Some(p) => Step::Done(Ok(OmnisharpBinary { path: p, args: arguments })),
                None => {
                    self.stage = OmnisharpStage::Which { args: arguments };
                    Step::Ask(HostRequest::FindExecutable { name: String::from_str(BINARY_NAME) })
                },
            },
            (OmnisharpStage::Which { args }, HostReply::Executable(found)) => match found {
                Some(p) => Step::Done(Ok(OmnisharpBinary { path: p, args })),
                None => match &self.cached_binary_path {
                    Some(path) => {
                        let ask = path.clone();
                        self.stage = OmnisharpStage::Cached { args, path: path.clone() };
                        Step::Ask(HostRequest::IsFile { path: ask })
                    },
                    None => {
                        self.stage = OmnisharpStage::CheckingStatus { args };
                        Step::Ask(HostRequest::SetStatus { status: InstallStatus::CheckingForUpdate })
                    },
                },
            },
            (OmnisharpStage::Cached { args, path }, HostReply::IsFile(is_file)) => {
                if is_file {
                    Step::Done(Ok(OmnisharpBinary { path, args }))
                } else {
                    self.stage = OmnisharpStage::CheckingStatus { args };
                    Step::Ask(HostRequest::SetStatus { status: InstallStatus::CheckingForUpdate })
                }
            },
            (OmnisharpStage::CheckingStatus { args }, HostReply::StatusSet) => {
                self.stage = OmnisharpStage::Release { args };
                Step::Ask(HostRequest::LatestRelease { repo: String::from_str(GITHUB_REPO) })
            },
            (OmnisharpStage::Release { args }, HostReply::Release(found)) => match found {
                Ok(release) => {
                    self.stage = OmnisharpStage::Platform { args, release };
                    Step::Ask(HostRequest::CurrentPlatform)
                },
                Err(cause) => {
                    let mut source = String::from_str("the GitHub release list for '");
                    source.append(GITHUB_REPO);
                    source.append("'");
                    let fix = fix_hint();
                    Step::Done(Err(feed_error(source.as_str(), cause.as_str(), fix.as_str())))
                },
            },
            (OmnisharpStage::Platform { args, release }, HostReply::Platform { os, arch }) => {
                let name = asset_name(&os, &arch);
                match find_asset(&release.assets, name.as_str()) {
                    None => Step::Done(Err(asset_error(name.as_str(), release.version.as_str()))),
                    Some(i) => {
                        let mut dir = String::from_str(LANGUAGE_SERVER_ID);
                        dir.append("-");
                        dir.append(release.version.as_str());
                        let mut binary_path = dir.clone();
                        let kind = match os {
                            Os::Windows => {
                                binary_path.append("/OmniSharp.exe");
                                ArchiveKind::Zip
                            },
                            _ => {
                                binary_path.append("/OmniSharp");
                                ArchiveKind::GzipTar
                            },
                        };
                        let mut description = String::from_str("the ");
                        description.append(GITHUB_REPO);
                        description.append(" release asset '");
                        description.append(name.as_str());
                        description.append("' v");
                        description.append(release.version.as_str());
                        let ask = binary_path.clone();
                        let install = OmnisharpInstall {
                            binary_path,
                            asset_url: release.assets[i].download_url.clone(),
                            asset_description: description,
                            version_dir: dir,
                            kind,
                        };
                        assert(planned(release, os, arch, i as int, install));
                        self.stage = OmnisharpStage::Installed { args, install };
                        Step::Ask(HostRequest::IsFile { path: ask })
                    },
                }
            },
            (OmnisharpStage::Installed { args, install }, HostReply::IsFile(is_file)) => {
                if is_file {
                    let path = install.binary_path.clone();
                    self.cached_binary_path = Some(install.binary_path);
                    Step::Done(Ok(OmnisharpBinary { path, args }))
                } else {
                    self.stage = OmnisharpStage::DownloadingStatus { args, install };
                    Step::Ask(HostRequest::SetStatus { status: InstallStatus::Downloading })
                }
            },
            (OmnisharpStage::DownloadingStatus { args, install }, HostReply::StatusSet) => {
                let url = install.asset_url.clone();
                let dest_dir = install.version_dir.clone();
                let kind = match install.kind {
                    ArchiveKind::Zip => ArchiveKind::Zip,
                    ArchiveKind::GzipTar => ArchiveKind::GzipTar,
                };
                self.stage = OmnisharpStage::Download { args, install };
                Step::Ask(HostRequest::DownloadArchive { url, dest_dir, kind })
            },
            (OmnisharpStage::Download { args, install }, HostReply::Downloaded(outcome)) => match outcome {
                Ok(()) => {
                    let keep = install.version_dir.clone();
                    self.stage = OmnisharpStage::Cleanup { args, install };
                    Step::Ask(
                        HostRequest::RemoveOutdated {
                            server_id: String::from_str(LANGUAGE_SERVER_ID),
                            keep,
                        },
                    )
                },
                Err(cause) => {
                    let fix = fix_hint();
                    Step::Done(
                        Err(
                            download_error(
                                install.asset_description.as_str(),
                                cause.as_str(),
                                install.version_dir.as_str(),
                                fix.as_str(),
                            ),
                        ),
                    )
                },
            },
            (OmnisharpStage::Cleanup { args, install }, HostReply::Cleaned(outcome)) => match outcome {
                Ok(()) => {
                    let path = install.binary_path.clone();
                    self.cached_binary_path = Some(install.binary_path);
                    Step::Done(Ok(OmnisharpBinary { path, args }))
                },
                Err(e) => Step::Done(Err(e)),
            },
            _ => Step::Done(Err(String::new())),
        }
    }
}


/// The user's binary path wins: once the settings name one, the launch ends
/// with it and the user's arguments, and nothing else is consulted.
pub proof fn lemma_settings_path_wins(
    o: Omnisharp,
    path: String,
    arguments: Option<Vec<String>>,
    o2: Omnisharp,
    step: Step<OmnisharpBinary>,
)
    requires
        (o.stage is Settings),
        omnisharp_resumes(o, HostReply::BinarySettings { path: Some(path), arguments }, o2, step),
    ensures
        yields_binary(step, path@, arguments),
        (o2.stage is Idle),
        o2.cached_binary_path == o.cached_binary_path,
{
}

/// A launch that installs the server remembers its binary, and a later
/// launch that finds neither a binary path nor `OmniSharp` on `PATH` ends
/// with that binary, while it is still a file, without asking for a release.
pub proof fn lemma_installed_binary_reused(
    o0: Omnisharp,
    o1: Omnisharp,
    step1: Step<OmnisharpBinary>,
    o2: Omnisharp,
    o3: Omnisharp,
    step3: Step<OmnisharpBinary>,
    o4: Omnisharp,
    step4: Step<OmnisharpBinary>,
)
    requires
        (o0.stage is Cleanup),
        omnisharp_resumes(o0, HostReply::Cleaned(Ok(())), o1, step1),
        (o2.stage is Which),
        o2.cached_binary_path == o1.cached_binary_path,
        omnisharp_resumes(o2, HostReply::Executable(None), o3, step3),
        omnisharp_resumes(o3, HostReply::IsFile(true), o4, step4),
    ensures
        o1.cached_binary_path == Some(o0.stage->Cleanup_install.binary_path),
        yields_binary(step1, o0.stage->Cleanup_install.binary_path@, o0.stage->Cleanup_args),
        yields_binary(step4, o0.stage->Cleanup_install.binary_path@, o2.stage->Which_args),
{
}


/// A launch step that fails leaves the remembered binary as it was.
pub proof fn lemma_failure_keeps_cache(
    o: Omnisharp,
    reply: HostReply,
    o2: Omnisharp,
    step: Step<OmnisharpBinary>,
)
    requires
        omnisharp_resumes(o, reply, o2, step),
        (step matches Step::Done(Err(_))),
    ensures
        o2.cached_binary_path == o.cached_binary_path,
{
}

/// The user's arguments that a launch stage carries, if it carries them.
pub open spec fn carried_args(stage: OmnisharpStage) -> Option<Option<Vec<String>>> {
    match stage {
        OmnisharpStage::Which { args } => Some(args),
        OmnisharpStage::Cached { args, .. } => Some(args),
        OmnisharpStage::CheckingStatus { args } => Some(args),
        OmnisharpStage::Release { args } => Some(args),
        OmnisharpStage::Platform { args, .. } => Some(args),
        OmnisharpStage::Installed { args, .. } => Some(args),
        OmnisharpStage::DownloadingStatus { args, .. } => Some(args),
        OmnisharpStage::Download { args, .. } => Some(args),
        OmnisharpStage::Cleanup { args, .. } => Some(args),
        _ => None,
    }
}

/// The user's arguments, once read from the settings, are carried unchanged
/// from stage to stage, and every launch that ends with a binary (found on
/// `PATH`, remembered, or installed) hands exactly them to it.
pub proof fn lemma_user_args_carried(
    o: Omnisharp,
    reply: HostReply,
    o2: Omnisharp,
    step: Step<OmnisharpBinary>,
    args: Option<Vec<String>>,
)
    requires
        omnisharp_resumes(o, reply, o2, step),
        carried_args(o.stage) == Some(args),
    ensures
        carried_args(o2.stage) is Some ==> carried_args(o2.stage) == Some(args),
        (step matches Step::Done(Ok(b)) ==> b.args == args),
{
}

/// The settings' arguments reach the binary whatever it turns out to be: the
/// settings' own path ends the launch at once with them, and otherwise the
/// next stage carries them.
pub proof fn lemma_settings_args_carried(
    o: Omnisharp,
    path: Option<String>,
    arguments: Option<Vec<String>>,
    o2: Omnisharp,
    step: Step<OmnisharpBinary>,
)
    requires
        (o.stage is Settings),
        omnisharp_resumes(o, HostReply::BinarySettings { path, arguments }, o2, step),
    ensures
        (step matches Step::Done(Ok(b)) ==> b.args == arguments),
        (step is Ask ==> carried_args(o2.stage) == Some(arguments)),
{
}

/// A launch whose settings name no binary path and that finds `OmniSharp`
/// on `PATH` ends with that binary and the arguments read from the settings.
pub proof fn lemma_path_binary_keeps_user_args(
    o0: Omnisharp,
    arguments: Option<Vec<String>>,
    o1: Omnisharp,
    step1: Step<OmnisharpBinary>,
    found: String,
    o2: Omnisharp,
    step2: Step<OmnisharpBinary>,
)
    requires
        (o0.stage is Settings),
        omnisharp_resumes(o0, HostReply::BinarySettings { path: None, arguments }, o1, step1),
        omnisharp_resumes(o1, HostReply::Executable(Some(found)), o2, step2),
    ensures
        yields_binary(step2, found@, arguments),
        o2.cached_binary_path == o0.cached_binary_path,
{
}

/// Once the release and the platform are known, the install lives in
/// `omnisharp-<version>`, its binary is `OmniSharp.exe` there on Windows and
/// `OmniSharp` elsewhere, and the archive is a zip on Windows and a gzipped
/// tarball elsewhere; the launch first asks whether that binary is a file.
pub proof fn lemma_install_layout(
    o: Omnisharp,
    os: Os,
    arch: Architecture,
    o2: Omnisharp,
    step: Step<OmnisharpBinary>,
)
    requires
        (o.stage is Platform),
        omnisharp_resumes(o, HostReply::Platform { os, arch }, o2, step),
        (step is Ask),
    ensures
        ({
            let dir = "omnisharp-"@ + o.stage->Platform_release.version@;
            &&& o2.stage matches OmnisharpStage::Installed { install, .. }
            &&& install.version_dir@ == dir
            &&& install.binary_path@ == dir + if os is Windows {
                "/OmniSharp.exe"@
            } else {
                "/OmniSharp"@
            }
            &&& install.kind == if os is Windows {
                ArchiveKind::Zip
            } else {
                ArchiveKind::GzipTar
            }
            &&& step == Step::<OmnisharpBinary>::Ask(HostRequest::IsFile { path: install.binary_path })
        }),
{
    reveal_strlit("omnisharp");
    reveal_strlit("-");
    reveal_strlit("omnisharp-");
    assert(LANGUAGE_SERVER_ID@ + "-"@ =~= "omnisharp-"@);
    let v = o.stage->Platform_release.version@;
    assert(omnisharp_version_dir_text(v) =~= "omnisharp-"@ + v);
}

/// When the planned binary is not in place, the launch shows the
/// downloading status and then downloads the release asset named for the
/// platform into `omnisharp-<version>`, as a zip on Windows and a gzipped
/// tarball elsewhere.
pub proof fn lemma_download_request(
    o0: Omnisharp,
    os: Os,
    arch: Architecture,
    o1: Omnisharp,
    step1: Step<OmnisharpBinary>,
    o2: Omnisharp,
    step2: Step<OmnisharpBinary>,
    o3: Omnisharp,
    step3: Step<OmnisharpBinary>,
)
    requires
        (o0.stage is Platform),
        omnisharp_resumes(o0, HostReply::Platform { os, arch }, o1, step1),
        (step1 is Ask),
        omnisharp_resumes(o1, HostReply::IsFile(false), o2, step2),
        omnisharp_resumes(o2, HostReply::StatusSet, o3, step3),
    ensures
        ({
            let release = o0.stage->Platform_release;
            &&& step2 == Step::<OmnisharpBinary>::Ask(
                HostRequest::SetStatus { status: InstallStatus::Downloading },
            )
            &&& step3 matches Step::Ask(HostRequest::DownloadArchive { url, dest_dir, kind })
            &&& exists|i: int|
                0 <= i < release.assets@.len() && release.assets@[i].name@ == asset_name_text(
                    os,
                    arch,
                ) && url == release.assets@[i].download_url
            &&& dest_dir@ == "omnisharp-"@ + release.version@
            &&& kind == if os is Windows {
                ArchiveKind::Zip
            } else {
                ArchiveKind::GzipTar
            }
        }),
        o3.cached_binary_path == o0.cached_binary_path,
{
    let release = o0.stage->Platform_release;
    lemma_install_layout(o0, os, arch, o1, step1);
    let i = first_asset_named(release.assets@, asset_name_text(os, arch)).unwrap();
    lemma_first_asset_is_named(release.assets@, asset_name_text(os, arch));
    assert(0 <= i < release.assets@.len() && release.assets@[i].name@ == asset_name_text(os, arch));
}

proof fn lemma_first_asset_is_named(assets: Seq<ReleaseAsset>, name: Seq<char>)
    requires
        first_asset_named(assets, name) is Some,
    ensures
        ({
            let i = first_asset_named(assets, name).unwrap();
            0 <= i < assets.len() && assets[i].name@ == name
        }),
    decreases assets.len(),
{
    if assets.len() > 0 && assets[0].name@ != name {
        lemma_first_asset_is_named(assets.drop_first(), name);
    }
}

} // verus!
