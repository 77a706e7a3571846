//! What a language-server provider asks of the editor host, and what the host
//! answers. Each provider is a state machine: it asks for one piece of outside
//! work at a time and decides, from the answer, what to ask next or how the
//! launch ends.
use vstd::prelude::*;
use crate::nuget::HttpOutcome;

verus! {

/// A program to run as a language server.
pub struct LaunchCommand {
    pub command: String,
    pub args: Vec<String>,
}

/// The installation status shown to the user.
pub enum InstallStatus {
    CheckingForUpdate,
    Downloading,
}

/// The kind of archive a download is.
pub enum ArchiveKind {
    Zip,
    GzipTar,
}

/// One entry of a directory listing. `name` is `None` when the entry or its
/// name could not be read as UTF-8; `is_dir` is false when its type could not
/// be read.
pub struct DirEntryInfo {
    pub name: Option<String>,
    pub is_dir: bool,
}

/// The operating system the editor runs on.
pub enum Os {
    Mac,
    Linux,
    Windows,
}

/// The processor architecture the editor runs on.
pub enum Architecture {
    Aarch64,
    X86,
    X8664,
}

/// One downloadable file of a release.
pub struct ReleaseAsset {
    pub name: String,
    pub download_url: String,
}

/// A published release and its files.
pub struct ReleaseInfo {
    pub version: String,
    pub assets: Vec<ReleaseAsset>,
}

/// A piece of outside work.
pub enum HostRequest {
    /// The user's binary settings for a language server.
    ReadBinarySettings { server_id: String },
    /// The path of an executable on the worktree's `PATH`.
    FindExecutable { name: String },
    /// Whether a path names a regular file.
    IsFile { path: String },
    /// Show an installation status for the language server being launched.
    SetStatus { status: InstallStatus },
    /// The text of the worktree's `global.json`.
    ReadGlobalJson,
    /// An HTTP GET that follows redirects.
    Fetch { url: String },
    /// Download an archive and extract it into a directory.
    DownloadArchive { url: String, dest_dir: String, kind: ArchiveKind },
    /// The entries of a directory.
    ListDirectory { path: String },
    /// A path made absolute against the extension's working directory.
    AbsolutePath { path: String },
    /// Remove the cached directories of older versions of a server, keeping
    /// `keep`.
    RemoveOutdated { server_id: String, keep: String },
    /// The latest non-prerelease release of a GitHub repository that has
    /// assets.
    LatestRelease { repo: String },
    /// The platform the editor runs on.
    CurrentPlatform,
}

/// The answer to a [`HostRequest`], in the same order of variants.
pub enum HostReply {
    BinarySettings { path: Option<String>, arguments: Option<Vec<String>> },
    Executable(Option<String>),
    IsFile(bool),
    StatusSet,
    GlobalJson(Option<String>),
    Http(HttpOutcome),
    Downloaded(Result<(), String>),
    Listing(Result<Vec<DirEntryInfo>, String>),
    AbsolutePath(Result<String, String>),
    Cleaned(Result<(), String>),
    Release(Result<ReleaseInfo, String>),
    Platform { os: Os, arch: Architecture },
}

/// What a provider does next.
pub enum Step<T> {
    /// Have the host do this, then resume with its reply.
    Ask(HostRequest),
    /// The launch is over.
    Done(Result<T, String>),
}

/// The views of a list of strings.
pub open spec fn string_views(v: Seq<String>) -> Seq<Seq<char>> {
    v.map_values(|s: String| s@)
}

/// The user arguments, or none when there are none.
pub open spec fn args_or_empty(args: Option<Vec<String>>) -> Seq<Seq<char>> {
    match args {
        Some(a) => string_views(a@),
        None => Seq::empty(),
    }
}

/// `Option::unwrap_or_default` on a list of arguments.
pub fn unwrap_args(args: Option<Vec<String>>) -> (r: Vec<String>)
    ensures
        string_views(r@) == args_or_empty(args),
{
    match args {
        Some(a) => a,
        None => {
            let v: Vec<String> = Vec::new();
            assert(string_views(v@) =~= Seq::<Seq<char>>::empty());
            v
        },
    }
}

/// The name of the first entry that is a directory with a readable name.
pub open spec fn first_dir_name(entries: Seq<DirEntryInfo>) -> Option<Seq<char>>
    decreases entries.len(),
{
    if entries.len() == 0 {
        None
    } else if entries[0].is_dir && entries[0].name is Some {
        Some(entries[0].name.unwrap()@)
    } else {
        first_dir_name(entries.drop_first())
    }
}

/// Picks the first entry that is a directory with a readable name.
pub fn first_directory(entries: &Vec<DirEntryInfo>) -> (r: Option<String>)
    ensures
        match r {
            Some(n) => first_dir_name(entries@) == Some(n@),
            None => first_dir_name(entries@) is None,
        },
{
    let mut i: usize = 0;
    assert(entries@.skip(0) == entries@);
    while i < entries.len()
        invariant
            i <= entries@.len(),
            first_dir_name(entries@) == first_dir_name(entries@.skip(i as int)),
        decreases entries.len() - i,
    {
        assert(entries@.skip(i as int).drop_first() == entries@.skip(i + 1));
        assert(entries@.skip(i as int)[0] == entries@[i as int]);
        let e = &entries[i];
        if e.is_dir {
            match &e.name {
                Some(n) => {
                    return Some(n.clone());
                },
                None => {},
            }
        }
        i = i + 1;
    }
    None
}

} // verus!
