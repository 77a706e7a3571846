//! The `csharp-ls` language server: where its binary comes from, and how it
//! is installed from the NuGet feed and started through `dotnet exec`.
use vstd::prelude::*;
use vstd::string::StringExecFns;
use crate::launch::{
    args_or_empty, first_dir_name, first_directory, string_views, unwrap_args, ArchiveKind,
    HostReply, HostRequest, InstallStatus, LaunchCommand, Step,
};
use crate::nuget::{
    begins, handles_http, HttpOutcome, NuGetClient, NuGetPending, NuGetRequest, NuGetStep,
};
use crate::text::{chars_of, same_chars};
use crate::util::{
    append_sdk_requirement, binary_path_override_hint, global_json_requirement,
    global_json_sdk_requirement, layout_error_text, opt_str_chars, opt_string_chars,
    override_hint_text, package_layout_error, with_sdk_requirement, working_directory_error,
    working_directory_error_text,
};

verus! {

broadcast use vstd::string::group_string_axioms;

/// The NuGet package that ships the server.
pub const PACKAGE_ID: &'static str = "csharp-ls";

/// The server's entry assembly inside the package.
pub const SERVER_DLL: &'static str = "CSharpLanguageServer.dll";

/// The setting that points at a local server binary.
pub const BINARY_PATH_SETTING: &'static str = "lsp.csharp-ls.binary.path";

/// The server's id, also the prefix of its cached version directories.
pub const LANGUAGE_SERVER_ID: &'static str = "csharp-ls";

/// The name of a standalone server executable on `PATH`.
pub const BINARY_NAME: &'static str = "csharp-ls";

/// Text of [`fix_hint`].
pub open spec fn csharp_fix_text() -> Seq<char> {
    override_hint_text(BINARY_PATH_SETTING@, "a local server binary"@)
}

/// The fix that install errors propose: setting the binary path.
pub fn fix_hint() -> (r: String)
    ensures
        r@ == csharp_fix_text(),
{
    binary_path_override_hint(BINARY_PATH_SETTING, "a local server binary")
}

/// The base text of [`dotnet_missing_error`].
pub open spec fn dotnet_missing_base() -> Seq<char> {
    "Could not find the `dotnet` executable on PATH (csharp-ls runs via `dotnet exec`). Fix: install the .NET SDK 10+ and reopen the project, or set `lsp.csharp-ls.binary.path` to a standalone `csharp-ls` binary."@
}

/// The error for a machine without `dotnet`, with the SDK sentence appended
/// when `global.json` names a requirement.
pub fn dotnet_missing_error(sdk_requirement: Option<&str>) -> (r: String)
    ensures
        r@ == with_sdk_requirement(dotnet_missing_base(), opt_str_chars(sdk_requirement)),
{
    append_sdk_requirement(
        String::from_str(
            "Could not find the `dotnet` executable on PATH (csharp-ls runs via `dotnet exec`). Fix: install the .NET SDK 10+ and reopen the project, or set `lsp.csharp-ls.binary.path` to a standalone `csharp-ls` binary.",
        ),
        sdk_requirement,
    )
}

/// Text of the cached directory of a version.
pub open spec fn version_dir_text(version: Seq<char>) -> Seq<char> {
    LANGUAGE_SERVER_ID@ + "-"@ + version
}

/// Text of the `tools` directory of a version directory.
pub open spec fn tools_dir_text(version_dir: Seq<char>) -> Seq<char> {
    version_dir + "/tools"@
}

/// Text of the entry assembly's path under a target-framework directory.
pub open spec fn dll_path_text(tools_dir: Seq<char>, framework: Seq<char>) -> Seq<char> {
    tools_dir + "/"@ + framework + "/any/"@ + SERVER_DLL@
}

/// The cached directory of a version: the server id, a dash and the version.
pub fn version_dir(version: &str) -> (r: String)
    ensures
        r@ == version_dir_text(version@),
{
    let mut r = String::from_str(LANGUAGE_SERVER_ID);
    r.append("-");
    r.append(version);
    r
}

/// The `tools` directory of a version directory.
pub fn tools_dir(version_dir: &str) -> (r: String)
    ensures
        r@ == tools_dir_text(version_dir@),
{
    let mut r = String::from_str(version_dir);
    r.append("/tools");
    r
}

/// The entry assembly's path under a target-framework directory.
pub fn dll_path(tools_dir: &str, framework: &str) -> (r: String)
    ensures
        r@ == dll_path_text(tools_dir@, framework@),
{
    let mut r = String::from_str(tools_dir);
    r.append("/");
    r.append(framework);
    r.append("/any/");
    r.append(SERVER_DLL);
    r
}

/// Text of a layout error about a version directory.
pub open spec fn dll_layout_error_text(
    version_dir: Seq<char>,
    sdk: Option<Seq<char>>,
    detail: Seq<char>,
) -> Seq<char> {
    with_sdk_requirement(layout_error_text(detail, version_dir, csharp_fix_text()), sdk)
}

fn dll_layout_error(version_dir: &str, sdk: &Option<String>, detail: &str) -> (r: String)
    ensures
        r@ == dll_layout_error_text(version_dir@, opt_string_chars(*sdk), detail@),
{
    let fix = fix_hint();
    match sdk {
        Some(s) => package_layout_error(detail, version_dir, fix.as_str(), Some(s.as_str())),
        None => package_layout_error(detail, version_dir, fix.as_str(), None),
    }
}

/// Where the search for the entry assembly stands.
pub enum DllSearch {
    /// Waiting for the listing of the `tools` directory.
    Listing,
    /// Waiting to learn whether the assembly is a file.
    CheckDll { dll_path: String },
    /// Waiting for the assembly's absolute path.
    Absolute,
}

/// How the search for the entry assembly goes on, or ends.
pub enum SearchStep {
    Continue(DllSearch, HostRequest),
    Found(Result<String, String>),
}

/// The first request of the search: the listing of the `tools` directory.
pub open spec fn search_starts(version_dir: Seq<char>, search: DllSearch, request: HostRequest) -> bool {
    &&& search is Listing
    &&& request matches HostRequest::ListDirectory { path } && path@ == tools_dir_text(version_dir)
}

/// Whether `reply` answers what the search waits for.
pub open spec fn search_expects(search: DllSearch, reply: HostReply) -> bool {
    match search {
        DllSearch::Listing => reply is Listing,
        DllSearch::CheckDll { .. } => reply is IsFile,
        DllSearch::Absolute => reply is AbsolutePath,
    }
}

/// `step` ends the search with the layout error carrying `detail`.
pub open spec fn search_fails(
    step: SearchStep,
    version_dir: Seq<char>,
    sdk: Option<Seq<char>>,
    detail: Seq<char>,
) -> bool {
    step matches SearchStep::Found(Err(e)) && e@ == dll_layout_error_text(version_dir, sdk, detail)
}

/// One step of the search for the entry assembly: list `tools`, take the
/// first directory in it as the target framework, check that the assembly is
/// a file there, and make its path absolute.
pub open spec fn search_resumes(
    version_dir: Seq<char>,
    sdk: Option<Seq<char>>,
    search: DllSearch,
    reply: HostReply,
    step: SearchStep,
) -> bool {
    let tools = tools_dir_text(version_dir);
    match (search, reply) {
        (DllSearch::Listing, HostReply::Listing(Err(cause))) => search_fails(
            step,
            version_dir,
            sdk,
            "failed to read tools directory '"@ + tools + "': "@ + cause@,
        ),
        (DllSearch::Listing, HostReply::Listing(Ok(entries))) => match first_dir_name(entries@) {
            None => search_fails(
                step,
                version_dir,
                sdk,
                "no TFM directory found inside '"@ + tools + "'"@,
            ),
            Some(framework) => step matches SearchStep::Continue(
                DllSearch::CheckDll { dll_path },
                HostRequest::IsFile { path },
            ) && dll_path@ == dll_path_text(tools, framework) && path@ == dll_path@,
        },
        (DllSearch::CheckDll { dll_path }, HostReply::IsFile(true)) => step matches SearchStep::Continue(
            DllSearch::Absolute,
            HostRequest::AbsolutePath { path },
        ) && path@ == dll_path@,
        (DllSearch::CheckDll { dll_path }, HostReply::IsFile(false)) => search_fails(
            step,
            version_dir,
            sdk,
            "missing entry DLL at '"@ + dll_path@ + "'"@,
        ),
        (DllSearch::Absolute, HostReply::AbsolutePath(Ok(p))) => step matches SearchStep::Found(
            Ok(q),
        ) && q@ == p@,
        (DllSearch::Absolute, HostReply::AbsolutePath(Err(cause))) => step matches SearchStep::Found(
            Err(e),
        ) && e@ == working_directory_error_text(cause@),
        _ => false,
    }
}

/// Whether `reply` answers what the search waits for.
pub fn search_accepts(search: &DllSearch, reply: &HostReply) -> (r: bool)
    ensures
        r == search_expects(*search, *reply),
{
    match search {
        DllSearch::Listing => matches!(reply, HostReply::Listing(_)),
        DllSearch::CheckDll { .. } => matches!(reply, HostReply::IsFile(_)),
        DllSearch::Absolute => matches!(reply, HostReply::AbsolutePath(_)),
    }
}

/// Starts the search for the entry assembly of a version directory.
pub fn search_start(version_dir: &str) -> (r: (DllSearch, HostRequest))
    ensures
        search_starts(version_dir@, r.0, r.1),
{
    (DllSearch::Listing, HostRequest::ListDirectory { path: tools_dir(version_dir) })
}

/// Takes the reply that the search waits for; see [`search_resumes`].
pub fn search_resume(version_dir: &str, sdk: &Option<String>, search: DllSearch, reply: HostReply) -> (r:
    SearchStep)
    requires
        search_expects(search, reply),
    ensures
        search_resumes(version_dir@, opt_string_chars(*sdk), search, reply, r),
{
    match (search, reply) {
        (DllSearch::Listing, HostReply::Listing(Err(cause))) => {
            let tools = tools_dir(version_dir);
            let mut detail = String::from_str("failed to read tools directory '");
            detail.append(tools.as_str());
            detail.append("': ");
            detail.append(cause.as_str());
            SearchStep::Found(Err(dll_layout_error(version_dir, sdk, detail.as_str())))
        },
        (DllSearch::Listing, HostReply::Listing(Ok(entries))) => {
            let tools = tools_dir(version_dir);
            match first_directory(&entries) {
                None => {
                    let mut detail = String::from_str("no TFM directory found inside '");
                    detail.append(tools.as_str());
                    detail.append("'");
                    SearchStep::Found(Err(dll_layout_error(version_dir, sdk, detail.as_str())))
                },
                Some(framework) => {
                    let path = dll_path(tools.as_str(), framework.as_str());
                    let ask = path.clone();
                    SearchStep::Continue(
                        DllSearch::CheckDll { dll_path: path },
                        HostRequest::IsFile { path: ask },
                    )
                },
            }
        },
        (DllSearch::CheckDll { dll_path }, HostReply::IsFile(is_file)) => {
            if is_file {
                SearchStep::Continue(DllSearch::Absolute, HostRequest::AbsolutePath { path: dll_path })
            } else {
                let mut detail = String::from_str("missing entry DLL at '");
                detail.append(dll_path.as_str());
                detail.append("'");
                SearchStep::Found(Err(dll_layout_error(version_dir, sdk, detail.as_str())))
            }
        },
        (DllSearch::Absolute, HostReply::AbsolutePath(result)) => match result {
            Ok(p) => SearchStep::Found(Ok(p)),
            Err(cause) => SearchStep::Found(Err(working_directory_error(cause.as_str()))),
        },
        _ => SearchStep::Found(Ok(String::new())),
    }
}


/// Where a launch of `csharp-ls` stands.
pub enum CsharpStage {
    /// No launch under way.
    Idle,
    /// Waiting for the user's binary settings.
    Settings,
    /// Waiting for `csharp-ls` on `PATH`.
    Which { args: Option<Vec<String>> },
    /// Waiting to learn whether the remembered assembly is still a file.
    CachedDll { args: Option<Vec<String>>, dll: String },
    /// Waiting for the checking-for-update status to be shown.
    CheckingStatus { args: Option<Vec<String>> },
    /// Waiting for `global.json`.
    GlobalJson { args: Option<Vec<String>> },
    /// Waiting for the feed to name the latest version.
    LatestVersion { args: Option<Vec<String>>, sdk: Option<String> },
    /// Looking for the assembly of the latest version before downloading.
    Probe { args: Option<Vec<String>>, sdk: Option<String>, version: String, search: DllSearch },
    /// Waiting for the downloading status to be shown.
    DownloadingStatus { args: Option<Vec<String>>, sdk: Option<String>, version: String },
    /// Waiting for the feed to deliver the package.
    Download { args: Option<Vec<String>>, sdk: Option<String>, version: String },
    /// Waiting for older versions to be removed.
    Cleanup { args: Option<Vec<String>>, sdk: Option<String>, version: String },
    /// Looking for the assembly that will be started.
    Locate { args: Option<Vec<String>>, sdk: Option<String>, version: String, search: DllSearch },
    /// Waiting for `dotnet` on `PATH`; `remember` says whether a launch
    /// remembers the assembly.
    Dotnet { args: Option<Vec<String>>, dll: String, remember: bool },
    /// Waiting for `global.json` to report a missing `dotnet`.
    DotnetMissing,
}

/// The `csharp-ls` provider: the assembly it last started, its feed client,
/// and where the current launch stands.
pub struct CsharpLs {
    pub cached_dll_path: Option<String>,
    pub nuget: NuGetClient,
    pub stage: CsharpStage,
}

/// The stage and the feed client agree on what is under way.
pub open spec fn csharp_wf(c: CsharpLs) -> bool {
    &&& c.nuget.binary_path_setting@ == BINARY_PATH_SETTING@
    &&& match c.stage {
        CsharpStage::LatestVersion { .. } => match c.nuget.pending {
            Some(NuGetPending::ServiceIndex(NuGetRequest::LatestVersion { .. })) => true,
            Some(NuGetPending::VersionIndex { .. }) => true,
            _ => false,
        },
        CsharpStage::Download { .. } => match c.nuget.pending {
            Some(NuGetPending::ServiceIndex(NuGetRequest::Package { .. })) => true,
            Some(NuGetPending::PackageFile { .. }) => true,
            _ => false,
        },
        _ => c.nuget.pending is None,
    }
}

/// Whether `reply` answers what the current stage waits for.
pub open spec fn csharp_expects(c: CsharpLs, reply: HostReply) -> bool {
    match c.stage {
        CsharpStage::Idle => false,
        CsharpStage::Settings => reply is BinarySettings,
        CsharpStage::Which { .. } => reply is Executable,
        CsharpStage::CachedDll { .. } => reply is IsFile,
        CsharpStage::CheckingStatus { .. } => reply is StatusSet,
        CsharpStage::GlobalJson { .. } => reply is GlobalJson,
        CsharpStage::LatestVersion { .. } => reply is Http,
        CsharpStage::Probe { search, .. } => search_expects(search, reply),
        CsharpStage::DownloadingStatus { .. } => reply is StatusSet,
        CsharpStage::Download { .. } => match c.nuget.pending {
            Some(NuGetPending::PackageFile { .. }) => reply is Downloaded,
            _ => reply is Http,
        },
        CsharpStage::Cleanup { .. } => reply is Cleaned,
        CsharpStage::Locate { search, .. } => search_expects(search, reply),
        CsharpStage::Dotnet { .. } => reply is Executable,
        CsharpStage::DotnetMissing => reply is GlobalJson,
    }
}

/// `step` ends the launch with `command` and `args`.
pub open spec fn launches(step: Step<LaunchCommand>, command: Seq<char>, args: Seq<Seq<char>>) -> bool {
    step matches Step::Done(Ok(c)) && c.command@ == command && string_views(c.args@) == args
}

/// `step` ends the launch with the error `text`.
pub open spec fn fails_with<T>(step: Step<T>, text: Seq<char>) -> bool {
    step matches Step::Done(Err(e)) && e@ == text
}

/// `step` asks for `request`.
pub open spec fn asks<T>(step: Step<T>, request: HostRequest) -> bool {
    step == Step::<T>::Ask(request)
}

/// `step` asks for the executable `name` on `PATH`.
pub open spec fn asks_executable<T>(step: Step<T>, name: Seq<char>) -> bool {
    step matches Step::Ask(HostRequest::FindExecutable { name: n }) && n@ == name
}

/// The arguments of a `dotnet exec` of `dll`.
pub open spec fn dotnet_args(dll: Seq<char>, args: Option<Vec<String>>) -> Seq<Seq<char>> {
    seq!["exec"@, dll] + args_or_empty(args)
}

/// `step` relays what the feed client asks for to the host.
pub open spec fn relays<T>(nstep: NuGetStep, step: Step<T>) -> bool {
    match nstep {
        NuGetStep::Fetch { url } => step == Step::<T>::Ask(HostRequest::Fetch { url }),
        NuGetStep::Download { url, dest_dir } => step == Step::<T>::Ask(
            HostRequest::DownloadArchive { url, dest_dir, kind: ArchiveKind::Zip },
        ),
        NuGetStep::Finished(_) => false,
    }
}

/// How the launch goes on after the feed client answers a version request.
pub open spec fn latest_continues(
    args: Option<Vec<String>>,
    sdk: Option<String>,
    nstep: NuGetStep,
    stage: CsharpStage,
    step: Step<LaunchCommand>,
) -> bool {
    match nstep {
        NuGetStep::Finished(Err(e)) => stage is Idle && fails_with(step, e@),
        NuGetStep::Finished(Ok(Some(v))) => stage matches CsharpStage::Probe {
            args: a,
            sdk: s,
            version,
            search,
        } && a == args && s == sdk && version == v && exists|request: HostRequest|
            search_starts(version_dir_text(v@), search, request) && asks(step, request),
        NuGetStep::Finished(Ok(None)) => false,
        _ => stage == CsharpStage::LatestVersion { args, sdk } && relays(nstep, step),
    }
}

/// How the launch goes on after the feed client answers a package request.
pub open spec fn download_continues(
    args: Option<Vec<String>>,
    sdk: Option<String>,
    version: String,
    nstep: NuGetStep,
    stage: CsharpStage,
    step: Step<LaunchCommand>,
) -> bool {
    match nstep {
        NuGetStep::Finished(Err(e)) => stage is Idle && fails_with(
            step,
            with_sdk_requirement(e@, opt_string_chars(sdk)),
        ),
        NuGetStep::Finished(Ok(None)) => {
            &&& stage == CsharpStage::Cleanup { args, sdk, version }
            &&& step matches Step::Ask(HostRequest::RemoveOutdated { server_id, keep })
            &&& server_id@ == LANGUAGE_SERVER_ID@
            &&& keep@ == version_dir_text(version@)
        },
        NuGetStep::Finished(Ok(Some(_))) => false,
        _ => stage == CsharpStage::Download { args, sdk, version } && relays(nstep, step),
    }
}

/// How a search for the assembly goes on inside the launch: `probing` says
/// whether it is the search before the download.
pub open spec fn search_continues(
    probing: bool,
    args: Option<Vec<String>>,
    sdk: Option<String>,
    version: String,
    sstep: SearchStep,
    stage: CsharpStage,
    step: Step<LaunchCommand>,
) -> bool {
    match sstep {
        SearchStep::Continue(next, request) => asks(step, request) && if probing {
            stage == CsharpStage::Probe { args, sdk, version, search: next }
        } else {
            stage == CsharpStage::Locate { args, sdk, version, search: next }
        },
        SearchStep::Found(Ok(dll)) => if probing {
            stage matches CsharpStage::Locate { args: a, sdk: s, version: v, search }
                && a == args && s == sdk && v == version && exists|request: HostRequest|
                search_starts(version_dir_text(version@), search, request) && asks(step, request)
        } else {
            stage == CsharpStage::Dotnet { args, dll, remember: true } && asks_executable(
                step,
                "dotnet"@,
            )
        },
        SearchStep::Found(Err(e)) => if probing {
            stage == CsharpStage::DownloadingStatus { args, sdk, version } && asks(
                step,
                HostRequest::SetStatus { status: InstallStatus::Downloading },
            )
        } else {
            stage is Idle && fails_with(step, e@)
        },
    }
}

/// One step of a launch of `csharp-ls`:
/// the user's binary path wins, then `csharp-ls` on `PATH`, then the
/// assembly started last time if it is still a file; otherwise the latest
/// version is read from the feed, downloaded unless its assembly is already
/// in place (older versions then removed), and started with `dotnet exec`,
/// and its assembly is remembered.
pub open spec fn csharp_resumes(
    old: CsharpLs,
    reply: HostReply,
    new: CsharpLs,
    step: Step<LaunchCommand>,
) -> bool {
    let same_feed = new.nuget == old.nuget;
    let same_cache = new.cached_dll_path == old.cached_dll_path;
    match (old.stage, reply) {
        (CsharpStage::Settings, HostReply::BinarySettings { path, arguments }) => same_feed
            && same_cache && match path {
            Some(p) => new.stage is Idle && launches(step, p@, args_or_empty(arguments)),
            None => new.stage == CsharpStage::Which { args: arguments } && asks_executable(
                step,
                BINARY_NAME@,
            ),
        },
        (CsharpStage::Which { args }, HostReply::Executable(found)) => same_feed && same_cache
            && match found {
            Some(p) => new.stage is Idle && launches(step, p@, args_or_empty(args)),
            None => match old.cached_dll_path {
                Some(dll) => new.stage == CsharpStage::CachedDll { args, dll } && asks(
                    step,
                    HostRequest::IsFile { path: dll },
                ),
                None => new.stage == CsharpStage::CheckingStatus { args } && asks(
                    step,
                    HostRequest::SetStatus { status: InstallStatus::CheckingForUpdate },
                ),
            },
        },
        (CsharpStage::CachedDll { args, dll }, HostReply::IsFile(is_file)) => same_feed
            && same_cache && if is_file {
            new.stage == CsharpStage::Dotnet { args, dll, remember: false } && asks_executable(
                step,
                "dotnet"@,
            )
        } else {
            new.stage == CsharpStage::CheckingStatus { args } && asks(
                step,
                HostRequest::SetStatus { status: InstallStatus::CheckingForUpdate },
            )
        },
        (CsharpStage::CheckingStatus { args }, HostReply::StatusSet) => same_feed && same_cache
            && new.stage == CsharpStage::GlobalJson { args } && asks(
            step,
            HostRequest::ReadGlobalJson,
        ),
        (CsharpStage::GlobalJson { args }, HostReply::GlobalJson(contents)) => same_cache
            && exists|nstep: NuGetStep, sdk: Option<String>, package_id: String|
            {
                &&& opt_string_chars(sdk) == global_json_requirement(contents)
                &&& package_id@ == PACKAGE_ID@
                &&& begins(old.nuget, NuGetRequest::LatestVersion { package_id }, new.nuget, nstep)
                &&& new.stage == CsharpStage::LatestVersion { args, sdk }
                &&& relays(nstep, step)
            },
        (CsharpStage::LatestVersion { args, sdk }, HostReply::Http(outcome)) => same_cache
            && exists|nstep: NuGetStep|
            handles_http(old.nuget, outcome, new.nuget, nstep) && latest_continues(
                args,
                sdk,
                nstep,
                new.stage,
                step,
            ),
        (CsharpStage::Probe { args, sdk, version, search }, _) => same_feed && same_cache
            && exists|sstep: SearchStep|
            search_resumes(
                version_dir_text(version@),
                opt_string_chars(sdk),
                search,
                reply,
                sstep,
            ) && search_continues(true, args, sdk, version, sstep, new.stage, step),
        (CsharpStage::DownloadingStatus { args, sdk, version }, HostReply::StatusSet) => same_cache
            && exists|nstep: NuGetStep, package_id: String, dest_dir: String|
            {
                &&& begins(
                    old.nuget,
                    NuGetRequest::Package { package_id, version, dest_dir },
                    new.nuget,
                    nstep,
                )
                &&& package_id@ == PACKAGE_ID@
                &&& dest_dir@ == version_dir_text(version@)
                &&& download_continues(args, sdk, version, nstep, new.stage, step)
            },
        (CsharpStage::Download { args, sdk, version }, HostReply::Http(outcome)) => same_cache
            && exists|nstep: NuGetStep|
            handles_http(old.nuget, outcome, new.nuget, nstep) && download_continues(
                args,
                sdk,
                version,
                nstep,
                new.stage,
                step,
            ),
        (CsharpStage::Download { args, sdk, version }, HostReply::Downloaded(outcome)) => same_cache
            && new.nuget.pending is None && new.nuget.package_base_address
            == old.nuget.package_base_address && new.nuget.binary_path_setting
            == old.nuget.binary_path_setting && match outcome {
            Ok(()) => download_continues(
                args,
                sdk,
                version,
                NuGetStep::Finished(Ok(None)),
                new.stage,
                step,
            ),
            Err(cause) => old.nuget.pending matches Some(
                NuGetPending::PackageFile { package_id, version: v, dest_dir },
            ) && new.stage is Idle && fails_with(
                step,
                with_sdk_requirement(
                    crate::nuget::package_download_error_text(
                        BINARY_PATH_SETTING@,
                        package_id@,
                        v@,
                        cause@,
                        dest_dir@,
                    ),
                    opt_string_chars(sdk),
                ),
            ),
        },
        (CsharpStage::Cleanup { args, sdk, version }, HostReply::Cleaned(outcome)) => same_feed
            && same_cache && match outcome {
            Ok(()) => new.stage matches CsharpStage::Locate { args: a, sdk: s, version: v, search }
                && a == args && s == sdk && v == version && exists|request: HostRequest|
                search_starts(version_dir_text(version@), search, request) && asks(step, request),
            Err(e) => new.stage is Idle && fails_with(step, e@),
        },
        (CsharpStage::Locate { args, sdk, version, search }, _) => same_feed && same_cache
            && exists|sstep: SearchStep|
            search_resumes(
                version_dir_text(version@),
                opt_string_chars(sdk),
                search,
                reply,
                sstep,
            ) && search_continues(false, args, sdk, version, sstep, new.stage, step),
        (CsharpStage::Dotnet { args, dll, remember }, HostReply::Executable(found)) => same_feed
            && match found {
            Some(dotnet) => {
                &&& new.stage is Idle
                &&& launches(step, dotnet@, dotnet_args(dll@, args))
                &&& new.cached_dll_path == if remember {
                    Some(dll)
                } else {
                    old.cached_dll_path
                }
            },
            None => same_cache && new.stage is DotnetMissing && asks(step, HostRequest::ReadGlobalJson),
        },
        (CsharpStage::DotnetMissing, HostReply::GlobalJson(contents)) => same_feed && same_cache
            && new.stage is Idle && fails_with(
            step,
            with_sdk_requirement(dotnet_missing_base(), global_json_requirement(contents)),
        ),
        _ => false,
    }
}


fn relay(nstep: NuGetStep) -> (step: Step<LaunchCommand>)
    requires
        !(nstep is Finished),
    ensures
        relays(nstep, step),
{
    match nstep {
        NuGetStep::Fetch { url } => Step::Ask(HostRequest::Fetch { url }),
        NuGetStep::Download { url, dest_dir } => Step::Ask(
            HostRequest::DownloadArchive { url, dest_dir, kind: ArchiveKind::Zip },
        ),
        NuGetStep::Finished(_) => Step::Done(Err(String::new())),
    }
}

fn launch_command(command: String, args: Vec<String>) -> (step: Step<LaunchCommand>)
    ensures
        launches(step, command@, string_views(args@)),
{
    Step::Done(Ok(LaunchCommand { command, args }))
}

fn dotnet_command(dotnet: String, dll: &String, args: Option<Vec<String>>) -> (step: Step<
    LaunchCommand,
>)
    ensures
        launches(step, dotnet@, dotnet_args(dll@, args)),
{
    let mut all: Vec<String> = Vec::new();
    all.push(String::from_str("exec"));
    all.push(dll.clone());
    let user = unwrap_args(args);
    let ghost start = string_views(all@);
    assert(start =~= seq!["exec"@, dll@]);
    for i in 0..user.len()
        invariant
            string_views(all@) == start + string_views(user@).take(i as int),
    {
        let ghost before = string_views(all@);
        all.push(user[i].clone());
        assert(string_views(all@) =~= before.push(user@[i as int]@));
        assert(string_views(user@).take(i + 1) =~= string_views(user@).take(i as int).push(
            user@[i as int]@,
        ));
    }
    assert(string_views(user@).take(user@.len() as int) =~= string_views(user@));
    launch_command(dotnet, all)
}

impl CsharpLs {
    /// The server's id.
    pub const LANGUAGE_SERVER_ID: &'static str = "csharp-ls";

    /// A provider that has started nothing yet.
    pub fn new() -> (r: Self)
        ensures
            r.cached_dll_path is None,
            r.stage is Idle,
            r.nuget.package_base_address is None,
            csharp_wf(r),
    {
        CsharpLs {
            cached_dll_path: None,
            nuget: NuGetClient::new(BINARY_PATH_SETTING),
            stage: CsharpStage::Idle,
        }
    }

    /// Starts a launch: the first thing to learn is the user's binary
    /// settings.
    pub fn begin(&mut self) -> (step: Step<LaunchCommand>)
        requires
            csharp_wf(*old(self)),
            old(self).stage is Idle,
        ensures
            csharp_wf(*final(self)),
            final(self).stage is Settings,
            final(self).nuget == old(self).nuget,
            final(self).cached_dll_path == old(self).cached_dll_path,
            step matches Step::Ask(HostRequest::ReadBinarySettings { server_id })
                && server_id@ == LANGUAGE_SERVER_ID@,
    {
        self.stage = CsharpStage::Settings;
        Step::Ask(HostRequest::ReadBinarySettings { server_id: String::from_str(LANGUAGE_SERVER_ID) })
    }

    /// Abandons any launch under way: the provider and its feed client wait
    /// for nothing, and what they remember is kept.
    pub fn reset(&mut self)
        ensures
            final(self).stage is Idle,
            final(self).nuget.pending is None,
            final(self).nuget.package_base_address == old(self).nuget.package_base_address,
            final(self).nuget.binary_path_setting == old(self).nuget.binary_path_setting,
            final(self).cached_dll_path == old(self).cached_dll_path,
    {
        self.stage = CsharpStage::Idle;
        self.nuget.cancel();
    }

    /// Whether a launch can begin: nothing is under way and the feed client
    /// names this server's setting.
    pub fn is_ready(&self) -> (r: bool)
        ensures
            r == (csharp_wf(*self) && self.stage is Idle),
    {
        let idle = match self.stage {
            CsharpStage::Idle => true,
            _ => false,
        };
        idle && self.nuget.pending.is_none() && same_chars(
            &chars_of(self.nuget.binary_path_setting),
            &chars_of(BINARY_PATH_SETTING),
        )
    }

    /// Whether `reply` answers what the launch waits for.
    pub fn expects(&self, reply: &HostReply) -> (r: bool)
        ensures
            r == csharp_expects(*self, *reply),
    {
        match &self.stage {
            CsharpStage::Idle => false,
            CsharpStage::Settings => matches!(reply, HostReply::BinarySettings { .. }),
            CsharpStage::Which { .. } => matches!(reply, HostReply::Executable(_)),
            CsharpStage::CachedDll { .. } => matches!(reply, HostReply::IsFile(_)),
            CsharpStage::CheckingStatus { .. } => matches!(reply, HostReply::StatusSet),
            CsharpStage::GlobalJson { .. } => matches!(reply, HostReply::GlobalJson(_)),
            CsharpStage::LatestVersion { .. } => matches!(reply, HostReply::Http(_)),
            CsharpStage::Probe { search, .. } => search_accepts(search, reply),
            CsharpStage::DownloadingStatus { .. } => matches!(reply, HostReply::StatusSet),
            CsharpStage::Download { .. } => if self.nuget.awaits_download() {
                matches!(reply, HostReply::Downloaded(_))
            } else {
                matches!(reply, HostReply::Http(_))
            },
            CsharpStage::Cleanup { .. } => matches!(reply, HostReply::Cleaned(_)),
            CsharpStage::Locate { search, .. } => search_accepts(search, reply),
            CsharpStage::Dotnet { .. } => matches!(reply, HostReply::Executable(_)),
            CsharpStage::DotnetMissing => matches!(reply, HostReply::GlobalJson(_)),
        }
    }

    fn after_latest(&mut self, args: Option<Vec<String>>, sdk: Option<String>, nstep: NuGetStep) -> (step:
        Step<LaunchCommand>)
        requires
            !(nstep matches NuGetStep::Finished(Ok(None))),
        ensures
            final(self).nuget == old(self).nuget,
            final(self).cached_dll_path == old(self).cached_dll_path,
            latest_continues(args, sdk, nstep, final(self).stage, step),
    {
        match nstep {
            NuGetStep::Finished(Err(e)) => {
                self.stage = CsharpStage::Idle;
                Step::Done(Err(e))
            },
            NuGetStep::Finished(Ok(Some(v))) => {
                let dir = version_dir(v.as_str());
                let (search, request) = search_start(dir.as_str());
                let ghost rq = request;
                let ghost vv = v;
                self.stage = CsharpStage::Probe { args, sdk, version: v, search };
                let step = Step::Ask(request);
                assert(search_starts(version_dir_text(vv@), search, rq) && asks(step, rq));
                step
            },
            NuGetStep::Finished(Ok(None)) => Step::Done(Err(String::new())),
            _ => {
                self.stage = CsharpStage::LatestVersion { args, sdk };
                relay(nstep)
            },
        }
    }

    fn after_download(
        &mut self,
        args: Option<Vec<String>>,
        sdk: Option<String>,
        version: String,
        nstep: NuGetStep,
    ) -> (step: Step<LaunchCommand>)
        requires
            !(nstep matches NuGetStep::Finished(Ok(Some(_)))),
        ensures
            final(self).nuget == old(self).nuget,
            final(self).cached_dll_path == old(self).cached_dll_path,
            download_continues(args, sdk, version, nstep, final(self).stage, step),
    {
        match nstep {
            NuGetStep::Finished(Err(e)) => {
                self.stage = CsharpStage::Idle;
                let text = match &sdk {
                    Some(req) => append_sdk_requirement(e, Some(req.as_str())),
                    None => append_sdk_requirement(e, None),
                };
                Step::Done(Err(text))
            },
            NuGetStep::Finished(Ok(None)) => {
                let keep = version_dir(version.as_str());
                self.stage = CsharpStage::Cleanup { args, sdk, version };
                Step::Ask(
                    HostRequest::RemoveOutdated {
                        server_id: String::from_str(LANGUAGE_SERVER_ID),
                        keep,
                    },
                )
            },
            NuGetStep::Finished(Ok(Some(_))) => Step::Done(Err(String::new())),
            _ => {
                self.stage = CsharpStage::Download { args, sdk, version };
                relay(nstep)
            },
        }
    }

    fn after_search(
        &mut self,
        probing: bool,
        args: Option<Vec<String>>,
        sdk: Option<String>,
        version: String,
        sstep: SearchStep,
    ) -> (step: Step<LaunchCommand>)
        ensures
            final(self).nuget == old(self).nuget,
            final(self).cached_dll_path == old(self).cached_dll_path,
            search_continues(probing, args, sdk, version, sstep, final(self).stage, step),
    {
        match sstep {
            SearchStep::Continue(next, request) => {
                if probing {
                    self.stage = CsharpStage::Probe { args, sdk, version, search: next };
                } else {
                    self.stage = CsharpStage::Locate { args, sdk, version, search: next };
                }
                Step::Ask(request)
            },
            SearchStep::Found(Ok(dll)) => {
                if probing {
                    let dir = version_dir(version.as_str());
                    let (search, request) = search_start(dir.as_str());
                    let ghost rq = request;
                    let ghost vv = version;
                    self.stage = CsharpStage::Locate { args, sdk, version, search };
                    let step = Step::Ask(request);
                    assert(search_starts(version_dir_text(vv@), search, rq) && asks(step, rq));
                    step
                } else {
                    self.stage = CsharpStage::Dotnet { args, dll, remember: true };
                    Step::Ask(HostRequest::FindExecutable { name: String::from_str("dotnet") })
                }
            },
            SearchStep::Found(Err(e)) => {
                if probing {
                    self.stage = CsharpStage::DownloadingStatus { args, sdk, version };
                    Step::Ask(HostRequest::SetStatus { status: InstallStatus::Downloading })
                } else {
                    self.stage = CsharpStage::Idle;
                    Step::Done(Err(e))
                }
            },
        }
    }

    /// Takes the host's reply to the last request; see [`csharp_resumes`].
    pub fn resume(&mut self, reply: HostReply) -> (step: Step<LaunchCommand>)
        requires
            csharp_wf(*old(self)),
            csharp_expects(*old(self), reply),
        ensures
            csharp_wf(*final(self)),
            csharp_resumes(*old(self), reply, *final(self), step),
    {
        let mut stage = CsharpStage::Idle;
        std::mem::swap(&mut stage, &mut self.stage);
        match (stage, reply) {
            (CsharpStage::Settings, HostReply::BinarySettings { path, arguments }) => match path {
                Some(p) => launch_command(p, unwrap_args(arguments)),
                None => {
                    self.stage = CsharpStage::Which { args: arguments };
                    Step::Ask(HostRequest::FindExecutable { name: String::from_str(BINARY_NAME) })
                },
            },
            (CsharpStage::Which { args }, HostReply::Executable(found)) => match found {
                Some(p) => launch_command(p, unwrap_args(args)),
                None => match &self.cached_dll_path {
                    Some(dll) => {
                        let d = dll.clone();
                        let ask = dll.clone();
                        self.stage = CsharpStage::CachedDll { args, dll: d };
                        Step::Ask(HostRequest::IsFile { path: ask })
                    },
                    None => {
                        self.stage = CsharpStage::CheckingStatus { args };
                        Step::Ask(HostRequest::SetStatus { status: InstallStatus::CheckingForUpdate })
                    },
                },
            },
            (CsharpStage::CachedDll { args, dll }, HostReply::IsFile(is_file)) => {
                if is_file {
                    self.stage = CsharpStage::Dotnet { args, dll, remember: false };
                    Step::Ask(HostRequest::FindExecutable { name: String::from_str("dotnet") })
                } else {
                    self.stage = CsharpStage::CheckingStatus { args };
                    Step::Ask(HostRequest::SetStatus { status: InstallStatus::CheckingForUpdate })
                }
            },
            (CsharpStage::CheckingStatus { args }, HostReply::StatusSet) => {
                self.stage = CsharpStage::GlobalJson { args };
                Step::Ask(HostRequest::ReadGlobalJson)
            },
            (CsharpStage::GlobalJson { args }, HostReply::GlobalJson(contents)) => {
                let sdk = global_json_sdk_requirement(&contents);
                let package_id = String::from_str(PACKAGE_ID);
                let ghost pid = package_id;
                let nstep = self.nuget.begin(NuGetRequest::LatestVersion { package_id });
                let ghost n = nstep;
                self.stage = CsharpStage::LatestVersion { args, sdk };
                let step = relay(nstep);
                assert(begins(
                    old(self).nuget,
                    NuGetRequest::LatestVersion { package_id: pid },
                    self.nuget,
                    n,
                ));
                step
            },
            (CsharpStage::LatestVersion { args, sdk }, HostReply::Http(outcome)) => {
                let nstep = self.nuget.on_http(outcome);
                self.after_latest(args, sdk, nstep)
            },
            (CsharpStage::Probe { args, sdk, version, search }, reply) => {
                let dir = version_dir(version.as_str());
                let sstep = search_resume(dir.as_str(), &sdk, search, reply);
                self.after_search(true, args, sdk, version, sstep)
            },
            (CsharpStage::DownloadingStatus { args, sdk, version }, HostReply::StatusSet) => {
                let package_id = String::from_str(PACKAGE_ID);
                let dest_dir = version_dir(version.as_str());
                let nstep = self.nuget.begin(
                    NuGetRequest::Package { package_id, version: version.clone(), dest_dir },
                );
                self.after_download(args, sdk, version, nstep)
            },
            (CsharpStage::Download { args, sdk, version }, HostReply::Http(outcome)) => {
                let nstep = self.nuget.on_http(outcome);
                self.after_download(args, sdk, version, nstep)
            },
            (CsharpStage::Download { args, sdk, version }, HostReply::Downloaded(outcome)) => {
                let nstep = self.nuget.on_download(outcome);
                self.after_download(args, sdk, version, nstep)
            },
            (CsharpStage::Cleanup { args, sdk, version }, HostReply::Cleaned(outcome)) => match outcome {
                Ok(()) => {
                    let dir = version_dir(version.as_str());
                    let (search, request) = search_start(dir.as_str());
                    let ghost rq = request;
                    let ghost vv = version;
                    self.stage = CsharpStage::Locate { args, sdk, version, search };
                    let step = Step::Ask(request);
                    assert(search_starts(version_dir_text(vv@), search, rq) && asks(step, rq));
                    step
                },
                Err(e) => Step::Done(Err(e)),
            },
            (CsharpStage::Locate { args, sdk, version, search }, reply) => {
                let dir = version_dir(version.as_str());
                let sstep = search_resume(dir.as_str(), &sdk, search, reply);
                self.after_search(false, args, sdk, version, sstep)
            },
            (CsharpStage::Dotnet { args, dll, remember }, HostReply::Executable(found)) => match found {
                Some(dotnet) => {
                    let step = dotnet_command(dotnet, &dll, args);
                    if remember {
                        self.cached_dll_path = Some(dll);
                    }
                    step
                },
                None => {
                    self.stage = CsharpStage::DotnetMissing;
                    Step::Ask(HostRequest::ReadGlobalJson)
                },
            },
            (CsharpStage::DotnetMissing, HostReply::GlobalJson(contents)) => {
                let sdk = global_json_sdk_requirement(&contents);
                let text = match &sdk {
                    Some(req) => dotnet_missing_error(Some(req.as_str())),
                    None => dotnet_missing_error(None),
                };
                Step::Done(Err(text))
            },
            _ => Step::Done(Err(String::new())),
        }
    }
}


/// The user's binary path wins: once the settings name one, the launch ends
/// with it and the user's arguments, and nothing else is consulted.
pub proof fn lemma_settings_path_wins(
    c: CsharpLs,
    path: String,
    arguments: Option<Vec<String>>,
    c2: CsharpLs,
    step: Step<LaunchCommand>,
)
    requires
        c.stage is Settings,
        csharp_resumes(c, HostReply::BinarySettings { path: Some(path), arguments }, c2, step),
    ensures
        launches(step, path@, args_or_empty(arguments)),
        c2.stage is Idle,
        c2.nuget == c.nuget,
        c2.cached_dll_path == c.cached_dll_path,
{
}

/// A launch that installs the server remembers the assembly it starts, and
/// a later launch that finds neither a binary path nor `csharp-ls` on `PATH`
/// starts that assembly again, while it is still a file, without asking the
/// feed anything.
pub proof fn lemma_installed_assembly_reused(
    c0: CsharpLs,
    dotnet: String,
    c1: CsharpLs,
    step1: Step<LaunchCommand>,
    c2: CsharpLs,
    c3: CsharpLs,
    step3: Step<LaunchCommand>,
    c4: CsharpLs,
    step4: Step<LaunchCommand>,
)
    requires
        (c0.stage matches CsharpStage::Dotnet { remember, .. } && remember),
        csharp_resumes(c0, HostReply::Executable(Some(dotnet)), c1, step1),
        (c2.stage is Which),
        c2.cached_dll_path == c1.cached_dll_path,
        csharp_resumes(c2, HostReply::Executable(None), c3, step3),
        csharp_resumes(c3, HostReply::IsFile(true), c4, step4),
    ensures
        (step1 matches Step::Done(Ok(_))),
        (c0.stage matches CsharpStage::Dotnet { dll, .. } && c1.cached_dll_path == Some(dll)),
        (c4.stage == CsharpStage::Dotnet {
            args: c2.stage->Which_args,
            dll: c1.cached_dll_path.unwrap(),
            remember: false,
        }),
        asks_executable(step4, "dotnet"@),
        c4.nuget == c2.nuget,
{
}


/// A launch step that fails leaves the remembered assembly as it was.
pub proof fn lemma_failure_keeps_cache(
    c: CsharpLs,
    reply: HostReply,
    c2: CsharpLs,
    step: Step<LaunchCommand>,
)
    requires
        csharp_resumes(c, reply, c2, step),
        (step matches Step::Done(Err(_))),
    ensures
        c2.cached_dll_path == c.cached_dll_path,
{
}

/// While the feed is asked for the latest version, nothing is installed:
/// no step shows the downloading status, downloads or removes version
/// directories; the launch either keeps asking the feed, goes on to look for
/// the new version's assembly, or fails, keeping the remembered assembly.
pub proof fn lemma_failed_lookup_installs_nothing(
    c: CsharpLs,
    outcome: HttpOutcome,
    c2: CsharpLs,
    step: Step<LaunchCommand>,
)
    requires
        csharp_wf(c),
        (c.stage is LatestVersion),
        csharp_resumes(c, HostReply::Http(outcome), c2, step),
    ensures
        step != Step::<LaunchCommand>::Ask(
            HostRequest::SetStatus { status: InstallStatus::Downloading },
        ),
        !(step matches Step::Ask(HostRequest::DownloadArchive { .. })),
        !(step matches Step::Ask(HostRequest::RemoveOutdated { .. })),
        (step matches Step::Done(r) ==> r is Err && c2.stage is Idle),
        (step is Ask ==> (c2.stage is LatestVersion || c2.stage is Probe)),
        c2.cached_dll_path == c.cached_dll_path,
{
}

/// The user's arguments that a launch stage carries, if it carries them.
pub open spec fn carried_args(stage: CsharpStage) -> Option<Option<Vec<String>>> {
    match stage {
        CsharpStage::Which { args } => Some(args),
        CsharpStage::CachedDll { args, .. } => Some(args),
        CsharpStage::CheckingStatus { args } => Some(args),
        CsharpStage::GlobalJson { args } => Some(args),
        CsharpStage::LatestVersion { args, .. } => Some(args),
        CsharpStage::Probe { args, .. } => Some(args),
        CsharpStage::DownloadingStatus { args, .. } => Some(args),
        CsharpStage::Download { args, .. } => Some(args),
        CsharpStage::Cleanup { args, .. } => Some(args),
        CsharpStage::Locate { args, .. } => Some(args),
        CsharpStage::Dotnet { args, .. } => Some(args),
        _ => None,
    }
}

/// The user's arguments, once read from the settings, are carried unchanged
/// from stage to stage, and a launch ends with exactly them: after the
/// binary itself, or after `exec` and the assembly when `dotnet` runs it.
pub proof fn lemma_user_args_carried(
    c: CsharpLs,
    reply: HostReply,
    c2: CsharpLs,
    step: Step<LaunchCommand>,
    args: Option<Vec<String>>,
)
    requires
        csharp_resumes(c, reply, c2, step),
        carried_args(c.stage) == Some(args),
    ensures
        carried_args(c2.stage) is Some ==> carried_args(c2.stage) == Some(args),
        (step matches Step::Done(Ok(cmd)) ==> string_views(cmd.args@) == if c.stage is Dotnet {
            seq!["exec"@, c.stage->Dotnet_dll@] + args_or_empty(args)
        } else {
            args_or_empty(args)
        }),
{
}

/// Whenever `dotnet` is found, the launch runs it on the assembly with
/// `exec`, the assembly's path and then the user's arguments, whether the
/// assembly was just installed or is the one remembered from before.
pub proof fn lemma_dotnet_exec_args(
    c: CsharpLs,
    dotnet: String,
    c2: CsharpLs,
    step: Step<LaunchCommand>,
)
    requires
        (c.stage is Dotnet),
        csharp_resumes(c, HostReply::Executable(Some(dotnet)), c2, step),
    ensures
        (step matches Step::Done(Ok(cmd)) && cmd.command@ == dotnet@ && string_views(cmd.args@)
            == seq!["exec"@, c.stage->Dotnet_dll@] + args_or_empty(c.stage->Dotnet_args)),
        (c2.stage is Idle),
{
}

/// A launch whose settings name no binary path, that finds no `csharp-ls`
/// on `PATH` and reuses the remembered assembly, runs `dotnet exec` on that
/// assembly followed by the arguments read from the settings.
pub proof fn lemma_reused_assembly_keeps_user_args(
    c0: CsharpLs,
    arguments: Option<Vec<String>>,
    c1: CsharpLs,
    step1: Step<LaunchCommand>,
    c2: CsharpLs,
    step2: Step<LaunchCommand>,
    c3: CsharpLs,
    step3: Step<LaunchCommand>,
    dotnet: String,
    c4: CsharpLs,
    step4: Step<LaunchCommand>,
)
    requires
        (c0.stage is Settings),
        c0.cached_dll_path is Some,
        csharp_resumes(c0, HostReply::BinarySettings { path: None, arguments }, c1, step1),
        csharp_resumes(c1, HostReply::Executable(None), c2, step2),
        csharp_resumes(c2, HostReply::IsFile(true), c3, step3),
        csharp_resumes(c3, HostReply::Executable(Some(dotnet)), c4, step4),
    ensures
        launches(
            step4,
            dotnet@,
            seq!["exec"@, c0.cached_dll_path.unwrap()@] + args_or_empty(arguments),
        ),
        c4.cached_dll_path == c0.cached_dll_path,
{
}

/// A package that the feed client downloads is always extracted as a zip
/// archive: every step of a launch that downloads asks for
/// [`ArchiveKind::Zip`].
pub proof fn lemma_packages_extracted_as_zip(
    c: CsharpLs,
    reply: HostReply,
    c2: CsharpLs,
    step: Step<LaunchCommand>,
)
    requires
        csharp_resumes(c, reply, c2, step),
        (step matches Step::Ask(HostRequest::DownloadArchive { .. })),
    ensures
        (step matches Step::Ask(HostRequest::DownloadArchive { kind, .. }) && kind == ArchiveKind::Zip),
{
}

} // verus!
