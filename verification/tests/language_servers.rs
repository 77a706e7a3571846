use csharp_plus::csharp_ls::{self, dotnet_missing_error, CsharpLs, SERVER_DLL};
use csharp_plus::launch::{DirEntryInfo, HostReply, HostRequest, Os, Architecture, ReleaseAsset, ReleaseInfo, Step};
use csharp_plus::nuget::HttpOutcome;
use csharp_plus::omnisharp::{self, asset_error, asset_name, Omnisharp};
use csharp_plus::util;

#[test]
fn dotnet_missing_error_names_remediations_without_sdk_requirement() {
    let message = dotnet_missing_error(None);
    assert!(message.starts_with(
        "Could not find the `dotnet` executable on PATH (csharp-ls runs via `dotnet exec`)."
    ));
    assert!(message.contains("Fix: install the .NET SDK 10+ and reopen the project"));
    assert!(
        message.contains("set `lsp.csharp-ls.binary.path` to a standalone `csharp-ls` binary")
    );
    assert!(!message.contains("global.json"));
}

#[test]
fn dotnet_missing_error_appends_sdk_requirement_when_present() {
    let message = dotnet_missing_error(Some("9.0.100"));
    assert!(message.ends_with(
        "global.json requires SDK 9.0.100; ensure an SDK satisfying it is installed."
    ));
}

#[test]
fn fix_hint_names_the_csharp_ls_setting() {
    assert_eq!(
        csharp_ls::fix_hint(),
        "set `lsp.csharp-ls.binary.path` to a local server binary or an already-cached version directory"
    );
}

#[test]
fn find_dll_layout_errors_embed_version_dir_and_setting() {
    let version_dir = format!("{}-1.2.3", CsharpLs::LANGUAGE_SERVER_ID);
    let detail = format!("missing entry DLL at '{version_dir}/tools/net8.0/any/{SERVER_DLL}'");
    let message = util::package_layout_error(
        &detail,
        &version_dir,
        &csharp_ls::fix_hint(),
        Some("8.0.100"),
    );
    assert!(message.contains("unexpected layout"));
    assert!(message.contains("csharp-ls-1.2.3"));
    assert!(message.contains("lsp.csharp-ls.binary.path"));
    assert!(message.contains("global.json requires SDK 8.0.100"));
}

#[test]
fn fix_hint_names_the_omnisharp_setting() {
    assert_eq!(
        omnisharp::fix_hint(),
        "set `lsp.omnisharp.binary.path` to a local server binary or an already-cached version directory"
    );
}

#[test]
fn asset_error_names_asset_release_version_and_escape() {
    let message = asset_error("omnisharp-osx-arm64-net6.0.tar.gz", "v1.2.3");
    assert!(message.starts_with(
        "No release asset named 'omnisharp-osx-arm64-net6.0.tar.gz' was found in OmniSharp/omnisharp-roslyn release v1.2.3"
    ));
    assert!(message.contains("your platform may not be supported"));
    assert!(message.contains("Fix: set `lsp.omnisharp.binary.path`"));
}

#[test]
fn download_errors_name_asset_version_and_cache_directory() {
    let message = util::download_error(
        "the OmniSharp/omnisharp-roslyn release asset 'omnisharp-win-x64-net6.0.zip' v1.2.3",
        "connection reset",
        "omnisharp-1.2.3",
        &omnisharp::fix_hint(),
    );
    assert!(
        message.starts_with("Failed to download the OmniSharp/omnisharp-roslyn release asset")
    );
    assert!(message.contains("v1.2.3"));
    assert!(message.contains("connection reset"));
    assert!(message.contains("delete the cached directory 'omnisharp-1.2.3'"));
    assert!(message.contains("lsp.omnisharp.binary.path"));
}

#[test]
fn asset_names_follow_the_platform() {
    assert_eq!(asset_name(&Os::Mac, &Architecture::Aarch64), "omnisharp-osx-arm64-net6.0.tar.gz");
    assert_eq!(asset_name(&Os::Linux, &Architecture::X8664), "omnisharp-linux-x64-net6.0.tar.gz");
    assert_eq!(asset_name(&Os::Windows, &Architecture::X86), "omnisharp-win-x86-net6.0.zip");
}

fn ask(step: Step<csharp_plus::launch::LaunchCommand>) -> HostRequest {
    match step {
        Step::Ask(r) => r,
        Step::Done(_) => panic!("the launch ended early"),
    }
}

#[test]
fn csharp_ls_settings_path_wins() {
    let mut server = CsharpLs::new();
    assert!(matches!(ask(server.begin()), HostRequest::ReadBinarySettings { .. }));
    let step = server.resume(HostReply::BinarySettings {
        path: Some("/opt/csharp-ls".to_string()),
        arguments: None,
    });
    match step {
        Step::Done(Ok(cmd)) => {
            assert_eq!(cmd.command, "/opt/csharp-ls");
            assert!(cmd.args.is_empty());
        }
        _ => panic!("expected a command"),
    }
}

#[test]
fn csharp_ls_install_from_feed_then_reuse() {
    let mut server = CsharpLs::new();
    ask(server.begin());
    let r = ask(server.resume(HostReply::BinarySettings { path: None, arguments: Some(vec!["--loglevel".to_string()]) }));
    assert!(matches!(r, HostRequest::FindExecutable { ref name } if name == "csharp-ls"));
    let r = ask(server.resume(HostReply::Executable(None)));
    assert!(matches!(r, HostRequest::SetStatus { .. }));
    let r = ask(server.resume(HostReply::StatusSet));
    assert!(matches!(r, HostRequest::ReadGlobalJson));
    let r = ask(server.resume(HostReply::GlobalJson(Some(r#"{"sdk":{"version":"10.0.100"}}"#.to_string()))));
    assert!(matches!(r, HostRequest::Fetch { ref url } if url == "https://api.nuget.org/v3/index.json"));
    let index = br#"{"resources":[{"@id":"https://flat/","@type":"PackageBaseAddress/3.0.0"}]}"#;
    let r = ask(server.resume(HostReply::Http(HttpOutcome::Body(index.to_vec()))));
    assert!(matches!(r, HostRequest::Fetch { ref url } if url == "https://flat/csharp-ls/index.json"));
    let r = ask(server.resume(HostReply::Http(HttpOutcome::Body(br#"{"versions":["0.19.0","0.20.0"]}"#.to_vec()))));
    assert!(matches!(r, HostRequest::ListDirectory { ref path } if path == "csharp-ls-0.20.0/tools"));
    let r = ask(server.resume(HostReply::Listing(Err("not found".to_string()))));
    assert!(matches!(r, HostRequest::SetStatus { .. }));
    let r = ask(server.resume(HostReply::StatusSet));
    match r {
        HostRequest::DownloadArchive { url, dest_dir, .. } => {
            assert_eq!(url, "https://flat/csharp-ls/0.20.0/csharp-ls.0.20.0.nupkg");
            assert_eq!(dest_dir, "csharp-ls-0.20.0");
        }
        _ => panic!("expected a download"),
    }
    let r = ask(server.resume(HostReply::Downloaded(Ok(()))));
    assert!(matches!(r, HostRequest::RemoveOutdated { ref keep, .. } if keep == "csharp-ls-0.20.0"));
    let r = ask(server.resume(HostReply::Cleaned(Ok(()))));
    assert!(matches!(r, HostRequest::ListDirectory { .. }));
    let r = ask(server.resume(HostReply::Listing(Ok(vec![
        DirEntryInfo { name: Some("readme.txt".to_string()), is_dir: false },
        DirEntryInfo { name: Some("net10.0".to_string()), is_dir: true },
    ]))));
    assert!(matches!(r, HostRequest::IsFile { ref path } if path == "csharp-ls-0.20.0/tools/net10.0/any/CSharpLanguageServer.dll"));
    let r = ask(server.resume(HostReply::IsFile(true)));
    assert!(matches!(r, HostRequest::AbsolutePath { .. }));
    let r = ask(server.resume(HostReply::AbsolutePath(Ok("/work/csharp-ls-0.20.0/tools/net10.0/any/CSharpLanguageServer.dll".to_string()))));
    assert!(matches!(r, HostRequest::FindExecutable { ref name } if name == "dotnet"));
    match server.resume(HostReply::Executable(Some("/usr/bin/dotnet".to_string()))) {
        Step::Done(Ok(cmd)) => {
            assert_eq!(cmd.command, "/usr/bin/dotnet");
            assert_eq!(cmd.args, vec![
                "exec".to_string(),
                "/work/csharp-ls-0.20.0/tools/net10.0/any/CSharpLanguageServer.dll".to_string(),
                "--loglevel".to_string(),
            ]);
        }
        _ => panic!("expected a command"),
    }
    assert_eq!(
        server.cached_dll_path.as_deref(),
        Some("/work/csharp-ls-0.20.0/tools/net10.0/any/CSharpLanguageServer.dll")
    );
    // The next launch reuses the assembly without contacting the feed.
    ask(server.begin());
    ask(server.resume(HostReply::BinarySettings { path: None, arguments: None }));
    let r = ask(server.resume(HostReply::Executable(None)));
    assert!(matches!(r, HostRequest::IsFile { .. }));
    let r = ask(server.resume(HostReply::IsFile(true)));
    assert!(matches!(r, HostRequest::FindExecutable { ref name } if name == "dotnet"));
    let r = ask(server.resume(HostReply::Executable(None)));
    assert!(matches!(r, HostRequest::ReadGlobalJson));
    match server.resume(HostReply::GlobalJson(Some(r#"{"sdk":{"version":"9.0.100"}}"#.to_string()))) {
        Step::Done(Err(e)) => assert_eq!(
            e,
            dotnet_missing_error(Some("9.0.100"))
        ),
        _ => panic!("expected the missing-dotnet error"),
    }
}

#[test]
fn csharp_ls_layout_and_download_errors() {
    let mut server = CsharpLs::new();
    server.nuget.package_base_address = Some("https://flat".to_string());
    ask(server.begin());
    ask(server.resume(HostReply::BinarySettings { path: None, arguments: None }));
    ask(server.resume(HostReply::Executable(None)));
    ask(server.resume(HostReply::StatusSet));
    let r = ask(server.resume(HostReply::GlobalJson(None)));
    assert!(matches!(r, HostRequest::Fetch { ref url } if url == "https://flat/csharp-ls/index.json"));
    ask(server.resume(HostReply::Http(HttpOutcome::Body(br#"{"versions":["1.0.0"]}"#.to_vec()))));
    ask(server.resume(HostReply::Listing(Ok(vec![]))));
    ask(server.resume(HostReply::StatusSet));
    match server.resume(HostReply::Downloaded(Err("disk full".to_string()))) {
        Step::Done(Err(e)) => {
            assert!(e.starts_with("Failed to download NuGet package 'csharp-ls' v1.0.0 (disk full)."));
            assert!(!e.contains("global.json"));
        }
        _ => panic!("expected the download error"),
    }
}

fn ask_o(step: Step<omnisharp::OmnisharpBinary>) -> HostRequest {
    match step {
        Step::Ask(r) => r,
        Step::Done(_) => panic!("the launch ended early"),
    }
}

#[test]
fn omnisharp_install_from_release_then_reuse() {
    let mut server = Omnisharp::new();
    ask_o(server.begin());
    let r = ask_o(server.resume(HostReply::BinarySettings { path: None, arguments: None }));
    assert!(matches!(r, HostRequest::FindExecutable { ref name } if name == "OmniSharp"));
    ask_o(server.resume(HostReply::Executable(None)));
    let r = ask_o(server.resume(HostReply::StatusSet));
    assert!(matches!(r, HostRequest::LatestRelease { ref repo } if repo == "OmniSharp/omnisharp-roslyn"));
    let release = ReleaseInfo {
        version: "v1.39.12".to_string(),
        assets: vec![
            ReleaseAsset { name: "omnisharp-win-x64-net6.0.zip".to_string(), download_url: "https://dl/win".to_string() },
            ReleaseAsset { name: "omnisharp-linux-x64-net6.0.tar.gz".to_string(), download_url: "https://dl/linux".to_string() },
        ],
    };
    let r = ask_o(server.resume(HostReply::Release(Ok(release))));
    assert!(matches!(r, HostRequest::CurrentPlatform));
    let r = ask_o(server.resume(HostReply::Platform { os: Os::Linux, arch: Architecture::X8664 }));
    assert!(matches!(r, HostRequest::IsFile { ref path } if path == "omnisharp-v1.39.12/OmniSharp"));
    ask_o(server.resume(HostReply::IsFile(false)));
    match ask_o(server.resume(HostReply::StatusSet)) {
        HostRequest::DownloadArchive { url, dest_dir, .. } => {
            assert_eq!(url, "https://dl/linux");
            assert_eq!(dest_dir, "omnisharp-v1.39.12");
        }
        _ => panic!("expected a download"),
    }
    ask_o(server.resume(HostReply::Downloaded(Ok(()))));
    match server.resume(HostReply::Cleaned(Ok(()))) {
        Step::Done(Ok(b)) => assert_eq!(b.path, "omnisharp-v1.39.12/OmniSharp"),
        _ => panic!("expected the binary"),
    }
    assert_eq!(server.cached_binary_path.as_deref(), Some("omnisharp-v1.39.12/OmniSharp"));
    ask_o(server.begin());
    ask_o(server.resume(HostReply::BinarySettings { path: None, arguments: Some(vec!["-lsp".to_string()]) }));
    ask_o(server.resume(HostReply::Executable(None)));
    match server.resume(HostReply::IsFile(true)) {
        Step::Done(Ok(b)) => {
            assert_eq!(b.path, "omnisharp-v1.39.12/OmniSharp");
            assert_eq!(b.args, Some(vec!["-lsp".to_string()]));
        }
        _ => panic!("expected the cached binary"),
    }
}

#[test]
fn omnisharp_reports_missing_asset_and_release_errors() {
    let mut server = Omnisharp::new();
    ask_o(server.begin());
    ask_o(server.resume(HostReply::BinarySettings { path: None, arguments: None }));
    ask_o(server.resume(HostReply::Executable(None)));
    ask_o(server.resume(HostReply::StatusSet));
    ask_o(server.resume(HostReply::Release(Ok(ReleaseInfo { version: "v2".to_string(), assets: vec![] }))));
    match server.resume(HostReply::Platform { os: Os::Mac, arch: Architecture::Aarch64 }) {
        Step::Done(Err(e)) => assert_eq!(e, asset_error("omnisharp-osx-arm64-net6.0.tar.gz", "v2")),
        _ => panic!("expected the asset error"),
    }
    ask_o(server.begin());
    ask_o(server.resume(HostReply::BinarySettings { path: None, arguments: None }));
    ask_o(server.resume(HostReply::Executable(None)));
    ask_o(server.resume(HostReply::StatusSet));
    match server.resume(HostReply::Release(Err("rate limited".to_string()))) {
        Step::Done(Err(e)) => assert!(e.starts_with(
            "Could not use the GitHub release list for 'OmniSharp/omnisharp-roslyn' (rate limited); check network"
        )),
        _ => panic!("expected the feed error"),
    }
}

#[test]
fn omnisharp_settings_path_wins() {
    let mut server = Omnisharp::new();
    ask_o(server.begin());
    match server.resume(HostReply::BinarySettings {
        path: Some("/opt/OmniSharp".to_string()),
        arguments: Some(vec!["-lsp".to_string()]),
    }) {
        Step::Done(Ok(b)) => {
            assert_eq!(b.path, "/opt/OmniSharp");
            assert_eq!(b.args, Some(vec!["-lsp".to_string()]));
        }
        _ => panic!("expected the configured binary"),
    }
    assert!(server.cached_binary_path.is_none());
}

#[test]
fn csharp_ls_path_binary_comes_before_the_cache() {
    let mut server = CsharpLs::new();
    server.cached_dll_path = Some("/cache/CSharpLanguageServer.dll".to_string());
    ask(server.begin());
    ask(server.resume(HostReply::BinarySettings { path: None, arguments: Some(vec!["-v".to_string()]) }));
    match server.resume(HostReply::Executable(Some("/usr/local/bin/csharp-ls".to_string()))) {
        Step::Done(Ok(cmd)) => {
            assert_eq!(cmd.command, "/usr/local/bin/csharp-ls");
            assert_eq!(cmd.args, vec!["-v".to_string()]);
        }
        _ => panic!("expected the binary on PATH"),
    }
}

#[test]
fn providers_accept_only_the_reply_they_wait_for() {
    let mut server = CsharpLs::new();
    assert!(server.is_ready());
    assert!(!server.expects(&HostReply::StatusSet));
    ask(server.begin());
    assert!(!server.is_ready());
    assert!(server.expects(&HostReply::BinarySettings { path: None, arguments: None }));
    assert!(!server.expects(&HostReply::Executable(None)));
    server.reset();
    assert!(server.is_ready());

    let mut o = Omnisharp::new();
    ask_o(o.begin());
    assert!(o.expects(&HostReply::BinarySettings { path: None, arguments: None }));
    assert!(!o.expects(&HostReply::StatusSet));
    o.reset();
    assert!(!o.expects(&HostReply::BinarySettings { path: None, arguments: None }));
}

#[test]
fn failed_version_lookup_keeps_the_cache_and_installs_nothing() {
    let mut server = CsharpLs::new();
    server.cached_dll_path = Some("/gone.dll".to_string());
    ask(server.begin());
    ask(server.resume(HostReply::BinarySettings { path: None, arguments: None }));
    ask(server.resume(HostReply::Executable(None)));
    ask(server.resume(HostReply::IsFile(false)));
    ask(server.resume(HostReply::StatusSet));
    ask(server.resume(HostReply::GlobalJson(None)));
    match server.resume(HostReply::Http(HttpOutcome::FetchFailed("offline".to_string()))) {
        Step::Done(Err(e)) => assert!(e.contains("could not be fetched: offline")),
        _ => panic!("expected the feed error"),
    }
    assert_eq!(server.cached_dll_path.as_deref(), Some("/gone.dll"));
    assert!(server.is_ready());
}
