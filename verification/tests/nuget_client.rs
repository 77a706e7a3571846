use csharp_plus::nuget::{
    package_url, version_index_url, HttpOutcome, NuGetClient, NuGetPending, NuGetRequest,
    NuGetStep, ROSLYN_NUGET_FEED_INDEX,
};

const SETTING: &str = "lsp.roslyn.binary.path";

const INDEX: &str = r#"{"version": "3.0.0", "resources": [
    {"@id": "https://api.nuget.org/v3/registration5/", "@type": "RegistrationsBaseUrl"},
    {"@id": "https://api.nuget.org/v3-flatcontainer///", "@type": "PackageBaseAddress/3.0.0"},
    {"@id": "https://elsewhere/", "@type": "PackageBaseAddress/3.0.0"}
]}"#;

#[test]
fn service_index_names_the_base_address_without_trailing_slashes() {
    let mut client = NuGetClient::new(SETTING);
    let base = client.accept_service_index(INDEX.as_bytes()).unwrap();
    assert_eq!(base, "https://api.nuget.org/v3-flatcontainer");
    assert_eq!(
        client.package_base_address.as_deref(),
        Some("https://api.nuget.org/v3-flatcontainer")
    );
}

#[test]
fn service_index_errors_say_what_is_missing() {
    let mut client = NuGetClient::new(SETTING);
    let no_resources = client.accept_service_index(br#"{"resources": 5}"#).unwrap_err();
    assert!(no_resources.contains("the service index contains no 'resources' array"));
    assert!(no_resources.starts_with("Could not use the NuGet feed ("));
    let no_base = client
        .accept_service_index(br#"{"resources": [{"@type": "Other", "@id": "x"}]}"#)
        .unwrap_err();
    assert!(no_base.contains("does not list a 'PackageBaseAddress/3.0.0' resource"));
    let id_not_string = client
        .accept_service_index(br#"{"resources": [{"@type": "PackageBaseAddress/3.0.0", "@id": 1}, {"@type": "PackageBaseAddress/3.0.0", "@id": "y"}]}"#)
        .unwrap_err();
    assert!(id_not_string.contains("does not list a 'PackageBaseAddress/3.0.0' resource"));
    let not_json = client.accept_service_index(b"<html>").unwrap_err();
    assert!(not_json.contains("the service index could not be parsed: "));
    assert!(not_json.contains(SETTING));
    assert!(client.package_base_address.is_none());
}

#[test]
fn latest_version_is_the_highest_parseable_one() {
    let client = NuGetClient::new(SETTING);
    let body = br#"{"versions": ["0.9.0", "1.0.0-beta", 7, "1.0.0", "garbage", "0.10.0"]}"#;
    assert_eq!(client.latest_version_from_response("csharp-ls", body).unwrap(), "1.0.0");
    let none = client
        .latest_version_from_response("csharp-ls", br#"{"versions": ["x", 3]}"#)
        .unwrap_err();
    assert!(none.contains("'csharp-ls' has no parseable published versions"));
    let missing = client
        .latest_version_from_response("csharp-ls", br#"{"count": 0}"#)
        .unwrap_err();
    assert!(missing.contains("the version index for 'csharp-ls' contains no 'versions' array"));
    let broken = client.latest_version_from_response("csharp-ls", b"{").unwrap_err();
    assert!(broken.contains("the version index for 'csharp-ls' could not be parsed: "));
}

#[test]
fn urls_use_lowercase_ids_and_versions() {
    assert_eq!(
        version_index_url("https://feed/v3", "CSharp-LS"),
        "https://feed/v3/csharp-ls/index.json"
    );
    assert_eq!(
        package_url("https://feed/v3", "Roslyn.Server", "5.0.0-RC.1"),
        "https://feed/v3/roslyn.server/5.0.0-rc.1/roslyn.server.5.0.0-rc.1.nupkg"
    );
}

#[test]
fn fix_hint_and_feed_error_name_the_setting() {
    let client = NuGetClient::new(SETTING);
    assert_eq!(
        client.fix_hint(),
        "set `lsp.roslyn.binary.path` to a local server binary or an already-cached version directory"
    );
    assert_eq!(
        client.feed_error("timeout"),
        "Could not use the NuGet feed (timeout); check network, proxy, or offline status. Fix: retry later, or set `lsp.roslyn.binary.path` to a local server binary or an already-cached version directory."
    );
}

#[test]
fn version_request_reads_the_service_index_once() {
    let mut client = NuGetClient::new(SETTING);
    match client.begin(NuGetRequest::LatestVersion { package_id: "CSharp-LS".to_string() }) {
        NuGetStep::Fetch { url } => assert_eq!(url, ROSLYN_NUGET_FEED_INDEX),
        _ => panic!("expected the service index to be fetched"),
    }
    match client.on_http(HttpOutcome::Body(INDEX.as_bytes().to_vec())) {
        NuGetStep::Fetch { url } => assert_eq!(
            url,
            "https://api.nuget.org/v3-flatcontainer/csharp-ls/index.json"
        ),
        _ => panic!("expected the version index to be fetched"),
    }
    match client.on_http(HttpOutcome::Body(br#"{"versions": ["0.1.0", "0.2.0"]}"#.to_vec())) {
        NuGetStep::Finished(Ok(Some(v))) => assert_eq!(v, "0.2.0"),
        _ => panic!("expected a version"),
    }
    assert!(client.pending.is_none());
    match client.begin(NuGetRequest::Package {
        package_id: "csharp-ls".to_string(),
        version: "0.2.0".to_string(),
        dest_dir: "csharp-ls-0.2.0".to_string(),
    }) {
        NuGetStep::Download { url, dest_dir } => {
            assert_eq!(
                url,
                "https://api.nuget.org/v3-flatcontainer/csharp-ls/0.2.0/csharp-ls.0.2.0.nupkg"
            );
            assert_eq!(dest_dir, "csharp-ls-0.2.0");
        }
        _ => panic!("expected a download"),
    }
    match client.on_download(Err("connection reset".to_string())) {
        NuGetStep::Finished(Err(e)) => {
            assert!(e.starts_with("Failed to download NuGet package 'csharp-ls' v0.2.0 (connection reset)."));
            assert!(e.contains("delete the cached directory 'csharp-ls-0.2.0'"));
        }
        _ => panic!("expected the download error"),
    }
}

#[test]
fn failed_requests_report_the_stage() {
    let mut client = NuGetClient::new(SETTING);
    let _ = client.begin(NuGetRequest::LatestVersion { package_id: "x".to_string() });
    match client.on_http(HttpOutcome::FetchFailed("timeout".to_string())) {
        NuGetStep::Finished(Err(e)) => assert!(e.contains(
            "the service index at 'https://api.nuget.org/v3/index.json' could not be fetched: timeout"
        )),
        _ => panic!("expected an error"),
    }
    let _ = client.begin(NuGetRequest::LatestVersion { package_id: "x".to_string() });
    match client.on_http(HttpOutcome::BuildFailed("bad url".to_string())) {
        NuGetStep::Finished(Err(e)) => assert!(e.contains(
            "the service index request to 'https://api.nuget.org/v3/index.json' could not be built: bad url"
        )),
        _ => panic!("expected an error"),
    }
    client.package_base_address = Some("https://b".to_string());
    let _ = client.begin(NuGetRequest::LatestVersion { package_id: "Pkg".to_string() });
    assert!(matches!(client.pending, Some(NuGetPending::VersionIndex { .. })));
    match client.on_http(HttpOutcome::FetchFailed("503".to_string())) {
        NuGetStep::Finished(Err(e)) => {
            assert!(e.contains("the version index for 'Pkg' could not be fetched: 503"))
        }
        _ => panic!("expected an error"),
    }
}

#[test]
fn client_says_what_it_waits_for() {
    let mut client = NuGetClient::new(SETTING);
    assert!(!client.awaits_http() && !client.awaits_download());
    let _ = client.begin(NuGetRequest::LatestVersion { package_id: "x".to_string() });
    assert!(client.awaits_http());
    client.cancel();
    assert!(!client.awaits_http());
    client.package_base_address = Some("https://b".to_string());
    let _ = client.begin(NuGetRequest::Package {
        package_id: "x".to_string(),
        version: "1.0.0".to_string(),
        dest_dir: "x-1.0.0".to_string(),
    });
    assert!(client.awaits_download() && !client.awaits_http());
    client.cancel();
    assert_eq!(client.package_base_address.as_deref(), Some("https://b"));
}

#[test]
fn parse_errors_carry_the_parser_description() {
    let mut client = NuGetClient::new(SETTING);
    let e = client.accept_service_index(b"<html>").unwrap_err();
    assert!(e.contains("the service index could not be parsed: expected value at line 1 column 1)"));
    let e = client.latest_version_from_response("pkg", b"").unwrap_err();
    assert!(e.contains(
        "the version index for 'pkg' could not be parsed: EOF while parsing a value at line 1 column 0)"
    ));
}
