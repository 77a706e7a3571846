use csharp_plus::util::{
    append_sdk_requirement, binary_path_override_hint, cleanup_entry_error, cleanup_error,
    cleanup_list_error, download_error, feed_error, global_json_sdk_requirement,
    is_outdated_entry, layout_error, package_layout_error, sdk_requirement_from_global_json,
    sdk_requirement_sentence, working_directory_error,
};

#[test]
fn binary_path_override_hint_names_setting_and_binary() {
    let hint = binary_path_override_hint("lsp.roslyn.binary.path", "a local server binary");
    assert_eq!(
        hint,
        "set `lsp.roslyn.binary.path` to a local server binary or an already-cached version directory"
    );
}

#[test]
fn feed_error_mentions_network_and_fix() {
    let message = feed_error(
        "the NuGet feed",
        "the service index could not be fetched: timeout",
        &binary_path_override_hint("lsp.roslyn.binary.path", "a local server binary"),
    );
    assert!(message.contains("Could not use the NuGet feed"));
    assert!(message.contains("the service index could not be fetched: timeout"));
    assert!(message.contains("network, proxy, or offline"));
    assert!(message.contains("Fix: retry later"));
    assert!(message.contains("lsp.roslyn.binary.path"));
    assert!(message.contains("already-cached version directory"));
}

#[test]
fn download_error_names_cache_directory_and_fix() {
    let message = download_error(
        "NuGet package 'roslyn-language-server.osx-arm64' v5.0.0",
        "connection reset",
        "roslyn-5.0.0",
        &binary_path_override_hint("lsp.roslyn.binary.path", "a local server binary"),
    );
    assert!(message.contains(
        "Failed to download NuGet package 'roslyn-language-server.osx-arm64' v5.0.0"
    ));
    assert!(message.contains("connection reset"));
    assert!(message.contains("delete the cached directory 'roslyn-5.0.0'"));
    assert!(message.contains("lsp.roslyn.binary.path"));
}

#[test]
fn layout_error_says_package_may_be_corrupt() {
    let message = layout_error(
        "no TFM directory found inside 'roslyn-5.0.0/tools'",
        "roslyn-5.0.0",
        &binary_path_override_hint("lsp.roslyn.binary.path", "a local server binary"),
    );
    assert!(message.contains("unexpected layout"));
    assert!(message.contains("it may be corrupt"));
    assert!(message.contains("no TFM directory found inside 'roslyn-5.0.0/tools'"));
    assert!(message.contains("delete the cached directory 'roslyn-5.0.0'"));
    assert!(message.contains("lsp.roslyn.binary.path"));
}

#[test]
fn package_layout_error_appends_sdk_requirement_when_present() {
    let base = package_layout_error(
        "no TFM directory found inside 'roslyn-5.0.0/tools'",
        "roslyn-5.0.0",
        &binary_path_override_hint("lsp.roslyn.binary.path", "a local server binary"),
        None,
    );
    assert!(!base.contains("global.json"));
    let with_sdk = package_layout_error(
        "no TFM directory found inside 'roslyn-5.0.0/tools'",
        "roslyn-5.0.0",
        &binary_path_override_hint("lsp.roslyn.binary.path", "a local server binary"),
        Some("8.0.100"),
    );
    assert_eq!(
        with_sdk,
        format!("{base} global.json requires SDK 8.0.100; ensure an SDK satisfying it is installed.")
    );
}

#[test]
fn global_json_valid_version_is_extracted() {
    let requirement = sdk_requirement_from_global_json(
        r#"{"sdk": {"version": "8.0.100", "rollForward": "latestFeature"}}"#,
    );
    assert_eq!(requirement.as_deref(), Some("8.0.100"));
}

#[test]
fn global_json_version_is_trimmed() {
    let requirement = sdk_requirement_from_global_json(r#"{"sdk": {"version": "  9.0.100  "}}"#);
    assert_eq!(requirement.as_deref(), Some("9.0.100"));
}

#[test]
fn global_json_with_extra_fields_is_tolerated() {
    let requirement = sdk_requirement_from_global_json(
        r#"{"projects": ["src/App"], "sdk": {"version": "8.0.100"}}"#,
    );
    assert_eq!(requirement.as_deref(), Some("8.0.100"));
}

#[test]
fn global_json_missing_sdk_object_yields_none() {
    assert_eq!(sdk_requirement_from_global_json("{}"), None);
}

#[test]
fn global_json_missing_version_field_yields_none() {
    assert_eq!(
        sdk_requirement_from_global_json(r#"{"sdk": {"rollForward": "latestMajor"}}"#),
        None
    );
}

#[test]
fn global_json_non_string_version_yields_none() {
    assert_eq!(
        sdk_requirement_from_global_json(r#"{"sdk": {"version": 8}}"#),
        None
    );
}

#[test]
fn global_json_empty_version_yields_none() {
    assert_eq!(
        sdk_requirement_from_global_json(r#"{"sdk": {"version": ""}}"#),
        None
    );
}

#[test]
fn global_json_invalid_json_yields_none() {
    assert_eq!(sdk_requirement_from_global_json("not json at all"), None);
    assert_eq!(sdk_requirement_from_global_json("[1, 2, 3]"), None);
}

#[test]
fn global_json_null_sdk_yields_none() {
    assert_eq!(sdk_requirement_from_global_json(r#"{"sdk": null}"#), None);
}

#[test]
fn sdk_requirement_sentence_contains_version() {
    let sentence = sdk_requirement_sentence("8.0.100");
    assert_eq!(
        sentence,
        "global.json requires SDK 8.0.100; ensure an SDK satisfying it is installed."
    );
}

#[test]
fn append_sdk_requirement_appends_only_when_present() {
    let base = "Some failure. Fix: do a thing.".to_string();
    assert_eq!(
        append_sdk_requirement(base.clone(), None),
        "Some failure. Fix: do a thing."
    );
    let appended = append_sdk_requirement(base, Some("8.0.100"));
    assert!(appended.starts_with("Some failure. Fix: do a thing. "));
    assert!(appended.contains("global.json requires SDK 8.0.100"));
}

#[test]
fn global_json_whitespace_only_version_yields_none() {
    assert_eq!(
        sdk_requirement_from_global_json(r#"{"sdk": {"version": "   "}}"#),
        None
    );
}

#[test]
fn global_json_array_sdk_yields_none() {
    assert_eq!(
        sdk_requirement_from_global_json(r#"{"sdk": ["8.0.100"]}"#),
        None
    );
}

#[test]
fn global_json_unreadable_file_has_no_requirement() {
    assert_eq!(global_json_sdk_requirement(&None), None);
    assert_eq!(
        global_json_sdk_requirement(&Some(r#"{"sdk": {"version": "7.0.400"}}"#.to_string()))
            .as_deref(),
        Some("7.0.400")
    );
}

#[test]
fn cleanup_error_has_exact_text() {
    assert_eq!(
        cleanup_error("roslyn", "disk full"),
        "Failed to clean up outdated 'roslyn-*' directories (disk full). Fix: close Zed, delete the outdated 'roslyn-*' directories in the extension's working directory, and reopen the project."
    );
    assert!(cleanup_list_error("roslyn", "denied")
        .contains("(failed to list the extension's working directory: denied)"));
    assert!(cleanup_entry_error("roslyn", "gone")
        .contains("(failed to read a directory entry: gone)"));
}

#[test]
fn outdated_entries_are_older_versions_of_the_same_server() {
    assert!(is_outdated_entry("omnisharp", "omnisharp-1.2.3", Some("omnisharp-1.2.2")));
    assert!(!is_outdated_entry("omnisharp", "omnisharp-1.2.3", Some("omnisharp-1.2.3")));
    assert!(!is_outdated_entry("omnisharp", "omnisharp-1.2.3", Some("csharp-ls-0.1.0")));
    assert!(is_outdated_entry("omnisharp", "omnisharp-1.2.3", None));
}

#[test]
fn working_directory_error_has_exact_text() {
    assert_eq!(
        working_directory_error("no such directory"),
        "Failed to resolve the extension's working directory (no such directory). Fix: restart Zed and reopen the project."
    );
}

#[test]
fn exact_message_texts() {
    assert_eq!(
        feed_error("a feed", "boom", "do it"),
        "Could not use a feed (boom); check network, proxy, or offline status. Fix: retry later, or do it."
    );
    assert_eq!(
        download_error("thing", "boom", "dir-1", "do it"),
        "Failed to download thing (boom). Fix: delete the cached directory 'dir-1' in the extension's working directory and retry, or do it."
    );
    assert_eq!(
        layout_error("odd", "dir-1", "do it"),
        "The downloaded language server package has an unexpected layout (odd); it may be corrupt. Fix: delete the cached directory 'dir-1' in the extension's working directory and retry, or do it."
    );
}

#[test]
fn global_json_version_trims_unicode_white_space() {
    assert_eq!(
        sdk_requirement_from_global_json("{\"sdk\": {\"version\": \"\\u00a0\\t8.0.100\\u3000\\n\"}}")
            .as_deref(),
        Some("8.0.100")
    );
    assert_eq!(
        sdk_requirement_from_global_json("{\"sdk\": {\"version\": \"\\u2028\\u0085\"}}"),
        None
    );
}
