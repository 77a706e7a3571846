//! The remediation messages shared by every language server, and the
//! small decisions about cached directories and `global.json`.
use vstd::prelude::*;
use vstd::string::StringExecFns;
use crate::text::{chars_of, same_chars, starts_with, string_of, trim_chars, trimmed};
use crate::json::{json_text_document, member, parse_json_text, JsonValue};

verus! {

broadcast use vstd::string::group_string_axioms;

/// Text of [`binary_path_override_hint`].
pub open spec fn override_hint_text(setting: Seq<char>, binary: Seq<char>) -> Seq<char> {
    "set `"@ + setting + "` to "@ + binary + " or an already-cached version directory"@
}

/// The fix that names a binary-path setting as the way around a failed install.
pub fn binary_path_override_hint(binary_path_setting: &str, binary_description: &str) -> (r:
    String)
    ensures
        r@ == override_hint_text(binary_path_setting@, binary_description@),
{
    let mut r = String::from_str("set `");
    r.append(binary_path_setting);
    r.append("` to ");
    r.append(binary_description);
    r.append(" or an already-cached version directory");
    r
}

/// Text of [`feed_error`].
pub open spec fn feed_error_text(source: Seq<char>, detail: Seq<char>, fix: Seq<char>) -> Seq<
    char,
> {
    "Could not use "@ + source + " ("@ + detail
        + "); check network, proxy, or offline status. Fix: retry later, or "@ + fix + "."@
}

/// A failure to reach a package feed or release list.
pub fn feed_error(source: &str, detail: &str, fix: &str) -> (r: String)
    ensures
        r@ == feed_error_text(source@, detail@, fix@),
{
    let mut r = String::from_str("Could not use ");
    r.append(source);
    r.append(" (");
    r.append(detail);
    r.append("); check network, proxy, or offline status. Fix: retry later, or ");
    r.append(fix);
    r.append(".");
    r
}

/// Text of [`download_error`].
pub open spec fn download_error_text(
    what: Seq<char>,
    detail: Seq<char>,
    version_dir: Seq<char>,
    fix: Seq<char>,
) -> Seq<char> {
    "Failed to download "@ + what + " ("@ + detail + "). Fix: delete the cached directory '"@
        + version_dir + "' in the extension's working directory and retry, or "@ + fix + "."@
}

/// A failed download into a cached version directory.
pub fn download_error(what: &str, detail: &str, version_dir: &str, fix: &str) -> (r: String)
    ensures
        r@ == download_error_text(what@, detail@, version_dir@, fix@),
{
    let mut r = String::from_str("Failed to download ");
    r.append(what);
    r.append(" (");
    r.append(detail);
    r.append("). Fix: delete the cached directory '");
    r.append(version_dir);
    r.append("' in the extension's working directory and retry, or ");
    r.append(fix);
    r.append(".");
    r
}

/// Text of [`layout_error`].
pub open spec fn layout_error_text(detail: Seq<char>, version_dir: Seq<char>, fix: Seq<char>) -> Seq<
    char,
> {
    "The downloaded language server package has an unexpected layout ("@ + detail
        + "); it may be corrupt. Fix: delete the cached directory '"@ + version_dir
        + "' in the extension's working directory and retry, or "@ + fix + "."@
}

/// A downloaded package whose files are not where they should be.
pub fn layout_error(detail: &str, version_dir: &str, fix: &str) -> (r: String)
    ensures
        r@ == layout_error_text(detail@, version_dir@, fix@),
{
    let mut r = String::from_str("The downloaded language server package has an unexpected layout (");
    r.append(detail);
    r.append("); it may be corrupt. Fix: delete the cached directory '");
    r.append(version_dir);
    r.append("' in the extension's working directory and retry, or ");
    r.append(fix);
    r.append(".");
    r
}

/// Text of [`sdk_requirement_sentence`].
pub open spec fn sdk_sentence_text(requirement: Seq<char>) -> Seq<char> {
    "global.json requires SDK "@ + requirement + "; ensure an SDK satisfying it is installed."@
}

/// The sentence that reports which SDK `global.json` asks for.
pub fn sdk_requirement_sentence(requirement: &str) -> (r: String)
    ensures
        r@ == sdk_sentence_text(requirement@),
{
    let mut r = String::from_str("global.json requires SDK ");
    r.append(requirement);
    r.append("; ensure an SDK satisfying it is installed.");
    r
}

/// A message followed, when there is a requirement, by a space and the SDK
/// sentence.
pub open spec fn with_sdk_requirement(message: Seq<char>, requirement: Option<Seq<char>>) -> Seq<
    char,
> {
    match requirement {
        Some(req) => message + " "@ + sdk_sentence_text(req),
        None => message,
    }
}

pub open spec fn opt_str_chars(o: Option<&str>) -> Option<Seq<char>> {
    match o {
        Some(s) => Some(s@),
        None => None,
    }
}

/// Appends the SDK sentence to `message` when `global.json` names a requirement.
pub fn append_sdk_requirement(message: String, requirement: Option<&str>) -> (r: String)
    ensures
        r@ == with_sdk_requirement(message@, opt_str_chars(requirement)),
{
    match requirement {
        Some(req) => {
            let mut r = message;
            r.append(" ");
            let sentence = sdk_requirement_sentence(req);
            r.append(sentence.as_str());
            r
        },
        None => message,
    }
}

/// A layout error with the SDK sentence appended when there is a requirement.
pub fn package_layout_error(
    detail: &str,
    version_dir: &str,
    fix: &str,
    sdk_requirement: Option<&str>,
) -> (r: String)
    ensures
        r@ == with_sdk_requirement(
            layout_error_text(detail@, version_dir@, fix@),
            opt_str_chars(sdk_requirement),
        ),
{
    append_sdk_requirement(layout_error(detail, version_dir, fix), sdk_requirement)
}

/// Text of [`cleanup_error`].
pub open spec fn cleanup_error_text(server_id: Seq<char>, detail: Seq<char>) -> Seq<char> {
    "Failed to clean up outdated '"@ + server_id + "-*' directories ("@ + detail
        + "). Fix: close Zed, delete the outdated '"@ + server_id
        + "-*' directories in the extension's working directory, and reopen the project."@
}

/// A failure while removing cached directories of older versions.
pub fn cleanup_error(language_server_id: &str, detail: &str) -> (r: String)
    ensures
        r@ == cleanup_error_text(language_server_id@, detail@),
{
    let mut r = String::from_str("Failed to clean up outdated '");
    r.append(language_server_id);
    r.append("-*' directories (");
    r.append(detail);
    r.append("). Fix: close Zed, delete the outdated '");
    r.append(language_server_id);
    r.append("-*' directories in the extension's working directory, and reopen the project.");
    r
}


/// Text of [`cleanup_list_error`].
pub open spec fn cleanup_list_error_text(server_id: Seq<char>, cause: Seq<char>) -> Seq<char> {
    cleanup_error_text(
        server_id,
        "failed to list the extension's working directory: "@ + cause,
    )
}

/// The working directory could not be listed while removing old versions.
pub fn cleanup_list_error(language_server_id: &str, cause: &str) -> (r: String)
    ensures
        r@ == cleanup_list_error_text(language_server_id@, cause@),
{
    let mut detail = String::from_str("failed to list the extension's working directory: ");
    detail.append(cause);
    cleanup_error(language_server_id, detail.as_str())
}

/// Text of [`cleanup_entry_error`].
pub open spec fn cleanup_entry_error_text(server_id: Seq<char>, cause: Seq<char>) -> Seq<char> {
    cleanup_error_text(server_id, "failed to read a directory entry: "@ + cause)
}

/// An entry of the working directory could not be read while removing old
/// versions.
pub fn cleanup_entry_error(language_server_id: &str, cause: &str) -> (r: String)
    ensures
        r@ == cleanup_entry_error_text(language_server_id@, cause@),
{
    let mut detail = String::from_str("failed to read a directory entry: ");
    detail.append(cause);
    cleanup_error(language_server_id, detail.as_str())
}

/// Which entries of the working directory belong to an older version of a
/// server: those whose name starts with the server's id and is not the
/// current version's directory, and those whose name is not valid UTF-8.
pub open spec fn outdated_entry(
    server_id: Seq<char>,
    version_dir: Seq<char>,
    file_name: Option<Seq<char>>,
) -> bool {
    match file_name {
        Some(name) => server_id.is_prefix_of(name) && name != version_dir,
        None => true,
    }
}

/// Decides whether a directory entry is removed when old versions are cleaned
/// up; `file_name` is `None` when the name is not valid UTF-8.
pub fn is_outdated_entry(language_server_id: &str, version_dir: &str, file_name: Option<&str>) -> (r:
    bool)
    ensures
        r == outdated_entry(language_server_id@, version_dir@, opt_str_chars(file_name)),
{
    match file_name {
        Some(name) => {
            let n = chars_of(name);
            starts_with(&n, &chars_of(language_server_id)) && !same_chars(&n, &chars_of(version_dir))
        },
        None => true,
    }
}

/// Cleaning up never removes the directory of the version in use.
pub proof fn lemma_current_version_kept(server_id: Seq<char>, version_dir: Seq<char>)
    ensures
        !outdated_entry(server_id, version_dir, Some(version_dir)),
{
}

/// Text of [`working_directory_error`].
pub open spec fn working_directory_error_text(cause: Seq<char>) -> Seq<char> {
    "Failed to resolve the extension's working directory ("@ + cause
        + "). Fix: restart Zed and reopen the project."@
}

/// The extension's working directory could not be determined.
pub fn working_directory_error(cause: &str) -> (r: String)
    ensures
        r@ == working_directory_error_text(cause@),
{
    let mut r = String::from_str("Failed to resolve the extension's working directory (");
    r.append(cause);
    r.append("). Fix: restart Zed and reopen the project.");
    r
}


/// The SDK version that a `global.json` document asks for: the string at
/// `sdk.version`, trimmed, when it is not empty.
pub open spec fn sdk_requirement_in(doc: JsonValue) -> Option<Seq<char>> {
    match member(doc, "sdk"@) {
        Some(sdk) => match member(sdk, "version"@) {
            Some(JsonValue::Str(v)) => if trimmed(v@).len() > 0 {
                Some(trimmed(v@))
            } else {
                None
            },
            _ => None,
        },
        None => None,
    }
}

pub open spec fn opt_string_chars(o: Option<String>) -> Option<Seq<char>> {
    match o {
        Some(s) => Some(s@),
        None => None,
    }
}

/// Reads the SDK requirement out of a parsed `global.json` document.
pub fn sdk_requirement_from_document(doc: &JsonValue) -> (r: Option<String>)
    ensures
        opt_string_chars(r) == sdk_requirement_in(*doc),
{
    let sdk = match doc.get("sdk") {
        Some(sdk) => sdk,
        None => return None,
    };
    let version = match sdk.get("version") {
        Some(v) => v,
        None => return None,
    };
    match version.as_str() {
        Some(text) => {
            let t = trim_chars(&chars_of(text));
            if t.len() == 0 {
                None
            } else {
                Some(string_of(&t))
            }
        },
        None => None,
    }
}

/// The SDK requirement of a `global.json` text; `None` when the text is not
/// JSON or names no non-empty `sdk.version` string.
pub fn sdk_requirement_from_global_json(global_json: &str) -> (r: Option<String>)
    ensures
        opt_string_chars(r) == match json_text_document(global_json@) {
            Some(doc) => sdk_requirement_in(doc),
            None => None,
        },
{
    match parse_json_text(global_json) {
        Ok(doc) => sdk_requirement_from_document(&doc),
        Err(_) => None,
    }
}


/// The SDK requirement of a worktree, given the text of its `global.json`
/// when that file could be read.
pub open spec fn global_json_requirement(contents: Option<String>) -> Option<Seq<char>> {
    match contents {
        Some(text) => match json_text_document(text@) {
            Some(doc) => sdk_requirement_in(doc),
            None => None,
        },
        None => None,
    }
}

/// The SDK requirement of a worktree, given the text of its `global.json`
/// when that file could be read.
pub fn global_json_sdk_requirement(contents: &Option<String>) -> (r: Option<String>)
    ensures
        opt_string_chars(r) == global_json_requirement(*contents),
{
    match contents {
        Some(text) => sdk_requirement_from_global_json(text.as_str()),
        None => None,
    }
}

} // verus!
