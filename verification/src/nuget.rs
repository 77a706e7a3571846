//! The NuGet feed client: finding the package base address, picking the
//! latest published version, and naming the package to download.
use vstd::prelude::*;
use vstd::string::StringExecFns;
use crate::json::{json_bytes_outcome, member, parse_json_bytes, JsonValue};
use crate::text::{chars_of, lowercased, string_of, to_lowercase, trim_end_char, trim_end_matches_char};
use crate::util::{download_error, download_error_text, feed_error, feed_error_text, override_hint_text};
use crate::version::{highest_version, is_highest, parsed_version, version_views, NuGetVersion, VersionView};

verus! {

broadcast use vstd::string::group_string_axioms;

/// The service index of the public NuGet feed.
pub const ROSLYN_NUGET_FEED_INDEX: &'static str = "https://api.nuget.org/v3/index.json";

/// The resource type whose `@id` is the base address of package content.
pub const PACKAGE_BASE_ADDRESS_TYPE: &'static str = "PackageBaseAddress/3.0.0";

/// A client of the NuGet feed that remembers the package base address once
/// it has been read from the service index.
pub struct NuGetClient {
    pub package_base_address: Option<String>,
    pub binary_path_setting: &'static str,
    pub pending: Option<NuGetPending>,
}

/// What a caller asks of the feed.
pub enum NuGetRequest {
    /// The latest published version of a package.
    LatestVersion { package_id: String },
    /// A package file, downloaded and extracted into `dest_dir`.
    Package { package_id: String, version: String, dest_dir: String },
}

/// The outcome of an HTTP GET.
pub enum HttpOutcome {
    /// The request could not be built; the text says why.
    BuildFailed(String),
    /// The request failed; the text says why.
    FetchFailed(String),
    /// The body of the response.
    Body(Vec<u8>),
}

/// What the client waits for.
pub enum NuGetPending {
    /// The service index, before the request can go on.
    ServiceIndex(NuGetRequest),
    /// The version index of a package.
    VersionIndex { package_id: String },
    /// The download of a package file.
    PackageFile { package_id: String, version: String, dest_dir: String },
}

/// What the caller does next for the client.
pub enum NuGetStep {
    /// GET this URL, then hand the outcome to [`NuGetClient::on_http`].
    Fetch { url: String },
    /// Download this zip file and extract it into `dest_dir`, then hand the
    /// outcome to [`NuGetClient::on_download`].
    Download { url: String, dest_dir: String },
    /// The request is done: the version for a version request, nothing for a
    /// package request, or the error.
    Finished(Result<Option<String>, String>),
}

pub open spec fn res_chars(r: Result<String, String>) -> Result<Seq<char>, Seq<char>> {
    match r {
        Ok(s) => Ok(s@),
        Err(e) => Err(e@),
    }
}

/// Text of the fix that NuGet errors propose.
pub open spec fn nuget_fix_text(setting: Seq<char>) -> Seq<char> {
    override_hint_text(setting, "a local server binary"@)
}

/// Text of a NuGet feed error with the given detail.
pub open spec fn nuget_feed_error_text(setting: Seq<char>, detail: Seq<char>) -> Seq<char> {
    feed_error_text("the NuGet feed"@, detail, nuget_fix_text(setting))
}

/// Whether a service-index resource has the package-base-address type.
pub open spec fn is_base_resource(r: JsonValue) -> bool {
    member(r, "@type"@) matches Some(JsonValue::Str(t)) && t@ == PACKAGE_BASE_ADDRESS_TYPE@
}

/// The first resource of the package-base-address type.
pub open spec fn first_base_resource(rs: Seq<JsonValue>) -> Option<JsonValue>
    decreases rs.len(),
{
    if rs.len() == 0 {
        None
    } else if is_base_resource(rs[0]) {
        Some(rs[0])
    } else {
        first_base_resource(rs.drop_first())
    }
}

/// What a service index yields: the `@id` of the first package-base-address
/// resource without trailing slashes, or the error that says what is missing.
pub open spec fn base_address_of(setting: Seq<char>, index: JsonValue) -> Result<
    Seq<char>,
    Seq<char>,
> {
    match member(index, "resources"@) {
        Some(JsonValue::Array(rs)) => match first_base_resource(rs@) {
            Some(r) => match member(r, "@id"@) {
                Some(JsonValue::Str(id)) => Ok(trim_end_char(id@, '/')),
                _ => Err(
                    nuget_feed_error_text(
                        setting,
                        "the service index does not list a 'PackageBaseAddress/3.0.0' resource"@,
                    ),
                ),
            },
            None => Err(
                nuget_feed_error_text(
                    setting,
                    "the service index does not list a 'PackageBaseAddress/3.0.0' resource"@,
                ),
            ),
        },
        _ => Err(nuget_feed_error_text(setting, "the service index contains no 'resources' array"@)),
    }
}

/// The versions among the entries of a version index that are strings and
/// parse, in order.
pub open spec fn parsed_candidates(entries: Seq<JsonValue>) -> Seq<VersionView>
    decreases entries.len(),
{
    if entries.len() == 0 {
        Seq::empty()
    } else {
        let before = parsed_candidates(entries.drop_last());
        match entries.last() {
            JsonValue::Str(s) => match parsed_version(s@) {
                Some(v) => before.push(v),
                None => before,
            },
            _ => before,
        }
    }
}

/// Text of the URL of a package's version index.
pub open spec fn version_index_url_text(base: Seq<char>, package_id: Seq<char>) -> Seq<char> {
    base + "/"@ + lowercased(package_id) + "/index.json"@
}

/// Text of the URL of a package file.
pub open spec fn package_url_text(base: Seq<char>, package_id: Seq<char>, version: Seq<char>) -> Seq<
    char,
> {
    base + "/"@ + lowercased(package_id) + "/"@ + lowercased(version) + "/"@ + lowercased(
        package_id,
    ) + "."@ + lowercased(version) + ".nupkg"@
}

/// The URL of a package's version index under the base address.
pub fn version_index_url(base: &str, package_id: &str) -> (r: String)
    ensures
        r@ == version_index_url_text(base@, package_id@),
{
    let lower_id = to_lowercase(package_id);
    let mut r = String::from_str(base);
    r.append("/");
    r.append(lower_id.as_str());
    r.append("/index.json");
    r
}

/// The URL of a package file under the base address.
pub fn package_url(base: &str, package_id: &str, version: &str) -> (r: String)
    ensures
        r@ == package_url_text(base@, package_id@, version@),
{
    let lower_id = to_lowercase(package_id);
    let lower_version = to_lowercase(version);
    let mut r = String::from_str(base);
    r.append("/");
    r.append(lower_id.as_str());
    r.append("/");
    r.append(lower_version.as_str());
    r.append("/");
    r.append(lower_id.as_str());
    r.append(".");
    r.append(lower_version.as_str());
    r.append(".nupkg");
    r
}

impl NuGetClient {
    /// A client that has not read the service index yet.
    pub fn new(binary_path_setting: &'static str) -> (r: Self)
        ensures
            r.package_base_address is None,
            r.binary_path_setting == binary_path_setting,
            r.pending is None,
    {
        NuGetClient { package_base_address: None, binary_path_setting, pending: None }
    }

    /// The fix that NuGet errors propose: setting the binary path.
    pub fn fix_hint(&self) -> (r: String)
        ensures
            r@ == nuget_fix_text(self.binary_path_setting@),
    {
        crate::util::binary_path_override_hint(self.binary_path_setting, "a local server binary")
    }

    /// A NuGet feed error with the given detail.
    pub fn feed_error(&self, detail: &str) -> (r: String)
        ensures
            r@ == nuget_feed_error_text(self.binary_path_setting@, detail@),
    {
        feed_error("the NuGet feed", detail, self.fix_hint().as_str())
    }
}


/// Text of the error for a service index that is not JSON, with the parser's
/// description.
pub open spec fn index_parse_error_text(setting: Seq<char>, cause: Seq<char>) -> Seq<char> {
    nuget_feed_error_text(setting, "the service index could not be parsed: "@ + cause)
}

/// Text of the error for a service-index request that could not be built.
pub open spec fn index_request_error_text(setting: Seq<char>, cause: Seq<char>) -> Seq<char> {
    nuget_feed_error_text(
        setting,
        "the service index request to '"@ + ROSLYN_NUGET_FEED_INDEX@ + "' could not be built: "@
            + cause,
    )
}

/// Text of the error for a service index that could not be fetched.
pub open spec fn index_fetch_error_text(setting: Seq<char>, cause: Seq<char>) -> Seq<char> {
    nuget_feed_error_text(
        setting,
        "the service index at '"@ + ROSLYN_NUGET_FEED_INDEX@ + "' could not be fetched: "@ + cause,
    )
}

/// Text of the error for a version-index request that could not be built.
pub open spec fn versions_request_error_text(
    setting: Seq<char>,
    package_id: Seq<char>,
    cause: Seq<char>,
) -> Seq<char> {
    nuget_feed_error_text(
        setting,
        "the version index request for '"@ + package_id + "' could not be built: "@ + cause,
    )
}

/// Text of the error for a version index that could not be fetched.
pub open spec fn versions_fetch_error_text(
    setting: Seq<char>,
    package_id: Seq<char>,
    cause: Seq<char>,
) -> Seq<char> {
    nuget_feed_error_text(
        setting,
        "the version index for '"@ + package_id + "' could not be fetched: "@ + cause,
    )
}

/// Text of the error for a version index that is not JSON.
pub open spec fn versions_parse_error_text(
    setting: Seq<char>,
    package_id: Seq<char>,
    cause: Seq<char>,
) -> Seq<char> {
    nuget_feed_error_text(
        setting,
        "the version index for '"@ + package_id + "' could not be parsed: "@ + cause,
    )
}

/// Text of the error for a version index without a `versions` array.
pub open spec fn no_versions_error_text(setting: Seq<char>, package_id: Seq<char>) -> Seq<char> {
    nuget_feed_error_text(
        setting,
        "the version index for '"@ + package_id + "' contains no 'versions' array"@,
    )
}

/// Text of the error for a version index none of whose versions parse.
pub open spec fn no_parseable_error_text(setting: Seq<char>, package_id: Seq<char>) -> Seq<char> {
    nuget_feed_error_text(setting, "'"@ + package_id + "' has no parseable published versions"@)
}

/// What a version index yields: the raw text of the highest parseable version
/// (the last of equally high ones), or the error that says what is missing.
pub open spec fn latest_version_outcome(
    setting: Seq<char>,
    package_id: Seq<char>,
    doc: JsonValue,
    r: Result<Seq<char>, Seq<char>>,
) -> bool {
    match member(doc, "versions"@) {
        Some(JsonValue::Array(entries)) => {
            let parsed = parsed_candidates(entries@);
            if parsed.len() == 0 {
                r == Err::<Seq<char>, Seq<char>>(no_parseable_error_text(setting, package_id))
            } else {
                exists|i: int| is_highest(parsed, i) && r == Ok::<Seq<char>, Seq<char>>(parsed[i].raw)
            }
        },
        _ => r == Err::<Seq<char>, Seq<char>>(no_versions_error_text(setting, package_id)),
    }
}

/// Text of the error for a package download that failed.
pub open spec fn package_download_error_text(
    setting: Seq<char>,
    package_id: Seq<char>,
    version: Seq<char>,
    cause: Seq<char>,
    dest_dir: Seq<char>,
) -> Seq<char> {
    download_error_text(
        "NuGet package '"@ + package_id + "' v"@ + version,
        cause,
        dest_dir,
        nuget_fix_text(setting),
    )
}

/// The versions among `entries` that are strings and parse, in order.
pub fn parse_candidates(entries: &Vec<JsonValue>) -> (r: Vec<NuGetVersion>)
    ensures
        version_views(r@) == parsed_candidates(entries@),
{
    let mut out: Vec<NuGetVersion> = Vec::new();
    for i in 0..entries.len()
        invariant
            version_views(out@) == parsed_candidates(entries@.take(i as int)),
    {
        let ghost before = version_views(out@);
        assert(entries@.take(i + 1).drop_last() == entries@.take(i as int));
        assert(entries@.take(i + 1).last() == entries@[i as int]);
        match entries[i].as_str() {
            Some(text) => match NuGetVersion::parse(text) {
                Some(v) => {
                    out.push(v);
                    assert(version_views(out@) =~= before.push(out@.last()@));
                },
                None => {},
            },
            None => {},
        }
    }
    assert(entries@.take(entries.len() as int) == entries@);
    out
}

impl NuGetClient {
    /// Reads the base address out of a parsed service index.
    pub fn base_address_from_index(&self, index: &JsonValue) -> (r: Result<String, String>)
        ensures
            res_chars(r) == base_address_of(self.binary_path_setting@, *index),
    {
        let missing = "the service index does not list a 'PackageBaseAddress/3.0.0' resource";
        let resources = match index.get("resources") {
            Some(rs) => match rs.as_array() {
                Some(items) => items,
                None => {
                    return Err(self.feed_error("the service index contains no 'resources' array"));
                },
            },
            None => {
                return Err(self.feed_error("the service index contains no 'resources' array"));
            },
        };
        let mut i: usize = 0;
        assert(resources@.skip(0) == resources@);
        while i < resources.len()
            invariant
                i <= resources@.len(),
                first_base_resource(resources@) == first_base_resource(resources@.skip(i as int)),
                member(*index, "resources"@) == Some(JsonValue::Array(*resources)),
                missing@ == "the service index does not list a 'PackageBaseAddress/3.0.0' resource"@,
            decreases resources.len() - i,
        {
            let r = &resources[i];
            assert(resources@.skip(i as int).drop_first() == resources@.skip(i + 1));
            assert(resources@.skip(i as int)[0] == resources@[i as int]);
            let is_base = match r.get("@type") {
                Some(t) => match t.as_str() {
                    Some(text) => {
                        let tc = chars_of(text);
                        let want = chars_of(PACKAGE_BASE_ADDRESS_TYPE);
                        crate::text::same_chars(&tc, &want)
                    },
                    None => false,
                },
                None => false,
            };
            if is_base {
                return match r.get("@id") {
                    Some(id) => match id.as_str() {
                        Some(text) => Ok(string_of(&trim_end_matches_char(&chars_of(text), '/'))),
                        None => Err(self.feed_error(missing)),
                    },
                    None => Err(self.feed_error(missing)),
                };
            }
            i = i + 1;
        }
        Err(self.feed_error(missing))
    }

    /// Reads the latest version out of a parsed version index.
    pub fn latest_version_in(&self, package_id: &str, doc: &JsonValue) -> (r: Result<String, String>)
        ensures
            latest_version_outcome(self.binary_path_setting@, package_id@, *doc, res_chars(r)),
    {
        let entries = match doc.get("versions") {
            Some(v) => match v.as_array() {
                Some(items) => items,
                None => {
                    return Err(self.no_versions_error(package_id));
                },
            },
            None => {
                return Err(self.no_versions_error(package_id));
            },
        };
        let parsed = parse_candidates(entries);
        match highest_version(&parsed) {
            Some(i) => {
                let raw = parsed[i].raw.clone();
                assert(version_views(parsed@)[i as int].raw == raw@);
                Ok(raw)
            },
            None => {
                let mut detail = String::from_str("'");
                detail.append(package_id);
                detail.append("' has no parseable published versions");
                Err(self.feed_error(detail.as_str()))
            },
        }
    }

    fn no_versions_error(&self, package_id: &str) -> (r: String)
        ensures
            r@ == no_versions_error_text(self.binary_path_setting@, package_id@),
    {
        let mut detail = String::from_str("the version index for '");
        detail.append(package_id);
        detail.append("' contains no 'versions' array");
        self.feed_error(detail.as_str())
    }

    /// The error for a service-index request that could not be built.
    pub fn index_request_error(&self, cause: &str) -> (r: String)
        ensures
            r@ == index_request_error_text(self.binary_path_setting@, cause@),
    {
        let mut detail = String::from_str("the service index request to '");
        detail.append(ROSLYN_NUGET_FEED_INDEX);
        detail.append("' could not be built: ");
        detail.append(cause);
        self.feed_error(detail.as_str())
    }

    /// The error for a service index that could not be fetched.
    pub fn index_fetch_error(&self, cause: &str) -> (r: String)
        ensures
            r@ == index_fetch_error_text(self.binary_path_setting@, cause@),
    {
        let mut detail = String::from_str("the service index at '");
        detail.append(ROSLYN_NUGET_FEED_INDEX);
        detail.append("' could not be fetched: ");
        detail.append(cause);
        self.feed_error(detail.as_str())
    }

    /// The error for a version-index request that could not be built.
    pub fn versions_request_error(&self, package_id: &str, cause: &str) -> (r: String)
        ensures
            r@ == versions_request_error_text(self.binary_path_setting@, package_id@, cause@),
    {
        let mut detail = String::from_str("the version index request for '");
        detail.append(package_id);
        detail.append("' could not be built: ");
        detail.append(cause);
        self.feed_error(detail.as_str())
    }

    /// The error for a version index that could not be fetched.
    pub fn versions_fetch_error(&self, package_id: &str, cause: &str) -> (r: String)
        ensures
            r@ == versions_fetch_error_text(self.binary_path_setting@, package_id@, cause@),
    {
        let mut detail = String::from_str("the version index for '");
        detail.append(package_id);
        detail.append("' could not be fetched: ");
        detail.append(cause);
        self.feed_error(detail.as_str())
    }

    /// The error for a package download that failed.
    pub fn package_download_error(
        &self,
        package_id: &str,
        version: &str,
        cause: &str,
        dest_dir: &str,
    ) -> (r: String)
        ensures
            r@ == package_download_error_text(
                self.binary_path_setting@,
                package_id@,
                version@,
                cause@,
                dest_dir@,
            ),
    {
        let mut what = String::from_str("NuGet package '");
        what.append(package_id);
        what.append("' v");
        what.append(version);
        download_error(what.as_str(), cause, dest_dir, self.fix_hint().as_str())
    }

    /// Takes the body of the service index: remembers the base address it
    /// names, or reports why it names none.
    pub fn accept_service_index(&mut self, body: &[u8]) -> (r: Result<String, String>)
        ensures
            final(self).binary_path_setting == old(self).binary_path_setting,
            final(self).pending == old(self).pending,
            match json_bytes_outcome(body@) {
                Ok(doc) => res_chars(r) == base_address_of(old(self).binary_path_setting@, doc),
                Err(cause) => res_chars(r) == Err::<Seq<char>, Seq<char>>(
                    index_parse_error_text(old(self).binary_path_setting@, cause),
                ),
            },
            match r {
                Ok(base) => final(self).package_base_address == Some(base),
                Err(_) => final(self).package_base_address == old(self).package_base_address,
            },
    {
        match parse_json_bytes(body) {
            Ok(doc) => {
                let r = self.base_address_from_index(&doc);
                match r {
                    Ok(base) => {
                        self.package_base_address = Some(base.clone());
                        Ok(base)
                    },
                    Err(e) => Err(e),
                }
            },
            Err(cause) => {
                let mut detail = String::from_str("the service index could not be parsed: ");
                detail.append(cause.as_str());
                let msg = self.feed_error(detail.as_str());
                assert(msg@ == index_parse_error_text(self.binary_path_setting@, cause@));
                Err(msg)
            },
        }
    }

    /// Takes the body of a package's version index and picks its latest
    /// version, or reports why there is none.
    pub fn latest_version_from_response(&self, package_id: &str, body: &[u8]) -> (r: Result<
        String,
        String,
    >)
        ensures
            match json_bytes_outcome(body@) {
                Ok(doc) => latest_version_outcome(
                    self.binary_path_setting@,
                    package_id@,
                    doc,
                    res_chars(r),
                ),
                Err(cause) => res_chars(r) == Err::<Seq<char>, Seq<char>>(
                    versions_parse_error_text(self.binary_path_setting@, package_id@, cause),
                ),
            },
    {
        match parse_json_bytes(body) {
            Ok(doc) => self.latest_version_in(package_id, &doc),
            Err(cause) => {
                let mut detail = String::from_str("the version index for '");
                detail.append(package_id);
                detail.append("' could not be parsed: ");
                detail.append(cause.as_str());
                let msg = self.feed_error(detail.as_str());
                assert(msg@ == versions_parse_error_text(
                    self.binary_path_setting@,
                    package_id@,
                    cause@,
                ));
                Err(msg)
            },
        }
    }
}


/// `step` asks for a GET of `url`.
pub open spec fn is_fetch(step: NuGetStep, url: Seq<char>) -> bool {
    step matches NuGetStep::Fetch { url: u } && u@ == url
}

/// `step` finishes with an error whose text is `text`.
pub open spec fn is_failure(step: NuGetStep, text: Seq<char>) -> bool {
    step matches NuGetStep::Finished(Err(e)) && e@ == text
}

/// Going on with `request` once the base address is known: a version request
/// fetches the package's version index, a package request downloads the
/// package file.
pub open spec fn proceeds(
    base: Seq<char>,
    request: NuGetRequest,
    pending: Option<NuGetPending>,
    step: NuGetStep,
) -> bool {
    match request {
        NuGetRequest::LatestVersion { package_id } => {
            &&& pending == Some(NuGetPending::VersionIndex { package_id })
            &&& is_fetch(step, version_index_url_text(base, package_id@))
        },
        NuGetRequest::Package { package_id, version, dest_dir } => {
            &&& pending == Some(NuGetPending::PackageFile { package_id, version, dest_dir })
            &&& step matches NuGetStep::Download { url, dest_dir: d } && url@ == package_url_text(
                base,
                package_id@,
                version@,
            ) && d == dest_dir
        },
    }
}

/// How [`NuGetClient::begin`] starts a request: with a known base address it
/// goes straight on; otherwise it fetches the service index first.
pub open spec fn begins(old: NuGetClient, request: NuGetRequest, new: NuGetClient, step: NuGetStep) -> bool {
    &&& new.binary_path_setting == old.binary_path_setting
    &&& new.package_base_address == old.package_base_address
    &&& match old.package_base_address {
        Some(base) => proceeds(base@, request, new.pending, step),
        None => {
            &&& new.pending == Some(NuGetPending::ServiceIndex(request))
            &&& is_fetch(step, ROSLYN_NUGET_FEED_INDEX@)
        },
    }
}

/// How [`NuGetClient::on_http`] answers the outcome of the GET it asked for.
pub open spec fn handles_http(old: NuGetClient, outcome: HttpOutcome, new: NuGetClient, step: NuGetStep) -> bool {
    let setting = old.binary_path_setting@;
    &&& new.binary_path_setting == old.binary_path_setting
    &&& match old.pending {
        Some(NuGetPending::ServiceIndex(request)) => match outcome {
            HttpOutcome::BuildFailed(cause) => {
                &&& is_failure(step, index_request_error_text(setting, cause@))
                &&& new.pending is None
                &&& new.package_base_address == old.package_base_address
            },
            HttpOutcome::FetchFailed(cause) => {
                &&& is_failure(step, index_fetch_error_text(setting, cause@))
                &&& new.pending is None
                &&& new.package_base_address == old.package_base_address
            },
            HttpOutcome::Body(body) => match json_bytes_outcome(body@) {
                Ok(doc) => match base_address_of(setting, doc) {
                    Ok(base) => {
                        &&& new.package_base_address matches Some(b) && b@ == base
                        &&& proceeds(base, request, new.pending, step)
                    },
                    Err(text) => {
                        &&& is_failure(step, text)
                        &&& new.pending is None
                        &&& new.package_base_address == old.package_base_address
                    },
                },
                Err(cause) => {
                    &&& is_failure(step, index_parse_error_text(setting, cause))
                    &&& new.pending is None
                    &&& new.package_base_address == old.package_base_address
                },
            },
        },
        Some(NuGetPending::VersionIndex { package_id }) => {
            &&& new.pending is None
            &&& new.package_base_address == old.package_base_address
            &&& match outcome {
                HttpOutcome::BuildFailed(cause) => is_failure(
                    step,
                    versions_request_error_text(setting, package_id@, cause@),
                ),
                HttpOutcome::FetchFailed(cause) => is_failure(
                    step,
                    versions_fetch_error_text(setting, package_id@, cause@),
                ),
                HttpOutcome::Body(body) => match json_bytes_outcome(body@) {
                    Ok(doc) => step matches NuGetStep::Finished(r) && latest_version_outcome(
                        setting,
                        package_id@,
                        doc,
                        match r {
                            Ok(Some(v)) => Ok(v@),
                            Ok(None) => Ok(Seq::empty()),
                            Err(e) => Err(e@),
                        },
                    ) && !(r matches Ok(None)),
                    Err(cause) => is_failure(
                        step,
                        versions_parse_error_text(setting, package_id@, cause),
                    ),
                },
            }
        },
        _ => false,
    }
}

impl NuGetClient {
    fn proceed(&mut self, base: &str, request: NuGetRequest) -> (step: NuGetStep)
        ensures
            final(self).binary_path_setting == old(self).binary_path_setting,
            final(self).package_base_address == old(self).package_base_address,
            proceeds(base@, request, final(self).pending, step),
    {
        match request {
            NuGetRequest::LatestVersion { package_id } => {
                let url = version_index_url(base, package_id.as_str());
                self.pending = Some(NuGetPending::VersionIndex { package_id });
                NuGetStep::Fetch { url }
            },
            NuGetRequest::Package { package_id, version, dest_dir } => {
                let url = package_url(base, package_id.as_str(), version.as_str());
                let d = dest_dir.clone();
                self.pending = Some(NuGetPending::PackageFile { package_id, version, dest_dir });
                NuGetStep::Download { url, dest_dir: d }
            },
        }
    }

    /// Abandons the request under way, keeping the base address.
    pub fn cancel(&mut self)
        ensures
            final(self).pending is None,
            final(self).package_base_address == old(self).package_base_address,
            final(self).binary_path_setting == old(self).binary_path_setting,
    {
        self.pending = None;
    }

    /// Whether the client waits for the outcome of a GET.
    pub fn awaits_http(&self) -> (r: bool)
        ensures
            r == (self.pending matches Some(p) && !(p is PackageFile)),
    {
        match &self.pending {
            Some(NuGetPending::PackageFile { .. }) => false,
            Some(_) => true,
            None => false,
        }
    }

    /// Whether the client waits for the outcome of a download.
    pub fn awaits_download(&self) -> (r: bool)
        ensures
            r == (self.pending matches Some(p) && p is PackageFile),
    {
        match &self.pending {
            Some(NuGetPending::PackageFile { .. }) => true,
            _ => false,
        }
    }

    /// Starts a request; see [`begins`].
    pub fn begin(&mut self, request: NuGetRequest) -> (step: NuGetStep)
        ensures
            begins(*old(self), request, *final(self), step),
    {
        match &self.package_base_address {
            Some(base) => {
                let b = base.clone();
                self.proceed(b.as_str(), request)
            },
            None => {
                self.pending = Some(NuGetPending::ServiceIndex(request));
                NuGetStep::Fetch { url: String::from_str(ROSLYN_NUGET_FEED_INDEX) }
            },
        }
    }

    /// Takes the outcome of the GET that the last step asked for; see
    /// [`handles_http`].
    pub fn on_http(&mut self, outcome: HttpOutcome) -> (step: NuGetStep)
        requires
            old(self).pending matches Some(p) && !(p is PackageFile),
        ensures
            handles_http(*old(self), outcome, *final(self), step),
    {
        let pending = self.pending.take();
        match pending {
            Some(NuGetPending::ServiceIndex(request)) => match outcome {
                HttpOutcome::BuildFailed(cause) => NuGetStep::Finished(
                    Err(self.index_request_error(cause.as_str())),
                ),
                HttpOutcome::FetchFailed(cause) => NuGetStep::Finished(
                    Err(self.index_fetch_error(cause.as_str())),
                ),
                HttpOutcome::Body(body) => match self.accept_service_index(body.as_slice()) {
                    Ok(base) => self.proceed(base.as_str(), request),
                    Err(e) => NuGetStep::Finished(Err(e)),
                },
            },
            Some(NuGetPending::VersionIndex { package_id }) => match outcome {
                HttpOutcome::BuildFailed(cause) => NuGetStep::Finished(
                    Err(self.versions_request_error(package_id.as_str(), cause.as_str())),
                ),
                HttpOutcome::FetchFailed(cause) => NuGetStep::Finished(
                    Err(self.versions_fetch_error(package_id.as_str(), cause.as_str())),
                ),
                HttpOutcome::Body(body) => match self.latest_version_from_response(
                    package_id.as_str(),
                    body.as_slice(),
                ) {
                    Ok(v) => NuGetStep::Finished(Ok(Some(v))),
                    Err(e) => NuGetStep::Finished(Err(e)),
                },
            },
            _ => NuGetStep::Finished(Ok(None)),
        }
    }

    /// Takes the outcome of the download that the last step asked for: the
    /// request is done, or fails with the download error.
    pub fn on_download(&mut self, outcome: Result<(), String>) -> (step: NuGetStep)
        requires
            old(self).pending matches Some(p) && p is PackageFile,
        ensures
            final(self).pending is None,
            final(self).binary_path_setting == old(self).binary_path_setting,
            final(self).package_base_address == old(self).package_base_address,
            match outcome {
                Ok(()) => step matches NuGetStep::Finished(Ok(None)),
                Err(cause) => old(self).pending matches Some(
                    NuGetPending::PackageFile { package_id, version, dest_dir },
                ) && is_failure(
                    step,
                    package_download_error_text(
                        old(self).binary_path_setting@,
                        package_id@,
                        version@,
                        cause@,
                        dest_dir@,
                    ),
                ),
            },
    {
        let pending = self.pending.take();
        match pending {
            Some(NuGetPending::PackageFile { package_id, version, dest_dir }) => match outcome {
                Ok(()) => NuGetStep::Finished(Ok(None)),
                Err(cause) => NuGetStep::Finished(
                    Err(
                        self.package_download_error(
                            package_id.as_str(),
                            version.as_str(),
                            cause.as_str(),
                            dest_dir.as_str(),
                        ),
                    ),
                ),
            },
            _ => NuGetStep::Finished(Ok(None)),
        }
    }
}


/// The service index is read at most once: after it has named a base address,
/// the client holds that address, and a request begun afterwards goes
/// straight to its own URL instead of waiting for the service index again.
pub proof fn lemma_base_address_reused(
    c0: NuGetClient,
    body: Vec<u8>,
    c1: NuGetClient,
    step1: NuGetStep,
    request: NuGetRequest,
    c2: NuGetClient,
    step2: NuGetStep,
)
    requires
        c0.pending matches Some(NuGetPending::ServiceIndex(_)),
        json_bytes_outcome(body@) matches Ok(doc) && base_address_of(
            c0.binary_path_setting@,
            doc,
        ) is Ok,
        handles_http(c0, HttpOutcome::Body(body), c1, step1),
        begins(c1, request, c2, step2),
    ensures
        c1.package_base_address matches Some(b) && b@ == base_address_of(
            c0.binary_path_setting@,
            json_bytes_outcome(body@)->Ok_0,
        )->Ok_0,
        proceeds(c1.package_base_address.unwrap()@, request, c2.pending, step2),
        !(c2.pending matches Some(NuGetPending::ServiceIndex(_))),
{
}

} // verus!
