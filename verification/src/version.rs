//! Resolving the release to install: the latest tag of the editor API, the
//! upstream commit that its manifest pins, and the location of the build.

use vstd::prelude::*;

use crate::config::{info_outcome, ServerInfo, ServerInfoView};
use crate::error::{text_outcome, ServerError, ServerErrorView};
use crate::json::{json_document, parse_document, parsed_view, JsonValue, JsonView};
use crate::platform::{platform_of_host, Platform};
use crate::text::{concat2, concat3};

verus! {

/// The time that any one request may take as a whole, in seconds. Beyond it
/// the request counts as failed; nothing is retried.
pub const REQUEST_TIMEOUT_SECS: u64 = 300;

/// The location of the tag list of the editor API's repository.
pub open spec fn tags_location() -> Seq<char> {
    "https://api.github.com/repos/CodinGame/monaco-vscode-api/tags"@
}

/// The location of the manifest of the release tagged `tag`.
pub open spec fn manifest_location(tag: Seq<char>) -> Seq<char> {
    "https://raw.githubusercontent.com/CodinGame/monaco-vscode-api/"@ + tag + "/package.json"@
}

/// The location of the server build of `commit` for `platform`.
pub open spec fn download_location(commit: Seq<char>, platform: Platform) -> Seq<char> {
    "https://update.code.visualstudio.com/commit:"@ + commit + "/"@ + platform.flavor() + "/"@
        + platform.channel()
}

/// The name of one entry of a tag list: the string under `name`.
pub open spec fn tag_name(entry: JsonView) -> Option<Seq<char>> {
    match entry.member("name"@) {
        Some(name) => name.text(),
        None => None,
    }
}

/// The names of a tag list, in its order: the document must be an array in
/// which every entry has a name.
pub open spec fn release_tags(doc: JsonView) -> Option<Seq<Seq<char>>> {
    match doc {
        JsonView::Array(entries) => if forall|i: int|
            0 <= i < entries.len() ==> (#[trigger] tag_name(entries[i])) is Some {
            Some(Seq::new(entries.len(), |i: int| tag_name(entries[i])->0))
        } else {
            None
        },
        _ => None,
    }
}

/// The upstream commit that a manifest pins: the string under
/// `config.vscode.commit`.
pub open spec fn pinned_commit(manifest: JsonView) -> Option<Seq<char>> {
    match manifest.member("config"@) {
        Some(config) => match config.member("vscode"@) {
            Some(vscode) => match vscode.member("commit"@) {
                Some(commit) => commit.text(),
                None => None,
            },
            None => None,
        },
        None => None,
    }
}

/// The release that a parsed tag list selects: its first tag. The order of
/// the list is trusted to be newest first; versions are not compared.
pub open spec fn selected_release(parsed: Result<JsonView, Seq<char>>) -> Result<
    Seq<char>,
    ServerErrorView,
> {
    match parsed {
        Err(complaint) => Err(
            ServerErrorView::VersionDetectionFailed("Invalid tag list: "@ + complaint),
        ),
        Ok(doc) => match release_tags(doc) {
            None => Err(
                ServerErrorView::VersionDetectionFailed(
                    "Invalid tag list: expected an array of named tags"@,
                ),
            ),
            Some(tags) => if tags.len() == 0 {
                Err(
                    ServerErrorView::VersionDetectionFailed(
                        "No tags found in monaco-vscode-api repository"@,
                    ),
                )
            } else {
                Ok(tags[0])
            },
        },
    }
}

/// The release that a tag and its parsed manifest resolve to on a host.
/// The manifest is examined before the host is.
pub open spec fn resolved_info(
    tag: Seq<char>,
    parsed: Result<JsonView, Seq<char>>,
    os: Seq<char>,
    arch: Seq<char>,
) -> Result<ServerInfoView, ServerErrorView> {
    match parsed {
        Err(complaint) => Err(
            ServerErrorView::VersionDetectionFailed("Invalid package.json: "@ + complaint),
        ),
        Ok(manifest) => match pinned_commit(manifest) {
            None => Err(
                ServerErrorView::VersionDetectionFailed(
                    "Invalid package.json: config.vscode.commit is missing"@,
                ),
            ),
            Some(commit) => match platform_of_host(os, arch) {
                None => Err(
                    ServerErrorView::UnsupportedPlatform(
                        "Unsupported platform: "@ + os + " "@ + arch,
                    ),
                ),
                Some(platform) => Ok(
                    ServerInfoView {
                        monaco_api_version: tag,
                        vscode_commit: commit,
                        platform,
                        download_url: download_location(commit, platform),
                    },
                ),
            },
        },
    }
}

/// The location of the tag list.
pub fn tags_url() -> (url: &'static str)
    ensures
        url@ == tags_location(),
{
    "https://api.github.com/repos/CodinGame/monaco-vscode-api/tags"
}

/// The location of the manifest of the release tagged `tag`.
pub fn manifest_url(tag: &str) -> (url: String)
    ensures
        url@ == manifest_location(tag@),
{
    concat3(
        "https://raw.githubusercontent.com/CodinGame/monaco-vscode-api/",
        tag,
        "/package.json",
    )
}

/// The location of the server build of `commit` for `platform`.
pub fn download_url(commit: &str, platform: Platform) -> (url: String)
    ensures
        url@ == download_location(commit@, platform),
{
    let mut url = concat3("https://update.code.visualstudio.com/commit:", commit, "/");
    url.append(platform.server_flavor());
    url.append("/");
    url.append(platform.url_suffix());
    url
}

/// Reads the names out of a tag list. `None` where the document is no array
/// or an entry has no name.
pub fn tag_names(doc: &JsonValue) -> (names: Option<Vec<String>>)
    ensures
        names.deep_view() == release_tags(doc@),
{
    match doc.as_array() {
        None => None,
        Some(entries) => {
            let ghost listed = doc@->Array_0;
            let mut names: Vec<String> = Vec::new();
            let mut i: usize = 0;
            while i < entries.len()
                invariant
                    i <= entries.len(),
                    doc@ == JsonView::Array(listed),
                    listed.len() == entries@.len(),
                    forall|k: int| 0 <= k < entries@.len() ==> listed[k] == entries@[k]@,
                    names@.len() == i,
                    forall|k: int| 0 <= k < i ==> (#[trigger] tag_name(listed[k])) == Some(names@[k]@),
                decreases entries.len() - i,
            {
                let name = match entries[i].get("name") {
                    Some(value) => value.as_text(),
                    None => None,
                };
                match name {
                    None => {
                        assert(tag_name(listed[i as int]) is None);
                        return None;
                    },
                    Some(text) => {
                        names.push(String::from_str(text));
                    },
                }
                i = i + 1;
            }
            proof {
                let expected = Seq::new(listed.len(), |k: int| tag_name(listed[k])->0);
                assert(names.deep_view() =~= expected);
            }
            Some(names)
        },
    }
}

/// Reads the pinned upstream commit out of a manifest. `None` where
/// `config.vscode.commit` is missing or no string.
pub fn manifest_commit(manifest: &JsonValue) -> (commit: Option<String>)
    ensures
        commit.deep_view() == pinned_commit(manifest@),
{
    let config = match manifest.get("config") {
        Some(config) => config,
        None => {
            return None;
        },
    };
    let vscode = match config.get("vscode") {
        Some(vscode) => vscode,
        None => {
            return None;
        },
    };
    let commit = match vscode.get("commit") {
        Some(commit) => commit,
        None => {
            return None;
        },
    };
    match commit.as_text() {
        Some(text) => Some(String::from_str(text)),
        None => None,
    }
}

/// Selects the release to install from a parsed tag list: the first tag.
/// A text that did not parse, a document that is no list of named tags and
/// an empty list are each refused as a failed detection.
pub fn select_release(parsed: Result<JsonValue, String>) -> (release: Result<String, ServerError>)
    ensures
        text_outcome(release) == selected_release(parsed_view(parsed)),
{
    match parsed {
        Err(complaint) => Err(
            ServerError::VersionDetectionFailed(concat2("Invalid tag list: ", complaint.as_str())),
        ),
        Ok(doc) => match tag_names(&doc) {
            None => Err(
                ServerError::VersionDetectionFailed(
                    String::from_str("Invalid tag list: expected an array of named tags"),
                ),
            ),
            Some(names) => {
                if names.len() == 0 {
                    Err(
                        ServerError::VersionDetectionFailed(
                            String::from_str("No tags found in monaco-vscode-api repository"),
                        ),
                    )
                } else {
                    Ok(names[0].clone())
                }
            },
        },
    }
}

/// Resolves the release of `tag` from its parsed manifest, for the host
/// named by `os` and `arch`. A manifest that did not parse or pins no commit
/// is refused as a failed detection, an unsupported host as such.
pub fn resolve_info(tag: String, parsed: Result<JsonValue, String>, os: &str, arch: &str) -> (info:
    Result<ServerInfo, ServerError>)
    ensures
        info_outcome(info) == resolved_info(tag@, parsed_view(parsed), os@, arch@),
{
    match parsed {
        Err(complaint) => Err(
            ServerError::VersionDetectionFailed(
                concat2("Invalid package.json: ", complaint.as_str()),
            ),
        ),
        Ok(manifest) => match manifest_commit(&manifest) {
            None => Err(
                ServerError::VersionDetectionFailed(
                    String::from_str("Invalid package.json: config.vscode.commit is missing"),
                ),
            ),
            Some(commit) => match Platform::current(os, arch) {
                Err(reason) => Err(ServerError::UnsupportedPlatform(reason)),
                Ok(platform) => {
                    let location = download_url(commit.as_str(), platform);
                    Ok(
                        ServerInfo {
                            monaco_api_version: tag,
                            vscode_commit: commit,
                            platform,
                            download_url: location,
                        },
                    )
                },
            },
        },
    }
}

/// What the transport reports back while a release is being resolved.
#[derive(Debug, PartialEq, Eq)]
pub enum DetectEvent {
    /// Nothing yet: the resolution begins.
    Begin,
    /// The body of the answer to the request for the tag list.
    Tags(String),
    /// The body of the answer to the request for the manifest of `tag`.
    Manifest { tag: String, body: String },
    /// The transport failed; the text is its report.
    Failed(String),
}

/// What is to happen next while a release is being resolved.
#[derive(Debug, PartialEq, Eq)]
pub enum DetectStep {
    /// Request the tag list from this location.
    FetchTags(String),
    /// Request the manifest of `tag` from `url`.
    FetchManifest { tag: String, url: String },
    /// The resolution has ended, with this outcome.
    Done(Result<ServerInfo, ServerError>),
}

/// An event of the resolution with its texts as character sequences.
pub enum DetectEventView {
    Begin,
    Tags(Seq<char>),
    Manifest { tag: Seq<char>, body: Seq<char> },
    Failed(Seq<char>),
}

/// A step of the resolution with its texts as character sequences.
pub enum DetectStepView {
    FetchTags(Seq<char>),
    FetchManifest { tag: Seq<char>, url: Seq<char> },
    Done(Result<ServerInfoView, ServerErrorView>),
}

impl View for DetectEvent {
    type V = DetectEventView;

    open spec fn view(&self) -> DetectEventView {
        match self {
            DetectEvent::Begin => DetectEventView::Begin,
            DetectEvent::Tags(body) => DetectEventView::Tags(body@),
            DetectEvent::Manifest { tag, body } => DetectEventView::Manifest {
                tag: tag@,
                body: body@,
            },
            DetectEvent::Failed(report) => DetectEventView::Failed(report@),
        }
    }
}

impl View for DetectStep {
    type V = DetectStepView;

    open spec fn view(&self) -> DetectStepView {
        match self {
            DetectStep::FetchTags(url) => DetectStepView::FetchTags(url@),
            DetectStep::FetchManifest { tag, url } => DetectStepView::FetchManifest {
                tag: tag@,
                url: url@,
            },
            DetectStep::Done(outcome) => DetectStepView::Done(info_outcome(*outcome)),
        }
    }
}

/// The step that follows an event of the resolution on a host. The tag list
/// is requested first, then the manifest of its first tag; each is requested
/// once, and any failure ends the resolution.
pub open spec fn detect_step(event: DetectEventView, os: Seq<char>, arch: Seq<char>) -> DetectStepView {
    match event {
        DetectEventView::Begin => DetectStepView::FetchTags(tags_location()),
        DetectEventView::Tags(body) => match selected_release(json_document(body)) {
            Ok(tag) => DetectStepView::FetchManifest { tag, url: manifest_location(tag) },
            Err(e) => DetectStepView::Done(Err(e)),
        },
        DetectEventView::Manifest { tag, body } => DetectStepView::Done(
            resolved_info(tag, json_document(body), os, arch),
        ),
        DetectEventView::Failed(report) => DetectStepView::Done(
            Err(ServerErrorView::Network(report)),
        ),
    }
}

/// Resolves the release to install, one step at a time: given what the
/// transport reported, says what to request next or how the resolution
/// ended. The caller begins with `Begin`, performs each request that is
/// asked for and reports its answer; `os` and `arch` name the host.
pub fn detect_version(event: DetectEvent, os: &str, arch: &str) -> (step: DetectStep)
    ensures
        step@ == detect_step(event@, os@, arch@),
{
    match event {
        DetectEvent::Begin => DetectStep::FetchTags(String::from_str(tags_url())),
        DetectEvent::Tags(body) => match select_release(parse_document(body.as_str())) {
            Ok(tag) => {
                let url = manifest_url(tag.as_str());
                DetectStep::FetchManifest { tag, url }
            },
            Err(e) => DetectStep::Done(Err(e)),
        },
        DetectEvent::Manifest { tag, body } => DetectStep::Done(
            resolve_info(tag, parse_document(body.as_str()), os, arch),
        ),
        DetectEvent::Failed(report) => DetectStep::Done(Err(ServerError::Network(report))),
    }
}

} // verus!
