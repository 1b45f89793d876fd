//! Fetching a server build and turning the archive into an installed
//! directory. The library decides each step; the caller performs it.

use vstd::prelude::*;

use crate::config::{ServerInfo, ServerInfoView};
use crate::error::{unit_outcome, ServerError, ServerErrorView};
use crate::platform::{ArchiveFormat, Platform};
use crate::text::{concat2, concat3, decimal, decimal_text, join_path, joined};

verus! {

/// The file name under which the archive of `commit` is kept while it is
/// fetched and unpacked.
pub open spec fn archive_file(commit: Seq<char>, platform: Platform) -> Seq<char> {
    if platform.format() == ArchiveFormat::Zip {
        "vscode-server-"@ + commit + ".zip"@
    } else {
        "vscode-server-"@ + commit + ".tar.gz"@
    }
}

/// The directory in which a tar archive is unpacked before its content is
/// moved to `server_dir`: a sibling of that directory.
pub open spec fn staging_dir(server_dir: Seq<char>) -> Seq<char> {
    server_dir + ".tmp"@
}

/// Whether a status answers a request with success: 200 to 299.
pub open spec fn is_success(status: u16) -> bool {
    200 <= status < 300
}

/// The standard reason phrase of the status with number `code`, as
/// `StatusCode::canonical_reason` of the `http` crate gives it; `None` where
/// it gives none or the number is that of no status.
pub uninterp spec fn reason_phrase(code: u16) -> Option<Seq<char>>;

/// The line that shows a status: its number, then its standard reason
/// phrase or a note that it has none.
pub open spec fn status_line(code: u16) -> Seq<char> {
    decimal(code as nat) + " "@ + match reason_phrase(code) {
        Some(reason) => reason,
        None => "<unknown status code>"@,
    }
}

/// Looks up the reason phrase of a status in the `http` crate, through
/// `StatusCode::from_u16` and `StatusCode::canonical_reason`. The contract
/// claims that the answer is the one that `reason_phrase` names for `code`.
#[verifier::external_body]
fn canonical_reason(code: u16) -> (reason: Option<&'static str>)
    ensures
        reason.deep_view() == reason_phrase(code),
{
    match reqwest::StatusCode::from_u16(code) {
        Ok(status) => status.canonical_reason(),
        Err(_) => None,
    }
}

/// The line that shows a status.
pub fn status_text(code: u16) -> (line: String)
    ensures
        line@ == status_line(code),
{
    let mut line = decimal_text(code as u64);
    line.append(" ");
    match canonical_reason(code) {
        Some(reason) => line.append(reason),
        None => line.append("<unknown status code>"),
    }
    line
}

/// Judges the status that answered the download request: success lets the
/// download go on, anything else fails it with the status shown.
pub fn check_status(status: u16) -> (verdict: Result<(), ServerError>)
    ensures
        unit_outcome(verdict) == (if is_success(status) {
            Ok(())
        } else {
            Err(ServerErrorView::DownloadFailed("Failed to download: "@ + status_line(status)))
        }),
{
    if 200 <= status && status < 300 {
        Ok(())
    } else {
        let line = status_text(status);
        Err(ServerError::DownloadFailed(concat2("Failed to download: ", line.as_str())))
    }
}

/// The file name under which the archive of a release is kept.
pub fn archive_name(info: &ServerInfo) -> (name: String)
    ensures
        name@ == archive_file(info@.vscode_commit, info@.platform),
{
    if info.platform.uses_zip() {
        concat3("vscode-server-", info.vscode_commit.as_str(), ".zip")
    } else {
        concat3("vscode-server-", info.vscode_commit.as_str(), ".tar.gz")
    }
}

/// How an archive is to be unpacked.
#[derive(Debug, PartialEq, Eq)]
pub enum ExtractionPlan {
    /// Decompress and unpack `archive` into the directory `staging`, which
    /// is created first.
    TarGz { archive: String, staging: String },
    /// Extract `archive` into the directory `target`, which is created first.
    Zip { archive: String, target: String },
}

/// An extraction plan with its paths as character sequences.
pub enum ExtractionPlanView {
    TarGz { archive: Seq<char>, staging: Seq<char> },
    Zip { archive: Seq<char>, target: Seq<char> },
}

impl View for ExtractionPlan {
    type V = ExtractionPlanView;

    open spec fn view(&self) -> ExtractionPlanView {
        match self {
            ExtractionPlan::TarGz { archive, staging } => ExtractionPlanView::TarGz {
                archive: archive@,
                staging: staging@,
            },
            ExtractionPlan::Zip { archive, target } => ExtractionPlanView::Zip {
                archive: archive@,
                target: target@,
            },
        }
    }
}

/// The outcome of planning an extraction, with its texts as character
/// sequences.
pub open spec fn plan_outcome(outcome: Result<ExtractionPlan, ServerError>) -> Result<
    ExtractionPlanView,
    ServerErrorView,
> {
    match outcome {
        Ok(plan) => Ok(plan@),
        Err(e) => Err(e@),
    }
}

/// How the archive of a platform is unpacked towards `target_dir`. A zip
/// archive needs a host that can extract one.
pub open spec fn extraction_plan(
    archive: Seq<char>,
    target_dir: Seq<char>,
    platform: Platform,
    native_zip: bool,
) -> Result<ExtractionPlanView, ServerErrorView> {
    if platform.format() == ArchiveFormat::Zip {
        if native_zip {
            Ok(ExtractionPlanView::Zip { archive, target: target_dir })
        } else {
            Err(
                ServerErrorView::ExtractionFailed(
                    "ZIP extraction not supported on this platform"@,
                ),
            )
        }
    } else {
        Ok(ExtractionPlanView::TarGz { archive, staging: staging_dir(target_dir) })
    }
}

/// Plans the extraction of a tar archive: it is unpacked into a staging
/// directory beside `target_dir`.
pub fn extract_tar_gz(archive_path: &str, target_dir: &str) -> (plan: ExtractionPlan)
    ensures
        plan@ == (ExtractionPlanView::TarGz {
            archive: archive_path@,
            staging: staging_dir(target_dir@),
        }),
{
    ExtractionPlan::TarGz {
        archive: String::from_str(archive_path),
        staging: concat2(target_dir, ".tmp"),
    }
}

/// Plans the extraction of a zip archive, straight into `target_dir`. A
/// host that cannot extract zip archives is refused.
pub fn extract_zip(archive_path: &str, target_dir: &str, native_zip: bool) -> (plan: Result<
    ExtractionPlan,
    ServerError,
>)
    ensures
        plan_outcome(plan) == extraction_plan(
            archive_path@,
            target_dir@,
            Platform::Win32X64,
            native_zip,
        ),
{
    if native_zip {
        Ok(
            ExtractionPlan::Zip {
                archive: String::from_str(archive_path),
                target: String::from_str(target_dir),
            },
        )
    } else {
        Err(
            ServerError::ExtractionFailed(
                String::from_str("ZIP extraction not supported on this platform"),
            ),
        )
    }
}

/// Plans the extraction of the archive of `platform` towards `target_dir`,
/// by the platform's archive format.
pub fn extract_archive(
    archive_path: &str,
    target_dir: &str,
    platform: Platform,
    native_zip: bool,
) -> (plan: Result<ExtractionPlan, ServerError>)
    ensures
        plan_outcome(plan) == extraction_plan(archive_path@, target_dir@, platform, native_zip),
{
    if platform.uses_zip() {
        extract_zip(archive_path, target_dir, native_zip)
    } else {
        Ok(extract_tar_gz(archive_path, target_dir))
    }
}

/// Where the content of an unpacked tar archive goes. The archive must have
/// put exactly one directory into the staging directory; that directory
/// becomes `target_dir`. Any other count is refused, and the refusal names
/// the count.
pub open spec fn placement(directories: Seq<Seq<char>>, target_dir: Seq<char>) -> Result<
    (Seq<char>, Seq<char>),
    ServerErrorView,
> {
    if directories.len() == 1 {
        Ok((directories[0], target_dir))
    } else {
        Err(
            ServerErrorView::ExtractionFailed(
                "Expected exactly one directory in archive, found "@ + decimal(directories.len()),
            ),
        )
    }
}

/// Decides where the content of an unpacked tar archive goes: the one
/// directory found in the staging directory is to be moved to `target_dir`.
pub fn place_extracted(directories: &Vec<String>, target_dir: &str) -> (moved: Result<
    (String, String),
    ServerError,
>)
    ensures
        match moved {
            Ok(pair) => placement(directories.deep_view(), target_dir@) == Ok::<
                (Seq<char>, Seq<char>),
                ServerErrorView,
            >((pair.0@, pair.1@)),
            Err(e) => placement(directories.deep_view(), target_dir@) == Err::<
                (Seq<char>, Seq<char>),
                ServerErrorView,
            >(e@),
        },
{
    if directories.len() == 1 {
        Ok((directories[0].clone(), String::from_str(target_dir)))
    } else {
        let count = decimal_text(directories.len() as u64);
        Err(
            ServerError::ExtractionFailed(
                concat2("Expected exactly one directory in archive, found ", count.as_str()),
            ),
        )
    }
}

/// The count of what a download has received, against what was declared.
#[derive(Debug, PartialEq, Eq, Clone, Copy)]
pub struct Transfer {
    /// The bytes received so far.
    pub downloaded: u64,
    /// The declared length of the body, 0 where none was declared.
    pub total: u64,
}

impl Transfer {
    /// The progress of a transfer in tenths of a percent, where a length
    /// was declared.
    pub open spec fn fraction(self) -> Option<int> {
        if self.total > 0 {
            Some(self.downloaded * 1000 / (self.total as int))
        } else {
            None
        }
    }

    /// A transfer that has received nothing yet. A response without a
    /// declared length counts as one of length 0.
    pub fn new(content_length: Option<u64>) -> (transfer: Self)
        ensures
            transfer.downloaded == 0,
            transfer.total == (match content_length {
                Some(n) => n,
                None => 0,
            }),
    {
        match content_length {
            Some(n) => Transfer { downloaded: 0, total: n },
            None => Transfer { downloaded: 0, total: 0 },
        }
    }

    /// Counts a chunk of `len` bytes as received.
    pub fn receive(&mut self, len: u64)
        requires
            old(self).downloaded + len <= u64::MAX,
        ensures
            final(self).downloaded == old(self).downloaded + len,
            final(self).total == old(self).total,
    {
        self.downloaded = self.downloaded + len;
    }

    /// The progress to report, in tenths of a percent: none where no length
    /// was declared, since there is nothing to measure against.
    pub fn progress(&self) -> (tenths: Option<u128>)
        ensures
            match tenths {
                Some(t) => self.fraction() == Some(t as int),
                None => self.fraction() is None,
            },
    {
        if self.total > 0 {
            let scaled: u128 = (self.downloaded as u128) * 1000;
            Some(scaled / (self.total as u128))
        } else {
            None
        }
    }
}

/// What the caller reports back while a build is fetched and installed.
#[derive(Debug, PartialEq, Eq)]
pub enum DownloadEvent {
    /// Nothing yet: the download begins.
    Begin,
    /// The install directory exists, newly made or not.
    DirectoryReady,
    /// Whether the directory of the release exists already.
    Probed { installed: bool },
    /// The download request was answered with this status.
    Responded { status: u16 },
    /// The body of the answer is in the archive file, to its end.
    Received,
    /// The archive is unpacked as planned.
    Unpacked,
    /// The paths of the directories that lie directly in the staging
    /// directory.
    Listed { directories: Vec<String> },
    /// The unpacked directory is at its final place.
    Moved,
    /// The removal of the staging directory was tried, with or without
    /// success.
    Cleaned,
    /// The archive file is removed.
    ArchiveRemoved,
    /// The file system refused an operation; the text is its report.
    IoFailed(String),
    /// The transport failed; the text is its report.
    TransportFailed(String),
    /// The archive could not be unpacked; the text is the unpacker's report.
    UnpackFailed(String),
}

/// What is to happen next while a build is fetched and installed.
#[derive(Debug, PartialEq, Eq)]
pub enum DownloadStep {
    /// Make this directory, with its parents, unless it exists.
    CreateDirectory(String),
    /// Find out whether this directory exists.
    Probe(String),
    /// Request the build from this location.
    Fetch(String),
    /// Write the body of the answer into this archive file.
    Receive(String),
    /// Unpack the archive as this plan says.
    Unpack(ExtractionPlan),
    /// List the directories that lie directly in this staging directory.
    ListDirectories(String),
    /// Move the directory `from` to the place `to`.
    Move { from: String, to: String },
    /// Remove this staging directory with all it holds. A failure is worth
    /// a warning and no more.
    RemoveDirectory(String),
    /// Remove this archive file.
    RemoveArchive(String),
    /// The download has ended, with this outcome.
    Done(Result<(), ServerError>),
}

/// An event of the download with its texts as character sequences.
pub enum DownloadEventView {
    Begin,
    DirectoryReady,
    Probed { installed: bool },
    Responded { status: u16 },
    Received,
    Unpacked,
    Listed { directories: Seq<Seq<char>> },
    Moved,
    Cleaned,
    ArchiveRemoved,
    IoFailed(Seq<char>),
    TransportFailed(Seq<char>),
    UnpackFailed(Seq<char>),
}

/// A step of the download with its texts as character sequences.
pub enum DownloadStepView {
    CreateDirectory(Seq<char>),
    Probe(Seq<char>),
    Fetch(Seq<char>),
    Receive(Seq<char>),
    Unpack(ExtractionPlanView),
    ListDirectories(Seq<char>),
    Move { from: Seq<char>, to: Seq<char> },
    RemoveDirectory(Seq<char>),
    RemoveArchive(Seq<char>),
    Done(Result<(), ServerErrorView>),
}

impl View for DownloadEvent {
    type V = DownloadEventView;

    open spec fn view(&self) -> DownloadEventView {
        match self {
            DownloadEvent::Begin => DownloadEventView::Begin,
            DownloadEvent::DirectoryReady => DownloadEventView::DirectoryReady,
            DownloadEvent::Probed { installed } => DownloadEventView::Probed {
                installed: *installed,
            },
            DownloadEvent::Responded { status } => DownloadEventView::Responded { status: *status },
            DownloadEvent::Received => DownloadEventView::Received,
            DownloadEvent::Unpacked => DownloadEventView::Unpacked,
            DownloadEvent::Listed { directories } => DownloadEventView::Listed {
                directories: directories.deep_view(),
            },
            DownloadEvent::Moved => DownloadEventView::Moved,
            DownloadEvent::Cleaned => DownloadEventView::Cleaned,
            DownloadEvent::ArchiveRemoved => DownloadEventView::ArchiveRemoved,
            DownloadEvent::IoFailed(report) => DownloadEventView::IoFailed(report@),
            DownloadEvent::TransportFailed(report) => DownloadEventView::TransportFailed(report@),
            DownloadEvent::UnpackFailed(report) => DownloadEventView::UnpackFailed(report@),
        }
    }
}

impl View for DownloadStep {
    type V = DownloadStepView;

    open spec fn view(&self) -> DownloadStepView {
        match self {
            DownloadStep::CreateDirectory(path) => DownloadStepView::CreateDirectory(path@),
            DownloadStep::Probe(path) => DownloadStepView::Probe(path@),
            DownloadStep::Fetch(url) => DownloadStepView::Fetch(url@),
            DownloadStep::Receive(archive) => DownloadStepView::Receive(archive@),
            DownloadStep::Unpack(plan) => DownloadStepView::Unpack(plan@),
            DownloadStep::ListDirectories(path) => DownloadStepView::ListDirectories(path@),
            DownloadStep::Move { from, to } => DownloadStepView::Move { from: from@, to: to@ },
            DownloadStep::RemoveDirectory(path) => DownloadStepView::RemoveDirectory(path@),
            DownloadStep::RemoveArchive(path) => DownloadStepView::RemoveArchive(path@),
            DownloadStep::Done(outcome) => DownloadStepView::Done(unit_outcome(*outcome)),
        }
    }
}

/// The directory in which the release `info` is installed below
/// `target_dir`: the one named by its commit.
pub open spec fn install_dir(target_dir: Seq<char>, info: ServerInfoView) -> Seq<char> {
    joined(target_dir, info.vscode_commit)
}

/// The archive file of the release `info` below `target_dir`.
pub open spec fn archive_path(target_dir: Seq<char>, info: ServerInfoView) -> Seq<char> {
    joined(target_dir, archive_file(info.vscode_commit, info.platform))
}

/// The step that follows an event of the download of `info` into
/// `target_dir`.
///
/// The install directory is made, then the directory of the release is
/// looked for: if it is there, the download ends at once, with success and
/// without a request. Else the build is requested; a status other than
/// success fails the download. The body goes into the archive file, which
/// is unpacked by the platform's format. A tar archive is unpacked beside
/// its target, must yield exactly one directory, which is moved to the
/// target, and the staging directory is removed, whether that works or not.
/// At last the archive file is removed. Any failure ends the download with
/// the failure's own kind; nothing is undone.
pub open spec fn download_step(
    info: ServerInfoView,
    target_dir: Seq<char>,
    native_zip: bool,
    event: DownloadEventView,
) -> DownloadStepView {
    let server_dir = install_dir(target_dir, info);
    let archive = archive_path(target_dir, info);
    match event {
        DownloadEventView::Begin => DownloadStepView::CreateDirectory(target_dir),
        DownloadEventView::DirectoryReady => DownloadStepView::Probe(server_dir),
        DownloadEventView::Probed { installed } => if installed {
            DownloadStepView::Done(Ok(()))
        } else {
            DownloadStepView::Fetch(info.download_url)
        },
        DownloadEventView::Responded { status } => if is_success(status) {
            DownloadStepView::Receive(archive)
        } else {
            DownloadStepView::Done(
                Err(ServerErrorView::DownloadFailed("Failed to download: "@ + status_line(status))),
            )
        },
        DownloadEventView::Received => match extraction_plan(
            archive,
            server_dir,
            info.platform,
            native_zip,
        ) {
            Ok(plan) => DownloadStepView::Unpack(plan),
            Err(e) => DownloadStepView::Done(Err(e)),
        },
        DownloadEventView::Unpacked => if info.platform.format() == ArchiveFormat::Zip {
            DownloadStepView::RemoveArchive(archive)
        } else {
            DownloadStepView::ListDirectories(staging_dir(server_dir))
        },
        DownloadEventView::Listed { directories } => match placement(directories, server_dir) {
            Ok(pair) => DownloadStepView::Move { from: pair.0, to: pair.1 },
            Err(e) => DownloadStepView::Done(Err(e)),
        },
        DownloadEventView::Moved => DownloadStepView::RemoveDirectory(staging_dir(server_dir)),
        DownloadEventView::Cleaned => DownloadStepView::RemoveArchive(archive),
        DownloadEventView::ArchiveRemoved => DownloadStepView::Done(Ok(())),
        DownloadEventView::IoFailed(report) => DownloadStepView::Done(
            Err(ServerErrorView::Io(report)),
        ),
        DownloadEventView::TransportFailed(report) => DownloadStepView::Done(
            Err(ServerErrorView::Network(report)),
        ),
        DownloadEventView::UnpackFailed(report) => DownloadStepView::Done(
            Err(ServerErrorView::ExtractionFailed(report)),
        ),
    }
}

/// A release whose directory exists already is not fetched: the download
/// ends at once with success, and no request is made.
pub proof fn lemma_installed_release_is_kept(
    info: ServerInfoView,
    target_dir: Seq<char>,
    native_zip: bool,
)
    ensures
        download_step(info, target_dir, native_zip, DownloadEventView::Probed { installed: true })
            == DownloadStepView::Done(Ok(())),
{
}

/// A request is made only after a probe that found no directory, and then
/// it goes to the location that the release gives.
pub proof fn lemma_fetch_follows_probe(
    info: ServerInfoView,
    target_dir: Seq<char>,
    native_zip: bool,
    event: DownloadEventView,
)
    ensures
        download_step(info, target_dir, native_zip, event) is Fetch <==> event == (
            DownloadEventView::Probed { installed: false }
        ),
        download_step(info, target_dir, native_zip, event) is Fetch ==> download_step(
            info,
            target_dir,
            native_zip,
            event,
        ) == DownloadStepView::Fetch(info.download_url),
{
}

/// A tar archive that unpacked to exactly one directory is installed: that
/// directory is moved to the directory that the commit names below the
/// install directory. One that unpacked to any other number of directories
/// fails the extraction, and the failure names the number.
pub proof fn lemma_single_directory_is_installed(
    info: ServerInfoView,
    target_dir: Seq<char>,
    native_zip: bool,
    directories: Seq<Seq<char>>,
)
    ensures
        directories.len() == 1 ==> download_step(
            info,
            target_dir,
            native_zip,
            DownloadEventView::Listed { directories },
        ) == (DownloadStepView::Move {
            from: directories[0],
            to: joined(target_dir, info.vscode_commit),
        }),
        directories.len() != 1 ==> download_step(
            info,
            target_dir,
            native_zip,
            DownloadEventView::Listed { directories },
        ) == DownloadStepView::Done(
            Err(
                ServerErrorView::ExtractionFailed(
                    "Expected exactly one directory in archive, found "@ + decimal(
                        directories.len(),
                    ),
                ),
            ),
        ),
{
}

/// Fetches and installs the release `info` below `target_dir`, one step at
/// a time: given what the caller reported, says what to do next or how the
/// download ended. The caller begins with `Begin`, performs each step that
/// is asked for and reports how it went; `native_zip` says whether the host
/// can extract zip archives.
pub fn download_server(
    info: &ServerInfo,
    target_dir: &str,
    native_zip: bool,
    event: DownloadEvent,
) -> (step: DownloadStep)
    ensures
        step@ == download_step(info@, target_dir@, native_zip, event@),
{
    match event {
        DownloadEvent::Begin => DownloadStep::CreateDirectory(String::from_str(target_dir)),
        DownloadEvent::DirectoryReady => DownloadStep::Probe(
            join_path(target_dir, info.vscode_commit.as_str()),
        ),
        DownloadEvent::Probed { installed } => {
            if installed {
                DownloadStep::Done(Ok(()))
            } else {
                DownloadStep::Fetch(info.download_url.clone())
            }
        },
        DownloadEvent::Responded { status } => match check_status(status) {
            Ok(_) => DownloadStep::Receive(join_path(target_dir, archive_name(info).as_str())),
            Err(e) => DownloadStep::Done(Err(e)),
        },
        DownloadEvent::Received => {
            let archive = join_path(target_dir, archive_name(info).as_str());
            let server_dir = join_path(target_dir, info.vscode_commit.as_str());
            match extract_archive(archive.as_str(), server_dir.as_str(), info.platform, native_zip) {
                Ok(plan) => DownloadStep::Unpack(plan),
                Err(e) => DownloadStep::Done(Err(e)),
            }
        },
        DownloadEvent::Unpacked => {
            if info.platform.uses_zip() {
                DownloadStep::RemoveArchive(join_path(target_dir, archive_name(info).as_str()))
            } else {
                let server_dir = join_path(target_dir, info.vscode_commit.as_str());
                DownloadStep::ListDirectories(concat2(server_dir.as_str(), ".tmp"))
            }
        },
        DownloadEvent::Listed { directories } => {
            let server_dir = join_path(target_dir, info.vscode_commit.as_str());
            match place_extracted(&directories, server_dir.as_str()) {
                Ok(pair) => DownloadStep::Move { from: pair.0, to: pair.1 },
                Err(e) => DownloadStep::Done(Err(e)),
            }
        },
        DownloadEvent::Moved => {
            let server_dir = join_path(target_dir, info.vscode_commit.as_str());
            DownloadStep::RemoveDirectory(concat2(server_dir.as_str(), ".tmp"))
        },
        DownloadEvent::Cleaned => DownloadStep::RemoveArchive(
            join_path(target_dir, archive_name(info).as_str()),
        ),
        DownloadEvent::ArchiveRemoved => DownloadStep::Done(Ok(())),
        DownloadEvent::IoFailed(report) => DownloadStep::Done(Err(ServerError::Io(report))),
        DownloadEvent::TransportFailed(report) => DownloadStep::Done(
            Err(ServerError::Network(report)),
        ),
        DownloadEvent::UnpackFailed(report) => DownloadStep::Done(
            Err(ServerError::ExtractionFailed(report)),
        ),
    }
}

} // verus!
