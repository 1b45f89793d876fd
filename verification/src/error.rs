//! The failures that the lifecycle operations report.

use vstd::prelude::*;

use crate::text::concat2;

verus! {

/// A failure of a lifecycle operation. Every failure ends the operation that
/// raised it; nothing is retried.
#[derive(Debug, PartialEq, Eq)]
pub enum ServerError {
    /// The file system refused an operation; the text is the system's report.
    Io(String),
    /// The transport failed; the text is the transport's report.
    Network(String),
    /// No installed server is known, or its executable is missing.
    ServerNotFound,
    /// A start was asked for while a server process is held.
    AlreadyRunning,
    /// A stop was asked for while no server process is held.
    NotRunning,
    /// The server process could not be spawned.
    StartFailed(String),
    /// The host is none of the supported platforms.
    UnsupportedPlatform(String),
    /// The required release could not be resolved.
    VersionDetectionFailed(String),
    /// The fetched archive could not be turned into an installed directory.
    ExtractionFailed(String),
    /// The download was answered with a status other than success.
    DownloadFailed(String),
}

/// A failure with its texts as character sequences.
pub enum ServerErrorView {
    Io(Seq<char>),
    Network(Seq<char>),
    ServerNotFound,
    AlreadyRunning,
    NotRunning,
    StartFailed(Seq<char>),
    UnsupportedPlatform(Seq<char>),
    VersionDetectionFailed(Seq<char>),
    ExtractionFailed(Seq<char>),
    DownloadFailed(Seq<char>),
}

impl ServerErrorView {
    /// The line that describes the failure to a reader.
    pub open spec fn message(self) -> Seq<char> {
        match self {
            ServerErrorView::Io(m) => "IO error: "@ + m,
            ServerErrorView::Network(m) => "Network error: "@ + m,
            ServerErrorView::ServerNotFound => "Server not found"@,
            ServerErrorView::AlreadyRunning => "Server already running"@,
            ServerErrorView::NotRunning => "Server not running"@,
            ServerErrorView::StartFailed(m) => "Failed to start server: "@ + m,
            ServerErrorView::UnsupportedPlatform(m) => "Unsupported platform: "@ + m,
            ServerErrorView::VersionDetectionFailed(m) => "Version detection failed: "@ + m,
            ServerErrorView::ExtractionFailed(m) => "Extraction failed: "@ + m,
            ServerErrorView::DownloadFailed(m) => "Download failed: "@ + m,
        }
    }
}

impl View for ServerError {
    type V = ServerErrorView;

    open spec fn view(&self) -> ServerErrorView {
        match self {
            ServerError::Io(m) => ServerErrorView::Io(m@),
            ServerError::Network(m) => ServerErrorView::Network(m@),
            ServerError::ServerNotFound => ServerErrorView::ServerNotFound,
            ServerError::AlreadyRunning => ServerErrorView::AlreadyRunning,
            ServerError::NotRunning => ServerErrorView::NotRunning,
            ServerError::StartFailed(m) => ServerErrorView::StartFailed(m@),
            ServerError::UnsupportedPlatform(m) => ServerErrorView::UnsupportedPlatform(m@),
            ServerError::VersionDetectionFailed(m) => ServerErrorView::VersionDetectionFailed(m@),
            ServerError::ExtractionFailed(m) => ServerErrorView::ExtractionFailed(m@),
            ServerError::DownloadFailed(m) => ServerErrorView::DownloadFailed(m@),
        }
    }
}

/// The outcome of an operation that yields a text, with its texts as
/// character sequences.
pub open spec fn text_outcome(outcome: Result<String, ServerError>) -> Result<
    Seq<char>,
    ServerErrorView,
> {
    match outcome {
        Ok(text) => Ok(text@),
        Err(e) => Err(e@),
    }
}

/// The outcome of an operation that yields nothing, with its texts as
/// character sequences.
pub open spec fn unit_outcome(outcome: Result<(), ServerError>) -> Result<(), ServerErrorView> {
    match outcome {
        Ok(_) => Ok(()),
        Err(e) => Err(e@),
    }
}

impl Clone for ServerError {
    fn clone(&self) -> (copy: Self)
        ensures
            copy == *self,
    {
        match self {
            ServerError::Io(m) => ServerError::Io(m.clone()),
            ServerError::Network(m) => ServerError::Network(m.clone()),
            ServerError::ServerNotFound => ServerError::ServerNotFound,
            ServerError::AlreadyRunning => ServerError::AlreadyRunning,
            ServerError::NotRunning => ServerError::NotRunning,
            ServerError::StartFailed(m) => ServerError::StartFailed(m.clone()),
            ServerError::UnsupportedPlatform(m) => ServerError::UnsupportedPlatform(m.clone()),
            ServerError::VersionDetectionFailed(m) => ServerError::VersionDetectionFailed(
                m.clone(),
            ),
            ServerError::ExtractionFailed(m) => ServerError::ExtractionFailed(m.clone()),
            ServerError::DownloadFailed(m) => ServerError::DownloadFailed(m.clone()),
        }
    }
}

impl ServerError {
    /// The line that describes the failure to a reader.
    pub fn message(&self) -> (line: String)
        ensures
            line@ == self@.message(),
    {
        match self {
            ServerError::Io(m) => concat2("IO error: ", m.as_str()),
            ServerError::Network(m) => concat2("Network error: ", m.as_str()),
            ServerError::ServerNotFound => String::from_str("Server not found"),
            ServerError::AlreadyRunning => String::from_str("Server already running"),
            ServerError::NotRunning => String::from_str("Server not running"),
            ServerError::StartFailed(m) => concat2("Failed to start server: ", m.as_str()),
            ServerError::UnsupportedPlatform(m) => concat2("Unsupported platform: ", m.as_str()),
            ServerError::VersionDetectionFailed(m) => concat2(
                "Version detection failed: ",
                m.as_str(),
            ),
            ServerError::ExtractionFailed(m) => concat2("Extraction failed: ", m.as_str()),
            ServerError::DownloadFailed(m) => concat2("Download failed: ", m.as_str()),
        }
    }
}

} // verus!
