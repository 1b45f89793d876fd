//! What a caller configures, and what a resolved release is.

use vstd::prelude::*;

use crate::error::{ServerError, ServerErrorView};
use crate::platform::Platform;
use crate::text::join_path;
use crate::text::joined;

verus! {

/// How the server is to be run and where it is installed.
#[derive(Debug, PartialEq, Eq)]
pub struct ServerConfig {
    /// The port on which the server listens.
    pub port: u16,
    /// The host name or address to which the server binds.
    pub host: String,
    /// Further arguments for the server, appended in this order.
    pub args: Vec<String>,
    /// The directory below which servers are installed, one per commit.
    pub server_dir: String,
    /// Whether the server is told to send no telemetry.
    pub disable_telemetry: bool,
    /// The token that clients must present, if any.
    pub connection_token: Option<String>,
}

/// A configuration with its texts as character sequences.
pub struct ServerConfigView {
    pub port: u16,
    pub host: Seq<char>,
    pub args: Seq<Seq<char>>,
    pub server_dir: Seq<char>,
    pub disable_telemetry: bool,
    pub connection_token: Option<Seq<char>>,
}

impl View for ServerConfig {
    type V = ServerConfigView;

    open spec fn view(&self) -> ServerConfigView {
        ServerConfigView {
            port: self.port,
            host: self.host@,
            args: self.args.deep_view(),
            server_dir: self.server_dir@,
            disable_telemetry: self.disable_telemetry,
            connection_token: self.connection_token.deep_view(),
        }
    }
}

/// The install directory where none is configured: the override if one is
/// given, else a directory of the library's own below the cache directory,
/// else a directory below the working directory.
pub open spec fn default_dir(env_dir: Option<Seq<char>>, cache_dir: Option<Seq<char>>) -> Seq<
    char,
> {
    match env_dir {
        Some(dir) => dir,
        None => match cache_dir {
            Some(cache) => joined(cache, "vscode-server-backend"@),
            None => "./vscode-server"@,
        },
    }
}

/// Resolves the install directory from what the environment offers: the
/// value of the override variable, and the user's cache directory.
pub fn default_server_dir(env_dir: Option<String>, cache_dir: Option<String>) -> (dir: String)
    ensures
        dir@ == default_dir(env_dir.deep_view(), cache_dir.deep_view()),
{
    match env_dir {
        Some(dir) => dir,
        None => match cache_dir {
            Some(cache) => join_path(cache.as_str(), "vscode-server-backend"),
            None => String::from_str("./vscode-server"),
        },
    }
}

impl ServerConfigView {
    /// The configuration that is used where the caller gives none, for an
    /// install directory `server_dir`.
    pub open spec fn standard(server_dir: Seq<char>) -> ServerConfigView {
        ServerConfigView {
            port: 8001,
            host: "127.0.0.1"@,
            args: seq!["--accept-server-license-terms"@],
            server_dir,
            disable_telemetry: true,
            connection_token: None,
        }
    }
}

impl ServerConfig {
    /// The default configuration: port 8001 on the loopback address, the
    /// license terms accepted, telemetry off, no connection token, and the
    /// install directory resolved from what the environment offers.
    pub fn default_with(env_dir: Option<String>, cache_dir: Option<String>) -> (config: Self)
        ensures
            config@ == ServerConfigView::standard(
                default_dir(env_dir.deep_view(), cache_dir.deep_view()),
            ),
    {
        let mut args: Vec<String> = Vec::new();
        args.push(String::from_str("--accept-server-license-terms"));
        let config = ServerConfig {
            port: 8001,
            host: String::from_str("127.0.0.1"),
            args,
            server_dir: default_server_dir(env_dir, cache_dir),
            disable_telemetry: true,
            connection_token: None,
        };
        assert(config.args.deep_view() =~= seq!["--accept-server-license-terms"@]);
        config
    }
}

impl Clone for ServerConfig {
    fn clone(&self) -> (copy: Self)
        ensures
            copy@ == self@,
    {
        let args = self.args.clone();
        assert(args.deep_view() =~= self.args.deep_view());
        ServerConfig {
            port: self.port,
            host: self.host.clone(),
            args,
            server_dir: self.server_dir.clone(),
            disable_telemetry: self.disable_telemetry,
            connection_token: self.connection_token.clone(),
        }
    }
}

/// A resolved release of the server: which build, for which platform, and
/// where it is fetched from. It names one install directory, that of its
/// commit.
#[derive(Debug, PartialEq, Eq)]
pub struct ServerInfo {
    /// The release tag of the editor API that the server goes with.
    pub monaco_api_version: String,
    /// The commit of the upstream editor from which the server is built.
    pub vscode_commit: String,
    /// The platform of the build.
    pub platform: Platform,
    /// The location from which the build is fetched.
    pub download_url: String,
}

/// A resolved release with its texts as character sequences.
pub struct ServerInfoView {
    pub monaco_api_version: Seq<char>,
    pub vscode_commit: Seq<char>,
    pub platform: Platform,
    pub download_url: Seq<char>,
}

impl View for ServerInfo {
    type V = ServerInfoView;

    open spec fn view(&self) -> ServerInfoView {
        ServerInfoView {
            monaco_api_version: self.monaco_api_version@,
            vscode_commit: self.vscode_commit@,
            platform: self.platform,
            download_url: self.download_url@,
        }
    }
}

impl Clone for ServerInfo {
    fn clone(&self) -> (copy: Self)
        ensures
            copy == *self,
    {
        ServerInfo {
            monaco_api_version: self.monaco_api_version.clone(),
            vscode_commit: self.vscode_commit.clone(),
            platform: self.platform,
            download_url: self.download_url.clone(),
        }
    }
}

/// The outcome of an operation that yields a release, with its texts as
/// character sequences.
pub open spec fn info_outcome(outcome: Result<ServerInfo, ServerError>) -> Result<
    ServerInfoView,
    ServerErrorView,
> {
    match outcome {
        Ok(info) => Ok(info@),
        Err(e) => Err(e@),
    }
}

/// How the facade drives the server for an embedding application.
#[derive(Debug, PartialEq, Eq)]
pub struct TauriConfig {
    /// Whether the server is started as soon as it is installed.
    pub auto_start: bool,
    /// Whether the server is stopped when the facade is given up.
    pub stop_on_exit: bool,
    /// The configuration of the server itself.
    pub server: ServerConfig,
}

/// A policy with its texts as character sequences.
pub struct TauriConfigView {
    pub auto_start: bool,
    pub stop_on_exit: bool,
    pub server: ServerConfigView,
}

impl View for TauriConfig {
    type V = TauriConfigView;

    open spec fn view(&self) -> TauriConfigView {
        TauriConfigView {
            auto_start: self.auto_start,
            stop_on_exit: self.stop_on_exit,
            server: self.server@,
        }
    }
}

impl TauriConfig {
    /// The default policy: start at once and stop on exit, with the default
    /// configuration of the server.
    pub fn default_with(env_dir: Option<String>, cache_dir: Option<String>) -> (config: Self)
        ensures
            config@ == (TauriConfigView {
                auto_start: true,
                stop_on_exit: true,
                server: ServerConfigView::standard(
                    default_dir(env_dir.deep_view(), cache_dir.deep_view()),
                ),
            }),
    {
        TauriConfig {
            auto_start: true,
            stop_on_exit: true,
            server: ServerConfig::default_with(env_dir, cache_dir),
        }
    }
}

impl Clone for TauriConfig {
    fn clone(&self) -> (copy: Self)
        ensures
            copy@ == self@,
    {
        TauriConfig {
            auto_start: self.auto_start,
            stop_on_exit: self.stop_on_exit,
            server: self.server.clone(),
        }
    }
}

} // verus!
