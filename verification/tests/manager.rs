use codingame_monaco_vscode_server::config::default_server_dir;
use codingame_monaco_vscode_server::manager::{
    build_launch_args, executable_path, EnsureEvent, EnsureStep, LaunchCommand, ProcessStatus,
    StartEvent, StartStep, STARTUP_DELAY_MS,
};
use codingame_monaco_vscode_server::{
    Platform, ServerConfig, ServerError, ServerInfo, VscodeServerManager,
};

fn config() -> ServerConfig {
    ServerConfig {
        port: 9000,
        host: "0.0.0.0".to_string(),
        args: vec!["--accept-server-license-terms".to_string(), "--log=trace".to_string()],
        server_dir: "/srv/vscode".to_string(),
        disable_telemetry: true,
        connection_token: None,
    }
}

fn release(platform: Platform) -> ServerInfo {
    ServerInfo {
        monaco_api_version: "v2.3.0".to_string(),
        vscode_commit: "deadbeef".to_string(),
        platform,
        download_url: "https://update.example/deadbeef".to_string(),
    }
}

fn installed(platform: Platform) -> VscodeServerManager {
    let mut manager = VscodeServerManager::with_config(config()).unwrap();
    manager.ensure_server(EnsureEvent::Detected(Ok(release(platform))));
    assert_eq!(
        manager.ensure_server(EnsureEvent::Probed { installed: true }),
        EnsureStep::Done(Ok(()))
    );
    manager
}

fn running(pid: u32) -> VscodeServerManager {
    let mut manager = installed(Platform::LinuxX64);
    assert_eq!(
        manager.start(StartEvent::Spawned { pid }),
        StartStep::Settle { millis: 2000 }
    );
    manager
}

fn strings(items: &[&str]) -> Vec<String> {
    items.iter().map(|s| s.to_string()).collect()
}

#[test]
fn default_install_directory() {
    assert_eq!(
        default_server_dir(Some("/override".to_string()), Some("/home/u/.cache".to_string())),
        "/override"
    );
    assert_eq!(
        default_server_dir(None, Some("/home/u/.cache".to_string())),
        "/home/u/.cache/vscode-server-backend"
    );
    assert_eq!(default_server_dir(None, None), "./vscode-server");
    assert_eq!(default_server_dir(Some(String::new()), None), "");
}

#[test]
fn default_configuration() {
    let expected = ServerConfig {
        port: 8001,
        host: "127.0.0.1".to_string(),
        args: vec!["--accept-server-license-terms".to_string()],
        server_dir: "/c/vscode-server-backend".to_string(),
        disable_telemetry: true,
        connection_token: None,
    };
    assert_eq!(ServerConfig::default_with(None, Some("/c".to_string())), expected);
    let manager = VscodeServerManager::new(None, Some("/c".to_string())).unwrap();
    assert_eq!(manager.config(), &expected);
    assert_eq!(manager.info(), None);
    assert_eq!(manager.process_id(), None);
    assert_eq!(manager.server_path(), None);
    assert_eq!(manager.url(), "http://127.0.0.1:8001");
}

#[test]
fn new_manager_is_empty() {
    let manager = VscodeServerManager::with_config(config()).unwrap();
    assert_eq!(manager.config(), &config());
    assert_eq!(manager.config().clone(), config());
    assert_eq!(manager.info(), None);
    assert_eq!(manager.process_id(), None);
    assert_eq!(manager.server_path(), None);
}

#[test]
fn address_of_the_server() {
    assert_eq!(VscodeServerManager::with_config(config()).unwrap().url(), "http://0.0.0.0:9000");
    let mut other = config();
    other.host = "localhost".to_string();
    other.port = 0;
    assert_eq!(VscodeServerManager::with_config(other).unwrap().url(), "http://localhost:0");
    let mut other = config();
    other.host = "::1".to_string();
    other.port = 65535;
    assert_eq!(VscodeServerManager::with_config(other).unwrap().url(), "http://::1:65535");
}

#[test]
fn ensure_resolves_then_probes() {
    let mut manager = VscodeServerManager::with_config(config()).unwrap();
    assert_eq!(manager.ensure_server(EnsureEvent::Begin), EnsureStep::Detect);
    assert_eq!(manager.info(), None);
    assert_eq!(
        manager.ensure_server(EnsureEvent::Detected(Ok(release(Platform::LinuxX64)))),
        EnsureStep::Probe("/srv/vscode/deadbeef".to_string())
    );
    assert_eq!(manager.info(), Some(&release(Platform::LinuxX64)));
    assert_eq!(manager.server_path(), None);
}

#[test]
fn ensure_with_installed_release_fetches_nothing() {
    let mut manager = VscodeServerManager::with_config(config()).unwrap();
    manager.ensure_server(EnsureEvent::Detected(Ok(release(Platform::LinuxX64))));
    assert_eq!(
        manager.ensure_server(EnsureEvent::Probed { installed: true }),
        EnsureStep::Done(Ok(()))
    );
    assert_eq!(manager.server_path(), Some(&"/srv/vscode/deadbeef".to_string()));
}

#[test]
fn ensure_twice_resolves_twice_and_downloads_once() {
    let mut manager = VscodeServerManager::with_config(config()).unwrap();
    assert_eq!(manager.ensure_server(EnsureEvent::Begin), EnsureStep::Detect);
    manager.ensure_server(EnsureEvent::Detected(Ok(release(Platform::LinuxX64))));
    assert_eq!(
        manager.ensure_server(EnsureEvent::Probed { installed: false }),
        EnsureStep::Download {
            info: release(Platform::LinuxX64),
            target_dir: "/srv/vscode".to_string()
        }
    );
    assert_eq!(manager.server_path(), None);
    assert_eq!(manager.ensure_server(EnsureEvent::Downloaded(Ok(()))), EnsureStep::Done(Ok(())));
    assert_eq!(manager.server_path(), Some(&"/srv/vscode/deadbeef".to_string()));

    assert_eq!(manager.ensure_server(EnsureEvent::Begin), EnsureStep::Detect);
    assert_eq!(
        manager.ensure_server(EnsureEvent::Detected(Ok(release(Platform::LinuxX64)))),
        EnsureStep::Probe("/srv/vscode/deadbeef".to_string())
    );
    assert_eq!(
        manager.ensure_server(EnsureEvent::Probed { installed: true }),
        EnsureStep::Done(Ok(()))
    );
    assert_eq!(manager.server_path(), Some(&"/srv/vscode/deadbeef".to_string()));
}

#[test]
fn ensure_passes_failures_through() {
    let mut manager = VscodeServerManager::with_config(config()).unwrap();
    let failed = ServerError::VersionDetectionFailed("no tags".to_string());
    assert_eq!(
        manager.ensure_server(EnsureEvent::Detected(Err(failed.clone()))),
        EnsureStep::Done(Err(failed))
    );
    assert_eq!(manager.info(), None);
    manager.ensure_server(EnsureEvent::Detected(Ok(release(Platform::LinuxX64))));
    let broken = ServerError::DownloadFailed("Failed to download: 404 Not Found".to_string());
    assert_eq!(
        manager.ensure_server(EnsureEvent::Downloaded(Err(broken.clone()))),
        EnsureStep::Done(Err(broken))
    );
    assert_eq!(manager.info(), Some(&release(Platform::LinuxX64)));
    assert_eq!(manager.server_path(), None);
}

#[test]
fn ensure_without_a_release_finds_no_server() {
    let mut manager = VscodeServerManager::with_config(config()).unwrap();
    assert_eq!(
        manager.ensure_server(EnsureEvent::Probed { installed: true }),
        EnsureStep::Done(Err(ServerError::ServerNotFound))
    );
    assert_eq!(
        manager.ensure_server(EnsureEvent::Probed { installed: false }),
        EnsureStep::Done(Err(ServerError::ServerNotFound))
    );
    assert_eq!(
        manager.ensure_server(EnsureEvent::Downloaded(Ok(()))),
        EnsureStep::Done(Err(ServerError::ServerNotFound))
    );
    assert_eq!(manager.server_path(), None);
}

#[test]
fn launcher_paths() {
    assert_eq!(
        executable_path("/srv/vscode/deadbeef", Platform::LinuxX64),
        "/srv/vscode/deadbeef/bin/code-server"
    );
    assert_eq!(
        executable_path("C:/servers/deadbeef", Platform::Win32X64),
        "C:/servers/deadbeef/bin/code-server.cmd"
    );
    let manager = installed(Platform::DarwinX64);
    assert_eq!(
        manager.get_executable_path("/x", true),
        Ok("/x/bin/code-server".to_string())
    );
    assert_eq!(manager.get_executable_path("/x", false), Err(ServerError::ServerNotFound));
    let empty = VscodeServerManager::with_config(config()).unwrap();
    assert_eq!(empty.get_executable_path("/x", true), Err(ServerError::ServerNotFound));
}

#[test]
fn launch_arguments_without_token() {
    assert_eq!(
        build_launch_args(&config()),
        strings(&[
            "--port",
            "9000",
            "--host",
            "0.0.0.0",
            "--disable-telemetry",
            "--without-connection-token",
            "--accept-server-license-terms",
            "--log=trace",
        ])
    );
}

#[test]
fn launch_arguments_with_token_and_telemetry() {
    let mut c = config();
    c.disable_telemetry = false;
    c.connection_token = Some("s3cret".to_string());
    c.args = vec![];
    c.port = 8001;
    c.host = "127.0.0.1".to_string();
    assert_eq!(
        build_launch_args(&c),
        strings(&["--port", "8001", "--host", "127.0.0.1", "--connection-token", "s3cret"])
    );
}

#[test]
fn start_without_install_finds_no_server() {
    let mut manager = VscodeServerManager::with_config(config()).unwrap();
    assert_eq!(
        manager.start(StartEvent::Begin),
        StartStep::Done(Err(ServerError::ServerNotFound))
    );
    assert_eq!(
        manager.start(StartEvent::Probed { present: true }),
        StartStep::Done(Err(ServerError::ServerNotFound))
    );
    manager.ensure_server(EnsureEvent::Detected(Ok(release(Platform::LinuxX64))));
    assert_eq!(
        manager.start(StartEvent::Begin),
        StartStep::Done(Err(ServerError::ServerNotFound))
    );
    assert_eq!(manager.process_id(), None);
}

#[test]
fn start_probes_the_launcher_then_spawns() {
    let mut manager = installed(Platform::LinuxX64);
    assert_eq!(
        manager.start(StartEvent::Begin),
        StartStep::ProbeExecutable("/srv/vscode/deadbeef/bin/code-server".to_string())
    );
    assert_eq!(
        manager.start(StartEvent::Probed { present: true }),
        StartStep::Spawn(LaunchCommand {
            program: "/srv/vscode/deadbeef/bin/code-server".to_string(),
            args: strings(&[
                "--port",
                "9000",
                "--host",
                "0.0.0.0",
                "--disable-telemetry",
                "--without-connection-token",
                "--accept-server-license-terms",
                "--log=trace",
            ]),
        })
    );
    assert_eq!(manager.process_id(), None);
    assert_eq!(manager.start(StartEvent::Spawned { pid: 4711 }), StartStep::Settle { millis: 2000 });
    assert_eq!(STARTUP_DELAY_MS, 2000);
    assert_eq!(manager.process_id(), Some(4711));
    assert_eq!(manager.start(StartEvent::Settled), StartStep::Done(Ok(())));
    assert_eq!(manager.process_id(), Some(4711));
}

#[test]
fn start_on_windows_uses_the_command_script() {
    let mut manager = installed(Platform::Win32X64);
    assert_eq!(
        manager.start(StartEvent::Begin),
        StartStep::ProbeExecutable("/srv/vscode/deadbeef/bin/code-server.cmd".to_string())
    );
}

#[test]
fn start_without_launcher_finds_no_server() {
    let mut manager = installed(Platform::LinuxX64);
    assert_eq!(
        manager.start(StartEvent::Probed { present: false }),
        StartStep::Done(Err(ServerError::ServerNotFound))
    );
    assert_eq!(manager.process_id(), None);
}

#[test]
fn failed_spawn_is_reported() {
    let mut manager = installed(Platform::LinuxX64);
    assert_eq!(
        manager.start(StartEvent::SpawnFailed("No such file or directory".to_string())),
        StartStep::Done(Err(ServerError::StartFailed("No such file or directory".to_string())))
    );
    assert_eq!(manager.process_id(), None);
}

#[test]
fn start_while_running_is_refused() {
    let mut manager = running(4711);
    for event in [
        StartEvent::Begin,
        StartEvent::Probed { present: true },
        StartEvent::Probed { present: false },
        StartEvent::Spawned { pid: 4712 },
    ] {
        assert_eq!(manager.start(event), StartStep::Done(Err(ServerError::AlreadyRunning)));
        assert_eq!(manager.process_id(), Some(4711));
    }
}

#[test]
fn stop_hands_out_the_process() {
    let mut manager = running(4711);
    assert_eq!(manager.stop(), Ok(4711));
    assert_eq!(manager.process_id(), None);
    assert_eq!(manager.server_path(), Some(&"/srv/vscode/deadbeef".to_string()));
    assert_eq!(manager.info(), Some(&release(Platform::LinuxX64)));
}

#[test]
fn stop_while_not_running_is_refused() {
    let mut manager = installed(Platform::LinuxX64);
    assert_eq!(manager.stop(), Err(ServerError::NotRunning));
    assert_eq!(manager.process_id(), None);
    let mut manager = running(1);
    assert_eq!(manager.stop(), Ok(1));
    assert_eq!(manager.stop(), Err(ServerError::NotRunning));
    assert_eq!(manager.process_id(), None);
}

#[test]
fn running_process_is_kept() {
    let mut manager = running(4711);
    assert!(manager.is_running(ProcessStatus::Running));
    assert_eq!(manager.process_id(), Some(4711));
}

#[test]
fn exited_process_is_let_go_of() {
    let mut manager = running(4711);
    assert!(!manager.is_running(ProcessStatus::Exited));
    assert_eq!(manager.process_id(), None);
    assert_eq!(manager.stop(), Err(ServerError::NotRunning));
    assert_eq!(
        manager.start(StartEvent::Begin),
        StartStep::ProbeExecutable("/srv/vscode/deadbeef/bin/code-server".to_string())
    );
}

#[test]
fn failed_probe_counts_as_not_running() {
    let mut manager = running(4711);
    assert!(!manager.is_running(ProcessStatus::Unknown));
    assert_eq!(manager.process_id(), None);
}

#[test]
fn nothing_runs_without_a_process() {
    let mut manager = installed(Platform::LinuxX64);
    assert!(!manager.is_running(ProcessStatus::Running));
    assert!(!manager.is_running(ProcessStatus::Exited));
    assert_eq!(manager.process_id(), None);
}

#[test]
fn release_gives_up_the_process() {
    let mut manager = running(4711);
    assert_eq!(manager.release(), Some(4711));
    assert_eq!(manager.process_id(), None);
    assert_eq!(manager.release(), None);
}
