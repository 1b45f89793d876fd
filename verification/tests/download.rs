use codingame_monaco_vscode_server::download::{
    archive_name, check_status, download_server, extract_archive, extract_tar_gz, extract_zip,
    place_extracted, status_text, DownloadEvent, DownloadStep, ExtractionPlan, Transfer,
};
use codingame_monaco_vscode_server::{Platform, ServerError, ServerInfo};

fn release(platform: Platform) -> ServerInfo {
    ServerInfo {
        monaco_api_version: "v2.3.0".to_string(),
        vscode_commit: "deadbeef".to_string(),
        platform,
        download_url: "https://update.example/commit:deadbeef/flavor/channel".to_string(),
    }
}

fn step(platform: Platform, native_zip: bool, event: DownloadEvent) -> DownloadStep {
    download_server(&release(platform), "/srv/vscode", native_zip, event)
}

fn extraction_failed(message: &str) -> DownloadStep {
    DownloadStep::Done(Err(ServerError::ExtractionFailed(message.to_string())))
}

#[test]
fn download_makes_the_directory_then_looks_for_the_release() {
    assert_eq!(
        step(Platform::LinuxX64, false, DownloadEvent::Begin),
        DownloadStep::CreateDirectory("/srv/vscode".to_string())
    );
    assert_eq!(
        step(Platform::LinuxX64, false, DownloadEvent::DirectoryReady),
        DownloadStep::Probe("/srv/vscode/deadbeef".to_string())
    );
}

#[test]
fn installed_release_is_not_downloaded_again() {
    for platform in [Platform::LinuxX64, Platform::Win32X64] {
        for native_zip in [false, true] {
            assert_eq!(
                step(platform, native_zip, DownloadEvent::Probed { installed: true }),
                DownloadStep::Done(Ok(()))
            );
        }
    }
}

#[test]
fn missing_release_is_requested() {
    assert_eq!(
        step(Platform::LinuxX64, false, DownloadEvent::Probed { installed: false }),
        DownloadStep::Fetch("https://update.example/commit:deadbeef/flavor/channel".to_string())
    );
}

#[test]
fn success_status_starts_the_transfer() {
    for status in [200u16, 204, 206, 299] {
        assert_eq!(
            step(Platform::LinuxX64, false, DownloadEvent::Responded { status }),
            DownloadStep::Receive("/srv/vscode/vscode-server-deadbeef.tar.gz".to_string())
        );
        assert_eq!(check_status(status), Ok(()));
    }
    assert_eq!(
        step(Platform::Win32X64, true, DownloadEvent::Responded { status: 200 }),
        DownloadStep::Receive("/srv/vscode/vscode-server-deadbeef.zip".to_string())
    );
}

#[test]
fn other_status_fails_the_download() {
    let cases = [
        (404u16, "Failed to download: 404 Not Found"),
        (500, "Failed to download: 500 Internal Server Error"),
        (302, "Failed to download: 302 Found"),
        (199, "Failed to download: 199 <unknown status code>"),
        (300, "Failed to download: 300 Multiple Choices"),
        (42, "Failed to download: 42 <unknown status code>"),
        (1000, "Failed to download: 1000 <unknown status code>"),
    ];
    for (status, message) in cases {
        let failed = ServerError::DownloadFailed(message.to_string());
        assert_eq!(check_status(status), Err(failed.clone()));
        assert_eq!(
            step(Platform::LinuxX64, false, DownloadEvent::Responded { status }),
            DownloadStep::Done(Err(failed))
        );
    }
}

#[test]
fn status_lines() {
    assert_eq!(status_text(200), "200 OK");
    assert_eq!(status_text(403), "403 Forbidden");
    assert_eq!(status_text(503), "503 Service Unavailable");
    assert_eq!(status_text(599), "599 <unknown status code>");
    assert_eq!(status_text(0), "0 <unknown status code>");
}

#[test]
fn archive_names() {
    assert_eq!(archive_name(&release(Platform::LinuxArm64)), "vscode-server-deadbeef.tar.gz");
    assert_eq!(archive_name(&release(Platform::DarwinX64)), "vscode-server-deadbeef.tar.gz");
    assert_eq!(archive_name(&release(Platform::Win32X64)), "vscode-server-deadbeef.zip");
}

#[test]
fn received_archive_is_unpacked_by_format() {
    assert_eq!(
        step(Platform::LinuxX64, false, DownloadEvent::Received),
        DownloadStep::Unpack(ExtractionPlan::TarGz {
            archive: "/srv/vscode/vscode-server-deadbeef.tar.gz".to_string(),
            staging: "/srv/vscode/deadbeef.tmp".to_string(),
        })
    );
    assert_eq!(
        step(Platform::Win32X64, true, DownloadEvent::Received),
        DownloadStep::Unpack(ExtractionPlan::Zip {
            archive: "/srv/vscode/vscode-server-deadbeef.zip".to_string(),
            target: "/srv/vscode/deadbeef".to_string(),
        })
    );
    assert_eq!(
        step(Platform::Win32X64, false, DownloadEvent::Received),
        extraction_failed("ZIP extraction not supported on this platform")
    );
}

#[test]
fn extraction_plans() {
    assert_eq!(
        extract_tar_gz("/d/a.tar.gz", "/d/abc"),
        ExtractionPlan::TarGz { archive: "/d/a.tar.gz".to_string(), staging: "/d/abc.tmp".to_string() }
    );
    assert_eq!(
        extract_zip("/d/a.zip", "/d/abc", true),
        Ok(ExtractionPlan::Zip { archive: "/d/a.zip".to_string(), target: "/d/abc".to_string() })
    );
    assert_eq!(
        extract_zip("/d/a.zip", "/d/abc", false),
        Err(ServerError::ExtractionFailed(
            "ZIP extraction not supported on this platform".to_string()
        ))
    );
    assert_eq!(
        extract_archive("/d/a", "/d/abc", Platform::LinuxArmhf, true),
        Ok(extract_tar_gz("/d/a", "/d/abc"))
    );
    assert_eq!(
        extract_archive("/d/a", "/d/abc", Platform::Win32X64, true),
        extract_zip("/d/a", "/d/abc", true)
    );
    assert_eq!(
        extract_archive("/d/a", "/d/abc", Platform::Win32X64, false),
        extract_zip("/d/a", "/d/abc", false)
    );
}

#[test]
fn unpacked_tar_is_listed_and_unpacked_zip_is_done() {
    assert_eq!(
        step(Platform::DarwinArm64, false, DownloadEvent::Unpacked),
        DownloadStep::ListDirectories("/srv/vscode/deadbeef.tmp".to_string())
    );
    assert_eq!(
        step(Platform::Win32X64, true, DownloadEvent::Unpacked),
        DownloadStep::RemoveArchive("/srv/vscode/vscode-server-deadbeef.zip".to_string())
    );
}

#[test]
fn single_top_level_directory_becomes_the_install() {
    let found = vec!["/srv/vscode/deadbeef.tmp/vscode-server-linux-x64".to_string()];
    assert_eq!(
        step(Platform::LinuxX64, false, DownloadEvent::Listed { directories: found.clone() }),
        DownloadStep::Move {
            from: "/srv/vscode/deadbeef.tmp/vscode-server-linux-x64".to_string(),
            to: "/srv/vscode/deadbeef".to_string(),
        }
    );
    assert_eq!(
        place_extracted(&found, "/srv/vscode/deadbeef"),
        Ok((
            "/srv/vscode/deadbeef.tmp/vscode-server-linux-x64".to_string(),
            "/srv/vscode/deadbeef".to_string()
        ))
    );
}

#[test]
fn no_top_level_directory_fails_extraction() {
    assert_eq!(
        step(Platform::LinuxX64, false, DownloadEvent::Listed { directories: vec![] }),
        extraction_failed("Expected exactly one directory in archive, found 0")
    );
}

#[test]
fn two_top_level_directories_fail_extraction() {
    let found = vec!["/t/a".to_string(), "/t/b".to_string()];
    assert_eq!(
        step(Platform::LinuxX64, false, DownloadEvent::Listed { directories: found }),
        extraction_failed("Expected exactly one directory in archive, found 2")
    );
}

#[test]
fn many_top_level_directories_are_counted() {
    let found: Vec<String> = (0..12).map(|i| format!("/t/{}", i)).collect();
    assert_eq!(
        place_extracted(&found, "/x"),
        Err(ServerError::ExtractionFailed(
            "Expected exactly one directory in archive, found 12".to_string()
        ))
    );
}

#[test]
fn cleanup_follows_the_move() {
    assert_eq!(
        step(Platform::LinuxX64, false, DownloadEvent::Moved),
        DownloadStep::RemoveDirectory("/srv/vscode/deadbeef.tmp".to_string())
    );
    assert_eq!(
        step(Platform::LinuxX64, false, DownloadEvent::Cleaned),
        DownloadStep::RemoveArchive("/srv/vscode/vscode-server-deadbeef.tar.gz".to_string())
    );
    assert_eq!(
        step(Platform::LinuxX64, false, DownloadEvent::ArchiveRemoved),
        DownloadStep::Done(Ok(()))
    );
}

#[test]
fn failures_keep_their_kind() {
    assert_eq!(
        step(Platform::LinuxX64, false, DownloadEvent::IoFailed("permission denied".to_string())),
        DownloadStep::Done(Err(ServerError::Io("permission denied".to_string())))
    );
    assert_eq!(
        step(Platform::LinuxX64, false, DownloadEvent::TransportFailed("reset".to_string())),
        DownloadStep::Done(Err(ServerError::Network("reset".to_string())))
    );
    assert_eq!(
        step(Platform::LinuxX64, false, DownloadEvent::UnpackFailed("bad gzip".to_string())),
        extraction_failed("bad gzip")
    );
}

#[test]
fn whole_tar_download_in_order() {
    let info = release(Platform::LinuxX64);
    let dir = "cache/";
    let mut seen = Vec::new();
    let mut event = DownloadEvent::Begin;
    loop {
        let next = download_server(&info, dir, false, event);
        event = match &next {
            DownloadStep::CreateDirectory(_) => DownloadEvent::DirectoryReady,
            DownloadStep::Probe(_) => DownloadEvent::Probed { installed: false },
            DownloadStep::Fetch(_) => DownloadEvent::Responded { status: 200 },
            DownloadStep::Receive(_) => DownloadEvent::Received,
            DownloadStep::Unpack(_) => DownloadEvent::Unpacked,
            DownloadStep::ListDirectories(p) => {
                DownloadEvent::Listed { directories: vec![format!("{}/root", p)] }
            }
            DownloadStep::Move { .. } => DownloadEvent::Moved,
            DownloadStep::RemoveDirectory(_) => DownloadEvent::Cleaned,
            DownloadStep::RemoveArchive(_) => DownloadEvent::ArchiveRemoved,
            DownloadStep::Done(_) => {
                seen.push(next);
                break;
            }
        };
        seen.push(next);
        assert!(seen.len() < 20);
    }
    assert_eq!(
        seen,
        vec![
            DownloadStep::CreateDirectory("cache/".to_string()),
            DownloadStep::Probe("cache/deadbeef".to_string()),
            DownloadStep::Fetch(info.download_url.clone()),
            DownloadStep::Receive("cache/vscode-server-deadbeef.tar.gz".to_string()),
            DownloadStep::Unpack(ExtractionPlan::TarGz {
                archive: "cache/vscode-server-deadbeef.tar.gz".to_string(),
                staging: "cache/deadbeef.tmp".to_string(),
            }),
            DownloadStep::ListDirectories("cache/deadbeef.tmp".to_string()),
            DownloadStep::Move {
                from: "cache/deadbeef.tmp/root".to_string(),
                to: "cache/deadbeef".to_string()
            },
            DownloadStep::RemoveDirectory("cache/deadbeef.tmp".to_string()),
            DownloadStep::RemoveArchive("cache/vscode-server-deadbeef.tar.gz".to_string()),
            DownloadStep::Done(Ok(())),
        ]
    );
}

#[test]
fn progress_in_tenths_of_a_percent() {
    let mut transfer = Transfer::new(Some(2000));
    assert_eq!(transfer, Transfer { downloaded: 0, total: 2000 });
    assert_eq!(transfer.progress(), Some(0));
    transfer.receive(500);
    assert_eq!(transfer.progress(), Some(250));
    transfer.receive(167);
    assert_eq!(transfer.downloaded, 667);
    assert_eq!(transfer.progress(), Some(333));
    transfer.receive(1333);
    assert_eq!(transfer.progress(), Some(1000));
    transfer.receive(1000);
    assert_eq!(transfer.progress(), Some(1500));
}

#[test]
fn no_progress_without_a_declared_length() {
    let mut transfer = Transfer::new(None);
    assert_eq!(transfer, Transfer { downloaded: 0, total: 0 });
    transfer.receive(4096);
    assert_eq!(transfer.downloaded, 4096);
    assert_eq!(transfer.progress(), None);
    assert_eq!(Transfer::new(Some(0)).progress(), None);
}

#[test]
fn progress_of_very_large_transfers() {
    let mut transfer = Transfer::new(Some(1));
    transfer.receive(u64::MAX);
    assert_eq!(transfer.progress(), Some(u64::MAX as u128 * 1000));
    let mut transfer = Transfer::new(Some(u64::MAX));
    transfer.receive(u64::MAX);
    assert_eq!(transfer.progress(), Some(1000));
}
