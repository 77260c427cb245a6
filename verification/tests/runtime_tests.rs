use oled_wallpaper::runtime::{
    autostart_desktop_content, autostart_exec, autostart_info, autostart_path, config_dir,
    config_path, exec_line_missing, exec_probe, heal_autostart_if_stale, is_flatpak, join_path,
    lock_path, pid_stamp, read_lock_pid, restart_signal_path, restart_wallpaper, runtime_dir,
    wallpaper_status, AutostartFile, ExecProbe, HealAction, HealEvent, LockProbe,
    RestartAction, RestartEvent, RestartPhase, WallpaperLockError,
};

#[test]
fn join_follows_path_join() {
    for (base, seg) in [("/home/u", "a"), ("/home/u/", "a"), ("", "a"), ("/x", "/abs"), (".", ".config/o"), ("b", "")] {
        let expected = std::path::Path::new(base).join(seg);
        assert_eq!(join_path(base, seg), expected.to_str().unwrap(), "{base:?} {seg:?}");
    }
}

#[test]
fn runtime_paths() {
    assert_eq!(config_dir(Some("/home/u")), "/home/u/.config/oled-wallpaper");
    assert_eq!(config_dir(None), "./.config/oled-wallpaper");
    assert_eq!(runtime_dir(Some("/h")), "/h/.config/oled-wallpaper");
    assert_eq!(config_path(Some("/h")), "/h/.config/oled-wallpaper/config.toml");
    assert_eq!(lock_path(Some("/h")), "/h/.config/oled-wallpaper/wallpaper.lock");
    assert_eq!(restart_signal_path(Some("/h/")), "/h/.config/oled-wallpaper/restart.signal");
    assert_eq!(
        autostart_path(Some("/h")),
        "/h/.config/autostart/ninja.boop.OledWallpaper.desktop"
    );
}

#[test]
fn flatpak_detection() {
    assert!(is_flatpak(Some("ninja.boop.OledWallpaper"), false));
    assert!(!is_flatpak(Some("org.other.App"), false));
    assert!(is_flatpak(None, true));
    assert!(!is_flatpak(None, false));
}

#[test]
fn autostart_exec_choice() {
    assert_eq!(autostart_exec(true, Some("/bin/x".to_string())), "flatpak run ninja.boop.OledWallpaper");
    assert_eq!(autostart_exec(false, Some("/opt/oled-wallpaper".to_string())), "/opt/oled-wallpaper");
    assert_eq!(autostart_exec(false, None), "oled-wallpaper");
}

#[test]
fn desktop_content_layout() {
    let c = autostart_desktop_content("oled-wallpaper");
    assert_eq!(
        c,
        "[Desktop Entry]\nType=Application\nName=OLED Wallpaper\nComment=Start OLED Wallpaper as the desktop background at login\nExec=oled-wallpaper\nTerminal=false\nX-GNOME-Autostart-enabled=true\nNoDisplay=false\nStartupNotify=false\nCategories=Utility;Graphics;\n"
    );
}

#[test]
fn fresh_entry_is_not_stale() {
    for exec in ["flatpak run ninja.boop.OledWallpaper", "/usr/bin/oled-wallpaper", ""] {
        let c = autostart_desktop_content(exec);
        assert!(!exec_line_missing(&c, exec), "{exec:?}");
    }
}

#[test]
fn other_exec_line_is_stale() {
    let stale = "[Desktop Entry]\nType=Application\nExec=oled-wallpaper\n";
    assert!(exec_line_missing(stale, "flatpak run ninja.boop.OledWallpaper"));
    assert!(!exec_line_missing(stale, "oled-wallpaper"));
    // A trailing space on the command is trimmed away when the file is read.
    let c = autostart_desktop_content("x ");
    assert!(exec_line_missing(&c, "x "));
}

#[test]
fn autostart_info_assembles_state() {
    let info = autostart_info(
        "/h/a.desktop".to_string(),
        "oled-wallpaper".to_string(),
        false,
        AutostartFile::Contents("Exec=old\n".to_string()),
        true,
    );
    assert!(info.file_exists && info.exec_stale && info.exec_reachable && !info.via_flatpak);
    let missing = autostart_info("p".to_string(), "e".to_string(), true, AutostartFile::Missing, false);
    assert!(!missing.file_exists && !missing.exec_stale && missing.exec_reachable);
    let unreadable = autostart_info("p".to_string(), "e".to_string(), false, AutostartFile::Unreadable, false);
    assert!(unreadable.file_exists && !unreadable.exec_stale && !unreadable.exec_reachable);
}

#[test]
fn exec_probe_kinds() {
    match exec_probe("  /usr/bin/oled-wallpaper ") {
        ExecProbe::AbsolutePath(p) => assert_eq!(p, "/usr/bin/oled-wallpaper"),
        ExecProbe::SearchPath(_) => panic!("absolute path not recognised"),
    }
    match exec_probe("oled-wallpaper") {
        ExecProbe::SearchPath(p) => assert_eq!(p, "oled-wallpaper"),
        ExecProbe::AbsolutePath(_) => panic!("bare name taken for a path"),
    }
}

#[test]
fn heal_rewrites_only_stale_entries() {
    assert_eq!(
        heal_autostart_if_stale(HealEvent::Inspected { file_exists: true, exec_stale: true }),
        HealAction::Rewrite
    );
    assert_eq!(
        heal_autostart_if_stale(HealEvent::Inspected { file_exists: true, exec_stale: false }),
        HealAction::Finish(false)
    );
    assert_eq!(
        heal_autostart_if_stale(HealEvent::Inspected { file_exists: false, exec_stale: false }),
        HealAction::Finish(false)
    );
    assert_eq!(heal_autostart_if_stale(HealEvent::Rewritten(true)), HealAction::Finish(true));
    assert_eq!(heal_autostart_if_stale(HealEvent::Rewritten(false)), HealAction::Finish(false));
}

#[test]
fn autostart_not_stale_when_exec_correct() {
    let exec = autostart_exec(false, None);
    let info = autostart_info(
        autostart_path(Some("/home/u")),
        exec.clone(),
        false,
        AutostartFile::Contents(autostart_desktop_content(&exec)),
        false,
    );
    assert!(info.file_exists);
    assert!(!info.exec_stale, "freshly written file should not be stale");
}

#[test]
fn heal_noop_when_not_stale() {
    let exec = autostart_exec(false, None);
    let info = autostart_info(
        autostart_path(Some("/home/u")),
        exec.clone(),
        false,
        AutostartFile::Contents(autostart_desktop_content(&exec)),
        false,
    );
    let step = heal_autostart_if_stale(HealEvent::Inspected {
        file_exists: info.file_exists,
        exec_stale: info.exec_stale,
    });
    assert_eq!(step, HealAction::Finish(false), "heal should be a no-op when file is already correct");
}

#[test]
fn heal_noop_when_no_file() {
    let info = autostart_info(
        autostart_path(Some("/home/u")),
        autostart_exec(false, None),
        false,
        AutostartFile::Missing,
        false,
    );
    let step = heal_autostart_if_stale(HealEvent::Inspected {
        file_exists: info.file_exists,
        exec_stale: info.exec_stale,
    });
    assert_eq!(step, HealAction::Finish(false), "heal should be a no-op when no file exists");
}

#[test]
fn lock_pid_round_trip() {
    for pid in [0u32, 2, 4242, u32::MAX] {
        let stamp = pid_stamp(pid);
        assert_eq!(stamp, format!("{pid}\n"));
        assert_eq!(read_lock_pid(&stamp), Some(pid));
    }
    assert_eq!(read_lock_pid(""), None);
    assert_eq!(read_lock_pid("  17 \n"), Some(17));
    assert_eq!(read_lock_pid("abc"), None);
}

#[test]
fn status_from_lock_probe() {
    let s = wallpaper_status(&LockProbe::HeldElsewhere(Some("31\n".to_string())));
    assert!(s.running);
    assert_eq!(s.pid, Some(31));
    let s = wallpaper_status(&LockProbe::HeldElsewhere(None));
    assert!(s.running && s.pid.is_none());
    for probe in [LockProbe::NoLockFile, LockProbe::Acquired, LockProbe::Failed] {
        let s = wallpaper_status(&probe);
        assert!(!s.running && s.pid.is_none());
    }
}

#[test]
fn lock_error_messages() {
    assert_eq!(
        WallpaperLockError::already_running(Some("2\n")).message(),
        "wallpaper is already running (pid 2)"
    );
    assert_eq!(
        WallpaperLockError::already_running(None).message(),
        "wallpaper is already running"
    );
    let io: WallpaperLockError = std::io::Error::new(std::io::ErrorKind::Other, "boom").into();
    assert_eq!(io.message(), "boom");
}

#[test]
fn restart_when_nothing_runs_launches_directly() {
    let step = restart_wallpaper(RestartPhase::Start, RestartEvent::Status { running: false, deadline_passed: false });
    assert_eq!(step.next, RestartPhase::Launching);
    assert!(matches!(step.action, RestartAction::Launch));
    let step = restart_wallpaper(step.next, RestartEvent::Launched(None));
    assert_eq!(step.next, RestartPhase::Finished);
    assert!(matches!(step.action, RestartAction::Finish(Ok(()))));
}

#[test]
fn restart_waits_for_the_old_instance() {
    let step = restart_wallpaper(RestartPhase::Start, RestartEvent::Status { running: true, deadline_passed: false });
    assert!(matches!(step.action, RestartAction::SignalRestart));
    let step = restart_wallpaper(step.next, RestartEvent::SignalWritten(None));
    assert!(matches!(step.action, RestartAction::CheckStatus));
    let step = restart_wallpaper(step.next, RestartEvent::Status { running: true, deadline_passed: false });
    assert!(matches!(step.action, RestartAction::WaitThenCheckStatus));
    let step = restart_wallpaper(step.next, RestartEvent::Status { running: false, deadline_passed: true });
    assert!(matches!(step.action, RestartAction::Launch));
    let step = restart_wallpaper(step.next, RestartEvent::Launched(Some("no such file".to_string())));
    match step.action {
        RestartAction::Finish(Err(m)) => assert_eq!(m, "Failed to launch wallpaper: no such file"),
        other => panic!("unexpected {other:?}"),
    }
}

#[test]
fn restart_times_out_and_withdraws_the_request() {
    let step = restart_wallpaper(RestartPhase::AwaitingExit, RestartEvent::Status { running: true, deadline_passed: true });
    assert_eq!(step.next, RestartPhase::Finished);
    match step.action {
        RestartAction::ClearRequestAndFail(m) => {
            assert_eq!(m, "Timed out waiting for the running wallpaper to exit")
        }
        other => panic!("unexpected {other:?}"),
    }
}

#[test]
fn restart_fails_when_the_request_cannot_be_written() {
    let step = restart_wallpaper(RestartPhase::Signalling, RestartEvent::SignalWritten(Some("denied".to_string())));
    assert_eq!(step.next, RestartPhase::Finished);
    match step.action {
        RestartAction::Finish(Err(m)) => assert_eq!(m, "Failed to signal restart: denied"),
        other => panic!("unexpected {other:?}"),
    }
}
