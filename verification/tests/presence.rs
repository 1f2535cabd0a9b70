use std::collections::HashSet;

use codex_quota::config::DEFAULT_CHECK_SECS;
use codex_quota::error::AppError;
use codex_quota::presence::{
    app_root_pids, duration_to_wait_millis, enumerate_processes, is_codex_app_family,
    is_external_cli_candidate, minimum_timeout, normalize_path, package_family_length, probe_for,
    process_age, process_package_family, resolve_cli_path, scan_codex_processes, should_shutdown,
    wait_after_scan_error, wait_for_handles, wait_until_rescan, wide_array_to_string,
    wide_slice_to_string, CommandWait, PresenceScan, Probe, ProcessFacts, ScanContext, WaitPlan,
    WatchEvent, WatchStep, Watcher, WatcherCommand, CLI_MINIMUM_LIFETIME_MILLIS,
    EXIT_GRACE_MILLIS,
};
use codex_quota::time::{Duration, FileTime, Instant};

const IDLE: Duration = Duration { nanos: DEFAULT_CHECK_SECS as u128 * 1_000_000_000 };

#[test]
fn app_root_selection_ignores_same_package_children_in_any_order() {
    let roots = app_root_pids(&[(102, 101), (100, 50), (101, 100)]);

    assert_eq!(roots, HashSet::from([100]));
}

#[test]
fn app_root_selection_preserves_independent_package_roots() {
    let roots = app_root_pids(&[(100, 50), (101, 100), (200, 60)]);

    assert_eq!(roots, HashSet::from([100, 200]));
}

#[test]
fn cli_lifetime_below_threshold_remains_pending() {
    let age = Duration::from_millis(799);

    assert!(age < Duration::from_millis(CLI_MINIMUM_LIFETIME_MILLIS));
}

#[test]
fn cli_lifetime_at_threshold_is_active() {
    let age = Duration::from_millis(800);

    assert!(age >= Duration::from_millis(CLI_MINIMUM_LIFETIME_MILLIS));
}

#[test]
fn quota_owned_app_server_is_not_an_external_cli_candidate() {
    assert!(!is_external_cli_candidate("codex.exe", 42, 42));
}

#[test]
fn similarly_named_chatgpt_package_is_rejected() {
    assert!(!is_codex_app_family("OpenAI.ChatGPT_2p2nqsd0c76g0"));
}

#[test]
fn grace_period_wins_over_idle_interval_when_equal() {
    assert_eq!(
        minimum_timeout(
            Some(Duration::from_millis(EXIT_GRACE_MILLIS)),
            None,
            IDLE
        ),
        Duration::from_millis(EXIT_GRACE_MILLIS)
    );
}

#[test]
fn candidates_are_told_by_name_whatever_its_case() {
    assert!(is_external_cli_candidate("CODEX.exe", 7, 42));
    assert!(!is_external_cli_candidate("codex", 7, 42));
    assert!(is_codex_app_family("OpenAI.Codex_2p2nqsd0c76g0"));
}

#[test]
fn the_shortest_timeout_wins() {
    let secs = Duration::from_secs;
    assert_eq!(minimum_timeout(Some(secs(3)), Some(secs(2)), secs(9)), secs(2));
    assert_eq!(minimum_timeout(None, Some(secs(4)), secs(9)), secs(4));
    assert_eq!(minimum_timeout(None, None, secs(9)), secs(9));
}

#[test]
fn paths_are_compared_in_lower_case_with_backslashes() {
    assert_eq!(normalize_path("\\\\?\\C:\\Tools\\ÄB/Codex.EXE"), "c:\\tools\\äb\\codex.exe");
    assert_eq!(normalize_path("D:/x"), "d:\\x");
    assert_eq!(normalize_path(""), "");
    let cli = resolve_cli_path(Some(("C:/Codex.exe", "C:/Real/Codex.exe"))).unwrap();
    assert_eq!(cli.path, "C:/Codex.exe");
    assert_eq!(cli.normalized, "c:\\real\\codex.exe");
    assert!(resolve_cli_path(None).is_none());
}

#[test]
fn wide_strings_end_at_their_first_zero() {
    let mut units: Vec<u16> = "codex 球 😀".encode_utf16().collect();
    assert_eq!(wide_slice_to_string(&units), "codex 球 😀");
    units.push(0);
    units.extend([b'x' as u16]);
    assert_eq!(wide_array_to_string(&units), "codex 球 😀");
    assert_eq!(wide_slice_to_string(&[0xd800, 0x41]), "\u{fffd}A");
    assert_eq!(wide_slice_to_string(&[]), "");
}

#[test]
fn waits_are_whole_milliseconds_and_never_endless() {
    assert_eq!(duration_to_wait_millis(Duration::from_nanos(5)), 1);
    assert_eq!(duration_to_wait_millis(Duration::from_millis(5)), 5);
    assert_eq!(duration_to_wait_millis(Duration::from_secs(1 << 40)), u32::MAX - 1);
}

#[test]
fn the_watcher_ends_on_request_or_when_nobody_is_left() {
    assert!(!should_shutdown(&[], false));
    assert!(!should_shutdown(&[WatcherCommand::Recheck], false));
    assert!(should_shutdown(&[WatcherCommand::Recheck, WatcherCommand::Shutdown], false));
    assert!(should_shutdown(&[], true));
    assert!(wait_after_scan_error(CommandWait::Received(WatcherCommand::Shutdown)));
    assert!(!wait_after_scan_error(CommandWait::Received(WatcherCommand::Recheck)));
    assert!(!wait_after_scan_error(CommandWait::TimedOut));
    assert!(wait_after_scan_error(CommandWait::Disconnected));
}

#[test]
fn more_processes_than_handles_are_polled() {
    assert_eq!(
        wait_until_rescan(2, None, IDLE),
        WaitPlan { wait_on_processes: true, millis: u32::MAX }
    );
    assert_eq!(
        wait_until_rescan(63, Some(Duration::from_secs(9)), IDLE),
        WaitPlan { wait_on_processes: true, millis: 9_000 }
    );
    assert_eq!(
        wait_until_rescan(64, Some(Duration::from_secs(9)), IDLE),
        WaitPlan { wait_on_processes: false, millis: 2_000 }
    );
    assert_eq!(
        wait_until_rescan(64, None, IDLE),
        WaitPlan { wait_on_processes: false, millis: 2_000 }
    );
}

#[test]
fn a_process_cannot_be_older_than_the_clock() {
    let file_time = |ticks: u64| FileTime { low: ticks as u32, high: (ticks >> 32) as u32 };
    assert_eq!(
        process_age(file_time(30_000_000), file_time(20_000_000)),
        Duration::from_secs(1)
    );
    assert_eq!(
        process_age(file_time(20_000_000), file_time(30_000_000)),
        Duration::from_secs(0)
    );
}

fn process(pid: u32, parent_pid: u32, name: &str) -> ProcessFacts {
    ProcessFacts {
        pid,
        parent_pid,
        executable_name: name.to_owned(),
        package_family: None,
        image_path: None,
        age: None,
    }
}

fn app(pid: u32, parent_pid: u32) -> ProcessFacts {
    ProcessFacts {
        package_family: Some("OpenAI.Codex_2p2nqsd0c76g0".to_owned()),
        ..process(pid, parent_pid, "chatgpt.exe")
    }
}

fn cli(pid: u32, parent_pid: u32, millis: Option<u64>) -> ProcessFacts {
    ProcessFacts {
        image_path: Some("c:\\codex.exe".to_owned()),
        age: millis.map(Duration::from_millis),
        ..process(pid, parent_pid, "codex.exe")
    }
}

fn context(cli_path: Option<&str>) -> ScanContext {
    ScanContext { own_pid: 42, cli_path: cli_path.map(str::to_owned) }
}

#[test]
fn probes_ask_only_about_programs_that_can_count() {
    assert_eq!(probe_for("CHATGPT.EXE", 1, 42, false), Probe::PackageFamily);
    assert_eq!(probe_for("codex.exe", 1, 42, true), Probe::ImagePath);
    assert_eq!(probe_for("codex.exe", 1, 42, false), Probe::Nothing);
    assert_eq!(probe_for("codex.exe", 42, 42, true), Probe::Nothing);
    assert_eq!(probe_for("notepad.exe", 1, 42, true), Probe::Nothing);
}

#[test]
fn a_scan_counts_roots_and_command_lines_that_have_lasted() {
    let processes = [
        process(1, 0, "explorer.exe"),
        app(10, 1),
        app(11, 10),
        cli(20, 1, Some(800)),
        cli(21, 1, Some(300)),
        cli(22, 1, None),
        cli(23, 42, Some(9_000)),
    ];
    let scan = scan_codex_processes(&context(Some("c:\\codex.exe")), &processes);
    assert!(scan.is_present());
    assert_eq!(scan.active, vec![1, 3]);
    assert_eq!(scan.pending_cli, vec![4, 5]);
    assert_eq!(scan.next_cli_activation, Some(Duration::from_millis(500)));

    let without_cli = scan_codex_processes(&context(None), &processes[3..]);
    assert!(!without_cli.is_present());
    assert_eq!(without_cli.next_cli_activation, None);
    let elsewhere = scan_codex_processes(&context(Some("d:\\codex.exe")), &processes[3..]);
    assert!(!elsewhere.is_present());
}

#[test]
fn presence_is_published_at_once_and_absence_after_its_grace() {
    let at = |millis: u64| Instant { nanos: Duration::from_millis(millis).nanos };
    let mut watcher = Watcher::new(IDLE, at(0));
    let idle = watcher.observe(false, None, at(0));
    assert_eq!(idle.publish, None);
    assert_eq!(idle.timeout, Some(Duration::from_millis(2_000)));

    let found = watcher.observe(true, None, at(100));
    assert_eq!(found.publish, Some(true));
    assert_eq!(found.timeout, None);
    assert_eq!(watcher.observe(true, None, at(200)).publish, None);

    let gone = watcher.observe(false, Some(Duration::from_millis(700)), at(300));
    assert_eq!(gone.publish, None);
    assert_eq!(gone.timeout, Some(Duration::from_millis(700)));
    assert_eq!(watcher.observe(false, None, at(2_299)).publish, None);
    assert_eq!(watcher.observe(false, None, at(2_300)).publish, Some(false));
    assert_eq!(watcher.observe(false, None, at(2_400)).publish, None);
}

#[test]
fn a_short_absence_is_never_published() {
    let at = |millis: u64| Instant { nanos: Duration::from_millis(millis).nanos };
    let mut watcher = Watcher::new(IDLE, at(0));
    watcher.observe(true, None, at(0));
    watcher.observe(false, None, at(1_000));
    assert_eq!(watcher.observe(true, None, at(1_500)).publish, None);
    watcher.observe(false, None, at(2_000));
    assert_eq!(watcher.observe(false, None, at(3_900)).publish, None);
}

#[test]
fn paths_and_errors_have_their_own_intervals() {
    let at = |millis: u64| Instant { nanos: Duration::from_millis(millis).nanos };
    let mut watcher = Watcher::new(IDLE, at(0));
    assert!(watcher.refreshes_cli_path(at(0)));
    assert!(!watcher.refreshes_cli_path(at(29_999)));
    assert!(watcher.refreshes_cli_path(at(30_000)));
    assert!(watcher.logs_error(at(0)));
    assert!(!watcher.logs_error(at(59_999)));
    assert!(watcher.logs_error(at(60_000)));
}

#[test]
fn system_answers_are_told_from_failures() {
    assert!(enumerate_processes(false, 18).is_ok());
    assert_eq!(enumerate_processes(false, 5).unwrap_err().message(), "无法读取首个进程：5");
    assert_eq!(enumerate_processes(true, 6).unwrap_err().message(), "无法继续读取进程：6");

    assert_eq!(package_family_length(15_700, 0), Ok(None));
    assert_eq!(package_family_length(122, 40), Ok(Some(40)));
    assert_eq!(
        package_family_length(122, 0).unwrap_err().message(),
        "GetPackageFamilyName 长度查询失败：122"
    );
    assert!(package_family_length(0, 40).is_err());
    assert_eq!(process_package_family(0, &[0x61, 0, 0x62]).unwrap(), "a");
    assert_eq!(
        process_package_family(6, &[0x61]).unwrap_err().message(),
        "GetPackageFamilyName 读取失败：6"
    );
    assert!(wait_for_handles(0, 0).is_ok());
    assert_eq!(
        wait_for_handles(u32::MAX, 87).unwrap_err().message(),
        "WaitForMultipleObjects 返回错误 87"
    );
}

#[test]
fn the_watcher_turns_through_commands_scan_and_wait() {
    let at = |millis: u64| Instant { nanos: Duration::from_millis(millis).nanos };
    let commands = |waiting| WatchEvent::Commands { waiting, disconnected: false };
    let found = |active: Vec<usize>, pending_cli: Vec<usize>| {
        WatchEvent::Scanned(PresenceScan { active, pending_cli, next_cli_activation: None })
    };
    let mut watcher = Watcher::new(IDLE, at(0));

    let step = watcher.watcher_loop(commands(vec![WatcherCommand::Recheck]), at(0));
    assert!(matches!(step, WatchStep::Scan { refreshes_cli_path: true }));
    let step = watcher.watcher_loop(found(vec![3, 5], vec![7]), at(1));
    match step {
        WatchStep::Wait { publish, processes, millis } => {
            assert_eq!((publish, processes, millis), (Some(true), vec![3, 5], u32::MAX));
        }
        other => panic!("{other:?}"),
    }
    let step = watcher.watcher_loop(WatchEvent::Waited { result: 1, last_error: 0 }, at(2));
    assert!(matches!(step, WatchStep::TakeCommands));
    let step = watcher.watcher_loop(commands(vec![]), at(3));
    assert!(matches!(step, WatchStep::Scan { refreshes_cli_path: false }));
    let step = watcher.watcher_loop(found(vec![], vec![7]), at(4));
    match step {
        WatchStep::Wait { publish, processes, millis } => {
            assert_eq!((publish, processes, millis), (None, vec![7], 2_000));
        }
        other => panic!("{other:?}"),
    }
    let crowd = watcher.watcher_loop(found((0..64).collect(), vec![]), at(5));
    match crowd {
        WatchStep::Wait { publish, processes, millis } => {
            assert_eq!((publish, processes, millis), (None, vec![], 2_000));
        }
        other => panic!("{other:?}"),
    }
}

#[test]
fn a_failing_watcher_pauses_and_logs_sparingly() {
    let at = |millis: u64| Instant { nanos: Duration::from_millis(millis).nanos };
    let log_of = |step| match step {
        WatchStep::Pause { log, timeout } => {
            assert_eq!(timeout, IDLE);
            log
        }
        other => panic!("{other:?}"),
    };
    let mut watcher = Watcher::new(IDLE, at(0));
    let failed = || WatchEvent::ScanFailed(AppError::windows("x"));
    assert_eq!(
        log_of(watcher.watcher_loop(failed(), at(0))),
        Some("Codex 进程扫描失败：x".to_owned())
    );
    assert_eq!(log_of(watcher.watcher_loop(failed(), at(59_999))), None);
    let waited = WatchEvent::Waited { result: u32::MAX, last_error: 6 };
    assert_eq!(
        log_of(watcher.watcher_loop(waited, at(60_000))),
        Some("等待 Codex 进程状态失败：WaitForMultipleObjects 返回错误 6".to_owned())
    );

    let mut paused = |received| watcher.watcher_loop(WatchEvent::Paused(received), at(0));
    assert!(matches!(paused(CommandWait::TimedOut), WatchStep::TakeCommands));
    let recheck = CommandWait::Received(WatcherCommand::Recheck);
    assert!(matches!(paused(recheck), WatchStep::TakeCommands));
    let shutdown = CommandWait::Received(WatcherCommand::Shutdown);
    assert!(matches!(paused(shutdown), WatchStep::End));
    assert!(matches!(paused(CommandWait::Disconnected), WatchStep::End));
}

#[test]
fn a_shutdown_in_the_queue_ends_the_watcher() {
    let now = Instant { nanos: 0 };
    let mut watcher = Watcher::new(IDLE, now);
    let waiting = vec![WatcherCommand::Recheck, WatcherCommand::Shutdown];
    let commands = WatchEvent::Commands { waiting, disconnected: false };
    assert!(matches!(watcher.watcher_loop(commands, now), WatchStep::End));
    let gone = WatchEvent::Commands { waiting: vec![], disconnected: true };
    assert!(matches!(watcher.watcher_loop(gone, now), WatchStep::End));
}

#[test]
fn the_configured_interval_paces_an_idle_watcher() {
    let now = Instant { nanos: 0 };
    let mut watcher = Watcher::new(Duration::from_secs(30), now);
    assert_eq!(watcher.observe(false, None, now).timeout, Some(Duration::from_secs(30)));
    let soon = Some(Duration::from_millis(700));
    assert_eq!(watcher.observe(false, soon, now).timeout, soon);
    let crowd = wait_until_rescan(64, None, Duration::from_secs(30));
    assert_eq!(crowd, WaitPlan { wait_on_processes: false, millis: 30_000 });
}
