use cratex::args::{build_install_args, install_args_for_host, parse_crate_spec};
use cratex::driver::{next, next_action, Action, DriverState, Event, Reason};
use cratex::monitor::{
    classify_kind, classify_line, DownloadKind, LineClass, MonitorSession, Phase, PrepStage,
};
use cratex::run;
use cratex::text::{chars_of, contains_chars, dec_u64, find_first, normalize_package};

fn cv(s: &str) -> Vec<char> {
    s.chars().collect()
}

// ---------------------------------------------------------------------------
// Text utilities.
// ---------------------------------------------------------------------------

#[test]
fn chars_of_matches_std() {
    assert_eq!(chars_of("héllo wörld"), cv("héllo wörld"));
    assert_eq!(chars_of(""), cv(""));
}

#[test]
fn find_first_returns_least_index() {
    assert_eq!(find_first(&cv("xxDownloading"), &cv("Downloading")), Some(2));
    assert_eq!(find_first(&cv("abcabc"), &cv("abc")), Some(0));
    assert_eq!(find_first(&cv("abc"), &cv("zzz")), None);
    assert_eq!(find_first(&cv("abc"), &cv("")), Some(0));
}

#[test]
fn contains_is_substring_containment() {
    assert!(contains_chars(&cv("   Downloading libfoo"), &cv("Downloading")));
    assert!(!contains_chars(&cv("Download libfoo"), &cv("Downloading")));
}

#[test]
fn normalize_strips_decoration() {
    assert_eq!(normalize_package(&cv("  libfoo v1.0...  ")), cv("libfoo v1.0"));
    assert_eq!(normalize_package(&cv(" x (y)...")), cv("x (y"));
    assert_eq!(normalize_package(&cv("a))")), cv("a"));
    assert_eq!(normalize_package(&cv("plain")), cv("plain"));
    assert_eq!(normalize_package(&cv("dots......")), cv("dots"));
}

#[test]
fn dec_renders_decimal() {
    assert_eq!(dec_u64(0), cv("0"));
    assert_eq!(dec_u64(7), cv("7"));
    assert_eq!(dec_u64(10), cv("10"));
    assert_eq!(dec_u64(1234), cv("1234"));
    assert_eq!(dec_u64(u64::MAX), cv("18446744073709551615"));
}

// ---------------------------------------------------------------------------
// Line classification.
// ---------------------------------------------------------------------------

#[test]
fn classification_is_first_match_wins() {
    assert_eq!(classify_line(&cv(" Downloading libfoo v1.0")), LineClass::Downloading);
    assert_eq!(classify_line(&cv(" Downloaded 3 crates")), LineClass::Downloaded);
    assert_eq!(classify_line(&cv(" Compiling libfoo v1.0")), LineClass::Compiling);
    assert_eq!(classify_line(&cv(" Building [===>] 12/40")), LineClass::Building);
    assert_eq!(classify_line(&cv(" Finished release [optimized]")), LineClass::Finished);
    assert_eq!(classify_line(&cv("warning: unused import")), LineClass::Other);
    // A line holding two markers goes to the earlier one in priority order.
    assert_eq!(classify_line(&cv("Building after Finished")), LineClass::Building);
}

#[test]
fn kind_checks_index_before_registry() {
    assert_eq!(classify_kind(&cv("crates.io index")), DownloadKind::RegistryIndex);
    assert_eq!(classify_kind(&cv("registry `crates-io`")), DownloadKind::RegistryCache);
    assert_eq!(classify_kind(&cv("registry index")), DownloadKind::RegistryIndex);
    assert_eq!(classify_kind(&cv("libfoo v1.0")), DownloadKind::Package);
}

// ---------------------------------------------------------------------------
// The monitor session.
// ---------------------------------------------------------------------------

#[test]
fn fresh_session_is_initial() {
    let s = MonitorSession::new();
    assert_eq!(s.phase, Phase::Preparing);
    assert_eq!(s.percentage, 0);
    assert_eq!(s.seen.len(), 0);
}

#[test]
fn end_of_stream_with_zero_lines_is_not_an_error() {
    // The monitor is created, no line ever arrives, and the run goes on.
    let s = MonitorSession::new();
    assert_eq!(s.phase, Phase::Preparing);
    let outcome = run(&vec![
        Event::SandboxCreated(true),
        Event::InstallerSpawned(true),
        Event::StreamEnded,
        Event::InstallerExited(true),
        Event::RunnerExited(true),
    ]);
    assert_eq!(outcome, DriverState::Done);
}

#[test]
fn downloading_line_sets_phase_and_message() {
    let mut s = MonitorSession::new();
    let msg = s.process_line(&cv("   Downloading libfoo v1.0\n"));
    assert_eq!(s.phase, Phase::Downloading);
    assert_eq!(s.percentage, 30);
    assert_eq!(msg, Some(cv("downloading [1/1] libfoo v1.0 (package)")));
}

#[test]
fn repeated_download_is_suppressed() {
    let mut s = MonitorSession::new();
    let first = s.process_line(&cv("Downloading libfoo v1.0"));
    assert!(first.is_some());
    assert_eq!(s.seen.len(), 1);
    let second = s.process_line(&cv("Downloading libfoo v1.0"));
    assert_eq!(second, None);
    assert_eq!(s.seen.len(), 1);
    let third = s.process_line(&cv("Downloading libbar v2.0"));
    assert_eq!(third, Some(cv("downloading [2/2] libbar v2.0 (package)")));
    assert_eq!(s.seen.len(), 2);
}

#[test]
fn download_kind_appears_in_message() {
    let mut s = MonitorSession::new();
    let msg = s.process_line(&cv("Downloading crates.io index"));
    assert_eq!(msg, Some(cv("downloading [1/1] crates.io index (registry index)")));
    let msg = s.process_line(&cv("Downloading libfoo v1.0 (registry `crates-io`)"));
    assert_eq!(
        msg,
        Some(cv("downloading [2/2] libfoo v1.0 (registry `crates-io` (registry cache)"))
    );
}

#[test]
fn downloaded_fires_once_with_count() {
    let mut s = MonitorSession::new();
    s.process_line(&cv("Downloading a v1"));
    s.process_line(&cv("Downloading b v2"));
    let msg = s.process_line(&cv(" Downloaded 2 crates in 0.5s"));
    assert_eq!(msg, Some(cv("downloaded 2 packages successfully")));
    assert_eq!(s.phase, Phase::Downloaded);
    assert_eq!(s.percentage, 45);
    let again = s.process_line(&cv(" Downloaded 2 crates in 0.5s"));
    assert_eq!(again, None);
    assert_eq!(s.percentage, 45);
}

#[test]
fn compiling_repeats_per_line_and_holds_sixty() {
    let mut s = MonitorSession::new();
    let first = s.process_line(&cv("   Compiling libfoo v1.0"));
    assert_eq!(s.phase, Phase::Compiling);
    assert_eq!(s.percentage, 60);
    assert_eq!(first, Some(cv("compiling libfoo v1.0 ...")));
    let second = s.process_line(&cv("   Compiling anotherpkg v0.3"));
    assert_eq!(s.percentage, 60);
    assert_eq!(second, Some(cv("compiling anotherpkg v0.3 ...")));
}

#[test]
fn compiling_dedup_is_independent_of_downloading() {
    let mut s = MonitorSession::new();
    s.process_line(&cv("Downloading libfoo v1.0"));
    s.process_line(&cv("Compiling anotherpkg v0.3"));
    // The same identifier was already seen as a download; a compile of it
    // still gets its message.
    let msg = s.process_line(&cv("Compiling libfoo v1.0"));
    assert_eq!(msg, Some(cv("compiling libfoo v1.0 ...")));
}

#[test]
fn building_and_finishing_fire_once() {
    let mut s = MonitorSession::new();
    let b = s.process_line(&cv("Building [===> ] 17/63"));
    assert_eq!(b, Some(cv("building binary...")));
    assert_eq!(s.percentage, 75);
    assert_eq!(s.process_line(&cv("Building [====> ] 18/63")), None);
    let f = s.process_line(&cv(" Finished `release` profile [optimized]"));
    assert_eq!(f, Some(cv("finishing installation...")));
    assert_eq!(s.percentage, 85);
    assert_eq!(s.process_line(&cv(" Finished again")), None);
    assert_eq!(s.phase, Phase::Finishing);
}

#[test]
fn unmatched_lines_are_ignored() {
    let mut s = MonitorSession::new();
    assert_eq!(s.process_line(&cv("warning: unused variable `x`")), None);
    assert_eq!(s.phase, Phase::Preparing);
    assert_eq!(s.percentage, 0);
    assert_eq!(s.seen.len(), 0);
}

#[test]
fn percentage_never_decreases_on_out_of_order_lines() {
    let mut s = MonitorSession::new();
    let lines = [
        "Compiling early v1.0",
        "Downloading late v1.0",
        "Downloaded 1 crate",
        "Building",
        "Downloading later v2.0",
        "Finished",
        "Compiling post v9.9",
    ];
    let mut last = s.percentage;
    for l in lines.iter() {
        s.process_line(&cv(l));
        assert!(s.percentage >= last);
        last = s.percentage;
    }
    assert_eq!(s.percentage, 85);
}

#[test]
fn preparation_running_and_completion_milestones() {
    let mut s = MonitorSession::new();
    assert_eq!(s.note_prepare(PrepStage::Environment), cv("preparing environment..."));
    assert_eq!(s.percentage, 10);
    assert_eq!(s.note_prepare(PrepStage::Installation), cv("preparing installation..."));
    assert_eq!(s.percentage, 15);
    assert_eq!(s.note_prepare(PrepStage::Starting), cv("starting installing..."));
    assert_eq!(s.percentage, 20);
    assert_eq!(s.note_running(), cv("running binary..."));
    assert_eq!(s.phase, Phase::Running);
    assert_eq!(s.percentage, 90);
    assert_eq!(s.note_complete(), cv("complete!"));
    assert_eq!(s.phase, Phase::Complete);
    assert_eq!(s.percentage, 100);
}

// ---------------------------------------------------------------------------
// The `name[@version]` argument and the installer arguments.
// ---------------------------------------------------------------------------

#[test]
fn crate_spec_splits_on_first_at() {
    assert_eq!(parse_crate_spec(&cv("ripgrep@14.1.0")), (cv("ripgrep"), Some(cv("14.1.0"))));
    assert_eq!(parse_crate_spec(&cv("ripgrep")), (cv("ripgrep"), None));
    assert_eq!(parse_crate_spec(&cv("a@b@c")), (cv("a"), Some(cv("b@c"))));
    assert_eq!(parse_crate_spec(&cv("name@")), (cv("name"), Some(cv(""))));
}

#[test]
fn install_args_have_the_documented_shape() {
    let args = build_install_args(&cv("foo"), &Some(cv("1.2")), &cv("/tmp/x"), 8);
    let want: Vec<Vec<char>> = ["install", "foo", "--version", "1.2", "--root", "/tmp/x", "--jobs", "8"]
        .iter()
        .map(|s| cv(s))
        .collect();
    assert_eq!(args, want);
    let args = build_install_args(&cv("foo"), &None, &cv("/tmp/x"), 12);
    let want: Vec<Vec<char>> = ["install", "foo", "--root", "/tmp/x", "--jobs", "12"]
        .iter()
        .map(|s| cv(s))
        .collect();
    assert_eq!(args, want);
}

#[test]
fn host_args_use_at_least_one_job() {
    let (args, jobs) = install_args_for_host(&cv("foo"), &None, &cv("/tmp/x"));
    assert!(jobs >= 1);
    assert_eq!(args[args.len() - 2], cv("--jobs"));
    assert_eq!(args[args.len() - 1], dec_u64(jobs));
}

// ---------------------------------------------------------------------------
// The control machine.
// ---------------------------------------------------------------------------

#[test]
fn happy_path_reaches_done() {
    let events = vec![
        Event::SandboxCreated(true),
        Event::InstallerSpawned(true),
        Event::LineRead,
        Event::LineRead,
        Event::StreamEnded,
        Event::InstallerExited(true),
        Event::RunnerExited(true),
    ];
    assert_eq!(run(&events), DriverState::Done);
}

#[test]
fn failed_install_never_launches_the_binary() {
    let events = vec![
        Event::SandboxCreated(true),
        Event::InstallerSpawned(true),
        Event::StreamEnded,
        Event::InstallerExited(false),
    ];
    // Replay by hand, collecting every action the machine asks for.
    let mut state = DriverState::Init;
    let mut actions = Vec::new();
    for e in events.iter() {
        actions.push(next_action(state));
        state = next(state, *e);
    }
    actions.push(next_action(state));
    assert_eq!(state, DriverState::Failed(Reason::InstallFailed));
    assert!(!actions.contains(&Action::LaunchBinary));
    assert_eq!(run(&events), DriverState::Failed(Reason::InstallFailed));
}

#[test]
fn failed_binary_reports_run_failed() {
    let events = vec![
        Event::SandboxCreated(true),
        Event::InstallerSpawned(true),
        Event::LineRead,
        Event::StreamEnded,
        Event::InstallerExited(true),
        Event::RunnerExited(false),
    ];
    // The installer had already succeeded: the machine passed ReadyToRun.
    let mut state = DriverState::Init;
    let mut saw_ready = false;
    for e in events.iter() {
        state = next(state, *e);
        if state == DriverState::ReadyToRun {
            saw_ready = true;
        }
    }
    assert!(saw_ready);
    assert_eq!(state, DriverState::Failed(Reason::RunFailed));
}

#[test]
fn early_failures_carry_their_reason() {
    assert_eq!(
        run(&vec![Event::SandboxCreated(false)]),
        DriverState::Failed(Reason::EnvironmentSetupFailure)
    );
    assert_eq!(
        run(&vec![Event::SandboxCreated(true), Event::InstallerSpawned(false)]),
        DriverState::Failed(Reason::SpawnFailure)
    );
    assert_eq!(
        run(&vec![
            Event::SandboxCreated(true),
            Event::InstallerSpawned(true),
            Event::StreamEnded,
            Event::InstallerExited(true),
            Event::RunnerFailedToStart,
        ]),
        DriverState::Failed(Reason::SpawnFailure)
    );
}

#[test]
fn stream_failure_still_reaps_the_installer() {
    let events = vec![
        Event::SandboxCreated(true),
        Event::InstallerSpawned(true),
        Event::LineRead,
        Event::StreamFailed,
    ];
    let mut state = DriverState::Init;
    for e in events.iter() {
        state = next(state, *e);
    }
    // The installer is still awaited, and only then the run fails.
    assert_eq!(next_action(state), Action::WaitInstaller);
    state = next(state, Event::InstallerExited(true));
    assert_eq!(state, DriverState::Failed(Reason::StreamReadFailure));
}

#[test]
fn actions_follow_the_states() {
    assert_eq!(next_action(DriverState::Init), Action::CreateSandbox);
    assert_eq!(next_action(DriverState::SandboxReady), Action::SpawnInstaller);
    assert_eq!(next_action(DriverState::Streaming), Action::ReadLine);
    assert_eq!(next_action(DriverState::AwaitingInstaller), Action::WaitInstaller);
    assert_eq!(next_action(DriverState::ReadyToRun), Action::LaunchBinary);
    assert_eq!(next_action(DriverState::Done), Action::Stop);
}
