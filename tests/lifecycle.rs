use dencho_cli::bootstrap::{Bootstrap, BootstrapAction, BootstrapError, BootstrapStage};
use dencho_cli::cli::{
    delete_command, install_command, install_report, parse_mode, start_command, stop_command,
    uninstall_report, RunMode,
};
use dencho_cli::command::{Arg, CommandSpec, ProcessOutcome};
use dencho_cli::decimal::decimal_text;
use dencho_cli::logsink::{chrono_lite_timestamp, format_log_line, log_file_path, log_line_now};
use dencho_cli::paths::{decide_root, marker_path_for, PathParts, RootDecision, RootError};
use dencho_cli::service::{
    handle_control, watch_shutdown, ControlReply, ControlSignal, LifecycleAction, LifecycleEvent,
    LifecyclePhase, ServiceLifecycle, ServiceState, StatusReport, WatchDecision,
    SHUTDOWN_POLL_MS,
};

fn path(parts: &[&str]) -> PathParts {
    PathParts::from_parts(parts.iter().map(|s| s.to_string()).collect())
}

fn words(c: &CommandSpec) -> Vec<String> {
    let mut out = vec![c.program.clone()];
    for a in &c.args {
        match a {
            Arg::Text(s) => out.push(s.clone()),
            Arg::Path(p) => out.push(p.parts.join("/")),
        }
    }
    out
}

/// Answers each bootstrap action from a simulated host and counts launches.
struct Host {
    runtime_ok: bool,
    bundle: bool,
    browsers: bool,
    bundle_install_ok: bool,
    browser_install_ok: bool,
    launched: Vec<Vec<String>>,
}

impl Host {
    fn run_pass(&mut self, windows: bool) -> Result<(), BootstrapError> {
        let mut b = Bootstrap::new(path(&["/", "app"]), path(&["/", "cache"]), windows);
        loop {
            match b.next_action() {
                BootstrapAction::Finish(r) => return r,
                BootstrapAction::Run(c) => {
                    let w = words(&c);
                    let ok = if w.contains(&"--version".to_string()) {
                        self.runtime_ok
                    } else if w.contains(&"chromium".to_string()) {
                        self.browsers = self.browsers || self.browser_install_ok;
                        self.browser_install_ok
                    } else {
                        self.bundle = self.bundle || self.bundle_install_ok;
                        self.bundle_install_ok
                    };
                    self.launched.push(w);
                    b.advance(ok);
                }
                BootstrapAction::CheckExists(p) => {
                    assert_eq!(p.parts, vec!["/", "app", "node_modules"]);
                    b.advance(self.bundle);
                }
                BootstrapAction::CheckNonEmpty(p) => {
                    assert_eq!(p.parts, vec!["/", "cache"]);
                    b.advance(self.browsers);
                }
            }
        }
    }
}

fn host(runtime_ok: bool, bundle: bool, browsers: bool, bundle_install_ok: bool, browser_install_ok: bool) -> Host {
    Host { runtime_ok, bundle, browsers, bundle_install_ok, browser_install_ok, launched: Vec::new() }
}

#[test]
fn ready_host_launches_only_the_version_query() {
    let mut h = host(true, true, true, false, false);
    assert_eq!(h.run_pass(false), Ok(()));
    assert_eq!(h.launched, vec![vec!["node".to_string(), "--version".to_string()]]);
}

#[test]
fn second_pass_installs_nothing() {
    let mut h = host(true, false, false, true, true);
    assert_eq!(h.run_pass(false), Ok(()));
    assert_eq!(h.launched.len(), 3);
    assert_eq!(h.launched[1], vec!["npm", "install"]);
    assert_eq!(h.launched[2], vec!["npx", "playwright", "install", "chromium"]);
    h.launched.clear();
    assert_eq!(h.run_pass(false), Ok(()));
    assert_eq!(h.launched, vec![vec!["node".to_string(), "--version".to_string()]]);
}

#[test]
fn windows_uses_cmd_tools() {
    let mut h = host(true, false, false, true, true);
    assert_eq!(h.run_pass(true), Ok(()));
    assert_eq!(h.launched[1][0], "npm.cmd");
    assert_eq!(h.launched[2][0], "npx.cmd");
}

#[test]
fn missing_runtime_stops_first() {
    let mut h = host(false, false, false, true, true);
    assert_eq!(h.run_pass(false), Err(BootstrapError::RuntimeNotFound));
    assert_eq!(h.launched.len(), 1);
    assert_eq!(BootstrapError::RuntimeNotFound.message(), "runtime not found");
}

#[test]
fn failed_bundle_install() {
    let mut h = host(true, false, false, false, true);
    assert_eq!(h.run_pass(false), Err(BootstrapError::DependencyInstallFailed));
    assert_eq!(h.launched.len(), 2);
    assert_eq!(BootstrapError::DependencyInstallFailed.message(), "dependency install failed");
}

#[test]
fn failed_browser_install() {
    let mut h = host(true, true, false, false, false);
    assert_eq!(h.run_pass(false), Err(BootstrapError::BrowserInstallFailed));
    assert_eq!(h.launched.len(), 2);
    assert_eq!(BootstrapError::BrowserInstallFailed.message(), "browser install failed");
}

#[test]
fn browser_install_gets_cache_variable_and_root() {
    let mut b = Bootstrap::new(path(&["/", "app"]), path(&["/", "cache"]), false);
    b.advance(true);
    b.advance(true);
    b.advance(false);
    assert_eq!(b.stage, BootstrapStage::InstallBrowsers);
    match b.next_action() {
        BootstrapAction::Run(c) => {
            assert_eq!(c.env.len(), 1);
            assert_eq!(c.env[0].name, "PLAYWRIGHT_BROWSERS_PATH");
            assert_eq!(c.cwd.map(|p| p.parts), Some(vec!["/".to_string(), "app".to_string()]));
        }
        _ => panic!("expected the browser install"),
    }
    assert!(!b.is_finished());
}

fn report(state: ServiceState, accepts_stop: bool, exit_code: u32, wait_hint_ms: u32) -> LifecycleAction {
    LifecycleAction::Report(StatusReport { state, accepts_stop, exit_code, wait_hint_ms })
}

#[test]
fn service_runs_and_stops_on_signal() {
    let mut s = ServiceLifecycle::new();
    assert_eq!(
        s.step(LifecycleEvent::HandlerRegistered),
        vec![report(ServiceState::Running, true, 0, 0), LifecycleAction::RunBootstrap]
    );
    assert_eq!(s.step(LifecycleEvent::BootstrapFinished { ready: true }), vec![LifecycleAction::StartServing]);
    assert_eq!(
        s.step(LifecycleEvent::ShutdownDetected),
        vec![
            LifecycleAction::StopServing,
            report(ServiceState::StopPending, false, 0, 5000),
            report(ServiceState::Stopped, false, 0, 0),
            LifecycleAction::Exit,
        ]
    );
    assert_eq!(s.state, ServiceState::Stopped);
    assert_eq!(s.phase, LifecyclePhase::Finished);
    assert!(s.step(LifecycleEvent::ServingEnded).is_empty());
}

#[test]
fn failed_bootstrap_reports_stopped_with_failure() {
    let mut s = ServiceLifecycle::new();
    s.step(LifecycleEvent::HandlerRegistered);
    assert_eq!(
        s.step(LifecycleEvent::BootstrapFinished { ready: false }),
        vec![
            report(ServiceState::StopPending, false, 0, 5000),
            report(ServiceState::Stopped, false, 1, 0),
            LifecycleAction::Exit,
        ]
    );
}

#[test]
fn listener_ending_alone_still_reports_stopped() {
    let mut s = ServiceLifecycle::new();
    s.step(LifecycleEvent::HandlerRegistered);
    s.step(LifecycleEvent::BootstrapFinished { ready: true });
    let acts = s.step(LifecycleEvent::ServingEnded);
    assert_eq!(acts.last(), Some(&LifecycleAction::Exit));
    assert_eq!(acts[1], report(ServiceState::Stopped, false, 0, 0));
}

#[test]
fn early_events_are_ignored() {
    let mut s = ServiceLifecycle::new();
    assert!(s.step(LifecycleEvent::ShutdownDetected).is_empty());
    assert_eq!(s.state, ServiceState::Starting);
}

#[test]
fn control_signals() {
    let stop = handle_control(ControlSignal::Stop);
    assert!(stop.notify_shutdown);
    assert_eq!(stop.reply, ControlReply::NoError);
    let ask = handle_control(ControlSignal::Interrogate);
    assert!(!ask.notify_shutdown);
    assert_eq!(ask.reply, ControlReply::NoError);
    let other = handle_control(ControlSignal::Other);
    assert!(!other.notify_shutdown);
    assert_eq!(other.reply, ControlReply::NotImplemented);
}

#[test]
fn watcher_stops_within_one_interval() {
    assert_eq!(watch_shutdown(true), WatchDecision::Stop);
    assert_eq!(watch_shutdown(false), WatchDecision::WaitMs(100));
    assert_eq!(SHUTDOWN_POLL_MS, 100);
}

#[test]
fn installed_layout_resolves_to_app_dir() {
    let exe = path(&["/", "opt", "app", "bin", "dencho-cli.exe"]);
    assert_eq!(marker_path_for(&exe).map(|p| p.parts), Some(vec![
        "/".to_string(), "opt".to_string(), "app".to_string(), "package.json".to_string()
    ]));
    match decide_root(&exe, true) {
        Ok(RootDecision::Installed(p)) => assert_eq!(p.parts, vec!["/", "opt", "app"]),
        _ => panic!("expected the installed root"),
    }
}

#[test]
fn installed_layout_without_marker_falls_back() {
    let exe = path(&["/", "opt", "app", "bin", "dencho-cli.exe"]);
    assert!(matches!(decide_root(&exe, false), Ok(RootDecision::WorkingDirectory)));
}

#[test]
fn development_layout_uses_working_dir() {
    let exe = path(&["/", "src", "target", "debug", "dencho-cli"]);
    assert!(marker_path_for(&exe).is_none());
    assert!(matches!(decide_root(&exe, true), Ok(RootDecision::WorkingDirectory)));
}

#[test]
fn empty_executable_path_is_an_error() {
    let exe = path(&[]);
    assert!(matches!(decide_root(&exe, false), Err(RootError::NoExecutableDirectory)));
}

#[test]
fn decimal_examples() {
    assert_eq!(decimal_text(0), "0");
    assert_eq!(decimal_text(7), "7");
    assert_eq!(decimal_text(1234567890), "1234567890");
    assert_eq!(decimal_text(u64::MAX), "18446744073709551615");
}

#[test]
fn timestamp_is_current_epoch_seconds() {
    let t = chrono_lite_timestamp();
    assert!(t.chars().all(|c| c.is_ascii_digit()));
    let secs: u64 = t.parse().unwrap();
    assert!(secs > 1_600_000_000);
}

#[test]
fn log_line_format() {
    assert_eq!(format_log_line("1700000000", "request received"), "[1700000000] request received\n");
    let l = log_line_now("hello");
    assert!(l.starts_with('['));
    assert!(l.ends_with("] hello\n"));
}

#[test]
fn log_file_location() {
    let root = path(&["/", "app"]);
    assert_eq!(log_file_path(Some(&root)).parts, vec!["/", "app", "logs", "service.log"]);
    assert_eq!(
        log_file_path(None).parts,
        vec!["C:\\", "ProgramData", "dencho-cli", "logs", "service.log"]
    );
}

fn args(list: &[&str]) -> Vec<String> {
    list.iter().map(|s| s.to_string()).collect()
}

#[test]
fn run_modes() {
    assert_eq!(parse_mode(&args(&["exe", "install"])), RunMode::Install);
    assert_eq!(parse_mode(&args(&["exe", "uninstall"])), RunMode::Uninstall);
    assert_eq!(parse_mode(&args(&["exe", "run"])), RunMode::Console);
    assert_eq!(parse_mode(&args(&["exe", "serve"])), RunMode::Service);
    assert_eq!(parse_mode(&args(&["exe"])), RunMode::Service);
    assert_eq!(parse_mode(&args(&[])), RunMode::Service);
}

#[test]
fn service_commands() {
    assert_eq!(
        words(&install_command("C:\\app\\bin\\dencho-cli.exe")),
        vec!["sc", "create", "dencho-cli", "binPath=C:\\app\\bin\\dencho-cli.exe", "start=auto", "DisplayName=Dencho CLI Server"]
    );
    assert_eq!(words(&start_command()), vec!["sc", "start", "dencho-cli"]);
    assert_eq!(words(&stop_command()), vec!["sc", "stop", "dencho-cli"]);
    assert_eq!(words(&delete_command()), vec!["sc", "delete", "dencho-cli"]);
}

#[test]
fn install_reports() {
    let ok = install_report(&ProcessOutcome::Exited { success: true, stdout: String::new(), stderr: String::new() });
    assert!(ok.start_service);
    assert_eq!(ok.lines[0].text, "✓ サービスインストール完了");
    assert_eq!(ok.after_start[0].text, "✓ サービスを開始しました");
    let bad = install_report(&ProcessOutcome::Exited { success: false, stdout: String::new(), stderr: "denied".to_string() });
    assert!(!bad.start_service);
    assert!(bad.lines[0].to_stderr);
    assert_eq!(bad.lines[0].text, "❌ インストール失敗: denied");
    let gone = install_report(&ProcessOutcome::LaunchFailed("no sc".to_string()));
    assert_eq!(gone.lines[0].text, "❌ sc コマンド実行エラー: no sc");
}

#[test]
fn uninstall_reports() {
    let ok = uninstall_report(&ProcessOutcome::Exited { success: true, stdout: String::new(), stderr: String::new() });
    assert_eq!(ok[0].text, "✓ サービスアンインストール完了");
    assert!(!ok[0].to_stderr);
    let bad = uninstall_report(&ProcessOutcome::Exited { success: false, stdout: String::new(), stderr: "missing".to_string() });
    assert_eq!(bad[0].text, "❌ アンインストール失敗: missing");
    assert!(bad[0].to_stderr);
}

#[test]
fn root_error_message() {
    assert_eq!(RootError::NoExecutableDirectory.message(), "the executable's path has no directory");
}
