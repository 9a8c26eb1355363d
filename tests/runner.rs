use dencho_cli::command::{Arg, ProcessOutcome};
use dencho_cli::http::{
    body_is_blank, download_reply, environment_error_reply, health_check, DownloadHandler, HandlerAction,
    HandlerEvent,
};
use dencho_cli::paths::PathParts;
use dencho_cli::task::{
    browser_cache_dir, credential_env, download_command, failure_result, interpret_outcome,
    plan_download, script_path, DownloadRequest, DownloadResult, TaskPlan,
};

fn path(parts: &[&str]) -> PathParts {
    PathParts::from_parts(parts.iter().map(|s| s.to_string()).collect())
}

fn request(user: Option<&str>, pass: Option<&str>) -> DownloadRequest {
    DownloadRequest {
        github_username: user.map(|s| s.to_string()),
        github_password: pass.map(|s| s.to_string()),
    }
}

fn env_names(vars: &[dencho_cli::command::EnvVar]) -> Vec<String> {
    vars.iter().map(|v| v.name.clone()).collect()
}

fn text_of(a: &Arg) -> String {
    match a {
        Arg::Text(s) => s.clone(),
        Arg::Path(_) => panic!("expected text"),
    }
}

#[test]
fn absent_credentials_set_no_variables() {
    assert!(credential_env(&request(None, None)).is_empty());
}

#[test]
fn empty_credentials_set_no_variables() {
    assert!(credential_env(&request(Some(""), Some(""))).is_empty());
}

#[test]
fn supplied_credentials_set_their_variables() {
    let vars = credential_env(&request(Some("octo"), Some("s3cret")));
    assert_eq!(env_names(&vars), vec!["GITHUB_USERNAME", "GITHUB_PASSWORD"]);
    assert_eq!(text_of(&vars[0].value), "octo");
    assert_eq!(text_of(&vars[1].value), "s3cret");
}

#[test]
fn only_password_supplied() {
    let vars = credential_env(&request(Some(""), Some("pw")));
    assert_eq!(env_names(&vars), vec!["GITHUB_PASSWORD"]);
}

#[test]
fn script_lives_under_dist() {
    let s = script_path(&path(&["/", "app"]));
    assert_eq!(s.parts, vec!["/", "app", "dist", "download-supabase-invoice.js"]);
}

#[test]
fn browser_cache_prefers_appdata_then_home() {
    let a = path(&["C:\\", "Users", "me", "AppData"]);
    let h = path(&["/", "home", "me"]);
    assert_eq!(
        browser_cache_dir(Some(&a), Some(&h)).parts,
        vec!["C:\\", "Users", "me", "AppData", "dencho-cli", "browsers"]
    );
    assert_eq!(browser_cache_dir(None, Some(&h)).parts, vec!["/", "home", "me", "dencho-cli", "browsers"]);
    assert_eq!(browser_cache_dir(None, None).parts, vec![".", "dencho-cli", "browsers"]);
}

#[test]
fn download_command_without_credentials() {
    let root = path(&["/", "app"]);
    let script = script_path(&root);
    let cache = path(&["/", "cache"]);
    let c = download_command(&root, &script, &cache, &request(None, Some("")));
    assert_eq!(c.program, "node");
    assert_eq!(c.args.len(), 1);
    match &c.args[0] {
        Arg::Path(p) => assert_eq!(p.parts, script.parts),
        Arg::Text(_) => panic!("expected the script path"),
    }
    assert_eq!(c.cwd.as_ref().map(|p| p.parts.clone()), Some(root.parts.clone()));
    assert_eq!(env_names(&c.env), vec!["PLAYWRIGHT_BROWSERS_PATH"]);
    match &c.env[0].value {
        Arg::Path(p) => assert_eq!(p.parts, cache.parts),
        Arg::Text(_) => panic!("expected the cache path"),
    }
}

#[test]
fn missing_script_launches_nothing() {
    let root = path(&["/", "app"]);
    let plan = plan_download(&root, false, "/app/dist/download-supabase-invoice.js", &path(&["/c"]), &request(None, None));
    match plan {
        TaskPlan::Finish(DownloadResult::Error(m)) => {
            assert_eq!(m, "script not found: /app/dist/download-supabase-invoice.js")
        }
        _ => panic!("a missing script must not be launched"),
    }
}

#[test]
fn present_script_is_launched() {
    let root = path(&["/", "app"]);
    let plan = plan_download(&root, true, "ignored", &path(&["/c"]), &request(Some("u"), None));
    match plan {
        TaskPlan::Launch(c) => assert_eq!(env_names(&c.env), vec!["PLAYWRIGHT_BROWSERS_PATH", "GITHUB_USERNAME"]),
        TaskPlan::Finish(_) => panic!("expected a launch"),
    }
}

#[test]
fn exit_success_ignores_stdout() {
    let o = ProcessOutcome::Exited { success: true, stdout: "error: all is lost".to_string(), stderr: "warn".to_string() };
    match interpret_outcome(&o) {
        DownloadResult::Success(m) => assert_eq!(m, "Supabase 請求書のダウンロードが完了しました"),
        DownloadResult::Error(_) => panic!("exit status decides"),
    }
}

#[test]
fn exit_failure_carries_trimmed_stderr() {
    let o = ProcessOutcome::Exited { success: false, stdout: "partial".to_string(), stderr: "  login failed\n".to_string() };
    match interpret_outcome(&o) {
        DownloadResult::Error(m) => {
            assert_eq!(m, "ダウンロードエラー: login failed");
            assert!(m.contains("login failed"));
        }
        DownloadResult::Success(_) => panic!("a failing script is an error"),
    }
}

#[test]
fn launch_failure_is_an_error() {
    let o = ProcessOutcome::LaunchFailed("program not found".to_string());
    match interpret_outcome(&o) {
        DownloadResult::Error(m) => assert_eq!(m, "Node.js 実行エラー: program not found"),
        DownloadResult::Success(_) => panic!("expected an error"),
    }
}

#[test]
fn failure_result_prefixes_detail() {
    match failure_result("boom") {
        DownloadResult::Error(m) => assert_eq!(m, "ダウンロードエラー: boom"),
        DownloadResult::Success(_) => panic!("expected an error"),
    }
}

#[test]
fn health_is_always_ok() {
    let r = health_check();
    assert_eq!(r.code, 200);
    assert_eq!(r.status, "ok");
}

#[test]
fn replies_carry_status_codes() {
    let ok = download_reply(&DownloadResult::Success("done".to_string()));
    assert_eq!((ok.code, ok.body.status.as_str(), ok.body.message.as_str()), (200, "success", "done"));
    let err = download_reply(&DownloadResult::Error("bad".to_string()));
    assert_eq!((err.code, err.body.status.as_str(), err.body.message.as_str()), (500, "error", "bad"));
    let env = environment_error_reply("no exe");
    assert_eq!((env.code, env.body.message.as_str()), (500, "environment error: no exe"));
}

#[test]
fn empty_body_download_succeeds_with_two_log_lines() {
    let mut logs: Vec<String> = Vec::new();
    let (mut h, first) = DownloadHandler::start(request(None, None), path(&["/", "cache"]));
    logs.extend(first.logs);
    assert!(matches!(first.action, HandlerAction::ResolveRoot));
    let s = h.step(HandlerEvent::RootResolved(Ok(path(&["/", "app"]))));
    logs.extend(s.logs);
    match s.action {
        HandlerAction::CheckScript(p) => assert_eq!(p.parts, vec!["/", "app", "dist", "download-supabase-invoice.js"]),
        _ => panic!("expected a script check"),
    }
    let s = h.step(HandlerEvent::ScriptChecked { present: true, shown: "/app/dist/x.js".to_string() });
    logs.extend(s.logs);
    match s.action {
        HandlerAction::Launch(c) => assert_eq!(env_names(&c.env), vec!["PLAYWRIGHT_BROWSERS_PATH"]),
        _ => panic!("expected a launch"),
    }
    let s = h.step(HandlerEvent::TaskFinished(ProcessOutcome::Exited {
        success: true,
        stdout: String::new(),
        stderr: String::new(),
    }));
    logs.extend(s.logs);
    match s.action {
        HandlerAction::Respond(r) => {
            assert_eq!(r.code, 200);
            assert_eq!(r.body.status, "success");
            assert_eq!(r.body.message, "Supabase 請求書のダウンロードが完了しました");
        }
        _ => panic!("expected an answer"),
    }
    assert_eq!(logs, vec!["ダウンロードリクエスト受信", "ダウンロード成功"]);
}

#[test]
fn handler_reports_environment_error() {
    let (mut h, _) = DownloadHandler::start(request(None, None), path(&["/c"]));
    let s = h.step(HandlerEvent::RootResolved(Err("cannot read cwd".to_string())));
    assert_eq!(s.logs, vec!["アプリケーションルート取得エラー: cannot read cwd"]);
    match s.action {
        HandlerAction::Respond(r) => {
            assert_eq!(r.code, 500);
            assert_eq!(r.body.message, "environment error: cannot read cwd");
        }
        _ => panic!("expected an answer"),
    }
    let again = h.step(HandlerEvent::TaskFinished(ProcessOutcome::LaunchFailed("x".to_string())));
    assert!(again.logs.is_empty());
    assert!(matches!(again.action, HandlerAction::Idle));
}

#[test]
fn handler_reports_missing_script() {
    let (mut h, _) = DownloadHandler::start(request(Some("u"), Some("p")), path(&["/c"]));
    h.step(HandlerEvent::RootResolved(Ok(path(&["/", "app"]))));
    let s = h.step(HandlerEvent::ScriptChecked { present: false, shown: "/app/dist/s.js".to_string() });
    assert_eq!(s.logs, vec!["スクリプトが見つかりません: /app/dist/s.js"]);
    match s.action {
        HandlerAction::Respond(r) => {
            assert_eq!(r.code, 500);
            assert_eq!(r.body.status, "error");
            assert_eq!(r.body.message, "script not found: /app/dist/s.js");
        }
        _ => panic!("expected an answer"),
    }
}

#[test]
fn handler_reports_failed_run() {
    let (mut h, _) = DownloadHandler::start(request(None, None), path(&["/c"]));
    h.step(HandlerEvent::RootResolved(Ok(path(&["/", "app"]))));
    h.step(HandlerEvent::ScriptChecked { present: true, shown: "s".to_string() });
    let s = h.step(HandlerEvent::TaskFinished(ProcessOutcome::Exited {
        success: false,
        stdout: "out".to_string(),
        stderr: " err \n".to_string(),
    }));
    assert_eq!(s.logs, vec!["ダウンロード失敗: out  err \n"]);
    match s.action {
        HandlerAction::Respond(r) => {
            assert_eq!(r.code, 500);
            assert_eq!(r.body.message, "ダウンロードエラー: err");
        }
        _ => panic!("expected an answer"),
    }
}

#[test]
fn handler_ignores_out_of_order_event() {
    let (mut h, _) = DownloadHandler::start(request(None, None), path(&["/c"]));
    let s = h.step(HandlerEvent::ScriptChecked { present: true, shown: "s".to_string() });
    assert!(s.logs.is_empty());
    assert!(matches!(s.action, HandlerAction::Idle));
}

#[test]
fn blank_bodies() {
    assert!(body_is_blank(b""));
    assert!(body_is_blank(b" \r\n\t"));
    assert!(!body_is_blank(b"{}"));
    assert!(!body_is_blank(b" x "));
}
