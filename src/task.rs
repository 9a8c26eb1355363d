use vstd::prelude::*;
use crate::command::{
    Arg, ArgModel, CommandModel, CommandSpec, EnvVar, EnvVarModel, ProcessOutcome,
    ProcessOutcomeModel, sets_var,
};
use crate::paths::PathParts;
use crate::text::concat_text;

verus! {

/// Credentials supplied with a download request; either may be omitted.
pub struct DownloadRequest {
    pub github_username: Option<String>,
    pub github_password: Option<String>,
}

pub struct DownloadRequestModel {
    pub username: Option<Seq<char>>,
    pub password: Option<Seq<char>>,
}

pub open spec fn opt_text_view(s: Option<String>) -> Option<Seq<char>> {
    match s {
        Some(t) => Some(t@),
        None => None,
    }
}

impl View for DownloadRequest {
    type V = DownloadRequestModel;

    open spec fn view(&self) -> DownloadRequestModel {
        DownloadRequestModel {
            username: opt_text_view(self.github_username),
            password: opt_text_view(self.github_password),
        }
    }
}

/// The outcome of one download task.
pub enum DownloadResult {
    Success(String),
    Error(String),
}

pub enum DownloadResultModel {
    Success(Seq<char>),
    Error(Seq<char>),
}

impl View for DownloadResult {
    type V = DownloadResultModel;

    open spec fn view(&self) -> DownloadResultModel {
        match self {
            DownloadResult::Success(m) => DownloadResultModel::Success(m@),
            DownloadResult::Error(m) => DownloadResultModel::Error(m@),
        }
    }
}

/// What to do next for a download: launch the task, or answer at once.
pub enum TaskPlan {
    Launch(CommandSpec),
    Finish(DownloadResult),
}

pub enum TaskPlanModel {
    Launch(CommandModel),
    Finish(DownloadResultModel),
}

impl View for TaskPlan {
    type V = TaskPlanModel;

    open spec fn view(&self) -> TaskPlanModel {
        match self {
            TaskPlan::Launch(c) => TaskPlanModel::Launch(c@),
            TaskPlan::Finish(r) => TaskPlanModel::Finish(r@),
        }
    }
}

/// What `str::trim` leaves of a text.
pub uninterp spec fn trimmed(s: Seq<char>) -> Seq<char>;

/// Relies on `str::trim`: the text without its leading and trailing
/// whitespace, which depends on the text alone.
#[verifier::external_body]
fn trim_text<'a>(s: &'a str) -> (r: &'a str)
    ensures
        r@ == trimmed(s@),
{
    s.trim()
}

pub open spec fn success_text() -> Seq<char> {
    "Supabase 請求書のダウンロードが完了しました"@
}

pub open spec fn runtime_program() -> Seq<char> {
    "node"@
}

pub open spec fn browsers_var() -> Seq<char> {
    "PLAYWRIGHT_BROWSERS_PATH"@
}

pub open spec fn username_var() -> Seq<char> {
    "GITHUB_USERNAME"@
}

pub open spec fn password_var() -> Seq<char> {
    "GITHUB_PASSWORD"@
}

/// `<root>/dist/download-supabase-invoice.js`
pub open spec fn script_path_spec(root: Seq<Seq<char>>) -> Seq<Seq<char>> {
    root.push("dist"@).push("download-supabase-invoice.js"@)
}

/// `<base>/dencho-cli/browsers`, where the base is the per-user application
/// data directory, else the home directory, else `.`.
pub open spec fn browser_cache_spec(
    appdata: Option<Seq<Seq<char>>>,
    home: Option<Seq<Seq<char>>>,
) -> Seq<Seq<char>> {
    let base = match appdata {
        Some(a) => a,
        None => match home {
            Some(h) => h,
            None => seq!["."@],
        },
    };
    base.push("dencho-cli"@).push("browsers"@)
}

/// A credential counts as supplied only when present and non-empty.
pub open spec fn supplied(v: Option<Seq<char>>) -> bool {
    v matches Some(s) && s.len() > 0
}

pub open spec fn optional_var(name: Seq<char>, v: Option<Seq<char>>) -> Seq<EnvVarModel> {
    if supplied(v) {
        seq![EnvVarModel { name, value: ArgModel::Text(v.unwrap()) }]
    } else {
        seq![]
    }
}

/// The credential variables for a request: one for each supplied credential.
pub open spec fn credential_env_spec(req: DownloadRequestModel) -> Seq<EnvVarModel> {
    optional_var(username_var(), req.username) + optional_var(password_var(), req.password)
}

/// The task's command: the runtime on the script, inside the root, with the
/// browser cache and the supplied credentials in its environment.
pub open spec fn download_command_spec(
    root: Seq<Seq<char>>,
    script: Seq<Seq<char>>,
    cache: Seq<Seq<char>>,
    req: DownloadRequestModel,
) -> CommandModel {
    CommandModel {
        program: runtime_program(),
        args: seq![ArgModel::Path(script)],
        cwd: Some(root),
        env: seq![EnvVarModel { name: browsers_var(), value: ArgModel::Path(cache) }]
            + credential_env_spec(req),
    }
}

pub open spec fn missing_script_spec(shown: Seq<char>) -> DownloadResultModel {
    DownloadResultModel::Error("script not found: "@ + shown)
}

/// The plan for a download, given whether the script exists and how its path
/// reads.
pub open spec fn plan_spec(
    root: Seq<Seq<char>>,
    script_present: bool,
    shown: Seq<char>,
    cache: Seq<Seq<char>>,
    req: DownloadRequestModel,
) -> TaskPlanModel {
    if script_present {
        TaskPlanModel::Launch(download_command_spec(root, script_path_spec(root), cache, req))
    } else {
        TaskPlanModel::Finish(missing_script_spec(shown))
    }
}

/// The result for a failed run whose error output, trimmed, is `detail`.
pub open spec fn failure_spec(detail: Seq<char>) -> DownloadResultModel {
    DownloadResultModel::Error("ダウンロードエラー: "@ + detail)
}

/// The result of a finished task.
pub open spec fn outcome_spec(o: ProcessOutcomeModel) -> DownloadResultModel {
    match o {
        ProcessOutcomeModel::Exited { success, stdout, stderr } => if success {
            DownloadResultModel::Success(success_text())
        } else {
            failure_spec(trimmed(stderr))
        },
        ProcessOutcomeModel::LaunchFailed(e) => DownloadResultModel::Error(
            "Node.js 実行エラー: "@ + e,
        ),
    }
}

fn copy_text(s: &String) -> (r: String)
    ensures
        r@ == s@,
{
    s.clone()
}

/// The path of the automation script under the application root.
pub fn script_path(root: &PathParts) -> (r: PathParts)
    ensures
        r@ == script_path_spec(root@),
{
    root.join("dist").join("download-supabase-invoice.js")
}

/// The directory where the automation tool caches its browser, from the
/// application data directory and the home directory, where known.
pub fn browser_cache_dir(appdata: Option<&PathParts>, home: Option<&PathParts>) -> (r: PathParts)
    ensures
        r@ == browser_cache_spec(
            match appdata {
                Some(a) => Some(a@),
                None => None,
            },
            match home {
                Some(h) => Some(h@),
                None => None,
            },
        ),
{
    let base = match appdata {
        Some(a) => a.duplicate(),
        None => match home {
            Some(h) => h.duplicate(),
            None => {
                let mut parts: Vec<String> = Vec::new();
                parts.push(String::from_str("."));
                let p = PathParts::from_parts(parts);
                assert(p@ =~= seq!["."@]);
                p
            },
        },
    };
    base.join("dencho-cli").join("browsers")
}

fn optional_credential(name: &str, v: &Option<String>) -> (r: Vec<EnvVar>)
    ensures
        r@.map_values(|e: EnvVar| e@) == optional_var(name@, opt_text_view(*v)),
{
    let mut out: Vec<EnvVar> = Vec::new();
    match v {
        Some(s) => {
            if !s.as_str().is_empty() {
                out.push(EnvVar { name: String::from_str(name), value: Arg::Text(copy_text(s)) });
            }
        },
        None => {},
    }
    assert(out@.map_values(|e: EnvVar| e@) =~= optional_var(name@, opt_text_view(*v)));
    out
}

/// The environment variables that carry the request's credentials: one for
/// each credential that is present and non-empty, none for the others.
pub fn credential_env(req: &DownloadRequest) -> (r: Vec<EnvVar>)
    ensures
        r@.map_values(|e: EnvVar| e@) == credential_env_spec(req@),
{
    let mut out = optional_credential("GITHUB_USERNAME", &req.github_username);
    let mut rest = optional_credential("GITHUB_PASSWORD", &req.github_password);
    let ghost a = out@;
    let ghost b = rest@;
    out.append(&mut rest);
    assert(out@ =~= a + b);
    assert(out@.map_values(|e: EnvVar| e@) =~= a.map_values(|e: EnvVar| e@) + b.map_values(
        |e: EnvVar| e@,
    ));
    out
}

/// The command that runs the automation script for a request.
pub fn download_command(
    root: &PathParts,
    script: &PathParts,
    cache: &PathParts,
    req: &DownloadRequest,
) -> (r: CommandSpec)
    ensures
        r@ == download_command_spec(root@, script@, cache@, req@),
{
    let mut args: Vec<Arg> = Vec::new();
    args.push(Arg::Path(script.duplicate()));
    let mut env: Vec<EnvVar> = Vec::new();
    env.push(
        EnvVar { name: String::from_str("PLAYWRIGHT_BROWSERS_PATH"), value: Arg::Path(cache.duplicate()) },
    );
    let ghost first = env@;
    let mut creds = credential_env(req);
    let ghost second = creds@;
    env.append(&mut creds);
    assert(env@ =~= first + second);
    let r = CommandSpec { program: String::from_str("node"), args, cwd: Some(root.duplicate()), env };
    assert(r@.args =~= seq![ArgModel::Path(script@)]);
    assert(r@.env =~= download_command_spec(root@, script@, cache@, req@).env);
    r
}

/// Decides how a download proceeds: when the script is missing the request
/// fails at once and nothing is launched; otherwise the script is launched.
/// `shown` is the script path as it reads to a person. A launched task runs
/// to completion: there is no retry and no timeout.
pub fn plan_download(
    root: &PathParts,
    script_present: bool,
    shown: &str,
    cache: &PathParts,
    req: &DownloadRequest,
) -> (r: TaskPlan)
    ensures
        r@ == plan_spec(root@, script_present, shown@, cache@, req@),
{
    if !script_present {
        return TaskPlan::Finish(DownloadResult::Error(concat_text("script not found: ", shown)));
    }
    let script = script_path(root);
    TaskPlan::Launch(download_command(root, &script, cache, req))
}

/// The result for a run that failed with the given trimmed error output.
pub fn failure_result(detail: &str) -> (r: DownloadResult)
    ensures
        r@ == failure_spec(detail@),
{
    DownloadResult::Error(concat_text("ダウンロードエラー: ", detail))
}

/// Judges a finished task by its exit status alone: success gives the fixed
/// success message whatever the output; failure carries the trimmed error
/// output; a launch failure carries its reason.
pub fn interpret_outcome(outcome: &ProcessOutcome) -> (r: DownloadResult)
    ensures
        r@ == outcome_spec(outcome@),
{
    match outcome {
        ProcessOutcome::Exited { success, stdout: _, stderr } => {
            if *success {
                DownloadResult::Success(String::from_str("Supabase 請求書のダウンロードが完了しました"))
            } else {
                failure_result(trim_text(stderr.as_str()))
            }
        },
        ProcessOutcome::LaunchFailed(e) => DownloadResult::Error(
            concat_text("Node.js 実行エラー: ", e.as_str()),
        ),
    }
}

/// A credential that is absent or empty sets no variable in the task's
/// environment; a supplied one sets its variable to exactly its value.
pub proof fn lemma_unsupplied_credentials_not_set(
    root: Seq<Seq<char>>,
    script: Seq<Seq<char>>,
    cache: Seq<Seq<char>>,
    req: DownloadRequestModel,
)
    ensures
        !supplied(req.username) ==> !sets_var(
            download_command_spec(root, script, cache, req).env,
            username_var(),
        ),
        !supplied(req.password) ==> !sets_var(
            download_command_spec(root, script, cache, req).env,
            password_var(),
        ),
        supplied(req.username) ==> download_command_spec(root, script, cache, req).env.contains(
            EnvVarModel { name: username_var(), value: ArgModel::Text(req.username.unwrap()) },
        ),
        supplied(req.password) ==> download_command_spec(root, script, cache, req).env.contains(
            EnvVarModel { name: password_var(), value: ArgModel::Text(req.password.unwrap()) },
        ),
{
    reveal_strlit("GITHUB_USERNAME");
    reveal_strlit("GITHUB_PASSWORD");
    reveal_strlit("PLAYWRIGHT_BROWSERS_PATH");
    assert(username_var()[7] != password_var()[7]);
    assert(username_var()[0] != browsers_var()[0]);
    assert(password_var()[0] != browsers_var()[0]);
    let env = download_command_spec(root, script, cache, req).env;
    let head = seq![EnvVarModel { name: browsers_var(), value: ArgModel::Path(cache) }];
    let u = optional_var(username_var(), req.username);
    let p = optional_var(password_var(), req.password);
    assert(env =~= head + u + p);
    assert(forall|i: int| 0 <= i < u.len() ==> (#[trigger] u[i]).name == username_var());
    assert(forall|i: int| 0 <= i < p.len() ==> (#[trigger] p[i]).name == password_var());
    if !supplied(req.username) {
        assert forall|i: int| 0 <= i < env.len() implies (#[trigger] env[i]).name != username_var() by {
            if i == 0 {
            } else if i < 1 + u.len() {
                assert(env[i] == u[i - 1]);
            } else {
                assert(env[i] == p[i - 1 - u.len()]);
            }
        }
    }
    if !supplied(req.password) {
        assert forall|i: int| 0 <= i < env.len() implies (#[trigger] env[i]).name != password_var() by {
            if i == 0 {
            } else if i < 1 + u.len() {
                assert(env[i] == u[i - 1]);
            } else {
                assert(env[i] == p[i - 1 - u.len()]);
            }
        }
    }
    if supplied(req.username) {
        assert(env[1] == u[0]);
    }
    if supplied(req.password) {
        assert(env[1 + u.len() as int] == p[0]);
    }
}

/// A script that exits with success gives the fixed success message whatever
/// it printed; one that fails gives an error whose message ends with its
/// trimmed error output.
pub proof fn lemma_exit_status_decides(stdout: Seq<char>, stderr: Seq<char>)
    ensures
        outcome_spec(ProcessOutcomeModel::Exited { success: true, stdout, stderr })
            == DownloadResultModel::Success(success_text()),
        outcome_spec(ProcessOutcomeModel::Exited { success: false, stdout, stderr }) matches DownloadResultModel::Error(m)
            && m.len() >= trimmed(stderr).len() && m.subrange(
            m.len() - trimmed(stderr).len(),
            m.len() as int,
        ) == trimmed(stderr),
{
    let t = trimmed(stderr);
    let m = "ダウンロードエラー: "@ + t;
    assert(m.subrange(m.len() - t.len(), m.len() as int) =~= t);
}

/// When the script is missing the plan is an immediate error: nothing is
/// launched.
pub proof fn lemma_missing_script_launches_nothing(
    root: Seq<Seq<char>>,
    shown: Seq<char>,
    cache: Seq<Seq<char>>,
    req: DownloadRequestModel,
)
    ensures
        plan_spec(root, false, shown, cache, req) matches TaskPlanModel::Finish(
            DownloadResultModel::Error(m),
        ) && m == "script not found: "@ + shown,
{
}

} // verus!
