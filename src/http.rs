use vstd::prelude::*;
use crate::command::{CommandModel, CommandSpec, ProcessOutcome, ProcessOutcomeModel};
use crate::paths::PathParts;
use crate::text::concat_text;
use crate::task::{
    DownloadRequest, DownloadRequestModel, DownloadResult, DownloadResultModel, TaskPlan,
    TaskPlanModel, interpret_outcome, outcome_spec, plan_download, plan_spec, script_path,
    script_path_spec,
};

verus! {

/// The loopback port the API listens on.
pub const LISTEN_PORT: u16 = 3939;

/// HTTP status code of a successful answer.
pub const STATUS_OK: u16 = 200;

/// HTTP status code of a failed download.
pub const STATUS_INTERNAL_ERROR: u16 = 500;

/// The body of the liveness probe: `{"status": ...}`.
pub struct HealthReply {
    pub code: u16,
    pub status: String,
}

/// The body of a download answer: `{"status": ..., "message": ...}`.
pub struct DownloadResponse {
    pub status: String,
    pub message: String,
}

/// A download answer with its HTTP status code.
pub struct DownloadReply {
    pub code: u16,
    pub body: DownloadResponse,
}

pub struct ReplyModel {
    pub code: u16,
    pub status: Seq<char>,
    pub message: Seq<char>,
}

impl View for DownloadReply {
    type V = ReplyModel;

    open spec fn view(&self) -> ReplyModel {
        ReplyModel { code: self.code, status: self.body.status@, message: self.body.message@ }
    }
}

/// 200 with status `success` for a success, 500 with status `error` for an
/// error; the message is the result's own.
pub open spec fn reply_spec(r: DownloadResultModel) -> ReplyModel {
    match r {
        DownloadResultModel::Success(m) => ReplyModel { code: 200, status: "success"@, message: m },
        DownloadResultModel::Error(m) => ReplyModel { code: 500, status: "error"@, message: m },
    }
}

/// The answer when the application root cannot be resolved.
pub open spec fn environment_error_spec(detail: Seq<char>) -> ReplyModel {
    ReplyModel { code: 500, status: "error"@, message: "environment error: "@ + detail }
}

/// JSON's insignificant whitespace: space, tab, line feed, carriage return.
pub open spec fn is_json_space(b: u8) -> bool {
    b == 0x20 || b == 0x09 || b == 0x0a || b == 0x0d
}

/// Whether a request body holds nothing but whitespace. Such a body is taken
/// as a request without credentials.
pub fn body_is_blank(body: &[u8]) -> (r: bool)
    ensures
        r == (forall|i: int| 0 <= i < body@.len() ==> is_json_space(#[trigger] body@[i])),
{
    let n = body.len();
    for i in 0..n
        invariant
            n == body@.len(),
            forall|k: int| 0 <= k < i ==> is_json_space(#[trigger] body@[k]),
    {
        let b = body[i];
        if !(b == 0x20 || b == 0x09 || b == 0x0a || b == 0x0d) {
            return false;
        }
    }
    true
}

/// Answers the liveness probe: always 200 with status `ok`, whatever came
/// before.
pub fn health_check() -> (r: HealthReply)
    ensures
        r.code == 200,
        r.status@ == "ok"@,
{
    HealthReply { code: STATUS_OK, status: String::from_str("ok") }
}

/// The answer that carries a download result.
pub fn download_reply(result: &DownloadResult) -> (r: DownloadReply)
    ensures
        r@ == reply_spec(result@),
{
    match result {
        DownloadResult::Success(m) => DownloadReply {
            code: STATUS_OK,
            body: DownloadResponse { status: String::from_str("success"), message: m.clone() },
        },
        DownloadResult::Error(m) => DownloadReply {
            code: STATUS_INTERNAL_ERROR,
            body: DownloadResponse { status: String::from_str("error"), message: m.clone() },
        },
    }
}

/// The answer when the application root could not be resolved.
pub fn environment_error_reply(detail: &str) -> (r: DownloadReply)
    ensures
        r@ == environment_error_spec(detail@),
{
    DownloadReply {
        code: STATUS_INTERNAL_ERROR,
        body: DownloadResponse {
            status: String::from_str("error"),
            message: concat_text("environment error: ", detail),
        },
    }
}

/// Where the handling of one download request stands.
pub enum HandlerStage {
    ResolvingRoot,
    CheckingScript(PathParts),
    Running,
    Answered,
}

/// One download request being handled.
pub struct DownloadHandler {
    pub request: DownloadRequest,
    pub cache: PathParts,
    pub stage: HandlerStage,
}

/// What the caller observed after the last action.
pub enum HandlerEvent {
    /// The application root, or why it could not be found.
    RootResolved(Result<PathParts, String>),
    /// Whether the script exists, and its path as it reads to a person.
    ScriptChecked { present: bool, shown: String },
    /// How the launched task ended.
    TaskFinished(ProcessOutcome),
}

/// What the caller does next.
pub enum HandlerAction {
    ResolveRoot,
    CheckScript(PathParts),
    Launch(CommandSpec),
    Respond(DownloadReply),
    /// The event did not fit the current stage: nothing to do.
    Idle,
}

/// Log lines to append, then the action to perform.
pub struct HandlerStep {
    pub logs: Vec<String>,
    pub action: HandlerAction,
}

pub enum StageModel {
    ResolvingRoot,
    CheckingScript(Seq<Seq<char>>),
    Running,
    Answered,
}

pub struct HandlerModel {
    pub request: DownloadRequestModel,
    pub cache: Seq<Seq<char>>,
    pub stage: StageModel,
}

pub enum EventModel {
    RootResolved(Result<Seq<Seq<char>>, Seq<char>>),
    ScriptChecked { present: bool, shown: Seq<char> },
    TaskFinished(ProcessOutcomeModel),
}

pub enum ActionModel {
    ResolveRoot,
    CheckScript(Seq<Seq<char>>),
    Launch(CommandModel),
    Respond(ReplyModel),
    Idle,
}

pub struct StepModel {
    pub logs: Seq<Seq<char>>,
    pub action: ActionModel,
}

impl View for HandlerStage {
    type V = StageModel;

    open spec fn view(&self) -> StageModel {
        match self {
            HandlerStage::ResolvingRoot => StageModel::ResolvingRoot,
            HandlerStage::CheckingScript(r) => StageModel::CheckingScript(r@),
            HandlerStage::Running => StageModel::Running,
            HandlerStage::Answered => StageModel::Answered,
        }
    }
}

impl View for DownloadHandler {
    type V = HandlerModel;

    open spec fn view(&self) -> HandlerModel {
        HandlerModel { request: self.request@, cache: self.cache@, stage: self.stage@ }
    }
}

impl View for HandlerEvent {
    type V = EventModel;

    open spec fn view(&self) -> EventModel {
        match self {
            HandlerEvent::RootResolved(Ok(p)) => EventModel::RootResolved(Ok(p@)),
            HandlerEvent::RootResolved(Err(e)) => EventModel::RootResolved(Err(e@)),
            HandlerEvent::ScriptChecked { present, shown } => EventModel::ScriptChecked {
                present: *present,
                shown: shown@,
            },
            HandlerEvent::TaskFinished(o) => EventModel::TaskFinished(o@),
        }
    }
}

impl View for HandlerAction {
    type V = ActionModel;

    open spec fn view(&self) -> ActionModel {
        match self {
            HandlerAction::ResolveRoot => ActionModel::ResolveRoot,
            HandlerAction::CheckScript(p) => ActionModel::CheckScript(p@),
            HandlerAction::Launch(c) => ActionModel::Launch(c@),
            HandlerAction::Respond(r) => ActionModel::Respond(r@),
            HandlerAction::Idle => ActionModel::Idle,
        }
    }
}

impl View for HandlerStep {
    type V = StepModel;

    open spec fn view(&self) -> StepModel {
        StepModel { logs: self.logs@.map_values(|l: String| l@), action: self.action@ }
    }
}

pub open spec fn received_log() -> Seq<char> {
    "ダウンロードリクエスト受信"@
}

pub open spec fn succeeded_log() -> Seq<char> {
    "ダウンロード成功"@
}

/// The log line for a finished task.
pub open spec fn outcome_log_spec(o: ProcessOutcomeModel) -> Seq<char> {
    match o {
        ProcessOutcomeModel::Exited { success, stdout, stderr } => if success {
            succeeded_log()
        } else {
            "ダウンロード失敗: "@ + stdout + " "@ + stderr
        },
        ProcessOutcomeModel::LaunchFailed(e) => "Node.js 実行エラー: "@ + e,
    }
}

/// The first step of a request: log its receipt and resolve the root.
pub open spec fn start_spec(req: DownloadRequestModel, cache: Seq<Seq<char>>) -> (
    HandlerModel,
    StepModel,
) {
    (
        HandlerModel { request: req, cache, stage: StageModel::ResolvingRoot },
        StepModel { logs: seq![received_log()], action: ActionModel::ResolveRoot },
    )
}

/// One transition of the request handler.
pub open spec fn handler_step(m: HandlerModel, e: EventModel) -> (HandlerModel, StepModel) {
    let idle = (m, StepModel { logs: seq![], action: ActionModel::Idle });
    let answered = HandlerModel { stage: StageModel::Answered, ..m };
    match m.stage {
        StageModel::ResolvingRoot => match e {
            EventModel::RootResolved(Ok(root)) => (
                HandlerModel { stage: StageModel::CheckingScript(root), ..m },
                StepModel { logs: seq![], action: ActionModel::CheckScript(script_path_spec(root)) },
            ),
            EventModel::RootResolved(Err(detail)) => (
                answered,
                StepModel {
                    logs: seq!["アプリケーションルート取得エラー: "@ + detail],
                    action: ActionModel::Respond(environment_error_spec(detail)),
                },
            ),
            _ => idle,
        },
        StageModel::CheckingScript(root) => match e {
            EventModel::ScriptChecked { present, shown } => match plan_spec(
                root,
                present,
                shown,
                m.cache,
                m.request,
            ) {
                TaskPlanModel::Launch(c) => (
                    HandlerModel { stage: StageModel::Running, ..m },
                    StepModel { logs: seq![], action: ActionModel::Launch(c) },
                ),
                TaskPlanModel::Finish(r) => (
                    answered,
                    StepModel {
                        logs: seq!["スクリプトが見つかりません: "@ + shown],
                        action: ActionModel::Respond(reply_spec(r)),
                    },
                ),
            },
            _ => idle,
        },
        StageModel::Running => match e {
            EventModel::TaskFinished(o) => (
                answered,
                StepModel {
                    logs: seq![outcome_log_spec(o)],
                    action: ActionModel::Respond(reply_spec(outcome_spec(o))),
                },
            ),
            _ => idle,
        },
        StageModel::Answered => idle,
    }
}

fn one_line(s: String) -> (r: Vec<String>)
    ensures
        r@.map_values(|l: String| l@) == seq![s@],
{
    let mut v: Vec<String> = Vec::new();
    v.push(s);
    assert(v@.map_values(|l: String| l@) =~= seq![s@]);
    v
}

fn no_lines() -> (r: Vec<String>)
    ensures
        r@.map_values(|l: String| l@) == Seq::<Seq<char>>::empty(),
{
    let v: Vec<String> = Vec::new();
    assert(v@.map_values(|l: String| l@) =~= Seq::<Seq<char>>::empty());
    v
}

fn outcome_log(o: &ProcessOutcome) -> (r: String)
    ensures
        r@ == outcome_log_spec(o@),
{
    match o {
        ProcessOutcome::Exited { success, stdout, stderr } => {
            if *success {
                String::from_str("ダウンロード成功")
            } else {
                let mut s = concat_text("ダウンロード失敗: ", stdout.as_str());
                s.append(" ");
                s.append(stderr.as_str());
                s
            }
        },
        ProcessOutcome::LaunchFailed(e) => concat_text("Node.js 実行エラー: ", e.as_str()),
    }
}

impl DownloadHandler {
    /// Begins handling a request: logs its receipt and asks for the root.
    pub fn start(request: DownloadRequest, cache: PathParts) -> (r: (DownloadHandler, HandlerStep))
        ensures
            (r.0@, r.1@) == start_spec(request@, cache@),
    {
        let h = DownloadHandler { request, cache, stage: HandlerStage::ResolvingRoot };
        let step = HandlerStep {
            logs: one_line(String::from_str("ダウンロードリクエスト受信")),
            action: HandlerAction::ResolveRoot,
        };
        (h, step)
    }

    /// Advances on what the caller observed, and says what to log and do next.
    pub fn step(&mut self, event: HandlerEvent) -> (r: HandlerStep)
        ensures
            (final(self)@, r@) == handler_step(old(self)@, event@),
    {
        let idle = HandlerStep { logs: no_lines(), action: HandlerAction::Idle };
        match &self.stage {
            HandlerStage::ResolvingRoot => match event {
                HandlerEvent::RootResolved(Ok(root)) => {
                    let script = script_path(&root);
                    self.stage = HandlerStage::CheckingScript(root);
                    HandlerStep { logs: no_lines(), action: HandlerAction::CheckScript(script) }
                },
                HandlerEvent::RootResolved(Err(detail)) => {
                    self.stage = HandlerStage::Answered;
                    HandlerStep {
                        logs: one_line(concat_text("アプリケーションルート取得エラー: ", detail.as_str())),
                        action: HandlerAction::Respond(environment_error_reply(detail.as_str())),
                    }
                },
                _ => idle,
            },
            HandlerStage::CheckingScript(root) => match event {
                HandlerEvent::ScriptChecked { present, shown } => {
                    match plan_download(root, present, shown.as_str(), &self.cache, &self.request) {
                        TaskPlan::Launch(c) => {
                            self.stage = HandlerStage::Running;
                            HandlerStep { logs: no_lines(), action: HandlerAction::Launch(c) }
                        },
                        TaskPlan::Finish(res) => {
                            self.stage = HandlerStage::Answered;
                            HandlerStep {
                                logs: one_line(concat_text("スクリプトが見つかりません: ", shown.as_str())),
                                action: HandlerAction::Respond(download_reply(&res)),
                            }
                        },
                    }
                },
                _ => idle,
            },
            HandlerStage::Running => match event {
                HandlerEvent::TaskFinished(o) => {
                    self.stage = HandlerStage::Answered;
                    let res = interpret_outcome(&o);
                    HandlerStep {
                        logs: one_line(outcome_log(&o)),
                        action: HandlerAction::Respond(download_reply(&res)),
                    }
                },
                _ => idle,
            },
            HandlerStage::Answered => idle,
        }
    }
}

/// What an event says of the script's presence, if it is a script report.
pub open spec fn script_report(e: EventModel) -> Option<bool> {
    match e {
        EventModel::ScriptChecked { present, .. } => Some(present),
        _ => None,
    }
}

/// The handler launches the task only on a report that the script exists:
/// a missing script is answered with a 500 error at once, and nothing is
/// launched for the request afterwards.
pub proof fn lemma_launch_only_when_script_present(m: HandlerModel, e: EventModel)
    ensures
        handler_step(m, e).1.action is Launch ==> (m.stage is CheckingScript && script_report(e)
            == Some(true)),
        (m.stage is CheckingScript && script_report(e) == Some(false)) ==> (handler_step(
            m,
            e,
        ).1.action is Respond && handler_step(m, e).1.action->Respond_0.code == 500 && handler_step(
            m,
            e,
        ).0.stage is Answered),
        m.stage is Answered ==> (handler_step(m, e).0 == m && handler_step(m, e).1.action is Idle),
{
}

} // verus!
