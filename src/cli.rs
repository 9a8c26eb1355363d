use vstd::prelude::*;
use crate::text::concat_text;
use crate::command::{Arg, ArgModel, CommandModel, CommandSpec, ProcessOutcome, ProcessOutcomeModel};

verus! {

/// How the program was asked to run.
#[derive(PartialEq, Eq, Structural, Clone, Copy, Debug)]
pub enum RunMode {
    /// Register the service with the OS and start it.
    Install,
    /// Stop the service and remove its registration.
    Uninstall,
    /// Serve in the foreground.
    Console,
    /// Run as dispatched by the OS service manager.
    Service,
}

/// The mode named by the first argument after the program name; anything
/// else, or nothing, means service mode.
pub open spec fn mode_spec(args: Seq<Seq<char>>) -> RunMode {
    if args.len() > 1 {
        if args[1] == "install"@ {
            RunMode::Install
        } else if args[1] == "uninstall"@ {
            RunMode::Uninstall
        } else if args[1] == "run"@ {
            RunMode::Console
        } else {
            RunMode::Service
        }
    } else {
        RunMode::Service
    }
}

/// Picks the run mode from the command line, program name first.
pub fn parse_mode(args: &Vec<String>) -> (r: RunMode)
    ensures
        r == mode_spec(args@.map_values(|a: String| a@)),
{
    let ghost view = args@.map_values(|a: String| a@);
    if args.len() <= 1 {
        return RunMode::Service;
    }
    assert(view[1] == args@[1]@);
    if args[1] == String::from_str("install") {
        RunMode::Install
    } else if args[1] == String::from_str("uninstall") {
        RunMode::Uninstall
    } else if args[1] == String::from_str("run") {
        RunMode::Console
    } else {
        RunMode::Service
    }
}

/// The name the service is registered under.
pub const SERVICE_NAME: &'static str = "dencho-cli";

pub open spec fn service_name() -> Seq<char> {
    "dencho-cli"@
}

/// `sc <verb> dencho-cli`
pub open spec fn sc_spec(verb: Seq<char>) -> CommandModel {
    CommandModel {
        program: "sc"@,
        args: seq![ArgModel::Text(verb), ArgModel::Text(service_name())],
        cwd: None,
        env: seq![],
    }
}

/// The registration command for the executable at `exe`, set to start
/// automatically.
pub open spec fn install_spec(exe: Seq<char>) -> CommandModel {
    CommandModel {
        program: "sc"@,
        args: seq![
            ArgModel::Text("create"@),
            ArgModel::Text(service_name()),
            ArgModel::Text("binPath="@ + exe),
            ArgModel::Text("start=auto"@),
            ArgModel::Text("DisplayName=Dencho CLI Server"@),
        ],
        cwd: None,
        env: seq![],
    }
}

fn sc_command(verb: &str) -> (r: CommandSpec)
    ensures
        r@ == sc_spec(verb@),
{
    let mut args: Vec<Arg> = Vec::new();
    args.push(Arg::Text(String::from_str(verb)));
    args.push(Arg::Text(String::from_str("dencho-cli")));
    let r = CommandSpec { program: String::from_str("sc"), args, cwd: None, env: Vec::new() };
    assert(r@.args =~= sc_spec(verb@).args);
    assert(r@.env =~= sc_spec(verb@).env);
    r
}

/// Starts the registered service.
pub fn start_command() -> (r: CommandSpec)
    ensures
        r@ == sc_spec("start"@),
{
    sc_command("start")
}

/// Stops the registered service.
pub fn stop_command() -> (r: CommandSpec)
    ensures
        r@ == sc_spec("stop"@),
{
    sc_command("stop")
}

/// Removes the service registration.
pub fn delete_command() -> (r: CommandSpec)
    ensures
        r@ == sc_spec("delete"@),
{
    sc_command("delete")
}

/// Registers the executable whose path reads `exe` as the service.
pub fn install_command(exe: &str) -> (r: CommandSpec)
    ensures
        r@ == install_spec(exe@),
{
    let mut bin_path = String::from_str("binPath=");
    bin_path.append(exe);
    let mut args: Vec<Arg> = Vec::new();
    args.push(Arg::Text(String::from_str("create")));
    args.push(Arg::Text(String::from_str("dencho-cli")));
    args.push(Arg::Text(bin_path));
    args.push(Arg::Text(String::from_str("start=auto")));
    args.push(Arg::Text(String::from_str("DisplayName=Dencho CLI Server")));
    let r = CommandSpec { program: String::from_str("sc"), args, cwd: None, env: Vec::new() };
    assert(r@.args =~= install_spec(exe@).args);
    assert(r@.env =~= install_spec(exe@).env);
    r
}

/// A line for the console, on standard error or standard output.
pub struct ConsoleLine {
    pub to_stderr: bool,
    pub text: String,
}

impl View for ConsoleLine {
    type V = (bool, Seq<char>);

    open spec fn view(&self) -> (bool, Seq<char>) {
        (self.to_stderr, self.text@)
    }
}

/// What to print after the registration command, whether to start the
/// service, and what to print once it was asked to start.
pub struct InstallReport {
    pub lines: Vec<ConsoleLine>,
    pub start_service: bool,
    pub after_start: Vec<ConsoleLine>,
}

pub open spec fn lines_view(v: Vec<ConsoleLine>) -> Seq<(bool, Seq<char>)> {
    v@.map_values(|l: ConsoleLine| l@)
}

/// Registration succeeded: say so and start the service. It failed: show
/// the error output and advise running as administrator. The tool could not
/// be launched: show why.
pub open spec fn install_report_spec(o: ProcessOutcomeModel) -> (
    Seq<(bool, Seq<char>)>,
    bool,
    Seq<(bool, Seq<char>)>,
) {
    match o {
        ProcessOutcomeModel::Exited { success, stdout, stderr } => if success {
            (
                seq![(false, "✓ サービスインストール完了"@), (false, "  サービス開始: sc start dencho-cli"@)],
                true,
                seq![(false, "✓ サービスを開始しました"@)],
            )
        } else {
            (
                seq![(true, "❌ インストール失敗: "@ + stderr), (true, "管理者権限で実行してください"@)],
                false,
                seq![],
            )
        },
        ProcessOutcomeModel::LaunchFailed(e) => (
            seq![(true, "❌ sc コマンド実行エラー: "@ + e)],
            false,
            seq![],
        ),
    }
}

/// Removal succeeded, failed with error output, or the tool could not be
/// launched.
pub open spec fn uninstall_report_spec(o: ProcessOutcomeModel) -> Seq<(bool, Seq<char>)> {
    match o {
        ProcessOutcomeModel::Exited { success, stdout, stderr } => if success {
            seq![(false, "✓ サービスアンインストール完了"@)]
        } else {
            seq![(true, "❌ アンインストール失敗: "@ + stderr)]
        },
        ProcessOutcomeModel::LaunchFailed(e) => seq![(true, "❌ sc コマンド実行エラー: "@ + e)],
    }
}

fn line(to_stderr: bool, text: &str) -> (r: ConsoleLine)
    ensures
        r@ == (to_stderr, text@),
{
    ConsoleLine { to_stderr, text: String::from_str(text) }
}

fn joined_line(to_stderr: bool, head: &str, tail: &str) -> (r: ConsoleLine)
    ensures
        r@ == (to_stderr, head@ + tail@),
{
    ConsoleLine { to_stderr, text: concat_text(head, tail) }
}

/// What follows the registration command.
pub fn install_report(outcome: &ProcessOutcome) -> (r: InstallReport)
    ensures
        (lines_view(r.lines), r.start_service, lines_view(r.after_start)) == install_report_spec(
            outcome@,
        ),
{
    let mut lines: Vec<ConsoleLine> = Vec::new();
    let mut after_start: Vec<ConsoleLine> = Vec::new();
    let mut start_service = false;
    match outcome {
        ProcessOutcome::Exited { success, stdout: _, stderr } => {
            if *success {
                lines.push(line(false, "✓ サービスインストール完了"));
                lines.push(line(false, "  サービス開始: sc start dencho-cli"));
                after_start.push(line(false, "✓ サービスを開始しました"));
                start_service = true;
            } else {
                lines.push(joined_line(true, "❌ インストール失敗: ", stderr.as_str()));
                lines.push(line(true, "管理者権限で実行してください"));
            }
        },
        ProcessOutcome::LaunchFailed(e) => {
            lines.push(joined_line(true, "❌ sc コマンド実行エラー: ", e.as_str()));
        },
    }
    let r = InstallReport { lines, start_service, after_start };
    assert(lines_view(r.lines) =~= install_report_spec(outcome@).0);
    assert(lines_view(r.after_start) =~= install_report_spec(outcome@).2);
    r
}

/// What follows the removal command. The stop command before it may fail
/// without consequence.
pub fn uninstall_report(outcome: &ProcessOutcome) -> (r: Vec<ConsoleLine>)
    ensures
        lines_view(r) == uninstall_report_spec(outcome@),
{
    let mut lines: Vec<ConsoleLine> = Vec::new();
    match outcome {
        ProcessOutcome::Exited { success, stdout: _, stderr } => {
            if *success {
                lines.push(line(false, "✓ サービスアンインストール完了"));
            } else {
                lines.push(joined_line(true, "❌ アンインストール失敗: ", stderr.as_str()));
            }
        },
        ProcessOutcome::LaunchFailed(e) => {
            lines.push(joined_line(true, "❌ sc コマンド実行エラー: ", e.as_str()));
        },
    }
    assert(lines_view(lines) =~= uninstall_report_spec(outcome@));
    lines
}

} // verus!
