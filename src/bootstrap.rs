use vstd::prelude::*;
use crate::command::{Arg, ArgModel, CommandModel, CommandSpec, EnvVar, EnvVarModel, text_args};
use crate::paths::PathParts;

verus! {

/// Why the environment could not be made ready.
#[derive(PartialEq, Eq, Structural, Clone, Copy, Debug)]
pub enum BootstrapError {
    RuntimeNotFound,
    DependencyInstallFailed,
    BrowserInstallFailed,
}

pub open spec fn error_message_spec(e: BootstrapError) -> Seq<char> {
    match e {
        BootstrapError::RuntimeNotFound => "runtime not found"@,
        BootstrapError::DependencyInstallFailed => "dependency install failed"@,
        BootstrapError::BrowserInstallFailed => "browser install failed"@,
    }
}

impl BootstrapError {
    /// The reason in words.
    pub fn message(&self) -> (r: String)
        ensures
            r@ == error_message_spec(*self),
    {
        match self {
            BootstrapError::RuntimeNotFound => String::from_str("runtime not found"),
            BootstrapError::DependencyInstallFailed => String::from_str("dependency install failed"),
            BootstrapError::BrowserInstallFailed => String::from_str("browser install failed"),
        }
    }
}

/// The step a bootstrap pass has reached. The three checks run in order and
/// stop at the first failure; an install runs only where its check failed.
#[derive(PartialEq, Eq, Structural, Clone, Copy, Debug)]
pub enum BootstrapStage {
    QueryRuntime,
    ProbeBundle,
    InstallBundle,
    ProbeBrowsers,
    InstallBrowsers,
    Ready,
    Failed(BootstrapError),
}

/// One bootstrap pass: the application root, the browser cache directory,
/// whether the host is Windows (whose package tools end in `.cmd`), and the
/// stage reached. A pass runs once at start-up, before the listener accepts
/// any connection.
pub struct Bootstrap {
    pub root: PathParts,
    pub cache: PathParts,
    pub windows: bool,
    pub stage: BootstrapStage,
}

pub struct BootstrapModel {
    pub root: Seq<Seq<char>>,
    pub cache: Seq<Seq<char>>,
    pub windows: bool,
    pub stage: BootstrapStage,
}

impl View for Bootstrap {
    type V = BootstrapModel;

    open spec fn view(&self) -> BootstrapModel {
        BootstrapModel {
            root: self.root@,
            cache: self.cache@,
            windows: self.windows,
            stage: self.stage,
        }
    }
}

/// What the caller does for the current stage.
pub enum BootstrapAction {
    /// Launch the command and report whether it exited with success.
    Run(CommandSpec),
    /// Report whether the path exists.
    CheckExists(PathParts),
    /// Report whether the path is a directory with at least one entry.
    CheckNonEmpty(PathParts),
    /// The pass is over.
    Finish(Result<(), BootstrapError>),
}

pub enum BootstrapActionModel {
    Run(CommandModel),
    CheckExists(Seq<Seq<char>>),
    CheckNonEmpty(Seq<Seq<char>>),
    Finish(Result<(), BootstrapError>),
}

impl View for BootstrapAction {
    type V = BootstrapActionModel;

    open spec fn view(&self) -> BootstrapActionModel {
        match self {
            BootstrapAction::Run(c) => BootstrapActionModel::Run(c@),
            BootstrapAction::CheckExists(p) => BootstrapActionModel::CheckExists(p@),
            BootstrapAction::CheckNonEmpty(p) => BootstrapActionModel::CheckNonEmpty(p@),
            BootstrapAction::Finish(r) => BootstrapActionModel::Finish(*r),
        }
    }
}

pub open spec fn is_terminal(s: BootstrapStage) -> bool {
    s is Ready || s is Failed
}

/// The runtime's version query.
pub open spec fn version_query_spec() -> CommandModel {
    CommandModel { program: "node"@, args: seq![ArgModel::Text("--version"@)], cwd: None, env: seq![] }
}

/// The package manager's install command, run inside the root.
pub open spec fn bundle_install_spec(root: Seq<Seq<char>>, windows: bool) -> CommandModel {
    CommandModel {
        program: if windows {
            "npm.cmd"@
        } else {
            "npm"@
        },
        args: seq![ArgModel::Text("install"@)],
        cwd: Some(root),
        env: seq![],
    }
}

/// The browser install command, run inside the root with the cache directory
/// in its environment.
pub open spec fn browser_install_spec(
    root: Seq<Seq<char>>,
    cache: Seq<Seq<char>>,
    windows: bool,
) -> CommandModel {
    CommandModel {
        program: if windows {
            "npx.cmd"@
        } else {
            "npx"@
        },
        args: seq![
            ArgModel::Text("playwright"@),
            ArgModel::Text("install"@),
            ArgModel::Text("chromium"@),
        ],
        cwd: Some(root),
        env: seq![EnvVarModel { name: "PLAYWRIGHT_BROWSERS_PATH"@, value: ArgModel::Path(cache) }],
    }
}

/// The action of each stage.
pub open spec fn action_spec(m: BootstrapModel) -> BootstrapActionModel {
    match m.stage {
        BootstrapStage::QueryRuntime => BootstrapActionModel::Run(version_query_spec()),
        BootstrapStage::ProbeBundle => BootstrapActionModel::CheckExists(
            m.root.push("node_modules"@),
        ),
        BootstrapStage::InstallBundle => BootstrapActionModel::Run(
            bundle_install_spec(m.root, m.windows),
        ),
        BootstrapStage::ProbeBrowsers => BootstrapActionModel::CheckNonEmpty(m.cache),
        BootstrapStage::InstallBrowsers => BootstrapActionModel::Run(
            browser_install_spec(m.root, m.cache, m.windows),
        ),
        BootstrapStage::Ready => BootstrapActionModel::Finish(Ok(())),
        BootstrapStage::Failed(e) => BootstrapActionModel::Finish(Err(e)),
    }
}

/// The stage after the current action reported `ok` (success of a command,
/// or presence of a path).
pub open spec fn advance_spec(s: BootstrapStage, ok: bool) -> BootstrapStage {
    match s {
        BootstrapStage::QueryRuntime => if ok {
            BootstrapStage::ProbeBundle
        } else {
            BootstrapStage::Failed(BootstrapError::RuntimeNotFound)
        },
        BootstrapStage::ProbeBundle => if ok {
            BootstrapStage::ProbeBrowsers
        } else {
            BootstrapStage::InstallBundle
        },
        BootstrapStage::InstallBundle => if ok {
            BootstrapStage::ProbeBrowsers
        } else {
            BootstrapStage::Failed(BootstrapError::DependencyInstallFailed)
        },
        BootstrapStage::ProbeBrowsers => if ok {
            BootstrapStage::Ready
        } else {
            BootstrapStage::InstallBrowsers
        },
        BootstrapStage::InstallBrowsers => if ok {
            BootstrapStage::Ready
        } else {
            BootstrapStage::Failed(BootstrapError::BrowserInstallFailed)
        },
        BootstrapStage::Ready => s,
        BootstrapStage::Failed(_) => s,
    }
}

impl Bootstrap {
    /// A pass at its first stage.
    pub fn new(root: PathParts, cache: PathParts, windows: bool) -> (r: Bootstrap)
        ensures
            r@ == (BootstrapModel {
                root: root@,
                cache: cache@,
                windows,
                stage: BootstrapStage::QueryRuntime,
            }),
    {
        Bootstrap { root, cache, windows, stage: BootstrapStage::QueryRuntime }
    }

    /// Whether the pass is over.
    pub fn is_finished(&self) -> (r: bool)
        ensures
            r == is_terminal(self.stage),
    {
        match self.stage {
            BootstrapStage::Ready | BootstrapStage::Failed(_) => true,
            _ => false,
        }
    }

    /// The action for the current stage.
    pub fn next_action(&self) -> (r: BootstrapAction)
        ensures
            r@ == action_spec(self@),
    {
        match self.stage {
            BootstrapStage::QueryRuntime => {
                proof {
                    reveal_strlit("--version");
                }
                let c = CommandSpec {
                    program: String::from_str("node"),
                    args: text_args(&["--version"]),
                    cwd: None,
                    env: Vec::new(),
                };
                assert(c@.args =~= version_query_spec().args);
                assert(c@.env =~= Seq::<EnvVarModel>::empty());
                BootstrapAction::Run(c)
            },
            BootstrapStage::ProbeBundle => BootstrapAction::CheckExists(self.root.join("node_modules")),
            BootstrapStage::InstallBundle => {
                let program = if self.windows {
                    String::from_str("npm.cmd")
                } else {
                    String::from_str("npm")
                };
                let c = CommandSpec {
                    program,
                    args: text_args(&["install"]),
                    cwd: Some(self.root.duplicate()),
                    env: Vec::new(),
                };
                assert(c@.args =~= bundle_install_spec(self.root@, self.windows).args);
                assert(c@.env =~= Seq::<EnvVarModel>::empty());
                BootstrapAction::Run(c)
            },
            BootstrapStage::ProbeBrowsers => BootstrapAction::CheckNonEmpty(self.cache.duplicate()),
            BootstrapStage::InstallBrowsers => {
                let program = if self.windows {
                    String::from_str("npx.cmd")
                } else {
                    String::from_str("npx")
                };
                let mut env: Vec<EnvVar> = Vec::new();
                env.push(
                    EnvVar {
                        name: String::from_str("PLAYWRIGHT_BROWSERS_PATH"),
                        value: Arg::Path(self.cache.duplicate()),
                    },
                );
                let c = CommandSpec {
                    program,
                    args: text_args(&["playwright", "install", "chromium"]),
                    cwd: Some(self.root.duplicate()),
                    env,
                };
                assert(c@.args =~= browser_install_spec(self.root@, self.cache@, self.windows).args);
                assert(c@.env =~= browser_install_spec(self.root@, self.cache@, self.windows).env);
                BootstrapAction::Run(c)
            },
            BootstrapStage::Ready => BootstrapAction::Finish(Ok(())),
            BootstrapStage::Failed(e) => BootstrapAction::Finish(Err(e)),
        }
    }

    /// Records what the current action reported and moves to the next stage.
    pub fn advance(&mut self, ok: bool)
        ensures
            final(self)@ == (BootstrapModel { stage: advance_spec(old(self).stage, ok), ..old(self)@ }),
    {
        let next = match self.stage {
            BootstrapStage::QueryRuntime => if ok {
                BootstrapStage::ProbeBundle
            } else {
                BootstrapStage::Failed(BootstrapError::RuntimeNotFound)
            },
            BootstrapStage::ProbeBundle => if ok {
                BootstrapStage::ProbeBrowsers
            } else {
                BootstrapStage::InstallBundle
            },
            BootstrapStage::InstallBundle => if ok {
                BootstrapStage::ProbeBrowsers
            } else {
                BootstrapStage::Failed(BootstrapError::DependencyInstallFailed)
            },
            BootstrapStage::ProbeBrowsers => if ok {
                BootstrapStage::Ready
            } else {
                BootstrapStage::InstallBrowsers
            },
            BootstrapStage::InstallBrowsers => if ok {
                BootstrapStage::Ready
            } else {
                BootstrapStage::Failed(BootstrapError::BrowserInstallFailed)
            },
            BootstrapStage::Ready => BootstrapStage::Ready,
            BootstrapStage::Failed(e) => BootstrapStage::Failed(e),
        };
        self.stage = next;
    }
}

/// The most actions a bootstrap pass takes before it is over.
pub const BOOTSTRAP_MAX_STEPS: u64 = 5;

/// A model of what the host answers: whether the runtime answers its version
/// query, whether the dependency bundle and the browser are present, and
/// whether each install would succeed. An install that succeeds leaves its
/// item present.
pub struct HostModel {
    pub runtime_ok: bool,
    pub bundle_present: bool,
    pub browsers_present: bool,
    pub bundle_install_ok: bool,
    pub browser_install_ok: bool,
}

/// What the host reports for the action of a stage.
pub open spec fn host_answer(h: HostModel, s: BootstrapStage) -> bool {
    match s {
        BootstrapStage::QueryRuntime => h.runtime_ok,
        BootstrapStage::ProbeBundle => h.bundle_present,
        BootstrapStage::InstallBundle => h.bundle_install_ok,
        BootstrapStage::ProbeBrowsers => h.browsers_present,
        BootstrapStage::InstallBrowsers => h.browser_install_ok,
        _ => false,
    }
}

/// The host after the action of a stage.
pub open spec fn host_after(h: HostModel, s: BootstrapStage) -> HostModel {
    match s {
        BootstrapStage::InstallBundle => HostModel {
            bundle_present: h.bundle_present || h.bundle_install_ok,
            ..h
        },
        BootstrapStage::InstallBrowsers => HostModel {
            browsers_present: h.browsers_present || h.browser_install_ok,
            ..h
        },
        _ => h,
    }
}

/// A pass run against a host for at most `fuel` actions: the actions taken,
/// the final state, and the host afterwards.
pub open spec fn bootstrap_pass(m: BootstrapModel, h: HostModel, fuel: nat) -> (
    Seq<BootstrapActionModel>,
    BootstrapModel,
    HostModel,
)
    decreases fuel,
{
    if fuel == 0 || is_terminal(m.stage) {
        (seq![], m, h)
    } else {
        let next = BootstrapModel { stage: advance_spec(m.stage, host_answer(h, m.stage)), ..m };
        let rest = bootstrap_pass(next, host_after(h, m.stage), (fuel - 1) as nat);
        (seq![action_spec(m)] + rest.0, rest.1, rest.2)
    }
}

/// A whole pass from the first stage.
pub open spec fn full_pass(
    root: Seq<Seq<char>>,
    cache: Seq<Seq<char>>,
    windows: bool,
    h: HostModel,
) -> (Seq<BootstrapActionModel>, BootstrapModel, HostModel) {
    bootstrap_pass(
        BootstrapModel { root, cache, windows, stage: BootstrapStage::QueryRuntime },
        h,
        BOOTSTRAP_MAX_STEPS as nat,
    )
}

/// Whether every command among the actions is the runtime's version query.
pub open spec fn only_version_query(actions: Seq<BootstrapActionModel>) -> bool {
    forall|i: int|
        0 <= i < actions.len() && (#[trigger] actions[i]) is Run ==> actions[i]
            == BootstrapActionModel::Run(version_query_spec())
}

/// On a host where all three checks pass, a pass ends ready after the three
/// checks alone: the only process it launches is the version query, and the
/// host is left as it was.
pub proof fn lemma_ready_host_installs_nothing(
    root: Seq<Seq<char>>,
    cache: Seq<Seq<char>>,
    windows: bool,
    h: HostModel,
)
    requires
        h.runtime_ok,
        h.bundle_present,
        h.browsers_present,
    ensures
        full_pass(root, cache, windows, h).0 == seq![
            BootstrapActionModel::Run(version_query_spec()),
            BootstrapActionModel::CheckExists(root.push("node_modules"@)),
            BootstrapActionModel::CheckNonEmpty(cache),
        ],
        full_pass(root, cache, windows, h).1.stage == BootstrapStage::Ready,
        full_pass(root, cache, windows, h).2 == h,
        only_version_query(full_pass(root, cache, windows, h).0),
{
    reveal_with_fuel(bootstrap_pass, 6);
    let acts = full_pass(root, cache, windows, h).0;
    assert(acts =~= seq![
        BootstrapActionModel::Run(version_query_spec()),
        BootstrapActionModel::CheckExists(root.push("node_modules"@)),
        BootstrapActionModel::CheckNonEmpty(cache),
    ]);
}

/// Running the bootstrap twice: once a pass has ended ready, a second pass
/// on the host it left launches no install, ends ready, and changes nothing.
pub proof fn lemma_bootstrap_idempotent(
    root: Seq<Seq<char>>,
    cache: Seq<Seq<char>>,
    windows: bool,
    h: HostModel,
)
    requires
        full_pass(root, cache, windows, h).1.stage == BootstrapStage::Ready,
    ensures
        only_version_query(full_pass(root, cache, windows, full_pass(root, cache, windows, h).2).0),
        full_pass(root, cache, windows, full_pass(root, cache, windows, h).2).1.stage
            == BootstrapStage::Ready,
        full_pass(root, cache, windows, full_pass(root, cache, windows, h).2).2 == full_pass(
            root,
            cache,
            windows,
            h,
        ).2,
{
    reveal_with_fuel(bootstrap_pass, 6);
    let h1 = full_pass(root, cache, windows, h).2;
    assert(h1.runtime_ok && h1.bundle_present && h1.browsers_present);
    lemma_ready_host_installs_nothing(root, cache, windows, h1);
}

} // verus!
