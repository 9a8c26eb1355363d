use vstd::prelude::*;

verus! {

/// A file-system path held as its components, outermost first. A leading
/// root or drive prefix, where there is one, is the first component.
pub struct PathParts {
    pub parts: Vec<String>,
}

impl View for PathParts {
    type V = Seq<Seq<char>>;

    open spec fn view(&self) -> Seq<Seq<char>> {
        self.parts@.map_values(|s: String| s@)
    }
}

/// Where the application root is taken from.
pub enum RootDecision {
    /// The packaged layout `<root>/bin/<exe>` with the marker file in `<root>`.
    Installed(PathParts),
    /// Anything else: the process's current working directory.
    WorkingDirectory,
}

/// Why the application root could not be determined.
#[derive(PartialEq, Eq, Structural, Clone, Copy, Debug)]
pub enum RootError {
    /// The executable's path has no containing directory.
    NoExecutableDirectory,
}

impl RootError {
    /// The reason in words.
    pub fn message(&self) -> (r: String)
        ensures
            r@ == "the executable's path has no directory"@,
    {
        String::from_str("the executable's path has no directory")
    }
}

pub open spec fn bin_name() -> Seq<char> {
    seq!['b', 'i', 'n']
}

pub open spec fn marker_name() -> Seq<char> {
    seq!['p', 'a', 'c', 'k', 'a', 'g', 'e', '.', 'j', 's', 'o', 'n']
}

/// The directory that holds the executable, if the path has one.
pub open spec fn parent_of(p: Seq<Seq<char>>) -> Option<Seq<Seq<char>>> {
    if p.len() == 0 {
        None
    } else {
        Some(p.drop_last())
    }
}

/// The candidate installed root: the parent of the executable's directory,
/// when that directory is named `bin`.
pub open spec fn install_candidate(exe: Seq<Seq<char>>) -> Option<Seq<Seq<char>>> {
    match parent_of(exe) {
        Some(dir) => if dir.len() > 0 && dir.last() == bin_name() {
            parent_of(dir)
        } else {
            None
        },
        None => None,
    }
}

/// The marker file whose presence confirms an installed layout, if the
/// executable's path suggests one.
pub open spec fn marker_spec(exe: Seq<Seq<char>>) -> Option<Seq<Seq<char>>> {
    match install_candidate(exe) {
        Some(root) => Some(root.push(marker_name())),
        None => None,
    }
}

pub enum RootDecisionModel {
    Installed(Seq<Seq<char>>),
    WorkingDirectory,
}

impl View for RootDecision {
    type V = RootDecisionModel;

    open spec fn view(&self) -> RootDecisionModel {
        match self {
            RootDecision::Installed(p) => RootDecisionModel::Installed(p@),
            RootDecision::WorkingDirectory => RootDecisionModel::WorkingDirectory,
        }
    }
}

/// The root chosen for an executable path, given whether the marker file was found.
pub open spec fn decide_root_spec(exe: Seq<Seq<char>>, marker_present: bool) -> Result<
    RootDecisionModel,
    RootError,
> {
    if exe.len() == 0 {
        Err(RootError::NoExecutableDirectory)
    } else {
        match install_candidate(exe) {
            Some(root) => if marker_present {
                Ok(RootDecisionModel::Installed(root))
            } else {
                Ok(RootDecisionModel::WorkingDirectory)
            },
            None => Ok(RootDecisionModel::WorkingDirectory),
        }
    }
}

impl PathParts {
    /// A path with the given components.
    pub fn from_parts(parts: Vec<String>) -> (r: PathParts)
        ensures
            r.parts@ == parts@,
    {
        PathParts { parts }
    }

    /// A copy of this path.
    pub fn duplicate(&self) -> (r: PathParts)
        ensures
            r@ == self@,
    {
        let mut out: Vec<String> = Vec::new();
        let n = self.parts.len();
        for i in 0..n
            invariant
                n == self.parts@.len(),
                out@.len() == i,
                forall|k: int| 0 <= k < i ==> #[trigger] out@[k]@ == self.parts@[k]@,
        {
            out.push(self.parts[i].clone());
        }
        let r = PathParts { parts: out };
        assert(r@ =~= self@);
        r
    }

    /// This path with one more component at its end.
    pub fn join(&self, name: &str) -> (r: PathParts)
        ensures
            r@ == self@.push(name@),
    {
        let mut r = self.duplicate();
        r.parts.push(String::from_str(name));
        assert(r@ =~= self@.push(name@));
        r
    }

    /// The path without its last component, if it has one.
    pub fn parent(&self) -> (r: Option<PathParts>)
        ensures
            match r {
                Some(p) => parent_of(self@) == Some(p@),
                None => parent_of(self@) is None,
            },
    {
        if self.parts.len() == 0 {
            None
        } else {
            let mut p = self.duplicate();
            p.parts.pop();
            assert(p@ =~= self@.drop_last());
            Some(p)
        }
    }

    /// Whether the last component is named `name`.
    pub fn ends_with_name(&self, name: &str) -> (r: bool)
        ensures
            r == (self@.len() > 0 && self@.last() == name@),
    {
        let n = self.parts.len();
        if n == 0 {
            false
        } else {
            let wanted = String::from_str(name);
            self.parts[n - 1] == wanted
        }
    }
}

fn install_candidate_of(exe: &PathParts) -> (r: Option<PathParts>)
    ensures
        match r {
            Some(p) => install_candidate(exe@) == Some(p@),
            None => install_candidate(exe@) is None,
        },
{
    match exe.parent() {
        Some(dir) => {
            proof {
                reveal_strlit("bin");
                assert("bin"@ =~= bin_name());
            }
            if dir.ends_with_name("bin") {
                dir.parent()
            } else {
                None
            }
        },
        None => None,
    }
}

/// The marker file to look for before the executable's layout is taken as
/// installed; `None` where the executable does not sit in a `bin` directory.
pub fn marker_path_for(exe: &PathParts) -> (r: Option<PathParts>)
    ensures
        match r {
            Some(p) => marker_spec(exe@) == Some(p@),
            None => marker_spec(exe@) is None,
        },
{
    match install_candidate_of(exe) {
        Some(root) => {
            proof {
                reveal_strlit("package.json");
                assert("package.json"@ =~= marker_name());
            }
            Some(root.join("package.json"))
        },
        None => None,
    }
}

/// Chooses the application root for an executable path, given whether the
/// file that `marker_path_for` named exists.
pub fn decide_root(exe: &PathParts, marker_present: bool) -> (r: Result<RootDecision, RootError>)
    ensures
        match r {
            Ok(d) => decide_root_spec(exe@, marker_present) == Ok::<RootDecisionModel, RootError>(
                d@,
            ),
            Err(e) => decide_root_spec(exe@, marker_present) == Err::<RootDecisionModel, RootError>(
                e,
            ),
        },
{
    if exe.parts.len() == 0 {
        return Err(RootError::NoExecutableDirectory);
    }
    match install_candidate_of(exe) {
        Some(root) => if marker_present {
            Ok(RootDecision::Installed(root))
        } else {
            Ok(RootDecision::WorkingDirectory)
        },
        None => Ok(RootDecision::WorkingDirectory),
    }
}

/// An executable at `<root>/bin/<name>` is resolved to `<root>` when the marker
/// file `<root>/package.json` exists, and to the working directory when it does not.
pub proof fn lemma_installed_layout(root: Seq<Seq<char>>, exe_name: Seq<char>)
    ensures
        marker_spec(root.push(bin_name()).push(exe_name)) == Some(root.push(marker_name())),
        decide_root_spec(root.push(bin_name()).push(exe_name), true) == Ok::<
            RootDecisionModel,
            RootError,
        >(RootDecisionModel::Installed(root)),
        decide_root_spec(root.push(bin_name()).push(exe_name), false) == Ok::<
            RootDecisionModel,
            RootError,
        >(RootDecisionModel::WorkingDirectory),
{
    let dir = root.push(bin_name());
    let exe = dir.push(exe_name);
    assert(exe.drop_last() =~= dir);
    assert(dir.drop_last() =~= root);
}

} // verus!
