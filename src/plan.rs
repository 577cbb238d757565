use vstd::prelude::*;

verus! {

/// The sub-step of an upgrade that a process run belongs to.
#[derive(Clone, Copy, Debug, PartialEq, Eq, Structural)]
pub enum Stage {
    /// The advisory step that shows pending news before an upgrade.
    News,
    /// The synchronisation of the package databases and the upgrade itself.
    Upgrade,
    /// The removal of cached packages after an upgrade.
    Cleanup,
    /// The query of a tool's own version.
    VersionQuery,
    /// The upgrade of packages built from the user repository.
    AurUpgrade,
    /// The upgrade of packages from the official repositories.
    RepoUpgrade,
    /// The upgrade of a Doom Emacs installation.
    DoomUpgrade,
    /// The upgrade of Emacs packages.
    EmacsUpgrade,
}

/// Why an upgrade did not complete.
#[derive(Clone, Copy, Debug, PartialEq, Eq, Structural)]
pub enum UpgradeError {
    /// No package manager that the selection admits was found.
    BackendUnavailable,
    /// A privilege-escalation helper is needed and none is configured.
    PrivilegeUnavailable,
    /// A process of the given stage exited with a status that is not
    /// accepted; `code` is `None` when the process had no exit code.
    SubprocessFailed { stage: Stage, code: Option<i32> },
    /// A tool's version output could not be parsed as a version.
    VersionQueryMalformed,
    /// The `emacs` executable was not found.
    EmacsNotFound,
    /// No Emacs configuration directory exists.
    EmacsDirectoryMissing,
    /// The Emacs configuration directory holds no `init.el`.
    InitFileMissing,
}

/// One process run: the program, its arguments, the environment variables
/// set on top of the inherited ones, and the exit codes that count as
/// success.
#[derive(Clone, Debug)]
pub struct Invocation {
    pub program: String,
    pub args: Vec<String>,
    pub env: Vec<(String, String)>,
    pub ok_codes: Vec<i32>,
    pub stage: Stage,
}

/// The mathematical value of an [`Invocation`].
pub ghost struct InvocationView {
    pub program: Seq<char>,
    pub args: Seq<Seq<char>>,
    pub env: Seq<(Seq<char>, Seq<char>)>,
    pub ok_codes: Seq<i32>,
    pub stage: Stage,
}

impl View for Invocation {
    type V = InvocationView;

    open spec fn view(&self) -> InvocationView {
        InvocationView {
            program: self.program@,
            args: self.args.deep_view(),
            env: self.env.deep_view(),
            ok_codes: self.ok_codes@,
            stage: self.stage,
        }
    }
}

/// The work of one upgrade: process runs in order, each of which must exit
/// with an accepted code, followed by `failure` if it is set.
#[derive(Clone, Debug)]
pub struct Plan {
    pub steps: Vec<Invocation>,
    pub failure: Option<UpgradeError>,
}

/// The mathematical value of a [`Plan`].
pub ghost struct PlanView {
    pub steps: Seq<InvocationView>,
    pub failure: Option<UpgradeError>,
}

impl View for Plan {
    type V = PlanView;

    open spec fn view(&self) -> PlanView {
        PlanView { steps: self.steps@.map_values(|i: Invocation| i@), failure: self.failure }
    }
}

/// What the caller does next while carrying out a plan.
#[derive(Debug)]
pub enum Action {
    /// Run the plan's step of this index and report its exit code.
    Run(usize),
    /// The upgrade is over, with this outcome.
    Finished(Result<(), UpgradeError>),
}

/// Whether an exit code is among the accepted ones.
pub open spec fn accepts(ok_codes: Seq<i32>, code: Option<i32>) -> bool {
    match code {
        Some(c) => ok_codes.contains(c),
        None => false,
    }
}

/// The outcome of one process run of the given stage.
pub open spec fn status_outcome(inv: InvocationView, code: Option<i32>) -> Result<(), UpgradeError> {
    if accepts(inv.ok_codes, code) {
        Ok(())
    } else {
        Err(UpgradeError::SubprocessFailed { stage: inv.stage, code })
    }
}

/// The first reported exit code that a plan's step does not accept.
pub open spec fn first_rejected(p: PlanView, codes: Seq<Option<i32>>) -> Option<int> {
    if exists|i: int| 0 <= i < codes.len() && i < p.steps.len() && !accepts(p.steps[i].ok_codes, codes[i]) {
        let i = choose|i: int|
            0 <= i < codes.len() && i < p.steps.len() && !accepts(p.steps[i].ok_codes, codes[i])
            && forall|j: int| 0 <= j < i ==> accepts(p.steps[j].ok_codes, codes[j]);
        Some(i)
    } else {
        None
    }
}

/// The outcome of a whole plan whose steps all ran and were accepted.
pub open spec fn completed_outcome(p: PlanView) -> Result<(), UpgradeError> {
    match p.failure {
        Some(e) => Err(e),
        None => Ok(()),
    }
}

/// Whether `x` occurs in `v`.
pub fn contains_code(v: &Vec<i32>, x: i32) -> (r: bool)
    ensures
        r == v@.contains(x),
{
    let mut i: usize = 0;
    while i < v.len()
        invariant
            0 <= i <= v.len(),
            forall|j: int| 0 <= j < i ==> v@[j] != x,
        decreases v.len() - i,
    {
        if v[i] == x {
            return true;
        }
        i = i + 1;
    }
    false
}

/// Judges one exit status against the codes that the run accepts.
pub fn check_status(inv: &Invocation, code: Option<i32>) -> (r: Result<(), UpgradeError>)
    ensures
        r == status_outcome(inv@, code),
{
    let ok = match code {
        Some(c) => contains_code(&inv.ok_codes, c),
        None => false,
    };
    if ok {
        Ok(())
    } else {
        Err(UpgradeError::SubprocessFailed { stage: inv.stage, code })
    }
}

/// Decides the next action of a plan, given the exit codes of the runs made
/// so far, in order. The first rejected exit code ends the plan with its
/// error; once every step has been accepted the plan ends with its
/// `failure`, or with success.
pub fn next_action(p: &Plan, codes: &Vec<Option<i32>>) -> (r: Action)
    requires
        codes.len() <= p.steps.len(),
    ensures
        match first_rejected(p@, codes@) {
            Some(i) => r == Action::Finished(Err(UpgradeError::SubprocessFailed {
                stage: p@.steps[i].stage,
                code: codes@[i],
            })),
            None => if codes.len() < p.steps.len() {
                r == Action::Run(codes.len())
            } else {
                r == Action::Finished(completed_outcome(p@))
            },
        },
{
    let mut i: usize = 0;
    while i < codes.len()
        invariant
            0 <= i <= codes.len() <= p.steps.len(),
            forall|j: int| 0 <= j < i ==> accepts(p@.steps[j].ok_codes, codes@[j]),
        decreases codes.len() - i,
    {
        let res = check_status(&p.steps[i], codes[i]);
        if let Err(e) = res {
            assert(!accepts(p@.steps[i as int].ok_codes, codes@[i as int]));
            let ghost w = first_rejected(p@, codes@);
            assert(w == Some(i as int)) by {
                let k = choose|k: int|
                    0 <= k < codes.len() && k < p.steps.len() && !accepts(p@.steps[k].ok_codes, codes@[k])
                    && forall|j: int| 0 <= j < k ==> accepts(p@.steps[j].ok_codes, codes@[j]);
                assert(forall|j: int| 0 <= j < i ==> accepts(p@.steps[j].ok_codes, codes@[j]));
                if k < i {
                } else if k > i {
                    assert(accepts(p@.steps[i as int].ok_codes, codes@[i as int]));
                }
            }
            return Action::Finished(Err(e));
        }
        i = i + 1;
    }
    assert(first_rejected(p@, codes@) is None);
    if codes.len() < p.steps.len() {
        Action::Run(codes.len())
    } else {
        match p.failure {
            Some(e) => Action::Finished(Err(e)),
            None => Action::Finished(Ok(())),
        }
    }
}

/// When every run of a plan but the last was accepted and the last one, a
/// cache cleanup, was not, the plan ends with the cleanup's failure: the
/// first rejected run is the cleanup, and the runs before it are not
/// reported as failed.
pub proof fn lemma_cleanup_failure_reported(p: PlanView, codes: Seq<Option<i32>>)
    requires
        p.steps.len() == codes.len(),
        codes.len() > 0,
        p.steps.last().stage == Stage::Cleanup,
        forall|j: int| 0 <= j < codes.len() - 1 ==> accepts(p.steps[j].ok_codes, #[trigger] codes[j]),
        !accepts(p.steps.last().ok_codes, codes.last()),
    ensures
        first_rejected(p, codes) == Some(codes.len() - 1),
        p.steps[codes.len() - 1].stage == Stage::Cleanup,
{
    let n = codes.len() - 1;
    assert(!accepts(p.steps[n].ok_codes, codes[n]));
    let k = choose|k: int|
        0 <= k < codes.len() && k < p.steps.len() && !accepts(p.steps[k].ok_codes, codes[k])
        && forall|j: int| 0 <= j < k ==> accepts(p.steps[j].ok_codes, codes[j]);
    if k < n {
        assert(accepts(p.steps[k].ok_codes, codes[k]));
    }
}

} // verus!
