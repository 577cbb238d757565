use vstd::prelude::*;
use vstd::string::*;
use crate::args::{
    confirm, env_one, lit, make_run, one_arg, push_arg, push_args, push_confirm, push_env, run,
};
use crate::plan::{InvocationView, Plan, PlanView, Stage, UpgradeError};
use crate::text::{
    parse_semver, semver_of, split_words, strip_repeated, trim_end, trim_start_repeated,
    trimmed_end, words_of,
};

verus! {

/// What an upgrade reads from its caller: whether prompts are suppressed,
/// whether caches are cleaned afterwards, whether news is shown first, the
/// extra arguments of each tool, the privilege-escalation helper if one is
/// configured, and the inherited search path.
#[derive(Clone, Debug)]
pub struct UpgradeContext {
    pub assume_yes: bool,
    pub cleanup: bool,
    pub show_arch_news: bool,
    pub yay_arguments: String,
    pub garuda_update_arguments: String,
    pub trizen_arguments: String,
    pub pikaur_arguments: String,
    pub pamac_arguments: String,
    pub aura_aur_arguments: String,
    pub aura_pacman_arguments: String,
    pub sudo: Option<String>,
    pub search_path: String,
}

/// Where each tool was found on the search path, if it was.
#[derive(Clone, Debug)]
pub struct Executables {
    pub garuda_update: Option<String>,
    pub paru: Option<String>,
    pub yay: Option<String>,
    pub trizen: Option<String>,
    pub pikaur: Option<String>,
    pub pamac: Option<String>,
    pub powerpill: Option<String>,
    pub pacman: Option<String>,
    pub aura: Option<String>,
}

/// The view of an optional path.
pub open spec fn path_of(o: Option<String>) -> Option<Seq<char>> {
    match o {
        Some(s) => Some(s@),
        None => None,
    }
}

/// The low-level package tool that the front ends drive: `powerpill` where
/// it is installed, else `pacman`, left to the search path.
pub open spec fn pacman_program(found: Executables) -> Seq<char> {
    match found.powerpill {
        Some(p) => p@,
        None => "pacman"@,
    }
}

/// The search path under which the low-level tool runs: the system
/// directory first, then the inherited search path.
pub open spec fn execution_path(ctx: UpgradeContext) -> Seq<char> {
    "/usr/bin:"@ + ctx.search_path@
}

/// The environment variable that sets [`execution_path`].
pub open spec fn path_env(ctx: UpgradeContext) -> (Seq<char>, Seq<char>) {
    ("PATH"@, execution_path(ctx))
}

/// Builds the search path under which the low-level tool runs.
fn get_execution_path(ctx: &UpgradeContext) -> (r: String)
    ensures
        r@ == execution_path(*ctx),
{
    let mut path = lit("/usr/bin:");
    path.append(ctx.search_path.as_str());
    path
}

/// The `yay` or `paru` front end, which drives the low-level tool.
#[derive(Clone, Debug)]
pub struct YayParu {
    pub executable: String,
    pub pacman: String,
}

/// The `garuda-update` script.
#[derive(Clone, Debug)]
pub struct GarudaUpdate {
    pub executable: String,
}

/// The `trizen` front end.
#[derive(Clone, Debug)]
pub struct Trizen {
    pub executable: String,
}

/// The low-level tool itself, run through the privilege-escalation helper.
#[derive(Clone, Debug)]
pub struct Pacman {
    pub executable: String,
}

/// The `pikaur` front end.
#[derive(Clone, Debug)]
pub struct Pikaur {
    pub executable: String,
}

/// The `pamac` front end.
#[derive(Clone, Debug)]
pub struct Pamac {
    pub executable: String,
}

/// The `aura` front end, whose privilege needs depend on its version.
#[derive(Clone, Debug)]
pub struct Aura {
    pub executable: String,
}

impl YayParu {
    /// The front end found at `executable`, driving `pacman`.
    pub fn get(executable: &Option<String>, pacman: &str) -> (r: Option<Self>)
        ensures
            r is Some == executable is Some,
            r is Some ==> r->Some_0.executable@ == executable->Some_0@ && r->Some_0.pacman@ == pacman@,
    {
        match executable {
            Some(e) => Some(YayParu { executable: e.clone(), pacman: lit(pacman) }),
            None => None,
        }
    }
}

impl GarudaUpdate {
    /// The script found at `executable`.
    pub fn get(executable: &Option<String>) -> (r: Option<Self>)
        ensures
            r is Some == executable is Some,
            r is Some ==> r->Some_0.executable@ == executable->Some_0@,
    {
        match executable {
            Some(e) => Some(GarudaUpdate { executable: e.clone() }),
            None => None,
        }
    }
}

impl Trizen {
    /// The front end found at `executable`.
    pub fn get(executable: &Option<String>) -> (r: Option<Self>)
        ensures
            r is Some == executable is Some,
            r is Some ==> r->Some_0.executable@ == executable->Some_0@,
    {
        match executable {
            Some(e) => Some(Trizen { executable: e.clone() }),
            None => None,
        }
    }
}

/// The low-level tool, where one was found: `powerpill` at the path where
/// it was found, else `pacman` by name, so that it is looked up on the
/// search path that puts the system directory first.
pub open spec fn low_level_tool(found: Executables) -> Option<Seq<char>> {
    match found.powerpill {
        Some(p) => Some(p@),
        None => match found.pacman {
            Some(_) => Some("pacman"@),
            None => None,
        },
    }
}

impl Pacman {
    /// The low-level tool: `powerpill` at the path where it was found, else
    /// `pacman` by name where it was found, else none.
    pub fn get(powerpill: &Option<String>, pacman: &Option<String>) -> (r: Option<Self>)
        ensures
            r is Some == (powerpill is Some || pacman is Some),
            powerpill is Some ==> r->Some_0.executable@ == powerpill->Some_0@,
            powerpill is None && pacman is Some ==> r->Some_0.executable@ == "pacman"@,
    {
        match powerpill {
            Some(p) => Some(Pacman { executable: p.clone() }),
            None => match pacman {
                Some(_) => Some(Pacman { executable: lit("pacman") }),
                None => None,
            },
        }
    }
}

impl Pikaur {
    /// The front end found at `executable`.
    pub fn get(executable: &Option<String>) -> (r: Option<Self>)
        ensures
            r is Some == executable is Some,
            r is Some ==> r->Some_0.executable@ == executable->Some_0@,
    {
        match executable {
            Some(e) => Some(Pikaur { executable: e.clone() }),
            None => None,
        }
    }
}

impl Pamac {
    /// The front end found at `executable`.
    pub fn get(executable: &Option<String>) -> (r: Option<Self>)
        ensures
            r is Some == executable is Some,
            r is Some ==> r->Some_0.executable@ == executable->Some_0@,
    {
        match executable {
            Some(e) => Some(Pamac { executable: e.clone() }),
            None => None,
        }
    }
}

impl Aura {
    /// The front end found at `executable`.
    pub fn get(executable: &Option<String>) -> (r: Option<Self>)
        ensures
            r is Some == executable is Some,
            r is Some ==> r->Some_0.executable@ == executable->Some_0@,
    {
        match executable {
            Some(e) => Some(Aura { executable: e.clone() }),
            None => None,
        }
    }
}

/// The identity of a package manager that the resolver can pick.
#[derive(Clone, Copy, Debug, PartialEq, Eq, Structural)]
pub enum BackendId {
    GarudaUpdate,
    Paru,
    Yay,
    Trizen,
    Pikaur,
    Pamac,
    Pacman,
    Aura,
}

/// The configured choice: detect a package manager, or use the named one.
#[derive(Clone, Copy, Debug, PartialEq, Eq, Structural)]
pub enum ArchPackageManagerChoice {
    Autodetect,
    GarudaUpdate,
    Trizen,
    Paru,
    Yay,
    Pacman,
    Pikaur,
    Pamac,
    Aura,
}

/// A selected package manager.
#[derive(Clone, Debug)]
pub enum ArchBackend {
    GarudaUpdate(GarudaUpdate),
    YayParu(BackendId, YayParu),
    Trizen(Trizen),
    Pikaur(Pikaur),
    Pamac(Pamac),
    Pacman(Pacman),
    Aura(Aura),
}

impl ArchBackend {
    /// Which package manager this is.
    pub open spec fn id(&self) -> BackendId {
        match self {
            ArchBackend::GarudaUpdate(_) => BackendId::GarudaUpdate,
            ArchBackend::YayParu(id, _) => *id,
            ArchBackend::Trizen(_) => BackendId::Trizen,
            ArchBackend::Pikaur(_) => BackendId::Pikaur,
            ArchBackend::Pamac(_) => BackendId::Pamac,
            ArchBackend::Pacman(_) => BackendId::Pacman,
            ArchBackend::Aura(_) => BackendId::Aura,
        }
    }

    /// The path of its executable.
    pub open spec fn program(&self) -> Seq<char> {
        match self {
            ArchBackend::GarudaUpdate(b) => b.executable@,
            ArchBackend::YayParu(_, b) => b.executable@,
            ArchBackend::Trizen(b) => b.executable@,
            ArchBackend::Pikaur(b) => b.executable@,
            ArchBackend::Pamac(b) => b.executable@,
            ArchBackend::Pacman(b) => b.executable@,
            ArchBackend::Aura(b) => b.executable@,
        }
    }
}

/// The path at which the package manager `id` was detected, if it was.
pub open spec fn detect(id: BackendId, found: Executables) -> Option<Seq<char>> {
    match id {
        BackendId::GarudaUpdate => path_of(found.garuda_update),
        BackendId::Paru => path_of(found.paru),
        BackendId::Yay => path_of(found.yay),
        BackendId::Trizen => path_of(found.trizen),
        BackendId::Pikaur => path_of(found.pikaur),
        BackendId::Pamac => path_of(found.pamac),
        BackendId::Pacman => low_level_tool(found),
        BackendId::Aura => path_of(found.aura),
    }
}

/// The order in which package managers are detected.
pub open spec fn priority() -> Seq<BackendId> {
    seq![
        BackendId::GarudaUpdate,
        BackendId::Paru,
        BackendId::Yay,
        BackendId::Trizen,
        BackendId::Pikaur,
        BackendId::Pamac,
        BackendId::Pacman,
        BackendId::Aura,
    ]
}

/// The package managers that a choice admits, in the order they are tried.
pub open spec fn candidates(choice: ArchPackageManagerChoice) -> Seq<BackendId> {
    match choice {
        ArchPackageManagerChoice::Autodetect => priority(),
        ArchPackageManagerChoice::GarudaUpdate => seq![BackendId::GarudaUpdate],
        ArchPackageManagerChoice::Trizen => seq![BackendId::Trizen],
        ArchPackageManagerChoice::Paru => seq![BackendId::Paru],
        ArchPackageManagerChoice::Yay => seq![BackendId::Yay],
        ArchPackageManagerChoice::Pacman => seq![BackendId::Pacman],
        ArchPackageManagerChoice::Pikaur => seq![BackendId::Pikaur],
        ArchPackageManagerChoice::Pamac => seq![BackendId::Pamac],
        ArchPackageManagerChoice::Aura => seq![BackendId::Aura],
    }
}

/// The first of `order` that was detected.
pub open spec fn first_detected(order: Seq<BackendId>, found: Executables) -> Option<BackendId>
    decreases order.len(),
{
    if order.len() == 0 {
        None
    } else if detect(order[0], found) is Some {
        Some(order[0])
    } else {
        first_detected(order.drop_first(), found)
    }
}

/// Whether `b` is of the variant that stands for `id`: `paru` and `yay`
/// share the front-end variant, and every other package manager has its own.
pub open spec fn variant_matches(b: ArchBackend, id: BackendId) -> bool {
    match id {
        BackendId::GarudaUpdate => b is GarudaUpdate,
        BackendId::Paru => b is YayParu,
        BackendId::Yay => b is YayParu,
        BackendId::Trizen => b is Trizen,
        BackendId::Pikaur => b is Pikaur,
        BackendId::Pamac => b is Pamac,
        BackendId::Pacman => b is Pacman,
        BackendId::Aura => b is Aura,
    }
}

/// Whether `b` is the package manager `id` as detected in `found`.
pub open spec fn is_detected_backend(b: ArchBackend, id: BackendId, found: Executables) -> bool {
    &&& b.id() == id
    &&& variant_matches(b, id)
    &&& detect(id, found) == Some(b.program())
    &&& b is YayParu ==> b->YayParu_1.pacman@ == pacman_program(found)
}

/// The identities tried for a choice, in order.
fn candidate_list(choice: ArchPackageManagerChoice) -> (r: Vec<BackendId>)
    ensures
        r@ == candidates(choice),
{
    let r = match choice {
        ArchPackageManagerChoice::Autodetect => vec![
            BackendId::GarudaUpdate,
            BackendId::Paru,
            BackendId::Yay,
            BackendId::Trizen,
            BackendId::Pikaur,
            BackendId::Pamac,
            BackendId::Pacman,
            BackendId::Aura,
        ],
        ArchPackageManagerChoice::GarudaUpdate => vec![BackendId::GarudaUpdate],
        ArchPackageManagerChoice::Trizen => vec![BackendId::Trizen],
        ArchPackageManagerChoice::Paru => vec![BackendId::Paru],
        ArchPackageManagerChoice::Yay => vec![BackendId::Yay],
        ArchPackageManagerChoice::Pacman => vec![BackendId::Pacman],
        ArchPackageManagerChoice::Pikaur => vec![BackendId::Pikaur],
        ArchPackageManagerChoice::Pamac => vec![BackendId::Pamac],
        ArchPackageManagerChoice::Aura => vec![BackendId::Aura],
    };
    assert(r@ =~= candidates(choice));
    r
}

/// The package manager `id`, if it was detected.
fn detect_backend(id: BackendId, found: &Executables, pacman: &String) -> (r: Option<ArchBackend>)
    requires
        pacman@ == pacman_program(*found),
    ensures
        r is Some == detect(id, *found) is Some,
        r is Some ==> is_detected_backend(r->Some_0, id, *found),
{
    match id {
        BackendId::GarudaUpdate => match GarudaUpdate::get(&found.garuda_update) {
            Some(b) => Some(ArchBackend::GarudaUpdate(b)),
            None => None,
        },
        BackendId::Paru => match YayParu::get(&found.paru, pacman.as_str()) {
            Some(b) => Some(ArchBackend::YayParu(BackendId::Paru, b)),
            None => None,
        },
        BackendId::Yay => match YayParu::get(&found.yay, pacman.as_str()) {
            Some(b) => Some(ArchBackend::YayParu(BackendId::Yay, b)),
            None => None,
        },
        BackendId::Trizen => match Trizen::get(&found.trizen) {
            Some(b) => Some(ArchBackend::Trizen(b)),
            None => None,
        },
        BackendId::Pikaur => match Pikaur::get(&found.pikaur) {
            Some(b) => Some(ArchBackend::Pikaur(b)),
            None => None,
        },
        BackendId::Pamac => match Pamac::get(&found.pamac) {
            Some(b) => Some(ArchBackend::Pamac(b)),
            None => None,
        },
        BackendId::Pacman => match Pacman::get(&found.powerpill, &found.pacman) {
            Some(b) => Some(ArchBackend::Pacman(b)),
            None => None,
        },
        BackendId::Aura => match Aura::get(&found.aura) {
            Some(b) => Some(ArchBackend::Aura(b)),
            None => None,
        },
    }
}

/// Resolves the package manager to use: the first of the choice's
/// candidates that was detected, or `None` where none was.
pub fn get_arch_package_manager(choice: ArchPackageManagerChoice, found: &Executables) -> (r: Option<ArchBackend>)
    ensures
        match first_detected(candidates(choice), *found) {
            None => r is None,
            Some(id) => r is Some && is_detected_backend(r->Some_0, id, *found),
        },
{
    let pacman = match &found.powerpill {
        Some(p) => p.clone(),
        None => lit("pacman"),
    };
    let order = candidate_list(choice);
    let mut i: usize = 0;
    assert(order@.subrange(0, order@.len() as int) =~= order@);
    while i < order.len()
        invariant
            0 <= i <= order@.len(),
            order@ == candidates(choice),
            pacman@ == pacman_program(*found),
            first_detected(order@.subrange(i as int, order@.len() as int), *found)
                == first_detected(candidates(choice), *found),
        decreases order.len() - i,
    {
        let ghost rest = order@.subrange(i as int, order@.len() as int);
        assert(rest.drop_first() =~= order@.subrange(i + 1, order@.len() as int));
        assert(rest[0] == order@[i as int]);
        match detect_backend(order[i], found, &pacman) {
            Some(b) => {
                return Some(b);
            },
            None => {},
        }
        i = i + 1;
    }
    None
}

/// The run whose output the upgrade of the resolved package manager needs
/// first, if any: the version query of `aura`.
pub fn arch_version_query(choice: ArchPackageManagerChoice, found: &Executables) -> (r: Option<crate::plan::Invocation>)
    ensures
        match first_detected(candidates(choice), *found) {
            None => r is None,
            Some(id) => exists|b: ArchBackend| #[trigger] is_detected_backend(b, id, *found) && match b.version_query_spec() {
                Some(q) => r is Some && r->Some_0@ == q,
                None => r is None,
            },
        },
{
    match get_arch_package_manager(choice, found) {
        Some(b) => {
            let r = b.version_query();
            let ghost id = first_detected(candidates(choice), *found)->Some_0;
            assert(is_detected_backend(b, id, *found));
            r
        },
        None => None,
    }
}

/// Plans the upgrade of the system: resolves the package manager, and
/// plans its upgrade unchanged; where none was detected the plan runs
/// nothing and fails with [`UpgradeError::BackendUnavailable`]. `output` is
/// the output of [`arch_version_query`]'s run, where there is one.
pub fn upgrade_arch_linux(
    choice: ArchPackageManagerChoice,
    found: &Executables,
    ctx: &UpgradeContext,
    output: &str,
) -> (r: Plan)
    ensures
        match first_detected(candidates(choice), *found) {
            None => r@ == failing(UpgradeError::BackendUnavailable),
            Some(id) => exists|b: ArchBackend| #[trigger] is_detected_backend(b, id, *found)
                && r@ == b.planned(*ctx, output@),
        },
{
    match get_arch_package_manager(choice, found) {
        Some(b) => {
            let r = b.upgrade_plan(ctx, output);
            let ghost id = first_detected(candidates(choice), *found)->Some_0;
            assert(is_detected_backend(b, id, *found));
            r
        },
        None => {
            let r = Plan { steps: Vec::new(), failure: Some(UpgradeError::BackendUnavailable) };
            assert(r@.steps =~= seq![]);
            r
        },
    }
}

/// The same context with the news step turned off.
pub open spec fn ctx_without_news(ctx: UpgradeContext) -> UpgradeContext {
    UpgradeContext { show_arch_news: false, ..ctx }
}

/// A plan of the given runs that ends in success.
pub open spec fn plan_of(steps: Seq<InvocationView>) -> PlanView {
    PlanView { steps, failure: None }
}

/// A plan that runs nothing and fails with `e`.
pub open spec fn failing(e: UpgradeError) -> PlanView {
    PlanView { steps: seq![], failure: Some(e) }
}

/// `s` where `b` holds, else nothing.
pub open spec fn when(b: bool, s: InvocationView) -> Seq<InvocationView> {
    if b {
        seq![s]
    } else {
        seq![]
    }
}

/// The view of an optional run, as a sequence of at most one run.
pub open spec fn optional_run(o: Option<crate::plan::Invocation>) -> Seq<InvocationView> {
    match o {
        Some(c) => seq![c@],
        None => seq![],
    }
}

/// A plan of one run, or of two where cleanup is requested.
fn upgrade_then_cleanup(up: crate::plan::Invocation, cleanup: Option<crate::plan::Invocation>) -> (r: Plan)
    ensures
        r@ == plan_of(seq![up@] + optional_run(cleanup)),
{
    let ghost uv = up@;
    let ghost cv = optional_run(cleanup);
    let mut steps = vec![up];
    match cleanup {
        Some(c) => steps.push(c),
        None => {},
    }
    let r = Plan { steps, failure: None };
    assert(r@.steps =~= seq![uv] + cv);
    r
}

impl YayParu {
    /// The runs of an upgrade: the news where it is asked for, then the
    /// upgrade through the low-level tool, then the cache cleanup where it is
    /// requested. The upgrade and the cleanup both reach the low-level tool,
    /// so both run under the system search path; the news does not.
    pub open spec fn planned(&self, ctx: UpgradeContext) -> PlanView {
        let news = InvocationView {
            program: self.executable@,
            args: seq!["-Pw"@],
            env: seq![],
            ok_codes: seq![1i32, 0i32],
            stage: Stage::News,
        };
        let up = run(
            self.executable@,
            seq!["--pacman"@, self.pacman@, "-Syu"@] + words_of(ctx.yay_arguments@)
                + confirm(ctx.assume_yes, "--noconfirm"@),
            seq![path_env(ctx)],
            Stage::Upgrade,
        );
        let clean = run(
            self.executable@,
            seq!["--pacman"@, self.pacman@, "-Scc"@] + confirm(ctx.assume_yes, "--noconfirm"@),
            seq![path_env(ctx)],
            Stage::Cleanup,
        );
        plan_of(when(ctx.show_arch_news, news) + seq![up] + when(ctx.cleanup, clean))
    }

    /// Plans an upgrade.
    pub fn upgrade_plan(&self, ctx: &UpgradeContext) -> (r: Plan)
        ensures
            r@ == self.planned(*ctx),
    {
        let mut args = one_arg("--pacman");
        push_arg(&mut args, self.pacman.clone());
        push_arg(&mut args, lit("-Syu"));
        assert(args.deep_view() =~= seq!["--pacman"@, self.pacman@, "-Syu"@]);
        push_args(&mut args, split_words(ctx.yay_arguments.as_str()));
        push_confirm(&mut args, ctx.assume_yes, "--noconfirm");
        let env = env_one(lit("PATH"), get_execution_path(ctx));
        let up = make_run(self.executable.clone(), args, env, Stage::Upgrade);
        let cleanup = if ctx.cleanup {
            let mut args = one_arg("--pacman");
            push_arg(&mut args, self.pacman.clone());
            push_arg(&mut args, lit("-Scc"));
            assert(args.deep_view() =~= seq!["--pacman"@, self.pacman@, "-Scc"@]);
            push_confirm(&mut args, ctx.assume_yes, "--noconfirm");
            let env = env_one(lit("PATH"), get_execution_path(ctx));
            let c = make_run(self.executable.clone(), args, env, Stage::Cleanup);
            Some(c)
        } else {
            None
        };
        let main = upgrade_then_cleanup(up, cleanup);
        if ctx.show_arch_news {
            let news = crate::plan::Invocation {
                program: self.executable.clone(),
                args: one_arg("-Pw"),
                env: Vec::new(),
                ok_codes: vec![1i32, 0i32],
                stage: Stage::News,
            };
            let ghost nv = news@;
            assert(news.ok_codes@ =~= seq![1i32, 0i32]);
            assert(news@.env =~= seq![]);
            let mut steps = vec![news];
            let mut rest = main.steps;
            steps.append(&mut rest);
            let r = Plan { steps, failure: None };
            assert(r@.steps =~= seq![nv] + main@.steps);
            assert(nv.args =~= seq!["-Pw"@]);
            assert(nv == self.planned(*ctx).steps[0]);
            let ghost other = ctx_without_news(*ctx);
            assert(self.planned(other).steps =~= main@.steps);
            assert(self.planned(*ctx).steps =~= seq![nv] + self.planned(other).steps);
            assert(r@ =~= self.planned(*ctx));
            r
        } else {
            assert(main@ =~= self.planned(*ctx));
            main
        }
    }
}

/// The runs of a front end that upgrades with `sync` and the extra
/// arguments `extra`, then cleans its cache with `clean` where that is
/// requested; both carry `flag` where prompts are suppressed, and both run
/// under the system search path, since both reach the low-level tool.
pub open spec fn front_end_plan(
    exe: Seq<char>,
    sync: Seq<char>,
    extra: Seq<char>,
    flag: Seq<char>,
    clean: Seq<char>,
    ctx: UpgradeContext,
) -> PlanView {
    let up = run(exe, seq![sync] + words_of(extra) + confirm(ctx.assume_yes, flag), seq![path_env(ctx)], Stage::Upgrade);
    let cl = run(exe, seq![clean] + confirm(ctx.assume_yes, flag), seq![path_env(ctx)], Stage::Cleanup);
    plan_of(seq![up] + when(ctx.cleanup, cl))
}

/// Plans the upgrade of a front end, as [`front_end_plan`] states it.
fn front_end_upgrade(
    exe: &String,
    sync: &str,
    extra: &String,
    flag: &str,
    clean: &str,
    ctx: &UpgradeContext,
) -> (r: Plan)
    ensures
        r@ == front_end_plan(exe@, sync@, extra@, flag@, clean@, *ctx),
{
    let mut args = one_arg(sync);
    push_args(&mut args, split_words(extra.as_str()));
    push_confirm(&mut args, ctx.assume_yes, flag);
    let env = env_one(lit("PATH"), get_execution_path(ctx));
    let up = make_run(exe.clone(), args, env, Stage::Upgrade);
    let cleanup = if ctx.cleanup {
        let mut args = one_arg(clean);
        push_confirm(&mut args, ctx.assume_yes, flag);
        let env = env_one(lit("PATH"), get_execution_path(ctx));
        let c = make_run(exe.clone(), args, env, Stage::Cleanup);
        Some(c)
    } else {
        None
    };
    let r = upgrade_then_cleanup(up, cleanup);
    assert(r@ =~= front_end_plan(exe@, sync@, extra@, flag@, clean@, *ctx));
    r
}

impl GarudaUpdate {
    /// The single run of an upgrade: the script with its extra arguments,
    /// under the system search path, told to include user-repository packages
    /// and to skip the mirror list, and told not to prompt where prompts are
    /// suppressed.
    pub open spec fn planned(&self, ctx: UpgradeContext) -> PlanView {
        let env = seq![path_env(ctx), ("UPDATE_AUR"@, "1"@), ("SKIP_MIRRORLIST"@, "1"@)] + if ctx.assume_yes {
            seq![("PACMAN_NOCONFIRM"@, "1"@)]
        } else {
            seq![]
        };
        plan_of(seq![run(self.executable@, words_of(ctx.garuda_update_arguments@), env, Stage::Upgrade)])
    }

    /// Plans an upgrade.
    pub fn upgrade_plan(&self, ctx: &UpgradeContext) -> (r: Plan)
        ensures
            r@ == self.planned(*ctx),
    {
        let mut env = env_one(lit("PATH"), get_execution_path(ctx));
        push_env(&mut env, lit("UPDATE_AUR"), lit("1"));
        push_env(&mut env, lit("SKIP_MIRRORLIST"), lit("1"));
        if ctx.assume_yes {
            push_env(&mut env, lit("PACMAN_NOCONFIRM"), lit("1"));
        }
        let args = split_words(ctx.garuda_update_arguments.as_str());
        let up = make_run(self.executable.clone(), args, env, Stage::Upgrade);
        let ghost uv = up@;
        let r = Plan { steps: vec![up], failure: None };
        assert(r@.steps =~= seq![uv]);
        assert(uv.env =~= self.planned(*ctx).steps[0].env);
        assert(r@ =~= self.planned(*ctx));
        r
    }
}

impl Trizen {
    /// The runs of an upgrade: `-Syu` with the extra arguments, then `-Sc`
    /// where cleanup is requested; `--noconfirm` where prompts are suppressed.
    pub open spec fn planned(&self, ctx: UpgradeContext) -> PlanView {
        front_end_plan(self.executable@, "-Syu"@, ctx.trizen_arguments@, "--noconfirm"@, "-Sc"@, ctx)
    }

    /// Plans an upgrade.
    pub fn upgrade_plan(&self, ctx: &UpgradeContext) -> (r: Plan)
        ensures
            r@ == self.planned(*ctx),
    {
        front_end_upgrade(&self.executable, "-Syu", &ctx.trizen_arguments, "--noconfirm", "-Sc", ctx)
    }
}

impl Pikaur {
    /// The runs of an upgrade: `-Syu` with the extra arguments, then `-Sc`
    /// where cleanup is requested; `--noconfirm` where prompts are suppressed.
    pub open spec fn planned(&self, ctx: UpgradeContext) -> PlanView {
        front_end_plan(self.executable@, "-Syu"@, ctx.pikaur_arguments@, "--noconfirm"@, "-Sc"@, ctx)
    }

    /// Plans an upgrade.
    pub fn upgrade_plan(&self, ctx: &UpgradeContext) -> (r: Plan)
        ensures
            r@ == self.planned(*ctx),
    {
        front_end_upgrade(&self.executable, "-Syu", &ctx.pikaur_arguments, "--noconfirm", "-Sc", ctx)
    }
}

impl Pamac {
    /// The runs of an upgrade: `upgrade` with the extra arguments, then
    /// `clean` where cleanup is requested; `--no-confirm` where prompts are
    /// suppressed.
    pub open spec fn planned(&self, ctx: UpgradeContext) -> PlanView {
        front_end_plan(self.executable@, "upgrade"@, ctx.pamac_arguments@, "--no-confirm"@, "clean"@, ctx)
    }

    /// Plans an upgrade.
    pub fn upgrade_plan(&self, ctx: &UpgradeContext) -> (r: Plan)
        ensures
            r@ == self.planned(*ctx),
    {
        front_end_upgrade(&self.executable, "upgrade", &ctx.pamac_arguments, "--no-confirm", "clean", ctx)
    }
}

impl Pacman {
    /// The runs of an upgrade, each through the privilege-escalation helper:
    /// `-Syu`, then `-Scc` where cleanup is requested, both under the system
    /// search path; `--noconfirm` where prompts are suppressed. Without a
    /// helper nothing runs and the upgrade fails.
    pub open spec fn planned(&self, ctx: UpgradeContext) -> PlanView {
        match ctx.sudo {
            None => failing(UpgradeError::PrivilegeUnavailable),
            Some(sudo) => {
                let up = run(
                    sudo@,
                    seq![self.executable@, "-Syu"@] + confirm(ctx.assume_yes, "--noconfirm"@),
                    seq![path_env(ctx)],
                    Stage::Upgrade,
                );
                let cl = run(
                    sudo@,
                    seq![self.executable@, "-Scc"@] + confirm(ctx.assume_yes, "--noconfirm"@),
                    seq![path_env(ctx)],
                    Stage::Cleanup,
                );
                plan_of(seq![up] + when(ctx.cleanup, cl))
            },
        }
    }

    /// Plans an upgrade.
    pub fn upgrade_plan(&self, ctx: &UpgradeContext) -> (r: Plan)
        ensures
            r@ == self.planned(*ctx),
    {
        let sudo = match &ctx.sudo {
            Some(s) => s,
            None => {
                let r = Plan { steps: Vec::new(), failure: Some(UpgradeError::PrivilegeUnavailable) };
                assert(r@.steps =~= seq![]);
                return r;
            },
        };
        let mut args = one_arg(self.executable.as_str());
        push_arg(&mut args, lit("-Syu"));
        push_confirm(&mut args, ctx.assume_yes, "--noconfirm");
        assert(args.deep_view() =~= seq![self.executable@, "-Syu"@] + confirm(ctx.assume_yes, "--noconfirm"@));
        let env = env_one(lit("PATH"), get_execution_path(ctx));
        let up = make_run(sudo.clone(), args, env, Stage::Upgrade);
        let cleanup = if ctx.cleanup {
            let mut args = one_arg(self.executable.as_str());
            push_arg(&mut args, lit("-Scc"));
            push_confirm(&mut args, ctx.assume_yes, "--noconfirm");
            assert(args.deep_view() =~= seq![self.executable@, "-Scc"@] + confirm(ctx.assume_yes, "--noconfirm"@));
            let env = env_one(lit("PATH"), get_execution_path(ctx));
            let c = make_run(sudo.clone(), args, env, Stage::Cleanup);
            Some(c)
        } else {
            None
        };
        let r = upgrade_then_cleanup(up, cleanup);
        assert(r@ =~= self.planned(*ctx));
        r
    }
}

/// A version of `aura`: its major, minor and patch numbers, and whether it
/// carries a pre-release part.
#[derive(Clone, Copy, Debug, PartialEq, Eq, Structural)]
pub struct AuraVersion {
    pub major: u64,
    pub minor: u64,
    pub patch: u64,
    pub prerelease: bool,
}

/// The release from which `aura` no longer needs the privilege-escalation
/// helper.
pub const UNPRIVILEGED_MAJOR: u64 = 4;
pub const UNPRIVILEGED_MINOR: u64 = 0;
pub const UNPRIVILEGED_PATCH: u64 = 6;

/// Whether `v` is at least the release from which `aura` runs without the
/// helper. Versions are ordered by major, minor and patch number in turn,
/// and a pre-release comes before the release of the same numbers.
pub open spec fn runs_unprivileged(v: AuraVersion) -> bool {
    if v.major != UNPRIVILEGED_MAJOR {
        v.major > UNPRIVILEGED_MAJOR
    } else if v.minor != UNPRIVILEGED_MINOR {
        v.minor > UNPRIVILEGED_MINOR
    } else if v.patch != UNPRIVILEGED_PATCH {
        v.patch > UNPRIVILEGED_PATCH
    } else {
        !v.prerelease
    }
}

/// The version token of `aura --version` output: the output without its
/// leading `aura ` and its trailing whitespace.
pub open spec fn version_token(output: Seq<char>) -> Seq<char> {
    trimmed_end(strip_repeated(output, "aura "@))
}

/// The version that `aura --version` output reports, if it parses.
pub open spec fn version_from_output(output: Seq<char>) -> Option<AuraVersion> {
    match semver_of(version_token(output)) {
        Some(t) => Some(AuraVersion { major: t.0, minor: t.1, patch: t.2, prerelease: t.3 }),
        None => None,
    }
}

impl AuraVersion {
    /// Whether this version runs without the privilege-escalation helper.
    pub fn is_unprivileged(&self) -> (r: bool)
        ensures
            r == runs_unprivileged(*self),
    {
        if self.major != UNPRIVILEGED_MAJOR {
            self.major > UNPRIVILEGED_MAJOR
        } else if self.minor != UNPRIVILEGED_MINOR {
            self.minor > UNPRIVILEGED_MINOR
        } else if self.patch != UNPRIVILEGED_PATCH {
            self.patch > UNPRIVILEGED_PATCH
        } else {
            !self.prerelease
        }
    }

    /// Reads the version from `aura --version` output. Where nothing is left
    /// once the leading `aura ` is removed, there is no version.
    pub fn from_output(output: &str) -> (r: Option<AuraVersion>)
        ensures
            r == version_from_output(output@),
            strip_repeated(output@, "aura "@).len() == 0 ==> r is None,
    {
        let stripped = trim_start_repeated(output, "aura ");
        let token = trim_end(stripped);
        match parse_semver(token) {
            Some(t) => Some(AuraVersion { major: t.0, minor: t.1, patch: t.2, prerelease: t.3 }),
            None => None,
        }
    }
}

impl Aura {
    /// The run that asks `aura` for its version.
    pub open spec fn version_query_spec(&self) -> InvocationView {
        run(self.executable@, seq!["--version"@], seq![], Stage::VersionQuery)
    }

    /// Plans the query of the installed version.
    pub fn version_query(&self) -> (r: crate::plan::Invocation)
        ensures
            r@ == self.version_query_spec(),
    {
        let r = make_run(self.executable.clone(), one_arg("--version"), Vec::new(), Stage::VersionQuery);
        assert(r@.env =~= seq![]);
        r
    }

    /// The runs of an upgrade by a given version: the user-repository
    /// upgrade `-Au`, then the repository upgrade `-Syu`, each with its own
    /// extra arguments and with `--noconfirm` where prompts are suppressed,
    /// and both under the system search path, since both reach the low-level
    /// tool. From the threshold release on, both run directly; before it, both run
    /// through the privilege-escalation helper, and without one nothing runs
    /// and the upgrade fails.
    pub open spec fn planned_for(&self, ctx: UpgradeContext, v: AuraVersion) -> PlanView {
        let aur = seq!["-Au"@] + words_of(ctx.aura_aur_arguments@) + confirm(ctx.assume_yes, "--noconfirm"@);
        let repo = seq!["-Syu"@] + words_of(ctx.aura_pacman_arguments@) + confirm(ctx.assume_yes, "--noconfirm"@);
        if runs_unprivileged(v) {
            plan_of(seq![
                run(self.executable@, aur, seq![path_env(ctx)], Stage::AurUpgrade),
                run(self.executable@, repo, seq![path_env(ctx)], Stage::RepoUpgrade),
            ])
        } else {
            match ctx.sudo {
                None => failing(UpgradeError::PrivilegeUnavailable),
                Some(sudo) => plan_of(seq![
                    run(sudo@, seq![self.executable@] + aur, seq![path_env(ctx)], Stage::AurUpgrade),
                    run(sudo@, seq![self.executable@] + repo, seq![path_env(ctx)], Stage::RepoUpgrade),
                ]),
            }
        }
    }

    /// The runs of an upgrade, given the output of the version query; output
    /// that holds no version ends the upgrade with
    /// [`UpgradeError::VersionQueryMalformed`] and runs nothing.
    pub open spec fn planned(&self, ctx: UpgradeContext, output: Seq<char>) -> PlanView {
        match version_from_output(output) {
            Some(v) => self.planned_for(ctx, v),
            None => failing(UpgradeError::VersionQueryMalformed),
        }
    }

    /// Plans the upgrade by a given version.
    pub fn upgrade_plan_for(&self, ctx: &UpgradeContext, v: &AuraVersion) -> (r: Plan)
        ensures
            r@ == self.planned_for(*ctx, *v),
    {
        let direct = v.is_unprivileged();
        let prefix: Vec<String> = if direct {
            Vec::new()
        } else {
            match &ctx.sudo {
                Some(_) => one_arg(self.executable.as_str()),
                None => {
                    let r = Plan { steps: Vec::new(), failure: Some(UpgradeError::PrivilegeUnavailable) };
                    assert(r@.steps =~= seq![]);
                    return r;
                },
            }
        };
        let program = if direct {
            self.executable.clone()
        } else {
            match &ctx.sudo {
                Some(s) => s.clone(),
                None => self.executable.clone(),
            }
        };
        let ghost pv = prefix.deep_view();
        assert(pv =~= if direct { seq![] } else { seq![self.executable@] });
        let ghost aur_spec = seq!["-Au"@] + words_of(ctx.aura_aur_arguments@) + confirm(ctx.assume_yes, "--noconfirm"@);
        let ghost repo_spec = seq!["-Syu"@] + words_of(ctx.aura_pacman_arguments@) + confirm(ctx.assume_yes, "--noconfirm"@);
        let mut aur = prefix.clone();
        assert(aur.deep_view() =~= prefix.deep_view());
        push_arg(&mut aur, lit("-Au"));
        push_args(&mut aur, split_words(ctx.aura_aur_arguments.as_str()));
        push_confirm(&mut aur, ctx.assume_yes, "--noconfirm");
        let mut repo = prefix;
        push_arg(&mut repo, lit("-Syu"));
        push_args(&mut repo, split_words(ctx.aura_pacman_arguments.as_str()));
        push_confirm(&mut repo, ctx.assume_yes, "--noconfirm");
        assert(aur.deep_view() =~= pv + aur_spec);
        assert(repo.deep_view() =~= pv + repo_spec);
        assert(direct ==> pv + aur_spec =~= aur_spec);
        assert(direct ==> pv + repo_spec =~= repo_spec);
        let first = make_run(program.clone(), aur, env_one(lit("PATH"), get_execution_path(ctx)), Stage::AurUpgrade);
        let second = make_run(program, repo, env_one(lit("PATH"), get_execution_path(ctx)), Stage::RepoUpgrade);
        let ghost fv = first@;
        let ghost sv = second@;
        let r = Plan { steps: vec![first, second], failure: None };
        assert(r@.steps =~= seq![fv, sv]);
        assert(r@ =~= self.planned_for(*ctx, *v));
        r
    }

    /// Plans an upgrade from the output of the version query.
    pub fn upgrade_plan(&self, ctx: &UpgradeContext, output: &str) -> (r: Plan)
        ensures
            r@ == self.planned(*ctx, output@),
            strip_repeated(output@, "aura "@).len() == 0 ==> r@ == failing(UpgradeError::VersionQueryMalformed),
    {
        match AuraVersion::from_output(output) {
            Some(v) => self.upgrade_plan_for(ctx, &v),
            None => {
                let r = Plan { steps: Vec::new(), failure: Some(UpgradeError::VersionQueryMalformed) };
                assert(r@.steps =~= seq![]);
                r
            },
        }
    }
}

impl ArchBackend {
    /// The run whose output the upgrade needs first, if any: the version
    /// query of `aura`.
    pub open spec fn version_query_spec(&self) -> Option<InvocationView> {
        match self {
            ArchBackend::Aura(a) => Some(a.version_query_spec()),
            _ => None,
        }
    }

    /// The runs of an upgrade; `output` is the output of the version query,
    /// which only `aura` reads.
    pub open spec fn planned(&self, ctx: UpgradeContext, output: Seq<char>) -> PlanView {
        match self {
            ArchBackend::GarudaUpdate(b) => b.planned(ctx),
            ArchBackend::YayParu(_, b) => b.planned(ctx),
            ArchBackend::Trizen(b) => b.planned(ctx),
            ArchBackend::Pikaur(b) => b.planned(ctx),
            ArchBackend::Pamac(b) => b.planned(ctx),
            ArchBackend::Pacman(b) => b.planned(ctx),
            ArchBackend::Aura(b) => b.planned(ctx, output),
        }
    }

    /// Plans the run whose output the upgrade needs first, if any.
    pub fn version_query(&self) -> (r: Option<crate::plan::Invocation>)
        ensures
            match self.version_query_spec() {
                Some(q) => r is Some && r->Some_0@ == q,
                None => r is None,
            },
    {
        match self {
            ArchBackend::Aura(a) => Some(a.version_query()),
            _ => None,
        }
    }

    /// Plans an upgrade; `output` is the output of the version query where
    /// there is one, and is not read otherwise.
    pub fn upgrade_plan(&self, ctx: &UpgradeContext, output: &str) -> (r: Plan)
        ensures
            r@ == self.planned(*ctx, output@),
    {
        match self {
            ArchBackend::GarudaUpdate(b) => b.upgrade_plan(ctx),
            ArchBackend::YayParu(_, b) => b.upgrade_plan(ctx),
            ArchBackend::Trizen(b) => b.upgrade_plan(ctx),
            ArchBackend::Pikaur(b) => b.upgrade_plan(ctx),
            ArchBackend::Pamac(b) => b.upgrade_plan(ctx),
            ArchBackend::Pacman(b) => b.upgrade_plan(ctx),
            ArchBackend::Aura(b) => b.upgrade_plan(ctx, output),
        }
    }
}

/// The package manager that a choice other than autodetection names.
pub open spec fn forced_id(choice: ArchPackageManagerChoice) -> BackendId {
    match choice {
        ArchPackageManagerChoice::GarudaUpdate => BackendId::GarudaUpdate,
        ArchPackageManagerChoice::Trizen => BackendId::Trizen,
        ArchPackageManagerChoice::Paru => BackendId::Paru,
        ArchPackageManagerChoice::Yay => BackendId::Yay,
        ArchPackageManagerChoice::Pikaur => BackendId::Pikaur,
        ArchPackageManagerChoice::Pamac => BackendId::Pamac,
        ArchPackageManagerChoice::Aura => BackendId::Aura,
        _ => BackendId::Pacman,
    }
}

/// Forcing a package manager that was detected resolves to exactly that
/// one, whatever else was detected.
pub proof fn lemma_forced_choice_wins(choice: ArchPackageManagerChoice, found: Executables)
    requires
        choice != ArchPackageManagerChoice::Autodetect,
        detect(forced_id(choice), found) is Some,
    ensures
        first_detected(candidates(choice), found) == Some(forced_id(choice)),
{
    assert(candidates(choice) =~= seq![forced_id(choice)]);
}

/// A selection resolves to nothing exactly when none of its candidates was
/// detected; the resolver then reports
/// [`UpgradeError::BackendUnavailable`].
pub proof fn lemma_unavailable_iff_none_detected(choice: ArchPackageManagerChoice, found: Executables)
    ensures
        first_detected(candidates(choice), found) is None <==> forall|i: int|
            0 <= i < candidates(choice).len() ==> #[trigger] detect(candidates(choice)[i], found) is None,
{
    lemma_first_detected_none(candidates(choice), found);
}

/// `first_detected` finds nothing exactly when nothing in `order` was
/// detected.
pub proof fn lemma_first_detected_none(order: Seq<BackendId>, found: Executables)
    ensures
        first_detected(order, found) is None <==> forall|i: int|
            0 <= i < order.len() ==> #[trigger] detect(order[i], found) is None,
    decreases order.len(),
{
    if order.len() > 0 {
        lemma_first_detected_none(order.drop_first(), found);
        if detect(order[0], found) is None {
            assert forall|i: int| 1 <= i < order.len() implies detect(order[i], found) == detect(order.drop_first()[i - 1], found) by {}
            assert((forall|i: int| 0 <= i < order.len() ==> #[trigger] detect(order[i], found) is None) ==
                (forall|i: int| 0 <= i < order.drop_first().len() ==> #[trigger] detect(order.drop_first()[i], found) is None)) by {
                if forall|i: int| 0 <= i < order.drop_first().len() ==> #[trigger] detect(order.drop_first()[i], found) is None {
                    assert forall|i: int| 0 <= i < order.len() implies #[trigger] detect(order[i], found) is None by {
                        if i > 0 {
                            assert(detect(order.drop_first()[i - 1], found) is None);
                        }
                    }
                }
            }
        }
    }
}

/// With no tool found at all, every selection, autodetection included,
/// resolves to nothing, and the resolver reports
/// [`UpgradeError::BackendUnavailable`].
pub proof fn lemma_nothing_found_unavailable(choice: ArchPackageManagerChoice, found: Executables)
    requires
        found.garuda_update is None,
        found.paru is None,
        found.yay is None,
        found.trizen is None,
        found.pikaur is None,
        found.pamac is None,
        found.powerpill is None,
        found.pacman is None,
        found.aura is None,
    ensures
        first_detected(candidates(choice), found) is None,
{
    lemma_first_detected_none(candidates(choice), found);
    assert forall|i: int| 0 <= i < candidates(choice).len() implies #[trigger] detect(candidates(choice)[i], found) is None by {}
}

/// The flag by which a package manager is told not to prompt; `garuda-update`
/// is told by an environment variable instead.
pub open spec fn confirmation_flag(b: ArchBackend) -> Seq<char> {
    match b {
        ArchBackend::Pamac(_) => "--no-confirm"@,
        _ => "--noconfirm"@,
    }
}

/// The context with prompts suppressed or not.
pub open spec fn with_yes(ctx: UpgradeContext, yes: bool) -> UpgradeContext {
    UpgradeContext { assume_yes: yes, ..ctx }
}

/// How the run `on`, planned with prompts suppressed, differs from `off`,
/// planned without: by the package manager's own flag at the end of the
/// arguments, or for `garuda-update` by its variable at the end of the
/// environment; the news step is the same either way.
pub open spec fn differs_by_confirmation(b: ArchBackend, on: InvocationView, off: InvocationView) -> bool {
    &&& on.program == off.program
    &&& on.stage == off.stage
    &&& on.ok_codes == off.ok_codes
    &&& if b is GarudaUpdate {
        on.args == off.args && on.env == off.env.push(("PACMAN_NOCONFIRM"@, "1"@))
    } else if on.stage == Stage::News {
        on.args == off.args && on.env == off.env
    } else {
        on.args == off.args.push(confirmation_flag(b)) && on.env == off.env
    }
}

/// Suppressing prompts changes each planned run of a package manager by
/// exactly that package manager's own flag (or variable), and nothing else:
/// the same runs, in the same order, with the same outcome.
pub proof fn lemma_confirmation_flag(b: ArchBackend, ctx: UpgradeContext, output: Seq<char>)
    ensures
        b.planned(with_yes(ctx, true), output).steps.len() == b.planned(with_yes(ctx, false), output).steps.len(),
        b.planned(with_yes(ctx, true), output).failure == b.planned(with_yes(ctx, false), output).failure,
        forall|i: int| 0 <= i < b.planned(with_yes(ctx, true), output).steps.len() ==> differs_by_confirmation(
            b,
            #[trigger] b.planned(with_yes(ctx, true), output).steps[i],
            b.planned(with_yes(ctx, false), output).steps[i],
        ),
{
    let on = with_yes(ctx, true);
    let off = with_yes(ctx, false);
    let f = confirmation_flag(b);
    assert(confirm(true, f) =~= seq![f]);
    assert(confirm(false, f) =~= Seq::<Seq<char>>::empty());
    assert(path_env(on) == path_env(off));
    assert forall|p: Seq<Seq<char>>| #[trigger] (p + confirm(true, f)) == (p + confirm(false, f)).push(f) by {
        assert(p + confirm(true, f) =~= (p + confirm(false, f)).push(f));
    }
    match b {
        ArchBackend::GarudaUpdate(g) => {
            let e = seq![path_env(on), ("UPDATE_AUR"@, "1"@), ("SKIP_MIRRORLIST"@, "1"@)];
            assert(e + seq![("PACMAN_NOCONFIRM"@, "1"@)] =~= (e + Seq::<(Seq<char>, Seq<char>)>::empty()).push(("PACMAN_NOCONFIRM"@, "1"@)));
        },
        ArchBackend::YayParu(_, y) => {
            let pon = y.planned(on);
            let poff = y.planned(off);
            if ctx.show_arch_news {
                assert(pon.steps[0].stage == Stage::News);
            }
        },
        ArchBackend::Aura(a) => {
            match version_from_output(output) {
                Some(v) => {
                    assert(seq![a.executable@] + (seq!["-Au"@] + words_of(ctx.aura_aur_arguments@) + confirm(true, f))
                        =~= (seq![a.executable@] + (seq!["-Au"@] + words_of(ctx.aura_aur_arguments@) + confirm(false, f))).push(f));
                    assert(seq![a.executable@] + (seq!["-Syu"@] + words_of(ctx.aura_pacman_arguments@) + confirm(true, f))
                        =~= (seq![a.executable@] + (seq!["-Syu"@] + words_of(ctx.aura_pacman_arguments@) + confirm(false, f))).push(f));
                },
                None => {},
            }
        },
        _ => {},
    }
}

/// The news step accepts the exit code by which the front end says there is
/// no news, as well as zero, and fails on any other code.
pub proof fn lemma_news_exit_codes(b: YayParu, ctx: UpgradeContext, code: i32)
    requires
        ctx.show_arch_news,
    ensures
        b.planned(ctx).steps[0].stage == Stage::News,
        crate::plan::status_outcome(b.planned(ctx).steps[0], Some(1)) == Ok::<(), UpgradeError>(()),
        crate::plan::status_outcome(b.planned(ctx).steps[0], Some(0)) == Ok::<(), UpgradeError>(()),
        code != 0 && code != 1 ==> crate::plan::status_outcome(b.planned(ctx).steps[0], Some(code))
            == Err::<(), UpgradeError>(UpgradeError::SubprocessFailed { stage: Stage::News, code: Some(code) }),
{
    let n = b.planned(ctx).steps[0];
    assert(n.ok_codes == seq![1i32, 0i32]);
    assert(n.ok_codes[0] == 1i32);
    assert(n.ok_codes[1] == 0i32);
    if code != 0 && code != 1 {
        assert(!n.ok_codes.contains(code));
    }
}

/// Where cleanup is requested of a package manager that cleans its cache,
/// and the plan is not cut short for want of a helper, the cleanup is the
/// plan's last run and no earlier run is a cleanup: its failure comes after
/// the upgrade has been accepted and is reported as the cleanup's own.
pub proof fn lemma_cleanup_runs_last(b: ArchBackend, ctx: UpgradeContext, output: Seq<char>)
    requires
        ctx.cleanup,
        !(b is GarudaUpdate),
        !(b is Aura),
        b is Pacman ==> ctx.sudo is Some,
    ensures
        b.planned(ctx, output).failure is None,
        b.planned(ctx, output).steps.len() >= 2,
        b.planned(ctx, output).steps.last().stage == Stage::Cleanup,
        forall|i: int| 0 <= i < b.planned(ctx, output).steps.len() - 1
            ==> (#[trigger] b.planned(ctx, output).steps[i]).stage != Stage::Cleanup,
{
}

} // verus!
