use vstd::prelude::*;
use vstd::string::*;
use crate::args::{lit, make_run, one_arg, push_arg, push_confirm, confirm, run};
use crate::plan::{Invocation, InvocationView, Plan, PlanView, Stage, UpgradeError};
use crate::text::{join_path, path_join, protect_spaces, protect_whitespace};

verus! {

/// Where the Doom Emacs command lies within the configuration directory.
pub const DOOM_PATH: &'static str = "bin/doom";

/// An Emacs installation: its configuration directory, if one exists, and
/// the Doom Emacs command within it, if there is one.
#[derive(Clone, Debug)]
pub struct Emacs {
    pub directory: Option<String>,
    pub doom: Option<String>,
}

/// The view of an optional path.
pub open spec fn opt_path(o: Option<String>) -> Option<Seq<char>> {
    match o {
        Some(s) => Some(s@),
        None => None,
    }
}

/// The Doom Emacs command of a configuration directory.
pub open spec fn doom_path(directory: Seq<char>) -> Seq<char> {
    path_join(directory, DOOM_PATH@)
}

/// The run that upgrades Doom Emacs: `--force` where prompts are
/// suppressed, then `upgrade`.
pub open spec fn doom_run(doom: Seq<char>, yes: bool) -> InvocationView {
    run(doom, confirm(yes, "--force"@) + seq!["upgrade"@], seq![], Stage::DoomUpgrade)
}

/// The run that upgrades the packages of Emacs: the configuration's
/// `init.el` is loaded in batch mode, then `script` is evaluated with its
/// whitespace protected.
pub open spec fn emacs_run(emacs: Seq<char>, init_file: Seq<char>, script: Seq<char>) -> InvocationView {
    run(
        emacs,
        seq!["--batch"@, "--debug-init"@, "-l"@, init_file, "--eval"@, protect_spaces(script)],
        seq![],
        Stage::EmacsUpgrade,
    )
}

impl Emacs {
    /// The configuration directory: `~/.emacs.d` where it exists, else the
    /// `emacs` directory of the configuration base where that exists.
    pub fn directory_path(home_emacs_d: Option<String>, config_emacs: Option<String>) -> (r: Option<String>)
        ensures
            r == match home_emacs_d {
                Some(d) => Some(d),
                None => config_emacs,
            },
    {
        match home_emacs_d {
            Some(d) => Some(d),
            None => config_emacs,
        }
    }

    /// Where `~/.emacs.d` would be, for the home directory `home`.
    pub fn home_candidate(home: &str) -> (r: String)
        ensures
            r@ == path_join(home@, ".emacs.d"@),
    {
        join_path(home, ".emacs.d")
    }

    /// Where the `emacs` directory of the configuration base `config` would be.
    pub fn config_candidate(config: &str) -> (r: String)
        ensures
            r@ == path_join(config@, "emacs"@),
    {
        join_path(config, "emacs")
    }

    /// Where the Doom Emacs command of `directory` would be.
    pub fn doom_candidate(directory: &str) -> (r: String)
        ensures
            r@ == doom_path(directory@),
    {
        join_path(directory, DOOM_PATH)
    }

    /// The installation with configuration directory `directory`; it is a
    /// Doom Emacs installation where `doom_exists` says that the directory
    /// holds the Doom Emacs command.
    pub fn new(directory: Option<String>, doom_exists: bool) -> (r: Self)
        ensures
            r.directory == directory,
            opt_path(r.doom) == match directory {
                Some(d) => if doom_exists { Some(doom_path(d@)) } else { None },
                None => None,
            },
    {
        let doom = match &directory {
            Some(d) => if doom_exists {
                Some(Emacs::doom_candidate(d.as_str()))
            } else {
                None
            },
            None => None,
        };
        Emacs { directory, doom }
    }

    /// Whether this is a Doom Emacs installation.
    pub fn is_doom(&self) -> (r: bool)
        ensures
            r == self.doom is Some,
    {
        self.doom.is_some()
    }

    /// The configuration directory, if one exists.
    pub fn directory(&self) -> (r: Option<&String>)
        ensures
            match self.directory {
                Some(d) => r == Some(&d),
                None => r is None,
            },
    {
        self.directory.as_ref()
    }

    /// Where the configuration's `init.el` would be.
    pub fn init_file(&self) -> (r: Option<String>)
        ensures
            opt_path(r) == match self.directory {
                Some(d) => Some(path_join(d@, "init.el"@)),
                None => None,
            },
    {
        match &self.directory {
            Some(d) => Some(join_path(d.as_str(), "init.el")),
            None => None,
        }
    }

    /// Plans the upgrade of Doom Emacs.
    pub fn update_doom(doom: &str, yes: bool) -> (r: Invocation)
        ensures
            r@ == doom_run(doom@, yes),
    {
        let mut args: Vec<String> = Vec::new();
        push_confirm(&mut args, yes, "--force");
        push_arg(&mut args, lit("upgrade"));
        assert(args.deep_view() =~= confirm(yes, "--force"@) + seq!["upgrade"@]);
        let r = make_run(lit(doom), args, Vec::new(), Stage::DoomUpgrade);
        assert(r@.env =~= seq![]);
        r
    }

    /// The runs of an upgrade. Without the `emacs` executable nothing runs and
    /// the upgrade fails. Otherwise Doom Emacs is upgraded first where it is
    /// installed; then the upgrade fails where there is no configuration
    /// directory or no `init.el` in it, and else Emacs evaluates `script`.
    pub open spec fn planned(
        &self,
        emacs: Option<Seq<char>>,
        init_exists: bool,
        yes: bool,
        script: Seq<char>,
    ) -> PlanView {
        match emacs {
            None => PlanView { steps: seq![], failure: Some(UpgradeError::EmacsNotFound) },
            Some(e) => {
                let doom = match self.doom {
                    Some(d) => seq![doom_run(d@, yes)],
                    None => seq![],
                };
                match self.directory {
                    None => PlanView { steps: doom, failure: Some(UpgradeError::EmacsDirectoryMissing) },
                    Some(dir) => if init_exists {
                        PlanView {
                            steps: doom + seq![emacs_run(e, path_join(dir@, "init.el"@), script)],
                            failure: None,
                        }
                    } else {
                        PlanView { steps: doom, failure: Some(UpgradeError::InitFileMissing) }
                    },
                }
            },
        }
    }

    /// Plans an upgrade. `emacs` is where the `emacs` executable was found,
    /// `init_exists` whether the configuration's `init.el` exists, `yes`
    /// whether prompts are suppressed, and `script` the Lisp code that
    /// upgrades the packages.
    pub fn upgrade_plan(&self, emacs: &Option<String>, init_exists: bool, yes: bool, script: &str) -> (r: Plan)
        ensures
            r@ == self.planned(opt_path(*emacs), init_exists, yes, script@),
    {
        let e = match emacs {
            Some(e) => e,
            None => {
                let r = Plan { steps: Vec::new(), failure: Some(UpgradeError::EmacsNotFound) };
                assert(r@.steps =~= seq![]);
                return r;
            },
        };
        let mut steps: Vec<Invocation> = Vec::new();
        match &self.doom {
            Some(d) => {
                steps.push(Emacs::update_doom(d.as_str(), yes));
            },
            None => {},
        }
        let ghost doom_steps = steps@.map_values(|i: Invocation| i@);
        assert(doom_steps =~= match self.doom {
            Some(d) => seq![doom_run(d@, yes)],
            None => seq![],
        });
        let dir = match &self.directory {
            Some(d) => d,
            None => {
                let r = Plan { steps, failure: Some(UpgradeError::EmacsDirectoryMissing) };
                assert(r@ =~= self.planned(opt_path(*emacs), init_exists, yes, script@));
                return r;
            },
        };
        if !init_exists {
            let r = Plan { steps, failure: Some(UpgradeError::InitFileMissing) };
            assert(r@ =~= self.planned(opt_path(*emacs), init_exists, yes, script@));
            return r;
        }
        let mut args = one_arg("--batch");
        push_arg(&mut args, lit("--debug-init"));
        push_arg(&mut args, lit("-l"));
        push_arg(&mut args, join_path(dir.as_str(), "init.el"));
        push_arg(&mut args, lit("--eval"));
        push_arg(&mut args, protect_whitespace(script));
        let run_emacs = make_run(e.clone(), args, Vec::new(), Stage::EmacsUpgrade);
        assert(run_emacs@.env =~= seq![]);
        assert(run_emacs@.args =~= emacs_run(e@, path_join(dir@, "init.el"@), script@).args);
        let ghost ev = run_emacs@;
        steps.push(run_emacs);
        let r = Plan { steps, failure: None };
        assert(r@.steps =~= doom_steps + seq![ev]);
        assert(r@ =~= self.planned(opt_path(*emacs), init_exists, yes, script@));
        r
    }
}

} // verus!
