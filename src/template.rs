//! Provisioning a new project from a template: the template's commands run one
//! after another in the new project's directory; the first that fails stops the
//! run, and the project is deleted again.
//!
//! A `Provisioner` holds the decisions. Its caller performs each step that
//! `next_step` names, reports the outcome, and asks again, until the step is
//! `Done`; `finish` then gives the result.
//!
//! States: `Created` (the directory exists, no command has run), `Provisioning`
//! (some commands succeeded), `RollingBack` (a command failed, the project is
//! being deleted), and the final states `Completed` and `RolledBack`.
use vstd::prelude::*;
use crate::config::Profile;
use crate::library::LibraryError;
use crate::program::{LaunchOptions, ProgramError};
use crate::text::{owned, views};

verus! {

/// Why provisioning a project from a template failed.
#[derive(Debug, Clone)]
pub enum TemplateError {
    /// No template has this name.
    TemplateNotFound(String),
    /// The profile names no shell to run the commands in.
    ShellNotConfigured,
    /// A command failed. `cleanup` holds the error of deleting the project
    /// again, where that failed too.
    CommandFailed { command: String, cause: ProgramError, cleanup: Option<LibraryError> },
}

/// Where a provisioning run stands.
#[derive(Debug, Clone, Copy, PartialEq, Eq, Structural)]
pub enum ProvisionState {
    /// The project's directory exists; no command has run yet.
    Created,
    /// The commands before `next` succeeded.
    Provisioning { next: usize },
    /// The command at `failed` failed; the project is to be deleted.
    RollingBack { failed: usize },
    /// Every command succeeded.
    Completed,
    /// The command at `failed` failed and deleting the project was tried;
    /// `cleanup` holds that error, if any.
    RolledBack { failed: usize, cleanup: Option<LibraryError> },
}

/// What the caller is to do next.
#[derive(Debug, Clone)]
pub enum ProvisionStep {
    /// Run this launch and report its outcome to `command_finished`.
    Run(LaunchOptions),
    /// Delete the project and report the outcome to `cleanup_finished`.
    Cleanup,
    /// Nothing is left to do: call `finish`.
    Done,
}

/// The environment variable through which a command learns the project's name.
pub open spec fn project_variable() -> Seq<char> {
    "KANRI_PROJECT"@
}

/// Checks a template and a profile before a project is created for them, and
/// gives the template's commands: the template must exist and the profile must
/// name a shell.
pub fn check_template(template_name: &str, template: Option<&Vec<String>>, profile: &Profile) -> (r: Result<Vec<String>, TemplateError>)
    ensures
        template is None ==> r is Err && r->Err_0 is TemplateNotFound && r->Err_0->TemplateNotFound_0@ == template_name@,
        template is Some && profile.shell@.len() == 0 ==> r is Err && r->Err_0 is ShellNotConfigured,
        template is Some && profile.shell@.len() > 0 ==> r is Ok && views(r->Ok_0@) == views(template->Some_0@),
{
    match template {
        None => Err(TemplateError::TemplateNotFound(owned(template_name))),
        Some(commands) => {
            if profile.shell.as_str().unicode_len() == 0 {
                Err(TemplateError::ShellNotConfigured)
            } else {
                Ok(crate::program::copy_strings(commands))
            }
        },
    }
}

/// The state in which a run of `len` commands starts.
pub open spec fn start_state(len: nat) -> ProvisionState {
    if len == 0 {
        ProvisionState::Completed
    } else {
        ProvisionState::Created
    }
}

/// The state after the pending command of a run of `len` commands reported
/// its outcome; `ok` tells whether it succeeded. A state with no pending
/// command stays as it is.
pub open spec fn after_command(s: ProvisionState, len: nat, ok: bool) -> ProvisionState {
    let k: int = match s {
        ProvisionState::Created => 0,
        ProvisionState::Provisioning { next } => next as int,
        _ => -1,
    };
    if k < 0 {
        s
    } else if !ok {
        ProvisionState::RollingBack { failed: k as usize }
    } else if k + 1 < len {
        ProvisionState::Provisioning { next: (k + 1) as usize }
    } else {
        ProvisionState::Completed
    }
}

/// The state after the project was deleted again, with `cleanup` the error of
/// that deletion if it failed.
pub open spec fn after_cleanup(s: ProvisionState, cleanup: Option<LibraryError>) -> ProvisionState {
    match s {
        ProvisionState::RollingBack { failed } => ProvisionState::RolledBack { failed, cleanup },
        _ => s,
    }
}

/// The state of a run of `len` commands after the outcomes `outcomes` were
/// reported, in order.
pub open spec fn run_outcomes(len: nat, outcomes: Seq<bool>) -> ProvisionState
    decreases outcomes.len(),
{
    if outcomes.len() == 0 {
        start_state(len)
    } else {
        after_command(run_outcomes(len, outcomes.drop_last()), len, outcomes.last())
    }
}

proof fn lemma_successes(len: nat, j: nat)
    requires
        j < len,
        len <= usize::MAX,
    ensures
        run_outcomes(len, Seq::new(j, |i: int| true)) == (if j == 0 {
            ProvisionState::Created
        } else {
            ProvisionState::Provisioning { next: j as usize }
        }),
    decreases j,
{
    if j > 0 {
        lemma_successes(len, (j - 1) as nat);
        assert(Seq::new(j, |i: int| true).drop_last() =~= Seq::new((j - 1) as nat, |i: int| true));
    }
}

proof fn lemma_rolling_back_stays(len: nat, first: Seq<bool>, later: Seq<bool>, k: usize)
    requires
        run_outcomes(len, first) == (ProvisionState::RollingBack { failed: k }),
    ensures
        run_outcomes(len, first + later) == (ProvisionState::RollingBack { failed: k }),
    decreases later.len(),
{
    if later.len() == 0 {
        assert(first + later =~= first);
    } else {
        lemma_rolling_back_stays(len, first, later.drop_last(), k);
        assert((first + later).drop_last() =~= first + later.drop_last());
    }
}

/// When the first `k` commands of a template of `len` succeed and command `k`
/// fails, the run rolls back from command `k`, whatever outcomes are reported
/// afterwards: no later command is pending, so none runs; the next step is the
/// deletion of the project; and once that is done, the run stands rolled back
/// at command `k`, which `finish` names in its error.
pub proof fn law_first_failure_rolls_back(len: nat, k: nat, later: Seq<bool>, cleanup: Option<LibraryError>)
    requires
        k < len,
        len <= usize::MAX,
    ensures
        run_outcomes(len, Seq::new(k, |i: int| true).push(false) + later) == (ProvisionState::RollingBack {
            failed: k as usize,
        }),
        after_cleanup(ProvisionState::RollingBack { failed: k as usize }, cleanup) == (ProvisionState::RolledBack {
            failed: k as usize,
            cleanup,
        }),
{
    let first = Seq::new(k, |i: int| true).push(false);
    lemma_successes(len, k);
    assert(first.drop_last() =~= Seq::new(k, |i: int| true));
    assert(run_outcomes(len, first) == (ProvisionState::RollingBack { failed: k as usize }));
    lemma_rolling_back_stays(len, first, later, k as usize);
}

/// One run of a template's commands for a newly created project.
pub struct Provisioner {
    project_name: String,
    project_path: String,
    shell: String,
    shell_args: Vec<String>,
    commands: Vec<String>,
    quiet: bool,
    state: ProvisionState,
    failure: Option<ProgramError>,
}

impl Provisioner {
    pub closed spec fn state(&self) -> ProvisionState {
        self.state
    }

    pub closed spec fn commands(&self) -> Seq<Seq<char>> {
        views(self.commands@)
    }

    pub closed spec fn project_name(&self) -> Seq<char> {
        self.project_name@
    }

    pub closed spec fn project_path(&self) -> Seq<char> {
        self.project_path@
    }

    pub closed spec fn shell(&self) -> Seq<char> {
        self.shell@
    }

    pub closed spec fn shell_args(&self) -> Seq<Seq<char>> {
        views(self.shell_args@)
    }

    pub closed spec fn quiet(&self) -> bool {
        self.quiet
    }

    /// The error of the command that failed, once one has.
    pub closed spec fn failure(&self) -> Option<ProgramError> {
        self.failure
    }

    /// The state agrees with the commands and with the recorded failure.
    pub closed spec fn wf(&self) -> bool {
        match self.state {
            ProvisionState::Created => self.commands@.len() > 0 && self.failure is None,
            ProvisionState::Provisioning { next } => 0 < next < self.commands@.len() && self.failure is None,
            ProvisionState::RollingBack { failed } => failed < self.commands@.len() && self.failure is Some,
            ProvisionState::Completed => self.failure is None,
            ProvisionState::RolledBack { failed, cleanup } => failed < self.commands@.len() && self.failure is Some,
        }
    }

    /// The index of the command to run next, while commands are left to run.
    pub open spec fn pending(&self) -> Option<int> {
        match self.state() {
            ProvisionState::Created => Some(0),
            ProvisionState::Provisioning { next } => Some(next as int),
            _ => None,
        }
    }

    /// `o` runs command `k` through the shell, in the project's directory, with
    /// the project's name in the environment, and waits for it.
    pub open spec fn runs_command(&self, k: int, o: LaunchOptions) -> bool {
        &&& o.program@ == self.shell()
        &&& views(o.args@) == self.shell_args().push(self.commands()[k])
        &&& o.cwd is Some && o.cwd->Some_0@ == self.project_path()
        &&& !o.fork_mode
        &&& o.quiet == self.quiet()
        &&& o.env is Some && o.env->Some_0@.len() == 1
        &&& o.env->Some_0@[0].0@ == project_variable() && o.env->Some_0@[0].1@ == self.project_name()
    }

    /// Starts a run of `commands` for the project `project_name`, whose
    /// directory `project_path` was just created; the commands run in the
    /// profile's shell. With no commands the run is complete at once.
    pub fn new(project_name: &str, project_path: String, profile: &Profile, commands: Vec<String>, quiet: bool) -> (r: Provisioner)
        ensures
            r.wf(),
            r.state() == start_state(commands@.len()),
            r.commands() == views(commands@),
            r.project_name() == project_name@,
            r.project_path() == project_path@,
            r.shell() == profile.shell@,
            r.shell_args() == views(profile.shell_args@),
            r.quiet() == quiet,
    {
        let state = if commands.len() == 0 {
            ProvisionState::Completed
        } else {
            ProvisionState::Created
        };
        Provisioner {
            project_name: owned(project_name),
            project_path,
            shell: profile.shell.clone(),
            shell_args: crate::program::copy_strings(&profile.shell_args),
            commands,
            quiet,
            state,
            failure: None,
        }
    }

    /// Where the run stands.
    pub fn current_state(&self) -> (r: ProvisionState)
        ensures
            r == self.state(),
    {
        self.state
    }

    /// What the caller is to do next.
    pub fn next_step(&self) -> (r: ProvisionStep)
        requires
            self.wf(),
        ensures
            self.pending() is Some ==> r is Run && self.runs_command(self.pending()->Some_0, r->Run_0),
            self.state() is RollingBack ==> r is Cleanup,
            (self.state() is Completed || self.state() is RolledBack) ==> r is Done,
    {
        match self.state {
            ProvisionState::Created => ProvisionStep::Run(self.launch(0)),
            ProvisionState::Provisioning { next } => ProvisionStep::Run(self.launch(next)),
            ProvisionState::RollingBack { .. } => ProvisionStep::Cleanup,
            _ => ProvisionStep::Done,
        }
    }

    fn launch(&self, k: usize) -> (r: LaunchOptions)
        requires
            k < self.commands@.len(),
        ensures
            self.runs_command(k as int, r),
    {
        let mut args = crate::program::copy_strings(&self.shell_args);
        args.push(self.commands[k].clone());
        assert(views(args@) =~= self.shell_args().push(self.commands()[k as int]));
        let env: Vec<(String, String)> = vec![(owned("KANRI_PROJECT"), self.project_name.clone())];
        LaunchOptions {
            program: self.shell.clone(),
            args,
            cwd: Some(self.project_path.clone()),
            fork_mode: false,
            quiet: self.quiet,
            env: Some(env),
        }
    }

    /// Takes the outcome of the command that `next_step` named. On success the
    /// next command is due, or the run is complete; on failure no further
    /// command runs and the project is to be deleted.
    pub fn command_finished(&mut self, result: Result<(), ProgramError>)
        requires
            old(self).wf(),
            old(self).pending() is Some,
        ensures
            final(self).wf(),
            final(self).commands() == old(self).commands(),
            final(self).project_name() == old(self).project_name(),
            final(self).project_path() == old(self).project_path(),
            final(self).shell() == old(self).shell(),
            final(self).shell_args() == old(self).shell_args(),
            final(self).quiet() == old(self).quiet(),
            final(self).state() == after_command(old(self).state(), old(self).commands().len(), result is Ok),
            result is Ok && old(self).pending()->Some_0 + 1 < old(self).commands().len() ==> final(self).state()
                == (ProvisionState::Provisioning { next: (old(self).pending()->Some_0 + 1) as usize }),
            result is Ok && old(self).pending()->Some_0 + 1 == old(self).commands().len() ==> final(self).state()
                == ProvisionState::Completed,
            result is Err ==> final(self).state() == (ProvisionState::RollingBack {
                failed: old(self).pending()->Some_0 as usize,
            }) && final(self).failure() == Some(result->Err_0),
    {
        let k: usize = match self.state {
            ProvisionState::Provisioning { next } => next,
            _ => 0,
        };
        match result {
            Ok(()) => {
                if k < self.commands.len() - 1 {
                    self.state = ProvisionState::Provisioning { next: k + 1 };
                } else {
                    self.state = ProvisionState::Completed;
                }
            },
            Err(e) => {
                self.state = ProvisionState::RollingBack { failed: k };
                self.failure = Some(e);
            },
        }
    }

    /// Takes the outcome of deleting the project after a failed command. The
    /// library drops the project from its index only where the deletion
    /// succeeded, so after a failed cleanup the project is still listed.
    pub fn cleanup_finished(&mut self, result: Result<(), LibraryError>)
        requires
            old(self).wf(),
            old(self).state() is RollingBack,
        ensures
            final(self).wf(),
            final(self).commands() == old(self).commands(),
            final(self).project_name() == old(self).project_name(),
            final(self).failure() == old(self).failure(),
            final(self).state() == after_cleanup(old(self).state(), match result {
                Ok(_) => None,
                Err(e) => Some(e),
            }),
            final(self).state() == (ProvisionState::RolledBack {
                failed: old(self).state()->RollingBack_failed,
                cleanup: match result {
                    Ok(_) => None,
                    Err(e) => Some(e),
                },
            }),
    {
        if let ProvisionState::RollingBack { failed } = self.state {
            let cleanup = match result {
                Ok(()) => None,
                Err(e) => Some(e),
            };
            self.state = ProvisionState::RolledBack { failed, cleanup };
        }
    }

    /// The result of a finished run: success when every command succeeded;
    /// otherwise the failed command, its error, and the error of the cleanup if
    /// that failed as well.
    pub fn finish(self) -> (r: Result<(), TemplateError>)
        requires
            self.wf(),
            self.state() is Completed || self.state() is RolledBack,
        ensures
            self.state() is Completed ==> r is Ok,
            self.state() is RolledBack ==> r is Err && r->Err_0 is CommandFailed
                && r->Err_0->CommandFailed_command@ == self.commands()[self.state()->RolledBack_failed as int]
                && r->Err_0->CommandFailed_cause == self.failure()->Some_0
                && r->Err_0->CommandFailed_cleanup == self.state()->RolledBack_cleanup,
    {
        match self.state {
            ProvisionState::RolledBack { failed, cleanup } => {
                let command = self.commands[failed].clone();
                match self.failure {
                    Some(cause) => Err(TemplateError::CommandFailed { command, cause, cleanup }),
                    None => Ok(()),
                }
            },
            _ => Ok(()),
        }
    }
}

} // verus!
