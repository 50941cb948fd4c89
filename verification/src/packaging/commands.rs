use vstd::prelude::*;

use crate::config::app::PackageConfig;
use crate::paths::clone_parts;

verus! {

/// What the shell reported for one command. The caller runs the command and
/// hands the observation in; nothing here touches a process itself.
#[derive(Debug)]
pub enum CommandOutcome {
    /// the shell could not be started
    SpawnFailed,
    /// the command exited with this status code
    Exited { code: i32 },
    /// the command was ended by a signal and has no status code
    Signaled,
}

impl CommandOutcome {
    /// Only a clean zero exit counts as success.
    pub open spec fn is_success_spec(self) -> bool {
        match self {
            CommandOutcome::Exited { code } => code == 0,
            _ => false,
        }
    }
}

/// Why a command run stopped. Each variant carries the offending command.
#[derive(Debug)]
pub enum CommandError {
    SpawnFailed { cmd: String },
    NonZeroExit { cmd: String, code: i32 },
    Signaled { cmd: String },
}

/// The error that reports `outcome` for the command `cmd`.
pub open spec fn reports_spec(e: CommandError, cmd: Seq<char>, outcome: CommandOutcome) -> bool {
    match e {
        CommandError::SpawnFailed { cmd: c } => c@ == cmd && outcome
            == CommandOutcome::SpawnFailed,
        CommandError::NonZeroExit { cmd: c, code } => c@ == cmd && code != 0 && outcome
            == (CommandOutcome::Exited { code }),
        CommandError::Signaled { cmd: c } => c@ == cmd && outcome == CommandOutcome::Signaled,
    }
}

/// The ordered pre-package commands, as configured.
pub struct CommandList {
    cmds: Vec<String>,
}

impl CommandList {
    pub closed spec fn cmds_view(&self) -> Seq<Seq<char>> {
        self.cmds.deep_view()
    }

    /// The command list a package config declares.
    pub fn from(config: &PackageConfig) -> (r: CommandList)
        ensures
            r.cmds_view() == config.before_cmds_view(),
    {
        CommandList { cmds: clone_parts(config.before_cmds()) }
    }
}

/// One run over a command list, strictly in declaration order, stopping at
/// the first failure. The caller asks for the current command, runs it, and
/// records what the shell reported; after a failure no further command is
/// ever offered.
pub struct CommandRun {
    cmds: Vec<String>,
    next: usize,
    failed: bool,
}

impl CommandRun {
    pub closed spec fn cmds_view(&self) -> Seq<Seq<char>> {
        self.cmds.deep_view()
    }

    pub closed spec fn position(&self) -> int {
        self.next as int
    }

    pub closed spec fn has_failed(&self) -> bool {
        self.failed
    }

    #[verifier::type_invariant]
    closed spec fn wf(self) -> bool {
        self.next <= self.cmds.len()
    }

    /// The command to run next, if the run is still going and commands are
    /// left.
    pub open spec fn current_spec(&self) -> Option<Seq<char>> {
        if !self.has_failed() && self.position() < self.cmds_view().len() {
            Some(self.cmds_view()[self.position()])
        } else {
            None
        }
    }

    /// A run has succeeded when every command was recorded with success.
    pub open spec fn succeeded(&self) -> bool {
        !self.has_failed() && self.position() == self.cmds_view().len()
    }

    pub fn start(list: CommandList) -> (r: CommandRun)
        ensures
            r.cmds_view() == list.cmds_view(),
            r.position() == 0,
            !r.has_failed(),
    {
        CommandRun { cmds: list.cmds, next: 0, failed: false }
    }

    /// The command the caller must run next, or nothing when the run is
    /// complete or has failed.
    pub fn next_command(&self) -> (r: Option<&String>)
        ensures
            match r {
                Some(cmd) => self.current_spec() == Some(cmd@),
                None => self.current_spec() is None,
            },
            r is None && !self.has_failed() ==> self.position() == self.cmds_view().len(),
    {
        proof {
            use_type_invariant(self);
        }
        if !self.failed && self.next < self.cmds.len() {
            Some(&self.cmds[self.next])
        } else {
            None
        }
    }

    pub fn has_failed_exec(&self) -> (r: bool)
        ensures
            r == self.has_failed(),
    {
        self.failed
    }

    /// Records what the shell reported for the current command. On success
    /// the run moves to the next command; on anything else it fails for
    /// good, and the error names the command and how it ended.
    pub fn record(&mut self, outcome: CommandOutcome) -> (r: Result<(), CommandError>)
        requires
            old(self).current_spec() is Some,
        ensures
            final(self).cmds_view() == old(self).cmds_view(),
            outcome.is_success_spec() ==> r is Ok && !final(self).has_failed()
                && final(self).position() == old(self).position() + 1,
            !outcome.is_success_spec() ==> final(self).has_failed() && (r matches Err(e)
                && reports_spec(e, old(self).cmds_view()[old(self).position()], outcome)),
    {
        proof {
            use_type_invariant(&*self);
        }
        let cmd = &self.cmds[self.next];
        match outcome {
            CommandOutcome::Exited { code } => {
                if code == 0 {
                    self.next += 1;
                    Ok(())
                } else {
                    let e = CommandError::NonZeroExit { cmd: crate::paths::clone_string(cmd), code };
                    self.failed = true;
                    Err(e)
                }
            },
            CommandOutcome::SpawnFailed => {
                let e = CommandError::SpawnFailed { cmd: crate::paths::clone_string(cmd) };
                self.failed = true;
                Err(e)
            },
            CommandOutcome::Signaled => {
                let e = CommandError::Signaled { cmd: crate::paths::clone_string(cmd) };
                self.failed = true;
                Err(e)
            },
        }
    }
}

/// Law: once a run has failed, it never offers another command, so no
/// command after the failing one is ever executed.
pub proof fn lemma_no_command_after_failure(run: CommandRun)
    requires
        run.has_failed(),
    ensures
        run.current_spec() is None,
{
}

} // verus!
