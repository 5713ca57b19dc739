//! Running one operation's plan against the hardware, outcome by outcome.
//!
//! The executing layer performs [`Session::current`], reports what the
//! hardware said through [`Session::advance`], and repeats while
//! [`Session::running`]. Execution stops at the first fault; the commands
//! after it are never performed, and [`Session::finish`] returns that very
//! fault, unchanged, as the operation's result. The driver attempts no
//! recovery: a pulse whose second transition fails leaves its line where the
//! first transition put it.

use vstd::prelude::*;

use crate::command::{models, Command, CommandModel};

verus! {

/// One run of a command plan, generic over the fault type `E` of the handle
/// the plan drives.
pub struct Session<E> {
    plan: Vec<Command>,
    pos: usize,
    failure: Option<E>,
}

impl<E> Session<E> {
    /// The models of the plan's commands.
    pub closed spec fn plan(&self) -> Seq<CommandModel> {
        models(self.plan@)
    }

    /// How many commands have completed successfully.
    pub closed spec fn pos(&self) -> int {
        self.pos as int
    }

    /// Whether a command has failed.
    pub closed spec fn failed(&self) -> bool {
        self.failure is Some
    }

    /// The fault the failing command reported.
    pub closed spec fn fault(&self) -> E
        recommends
            self.failed(),
    {
        self.failure->0
    }

    /// Commands remain and none has failed: the next one should be performed.
    pub open spec fn in_progress(&self) -> bool {
        &&& !self.failed()
        &&& self.pos() < self.plan().len()
    }

    /// The models of the commands that completed successfully. When a command
    /// failed, it is not among them: a failed line transition leaves the line
    /// at its previous level.
    pub open spec fn completed(&self) -> Seq<CommandModel> {
        self.plan().take(self.pos())
    }

    /// Starts a run of `plan`: nothing performed, nothing failed.
    pub fn new(plan: Vec<Command>) -> (s: Session<E>)
        ensures
            s.plan() == models(plan@),
            s.pos() == 0,
            !s.failed(),
    {
        Session { plan, pos: 0, failure: None }
    }

    /// Whether the executing layer should perform another command.
    pub fn running(&self) -> (r: bool)
        ensures
            r == self.in_progress(),
    {
        self.failure.is_none() && self.pos < self.plan.len()
    }

    /// The command to perform next.
    pub fn current(&self) -> (c: &Command)
        requires
            self.in_progress(),
        ensures
            c@ == self.plan()[self.pos()],
    {
        &self.plan[self.pos]
    }

    /// Records what the hardware said about the current command. A success
    /// moves on to the next command; a fault ends the run on the spot, so the
    /// later commands of the plan are never performed.
    pub fn advance(&mut self, outcome: Result<(), E>)
        requires
            old(self).in_progress(),
        ensures
            final(self).plan() == old(self).plan(),
            match outcome {
                Ok(_) => {
                    &&& final(self).pos() == old(self).pos() + 1
                    &&& !final(self).failed()
                },
                Err(e) => {
                    &&& final(self).failed()
                    &&& final(self).fault() == e
                    &&& final(self).pos() == old(self).pos()
                },
            },
    {
        match outcome {
            Ok(_) => {
                // The position stays within the plan, whose length fits in a
                // usize, so stepping past a command cannot overflow.
                let _planned: usize = self.plan.len();
                proof {
                    assert(self.plan().len() == _planned as int);
                }
                self.pos = self.pos + 1;
            },
            Err(e) => {
                self.failure = Some(e);
            },
        }
    }

    /// The operation's result: success where every command succeeded, else
    /// the failing command's fault, passed through verbatim.
    pub fn finish(self) -> (r: Result<(), E>)
        requires
            !self.in_progress(),
        ensures
            self.failed() ==> r == Err::<(), E>(self.fault()),
            !self.failed() ==> r == Ok::<(), E>(()),
    {
        match self.failure {
            Some(e) => Err(e),
            None => Ok(()),
        }
    }
}

} // verus!
