//! Handing planned commands out one at a time, up to the first failure.
//!
//! The dispatcher sends nothing itself. Its caller asks for the command that
//! is due, sends it, and reports how that went; after a failure no further
//! command is due, and nothing is sent twice.

use vstd::prelude::*;
use crate::command::Command;

verus! {

/// How a dispatch stands.
#[derive(Clone, Copy, Debug, PartialEq, Eq, Structural)]
pub enum Outcome {
    /// A command is due.
    Pending,
    /// Every command was sent and acknowledged.
    Succeeded,
    /// The command at `index` failed; `command` names it and its node.
    Failed { index: usize, command: Command },
}

/// A plan under dispatch.
pub struct Dispatcher {
    plan: Vec<Command>,
    acknowledged: usize,
    failed: bool,
}

impl Dispatcher {
    /// The commands to send, in order.
    pub closed spec fn plan(self) -> Seq<Command> {
        self.plan@
    }

    /// How many commands were sent and acknowledged.
    pub closed spec fn acknowledged(self) -> int {
        self.acknowledged as int
    }

    /// The command after the acknowledged ones was sent and failed.
    pub closed spec fn failed(self) -> bool {
        self.failed
    }

    /// The acknowledged commands are a prefix of the plan, and a failed one
    /// is a command of the plan.
    pub open spec fn wf(self) -> bool {
        &&& 0 <= self.acknowledged() <= self.plan().len()
        &&& self.failed() ==> self.acknowledged() < self.plan().len()
    }

    /// The command that is due, if any.
    pub open spec fn due(self) -> Option<Command> {
        if !self.failed() && 0 <= self.acknowledged() < self.plan().len() {
            Some(self.plan()[self.acknowledged()])
        } else {
            None
        }
    }

    /// Every command that was handed out so far, the failed one included.
    pub open spec fn sent(self) -> Seq<Command> {
        if self.failed() {
            self.plan().take(self.acknowledged() + 1)
        } else {
            self.plan().take(self.acknowledged())
        }
    }

    /// How the dispatch stands.
    pub open spec fn standing(self) -> Outcome {
        if self.failed() {
            Outcome::Failed {
                index: self.acknowledged() as usize,
                command: self.plan()[self.acknowledged()],
            }
        } else if self.acknowledged() < self.plan().len() {
            Outcome::Pending
        } else {
            Outcome::Succeeded
        }
    }

    /// The dispatcher after the report on the command that was due.
    pub open spec fn reported(self, next: Dispatcher, succeeded: bool) -> bool {
        &&& next.plan() == self.plan()
        &&& if self.due() is None {
            next.acknowledged() == self.acknowledged() && next.failed() == self.failed()
        } else if succeeded {
            next.acknowledged() == self.acknowledged() + 1 && !next.failed()
        } else {
            next.acknowledged() == self.acknowledged() && next.failed()
        }
    }

    /// The dispatcher after one report for each of `reports`, in order.
    pub open spec fn after(self, reports: Seq<bool>) -> (int, bool)
        decreases reports.len(),
    {
        if reports.len() == 0 {
            (self.acknowledged(), self.failed())
        } else {
            let (acknowledged, failed) = self.after(reports.drop_last());
            if failed || acknowledged >= self.plan().len() {
                (acknowledged, failed)
            } else if reports.last() {
                (acknowledged + 1, false)
            } else {
                (acknowledged, true)
            }
        }
    }

    /// Starts the dispatch of a plan: nothing is sent yet.
    pub fn new(plan: Vec<Command>) -> (d: Dispatcher)
        ensures
            d.wf(),
            d.plan() == plan@,
            d.acknowledged() == 0,
            !d.failed(),
    {
        Dispatcher { plan, acknowledged: 0, failed: false }
    }

    /// The command to send now; none after a failure or at the plan's end.
    pub fn next_command(&self) -> (c: Option<Command>)
        requires
            self.wf(),
        ensures
            c == self.due(),
    {
        if !self.failed && self.acknowledged < self.plan.len() {
            Some(self.plan[self.acknowledged])
        } else {
            None
        }
    }

    /// Takes the report on the command that was due: on success the next
    /// command becomes due, on failure none ever does. Where no command was
    /// due, nothing changes.
    pub fn record(&mut self, succeeded: bool)
        requires
            old(self).wf(),
        ensures
            final(self).wf(),
            old(self).reported(*final(self), succeeded),
            (final(self).acknowledged(), final(self).failed()) == old(self).after(seq![succeeded]),
            old(self).due() is Some ==> final(self).sent() == old(self).sent().push(
                old(self).due()->0,
            ),
            old(self).due() is None ==> final(self).sent() == old(self).sent(),
    {
        if !self.failed && self.acknowledged < self.plan.len() {
            if succeeded {
                self.acknowledged = self.acknowledged + 1;
            } else {
                self.failed = true;
            }
            proof {
                assert(final(self).sent() =~= old(self).sent().push(old(self).due()->0));
            }
        }
        proof {
            let one = seq![succeeded];
            assert(one.drop_last().len() == 0);
            assert(old(self).after(one.drop_last()) == (old(self).acknowledged(), old(self).failed()));
        }
    }

    /// How the dispatch stands: pending, succeeded, or failed at a command.
    pub fn outcome(&self) -> (o: Outcome)
        requires
            self.wf(),
        ensures
            o == self.standing(),
    {
        if self.failed {
            Outcome::Failed { index: self.acknowledged, command: self.plan[self.acknowledged] }
        } else if self.acknowledged < self.plan.len() {
            Outcome::Pending
        } else {
            Outcome::Succeeded
        }
    }
}

/// From a fresh dispatcher, the first failure among the reports stops the
/// dispatch at its command: that command is the last one sent, whatever the
/// later reports say.
pub proof fn first_failure_stops(d: Dispatcher, reports: Seq<bool>, k: int)
    requires
        d.wf(),
        d.acknowledged() == 0,
        !d.failed(),
        0 <= k < reports.len(),
        k < d.plan().len(),
        !reports[k],
        forall|i: int| 0 <= i < k ==> reports[i],
    ensures
        d.after(reports) == (k, true),
    decreases reports.len(),
{
    let front = reports.drop_last();
    if k < front.len() {
        first_failure_stops(d, front, k);
    } else {
        all_acknowledged(d, front);
    }
}

/// From a fresh dispatcher, reports of success acknowledge one command each,
/// up to the end of the plan.
pub proof fn all_acknowledged(d: Dispatcher, reports: Seq<bool>)
    requires
        d.wf(),
        d.acknowledged() == 0,
        !d.failed(),
        forall|i: int| 0 <= i < reports.len() ==> reports[i],
    ensures
        d.after(reports) == (
            if reports.len() <= d.plan().len() {
                reports.len() as int
            } else {
                d.plan().len() as int
            },
            false,
        ),
    decreases reports.len(),
{
    if reports.len() > 0 {
        all_acknowledged(d, reports.drop_last());
    }
}

} // verus!
