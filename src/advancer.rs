//! The generation worker: the commands it takes and what each does to the
//! generation on display. Running it on a thread, the queue and the clock
//! belong to the caller.
use vstd::prelude::*;

use crate::rules::State;
use crate::symbol::Symbol;
use crate::system::{generation, rewrite, System, SystemIterator};

verus! {

/// A request to the worker.
#[derive(Debug, Clone, Copy, PartialEq, Eq, Structural)]
pub enum Command {
    /// Compute and install the next generation.
    Advance,
    /// Go back to the start generation.
    Reset,
    /// Stop the worker.
    Shutdown,
}

/// The worker's state: the system, and its generation on display.
pub struct Advancer {
    system: System,
    iter: SystemIterator,
    count: u64,
}

impl Advancer {
    /// The rules of the system.
    pub closed spec fn rules(&self) -> Map<Symbol, Seq<Symbol>> {
        self.system.rules()
    }

    /// The start generation of the system.
    pub closed spec fn start(&self) -> Seq<Symbol> {
        self.system.start()
    }

    /// The generation on display.
    pub closed spec fn current(&self) -> Seq<Symbol> {
        self.iter.current()
    }

    /// The number of the generation on display.
    pub closed spec fn count(&self) -> nat {
        self.count as nat
    }

    /// The generation on display is generation `count` of the system.
    pub closed spec fn wf(&self) -> bool {
        &&& self.system.wf()
        &&& self.iter.wf()
        &&& self.iter.rules() == self.system.rules()
        &&& self.iter.start() == self.system.start()
        &&& self.iter.index() == self.count
    }

    /// A worker that shows the start generation of `system`.
    pub fn new(system: System) -> (r: Advancer)
        requires
            system.wf(),
        ensures
            r.wf(),
            r.rules() == system.rules(),
            r.start() == system.start(),
            r.count() == 0,
            r.current() == system.start(),
    {
        let iter = system.iter();
        proof {
            crate::system::lemma_iterators_agree(&iter, &iter);
        }
        Advancer { system, iter, count: 0 }
    }

    /// The generation on display.
    pub fn state(&self) -> (r: &State)
        ensures
            r@ == self.current(),
    {
        self.iter.state()
    }

    /// The number of the generation on display.
    pub fn generation(&self) -> (r: u64)
        ensures
            r == self.count(),
    {
        self.count
    }

    /// Carries out one command; returns whether the worker goes on.
    /// The generation count stops at `u64::MAX`, where `Advance` changes
    /// nothing.
    pub fn handle(&mut self, command: Command) -> (r: bool)
        requires
            old(self).wf(),
        ensures
            final(self).wf(),
            final(self).rules() == old(self).rules(),
            final(self).start() == old(self).start(),
            r == (command != Command::Shutdown),
            final(self).current() == generation(final(self).rules(), final(self).start(), final(self).count()),
            command == Command::Advance && old(self).count() < u64::MAX ==> final(self).current()
                == rewrite(old(self).rules(), old(self).current()) && final(self).count() == old(
                self,
            ).count() + 1,
            command == Command::Reset ==> final(self).current() == old(self).start()
                && final(self).count() == 0,
            command == Command::Shutdown || (command == Command::Advance && old(self).count()
                == u64::MAX) ==> final(self).current() == old(self).current() && final(self).count()
                == old(self).count(),
    {
        proof {
            crate::system::lemma_iterators_agree(&self.iter, &self.iter);
        }
        match command {
            Command::Advance => {
                if self.count < u64::MAX {
                    let _ = self.iter.next();
                    self.count = self.count + 1;
                }
                proof {
                    crate::system::lemma_iterators_agree(&self.iter, &self.iter);
                }
                true
            },
            Command::Reset => {
                self.iter = self.system.iter();
                self.count = 0;
                proof {
                    crate::system::lemma_iterators_agree(&self.iter, &self.iter);
                }
                true
            },
            Command::Shutdown => false,
        }
    }
}

} // verus!
