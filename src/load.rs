//! The steps of loading a list of in-memory banks and collecting the event
//! paths that they hold. The caller performs each step against the
//! middleware and reports its outcome; the first failure ends the load, and
//! banks loaded before it stay loaded.

use vstd::prelude::*;

use crate::error::Error;

verus! {

/// What the caller does next.
#[derive(Debug, Clone, Copy, PartialEq, Eq, Structural)]
pub enum LoadAction {
    /// Load the buffer at this index as a bank.
    LoadBank(usize),
    /// Ask the bank just loaded how many events it holds.
    CountEvents,
    /// Ask that bank for the descriptions of its events, at most this many.
    ListEvents(i32),
    /// Ask the description at this index of that list for its path.
    ReadPath(usize),
    /// Nothing: the load is over.
    Finish,
}

/// The state of a load of `bank_count` banks.
pub struct BankLoad {
    bank_count: usize,
    bank: usize,
    listed: usize,
    action: LoadAction,
    found: Vec<String>,
    failure: Option<Error>,
    per_bank: Ghost<Seq<Seq<String>>>,
}

impl BankLoad {
    /// The next step.
    pub closed spec fn action_spec(&self) -> LoadAction {
        self.action
    }

    /// The paths reported so far, in the order reported.
    pub closed spec fn found_spec(&self) -> Seq<String> {
        self.found@
    }

    /// The paths reported for each bank loaded so far, bank by bank.
    pub closed spec fn paths_by_bank(&self) -> Seq<Seq<String>> {
        self.per_bank@
    }

    /// The load is in a state that its own steps reach: the paths found are
    /// those of each bank in turn, and the banks started are the ones before
    /// the current one, and the current one once it has loaded.
    pub closed spec fn wf(&self) -> bool {
        &&& self.found@ == self.per_bank@.flatten()
        &&& match self.action {
            LoadAction::LoadBank(i) => i == self.bank && self.bank < self.bank_count
                && self.per_bank@.len() == self.bank && self.failure is None,
            LoadAction::CountEvents => self.bank < self.bank_count && self.per_bank@.len()
                == self.bank + 1 && self.failure is None,
            LoadAction::ListEvents(_) => self.bank < self.bank_count && self.per_bank@.len()
                == self.bank + 1 && self.failure is None,
            LoadAction::ReadPath(j) => self.bank < self.bank_count && self.per_bank@.len()
                == self.bank + 1 && j < self.listed && self.failure is None,
            LoadAction::Finish => self.failure is None ==> self.per_bank@.len()
                == self.bank_count,
        }
    }

    /// The failure that ended the load, if one did.
    pub closed spec fn failure_spec(&self) -> Option<Error> {
        self.failure
    }

    /// The number of banks to load.
    pub closed spec fn bank_count_spec(&self) -> nat {
        self.bank_count as nat
    }

    /// The index of the bank being worked on.
    pub closed spec fn bank_spec(&self) -> nat {
        self.bank as nat
    }

    /// The number of descriptions listed for the bank being worked on.
    pub closed spec fn listed_spec(&self) -> nat {
        self.listed as nat
    }

    /// The step after the bank at index `bank` is done.
    pub open spec fn after_bank(bank: nat, bank_count: nat) -> LoadAction {
        if bank + 1 < bank_count {
            LoadAction::LoadBank((bank + 1) as usize)
        } else {
            LoadAction::Finish
        }
    }

    /// The index of the bank worked on after the bank at index `bank` is done.
    pub open spec fn bank_after(bank: nat, bank_count: nat) -> nat {
        if bank + 1 < bank_count {
            bank + 1
        } else {
            bank
        }
    }

    /// A load of `bank_count` banks that has not started.
    pub fn new(bank_count: usize) -> (l: BankLoad)
        ensures
            l.bank_count_spec() == bank_count,
            l.bank_spec() == 0,
            l.action_spec() == (if bank_count == 0 {
                LoadAction::Finish
            } else {
                LoadAction::LoadBank(0)
            }),
            l.found_spec().len() == 0,
            l.paths_by_bank().len() == 0,
            l.failure_spec() is None,
            l.wf(),
    {
        let action = if bank_count == 0 {
            LoadAction::Finish
        } else {
            LoadAction::LoadBank(0)
        };
        let l = BankLoad {
            bank_count,
            bank: 0,
            listed: 0,
            action,
            found: Vec::new(),
            failure: None,
            per_bank: Ghost(Seq::empty()),
        };
        assert(l.found@ =~= l.per_bank@.flatten());
        l
    }

    /// The next step.
    pub fn next_action(&self) -> (a: LoadAction)
        ensures
            a == self.action_spec(),
            self.wf() ==> (a matches LoadAction::LoadBank(i) ==> i < self.bank_count_spec()),
            self.wf() ==> (a matches LoadAction::ReadPath(j) ==> j < self.listed_spec()),
    {
        self.action
    }

    fn advance_bank(&mut self)
        ensures
            final(self).per_bank == old(self).per_bank,
            final(self).bank_count == old(self).bank_count,
            final(self).found == old(self).found,
            final(self).failure == old(self).failure,
            final(self).listed == old(self).listed,
            final(self).action == Self::after_bank(old(self).bank as nat, old(self).bank_count as nat),
            final(self).bank == (if old(self).bank + 1 < old(self).bank_count {
                old(self).bank + 1
            } else {
                old(self).bank as int
            }),
    {
        if self.bank < self.bank_count && self.bank_count - self.bank > 1 {
            self.bank = self.bank + 1;
            self.action = LoadAction::LoadBank(self.bank);
        } else {
            self.action = LoadAction::Finish;
        }
    }

    fn fail(&mut self, e: Error)
        ensures
            final(self).per_bank == old(self).per_bank,
            final(self).bank_count == old(self).bank_count,
            final(self).bank == old(self).bank,
            final(self).listed == old(self).listed,
            final(self).found == old(self).found,
            final(self).failure == Some(e),
            final(self).action == LoadAction::Finish,
    {
        self.failure = Some(e);
        self.action = LoadAction::Finish;
    }

    /// Reports the outcome of loading the current bank. A failure ends the load.
    pub fn bank_loaded(&mut self, outcome: Result<(), Error>)
        requires
            old(self).action_spec() is LoadBank,
        ensures
            final(self).found_spec() == old(self).found_spec(),
            final(self).bank_count_spec() == old(self).bank_count_spec(),
            final(self).bank_spec() == old(self).bank_spec(),
            outcome is Ok ==> final(self).action_spec() == LoadAction::CountEvents
                && final(self).failure_spec() == old(self).failure_spec()
                && final(self).paths_by_bank() == old(self).paths_by_bank().push(Seq::empty()),
            outcome is Err ==> final(self).paths_by_bank() == old(self).paths_by_bank(),
            old(self).wf() ==> final(self).wf(),
            outcome matches Err(e) ==> final(self).action_spec() == LoadAction::Finish
                && final(self).failure_spec() == Some(e),
    {
        match outcome {
            Ok(()) => {
                proof {
                    self.per_bank@.lemma_flatten_push(Seq::empty());
                    assert(self.per_bank@.flatten() + Seq::empty() =~= self.per_bank@.flatten());
                }
                self.action = LoadAction::CountEvents;
                self.per_bank = Ghost(self.per_bank@.push(Seq::empty()));
            },
            Err(e) => {
                self.fail(e);
            },
        }
    }

    /// Reports how many events the current bank holds. A failure ends the load.
    pub fn events_counted(&mut self, outcome: Result<i32, Error>)
        requires
            old(self).action_spec() is CountEvents,
        ensures
            final(self).found_spec() == old(self).found_spec(),
            final(self).bank_count_spec() == old(self).bank_count_spec(),
            final(self).bank_spec() == old(self).bank_spec(),
            outcome matches Ok(n) ==> final(self).action_spec() == LoadAction::ListEvents(n)
                && final(self).failure_spec() == old(self).failure_spec(),
            final(self).paths_by_bank() == old(self).paths_by_bank(),
            old(self).wf() ==> final(self).wf(),
            outcome matches Err(e) ==> final(self).action_spec() == LoadAction::Finish
                && final(self).failure_spec() == Some(e),
    {
        match outcome {
            Ok(n) => {
                self.action = LoadAction::ListEvents(n);
            },
            Err(e) => {
                self.fail(e);
            },
        }
    }

    /// Reports how many descriptions the current bank listed. A failure ends
    /// the load; an empty list moves on to the next bank.
    pub fn events_listed(&mut self, outcome: Result<usize, Error>)
        requires
            old(self).action_spec() is ListEvents,
        ensures
            final(self).found_spec() == old(self).found_spec(),
            final(self).bank_count_spec() == old(self).bank_count_spec(),
            outcome matches Ok(n) ==> final(self).failure_spec() == old(self).failure_spec()
                && final(self).action_spec()
                == (if n == 0 {
                Self::after_bank(old(self).bank_spec(), old(self).bank_count_spec())
            } else {
                LoadAction::ReadPath(0)
            }) && (n > 0 ==> final(self).listed_spec() == n && final(self).bank_spec()
                == old(self).bank_spec()) && (n == 0 ==> final(self).bank_spec() == Self::bank_after(
                old(self).bank_spec(),
                old(self).bank_count_spec(),
            )),
            outcome matches Err(e) ==> final(self).action_spec() == LoadAction::Finish
                && final(self).failure_spec() == Some(e),
            final(self).paths_by_bank() == old(self).paths_by_bank(),
            old(self).wf() ==> final(self).wf(),
    {
        match outcome {
            Ok(n) => {
                if n == 0 {
                    self.advance_bank();
                } else {
                    self.listed = n;
                    self.action = LoadAction::ReadPath(0);
                }
            },
            Err(e) => {
                self.fail(e);
            },
        }
    }

    /// Reports the path of the current description. A path that could not be
    /// read is passed over; the load goes on either way.
    pub fn path_read(&mut self, outcome: Result<String, Error>)
        requires
            old(self).action_spec() is ReadPath,
        ensures
            final(self).failure_spec() == old(self).failure_spec(),
            final(self).bank_count_spec() == old(self).bank_count_spec(),
            final(self).listed_spec() == old(self).listed_spec(),
            outcome matches Ok(p) ==> final(self).found_spec() == old(self).found_spec().push(p),
            outcome is Err ==> final(self).found_spec() == old(self).found_spec(),
            old(self).wf() ==> (outcome matches Ok(p) ==> final(self).paths_by_bank()
                == old(self).paths_by_bank().update(
                old(self).paths_by_bank().len() - 1,
                old(self).paths_by_bank().last().push(p),
            )),
            outcome is Err ==> final(self).paths_by_bank() == old(self).paths_by_bank(),
            old(self).wf() ==> final(self).wf(),
            ({
                let j = old(self).action_spec()->ReadPath_0;
                if j + 1 < old(self).listed_spec() {
                    final(self).action_spec() == LoadAction::ReadPath((j + 1) as usize)
                        && final(self).bank_spec() == old(self).bank_spec()
                } else {
                    final(self).action_spec() == Self::after_bank(
                        old(self).bank_spec(),
                        old(self).bank_count_spec(),
                    ) && final(self).bank_spec() == Self::bank_after(
                        old(self).bank_spec(),
                        old(self).bank_count_spec(),
                    )
                }
            }),
    {
        if let Ok(p) = outcome {
            proof {
                if self.wf() {
                    let banks = self.per_bank@;
                    let init = banks.drop_last();
                    let last = banks.last();
                    assert(banks =~= init.push(last));
                    init.lemma_flatten_push(last);
                    init.lemma_flatten_push(last.push(p));
                    assert(banks.update(banks.len() - 1, last.push(p)) =~= init.push(last.push(p)));
                    assert(self.found@.push(p) =~= (init.flatten() + last).push(p));
                    assert((init.flatten() + last).push(p) =~= init.flatten() + last.push(p));
                    self.per_bank = Ghost(banks.update(banks.len() - 1, last.push(p)));
                }
            }
            self.found.push(p);
        }
        if let LoadAction::ReadPath(j) = self.action {
            if j < self.listed && self.listed - j > 1 {
                self.action = LoadAction::ReadPath(j + 1);
            } else {
                self.advance_bank();
            }
        }
    }

    /// When a load ends without a failure, every bank was loaded, and the
    /// paths found are those reported for each bank in turn, in the order
    /// the bank listed them.
    pub proof fn lemma_complete_load(&self)
        requires
            self.wf(),
            self.action_spec() == LoadAction::Finish,
            self.failure_spec() is None,
        ensures
            self.paths_by_bank().len() == self.bank_count_spec(),
            self.found_spec() == self.paths_by_bank().flatten(),
    {
    }

    /// Ends the load: the paths reported, in order, and the failure that
    /// ended it, if one did.
    pub fn into_parts(self) -> (r: (Vec<String>, Option<Error>))
        ensures
            r.0@ == self.found_spec(),
            r.1 == self.failure_spec(),
    {
        (self.found, self.failure)
    }
}

} // verus!
