//! Register sequences and the machine that runs them one access at a time.
//!
//! A sequence is a list of [`Step`]s.  The machine never touches the
//! controller itself: it names the access it wants performed next, and is then
//! told what that access returned.  [`State`] is the mathematical model of the
//! machine; [`Sequence`] is the machine.

use vstd::prelude::*;
use crate::flash::Error;
use crate::registers::{Register, busy, readiness, updated, update, is_busy, status, CR_LOCK};

verus! {

/// Number of status reads a wait makes before it gives up.
pub const POLL_BUDGET: u32 = 100_000;

/// One access to the hardware.
#[derive(Debug, Clone, Copy, PartialEq, Eq, Structural)]
pub enum Access {
    /// Read a controller register; the value read is the reply.
    Read(Register),
    /// Write a value to a controller register.
    Write(Register, u32),
    /// Memory barrier: every earlier write reaches the bus before any later one.
    Barrier,
    /// Store one 32-bit word at a byte address of the flash array.
    Store { address: u32, value: u32 },
}

/// What the caller of a machine has to do next.
#[derive(Debug, Clone, Copy, PartialEq, Eq)]
pub enum Action {
    /// Perform this access and report its reply.
    Perform(Access),
    /// Nothing: the sequence has ended with this result.
    Finished(Result<(), Error>),
}

/// One step of a sequence.
#[derive(Debug, Clone, Copy, PartialEq, Eq, Structural)]
pub enum Step {
    /// Write a value to the key register.
    Key(u32),
    /// Issue a memory barrier.
    Barrier,
    /// Read a register and write it back with the bits of `clear` cleared and
    /// the bits of `set` set.
    Update { register: Register, clear: u32, set: u32 },
    /// Store one word in the flash array.
    Store { address: u32, value: u32 },
    /// Poll the status register until the busy flag clears.  A timeout or a
    /// programming error ends the sequence at once.
    AwaitReady,
    /// Poll as `AwaitReady` does, but hold a failure back until the remaining
    /// steps have run.
    AwaitCompletion,
    /// Read the control register; the sequence fails with `UnlockFailed` if
    /// the lock bit is still set.
    CheckUnlocked,
    /// Read a register and, where a bit of `mask` is set in it, clear the bits
    /// of `mask` with a read-modify-write.
    Acknowledge { register: Register, mask: u32 },
}

/// How far the machine is inside the current step.
#[derive(Debug, Clone, Copy, PartialEq, Eq, Structural)]
pub enum Stage {
    /// No reply has been taken for this step yet.
    Start,
    /// That many status reads have come back busy.
    Polling(u32),
    /// The flag to acknowledge was seen; the register is read again.
    Reread,
    /// This value is about to be written back.
    Write(u32),
}

/// What one status reply means to a wait that has already seen `made` busy
/// replies: `None` to poll again, else the outcome of the wait.
pub open spec fn polled(made: u32, reply: u32) -> Option<Result<(), Error>> {
    if !busy(reply) {
        Some(readiness(reply))
    } else if made + 1 >= POLL_BUDGET {
        Some(Err(Error::Busy))
    } else {
        None
    }
}

/// The outcome of a wait that had seen `made` busy replies and was then fed
/// `replies`, of which all but the last show the busy flag: `None` where the
/// wait is still polling.
pub open spec fn wait_outcome(made: u32, replies: Seq<u32>) -> Option<Result<(), Error>>
    recommends
        replies.len() >= 1,
{
    if !busy(replies.last()) {
        Some(readiness(replies.last()))
    } else if made + replies.len() >= POLL_BUDGET {
        Some(Err(Error::Busy))
    } else {
        None
    }
}

/// Model of a sequence in progress.
pub struct State {
    /// The steps still to run, the current one first.
    pub remaining: Seq<Step>,
    /// Progress inside the current step.
    pub stage: Stage,
    /// A failure held back by an `AwaitCompletion` step.
    pub deferred: Option<Error>,
    /// The failure that ended the sequence early.
    pub failure: Option<Error>,
}

impl State {
    /// A sequence about to run `steps`.
    pub open spec fn start(steps: Seq<Step>) -> State {
        State { remaining: steps, stage: Stage::Start, deferred: None, failure: None }
    }

    /// A sequence that failed before its first access.
    pub open spec fn failed(error: Error) -> State {
        State { remaining: Seq::empty(), stage: Stage::Start, deferred: None, failure: Some(error) }
    }

    /// Nothing to run, nothing failed.
    pub open spec fn idle() -> State {
        State::start(Seq::empty())
    }

    /// The result of the sequence once it has ended, `None` while it runs.
    pub open spec fn result(self) -> Option<Result<(), Error>> {
        match self.failure {
            Some(error) => Some(Err(error)),
            None => if self.remaining.len() == 0 {
                match self.deferred {
                    Some(error) => Some(Err(error)),
                    None => Some(Ok(())),
                }
            } else {
                None
            },
        }
    }

    /// Number of busy replies the current wait has seen.
    pub open spec fn polls(self) -> u32 {
        match self.stage {
            Stage::Polling(made) => made,
            _ => 0,
        }
    }

    /// The access the current step wants performed.
    pub open spec fn access(self) -> Access
        recommends
            self.result() is None,
    {
        match self.remaining[0] {
            Step::Key(key) => Access::Write(Register::Key, key),
            Step::Barrier => Access::Barrier,
            Step::Store { address, value } => Access::Store { address, value },
            Step::Update { register, clear, set } => match self.stage {
                Stage::Write(value) => Access::Write(register, value),
                _ => Access::Read(register),
            },
            Step::AwaitReady => Access::Read(Register::Status),
            Step::AwaitCompletion => Access::Read(Register::Status),
            Step::CheckUnlocked => Access::Read(Register::Control),
            Step::Acknowledge { register, mask } => match self.stage {
                Stage::Write(value) => Access::Write(register, value),
                _ => Access::Read(register),
            },
        }
    }

    /// What the caller has to do next.
    pub open spec fn pending(self) -> Action {
        match self.result() {
            Some(result) => Action::Finished(result),
            None => Action::Perform(self.access()),
        }
    }

    /// The same step at another stage.
    pub open spec fn at(self, stage: Stage) -> State {
        State { remaining: self.remaining, stage, deferred: self.deferred, failure: self.failure }
    }

    /// The current step is done: on to the next.
    pub open spec fn completed(self) -> State {
        State {
            remaining: self.remaining.drop_first(),
            stage: Stage::Start,
            deferred: self.deferred,
            failure: self.failure,
        }
    }

    /// The sequence ends here with `error`.
    pub open spec fn aborted(self, error: Error) -> State {
        State {
            remaining: self.remaining,
            stage: Stage::Start,
            deferred: self.deferred,
            failure: Some(error),
        }
    }

    /// The current step is done and failed; the first such failure is kept
    /// for the end of the sequence.
    pub open spec fn deferring(self, error: Error) -> State {
        State {
            remaining: self.remaining.drop_first(),
            stage: Stage::Start,
            deferred: match self.deferred {
                Some(earlier) => Some(earlier),
                None => Some(error),
            },
            failure: self.failure,
        }
    }

    /// The state after the pending access was performed and returned `reply`.
    /// A sequence that has ended stays as it is.
    pub open spec fn advance(self, reply: u32) -> State {
        if self.result() is Some {
            self
        } else {
            match self.remaining[0] {
                Step::Key(_) => self.completed(),
                Step::Barrier => self.completed(),
                Step::Store { .. } => self.completed(),
                Step::Update { register, clear, set } => match self.stage {
                    Stage::Write(_) => self.completed(),
                    _ => self.at(Stage::Write(updated(reply, clear, set))),
                },
                Step::AwaitReady => match polled(self.polls(), reply) {
                    None => self.at(Stage::Polling((self.polls() + 1) as u32)),
                    Some(Ok(())) => self.completed(),
                    Some(Err(error)) => self.aborted(error),
                },
                Step::AwaitCompletion => match polled(self.polls(), reply) {
                    None => self.at(Stage::Polling((self.polls() + 1) as u32)),
                    Some(Ok(())) => self.completed(),
                    Some(Err(error)) => self.deferring(error),
                },
                Step::CheckUnlocked => if reply & CR_LOCK != 0 {
                    self.aborted(Error::UnlockFailed)
                } else {
                    self.completed()
                },
                Step::Acknowledge { register, mask } => match self.stage {
                    Stage::Write(_) => self.completed(),
                    Stage::Reread => self.at(Stage::Write(updated(reply, mask, 0))),
                    _ => if reply & mask != 0 {
                        self.at(Stage::Reread)
                    } else {
                        self.completed()
                    },
                },
            }
        }
    }

    /// The state after the replies of `replies` have been taken in order.
    pub open spec fn run(self, replies: Seq<u32>) -> State
        decreases replies.len(),
    {
        if replies.len() == 0 {
            self
        } else {
            self.advance(replies[0]).run(replies.drop_first())
        }
    }

    /// What the machine asks for before each reply of `replies`, in order.
    pub open spec fn trace(self, replies: Seq<u32>) -> Seq<Action>
        decreases replies.len(),
    {
        if replies.len() == 0 {
            Seq::empty()
        } else {
            seq![self.pending()] + self.advance(replies[0]).trace(replies.drop_first())
        }
    }
}

/// The replies of `replies` but the last all show the busy flag.
pub open spec fn busy_until_last(replies: Seq<u32>) -> bool {
    forall|i: int| 0 <= i < replies.len() - 1 ==> busy(#[trigger] replies[i])
}

/// Once a sequence has ended, no reply changes it and it asks for nothing.
pub proof fn lemma_finished_stays(state: State, replies: Seq<u32>)
    requires
        state.result() is Some,
    ensures
        state.run(replies) == state,
        state.trace(replies).len() == replies.len(),
        forall|i: int|
            0 <= i < replies.len() ==> #[trigger] state.trace(replies)[i] == Action::Finished(
                state.result()->0,
            ),
    decreases replies.len(),
{
    if replies.len() > 0 {
        lemma_finished_stays(state, replies.drop_first());
    }
}

/// Taking replies in two batches is the same as taking them in one.
pub proof fn lemma_run_split(state: State, first: Seq<u32>, second: Seq<u32>)
    ensures
        state.run(first + second) == state.run(first).run(second),
        state.trace(first + second) == state.trace(first) + state.run(first).trace(second),
    decreases first.len(),
{
    if first.len() > 0 {
        assert((first + second).drop_first() =~= first.drop_first() + second);
        lemma_run_split(state.advance(first[0]), first.drop_first(), second);
    }
}

/// `count` requests to read the status register.
pub open spec fn status_reads(count: nat) -> Seq<Action> {
    Seq::new(count, |i: int| Action::Perform(Access::Read(Register::Status)))
}

/// How a wait runs.  Fed status replies of which all but the last show the
/// busy flag, a wait asks for a status read each time.  It ends at the first
/// reply without the busy flag, and what that reply holds decides between
/// ready and `Illegal`; it ends with `Busy` when the budget is used up; and it
/// goes on polling otherwise.
pub proof fn lemma_wait_runs(state: State, replies: Seq<u32>)
    requires
        state.result() is None,
        state.remaining[0] == Step::AwaitReady || state.remaining[0] == Step::AwaitCompletion,
        replies.len() >= 1,
        state.polls() + replies.len() <= POLL_BUDGET,
        busy_until_last(replies),
    ensures
        state.trace(replies) == status_reads(replies.len()),
        state.run(replies) == (match wait_outcome(state.polls(), replies) {
            None => state.at(Stage::Polling((state.polls() + replies.len()) as u32)),
            Some(Ok(())) => state.completed(),
            Some(Err(error)) => if state.remaining[0] == Step::AwaitReady {
                state.aborted(error)
            } else {
                state.deferring(error)
            },
        }),
    decreases replies.len(),
{
    let rest = replies.drop_first();
    let next = state.advance(replies[0]);
    if replies.len() == 1 {
        assert(next.trace(rest) =~= Seq::<Action>::empty());
    } else {
        assert(busy(replies[0]));
        assert(busy_until_last(rest));
        lemma_wait_runs(next, rest);
    }
}

/// How a read-modify-write runs: the register is read, and what was read is
/// written back with the bits of the step cleared and set.  What the write
/// is answered with does not matter.
pub proof fn lemma_update_runs(state: State, read: u32, ignored: u32)
    requires
        state.result() is None,
        state.remaining[0] is Update,
        !(state.stage is Write),
    ensures
        state.trace(seq![read, ignored]) == seq![
            Action::Perform(Access::Read(state.remaining[0]->Update_register)),
            Action::Perform(
                Access::Write(
                    state.remaining[0]->Update_register,
                    updated(read, state.remaining[0]->clear, state.remaining[0]->set),
                ),
            ),
        ],
        state.run(seq![read, ignored]) == state.completed(),
{
    let replies = seq![read, ignored];
    let one = state.advance(read);
    let two = one.advance(ignored);
    let rest = replies.drop_first();
    assert(two.run(rest.drop_first()) == two);
    assert(one.run(rest) == two);
    assert(two.trace(rest.drop_first()) =~= Seq::<Action>::empty());
    assert(one.trace(rest) =~= seq![one.pending()]);
}

/// How a key write, a barrier and a store run: one access, and whatever it
/// is answered with, the step is done.
pub proof fn lemma_single_access_runs(state: State, ignored: u32)
    requires
        state.result() is None,
        state.remaining[0] is Key || state.remaining[0] is Barrier || state.remaining[0] is Store,
    ensures
        state.trace(seq![ignored]) == seq![state.pending()],
        state.pending() == Action::Perform(
            match state.remaining[0] {
                Step::Key(key) => Access::Write(Register::Key, key),
                Step::Store { address, value } => Access::Store { address, value },
                _ => Access::Barrier,
            },
        ),
        state.run(seq![ignored]) == state.completed(),
{
    let replies = seq![ignored];
    let one = state.advance(ignored);
    assert(one.run(replies.drop_first()) == one);
    assert(one.trace(replies.drop_first()) =~= Seq::<Action>::empty());
}

/// How an acknowledgement runs where the flag is clear: the register is read
/// once and nothing is written.
pub proof fn lemma_acknowledge_clear(state: State, read: u32)
    requires
        state.result() is None,
        state.remaining[0] is Acknowledge,
        state.stage is Start,
        read & state.remaining[0]->mask == 0,
    ensures
        state.trace(seq![read]) == seq![
            Action::Perform(Access::Read(state.remaining[0]->Acknowledge_register)),
        ],
        state.run(seq![read]) == state.completed(),
{
    let replies = seq![read];
    let one = state.advance(read);
    assert(one.run(replies.drop_first()) == one);
    assert(one.trace(replies.drop_first()) =~= Seq::<Action>::empty());
}

/// How an acknowledgement runs where the flag is set: the register is read,
/// read again, and what the second read returned is written back with the
/// bits of the mask cleared.
pub proof fn lemma_acknowledge_set(state: State, read: u32, again: u32, ignored: u32)
    requires
        state.result() is None,
        state.remaining[0] is Acknowledge,
        state.stage is Start,
        read & state.remaining[0]->mask != 0,
    ensures
        state.trace(seq![read, again, ignored]) == seq![
            Action::Perform(Access::Read(state.remaining[0]->Acknowledge_register)),
            Action::Perform(Access::Read(state.remaining[0]->Acknowledge_register)),
            Action::Perform(
                Access::Write(
                    state.remaining[0]->Acknowledge_register,
                    updated(again, state.remaining[0]->mask, 0),
                ),
            ),
        ],
        state.run(seq![read, again, ignored]) == state.completed(),
{
    let replies = seq![read, again, ignored];
    let one = state.advance(read);
    let two = one.advance(again);
    let three = two.advance(ignored);
    let r1 = replies.drop_first();
    let r2 = r1.drop_first();
    let r3 = r2.drop_first();
    assert(three.run(r3) == three);
    assert(two.run(r2) == three);
    assert(one.run(r1) == three);
    assert(three.trace(r3) =~= Seq::<Action>::empty());
    assert(two.trace(r2) =~= seq![two.pending()]);
    assert(one.trace(r1) =~= seq![one.pending(), two.pending()]);
}

/// A sequence in progress.
#[derive(Debug)]
pub struct Sequence {
    steps: Vec<Step>,
    position: usize,
    stage: Stage,
    deferred: Option<Error>,
    failure: Option<Error>,
}

impl View for Sequence {
    type V = State;

    closed spec fn view(&self) -> State {
        State {
            remaining: self.steps@.skip(self.position as int),
            stage: self.stage,
            deferred: self.deferred,
            failure: self.failure,
        }
    }
}

impl Sequence {
    #[verifier::type_invariant]
    spec fn inv(self) -> bool {
        self.position <= self.steps.len()
    }

    /// A sequence about to run `steps`.
    pub(crate) fn new(steps: Vec<Step>) -> (sequence: Sequence)
        ensures
            sequence@ == State::start(steps@),
    {
        assert(steps@.skip(0) =~= steps@);
        Sequence { steps, position: 0, stage: Stage::Start, deferred: None, failure: None }
    }

    /// A sequence that failed before its first access.
    pub(crate) fn failed(error: Error) -> (sequence: Sequence)
        ensures
            sequence@ == State::failed(error),
    {
        let steps: Vec<Step> = Vec::new();
        assert(steps@.skip(0) =~= Seq::<Step>::empty());
        Sequence { steps, position: 0, stage: Stage::Start, deferred: None, failure: Some(error) }
    }

    /// What the caller has to do next.
    pub fn pending(&self) -> (action: Action)
        ensures
            action == self@.pending(),
    {
        proof {
            use_type_invariant(self);
        }
        match self.failure {
            Some(error) => Action::Finished(Err(error)),
            None => {
                if self.position >= self.steps.len() {
                    match self.deferred {
                        Some(error) => Action::Finished(Err(error)),
                        None => Action::Finished(Ok(())),
                    }
                } else {
                    let access = match self.steps[self.position] {
                        Step::Key(key) => Access::Write(Register::Key, key),
                        Step::Barrier => Access::Barrier,
                        Step::Store { address, value } => Access::Store { address, value },
                        Step::Update { register, clear, set } => match self.stage {
                            Stage::Write(value) => Access::Write(register, value),
                            _ => Access::Read(register),
                        },
                        Step::AwaitReady => Access::Read(Register::Status),
                        Step::AwaitCompletion => Access::Read(Register::Status),
                        Step::CheckUnlocked => Access::Read(Register::Control),
                        Step::Acknowledge { register, mask } => match self.stage {
                            Stage::Write(value) => Access::Write(register, value),
                            _ => Access::Read(register),
                        },
                    };
                    Action::Perform(access)
                }
            },
        }
    }

    /// One status reply to a wait that has seen `made` busy replies.
    fn poll(made: u32, reply: u32) -> (outcome: Option<Result<(), Error>>)
        ensures
            outcome == polled(made, reply),
    {
        if !is_busy(reply) {
            Some(status(reply))
        } else if made >= POLL_BUDGET - 1 {
            Some(Err(Error::Busy))
        } else {
            None
        }
    }

    /// Leaves the current step for the next one.
    fn complete(&mut self)
        requires
            old(self).position < old(self).steps.len(),
        ensures
            final(self)@ == old(self)@.completed(),
    {
        proof {
            assert(self.steps@.skip(self.position as int).drop_first() =~= self.steps@.skip(
                self.position as int + 1,
            ));
        }
        self.position = self.position + 1;
        self.stage = Stage::Start;
    }

    /// Ends the sequence with `error`.
    fn abort(&mut self, error: Error)
        requires
            old(self).position <= old(self).steps.len(),
        ensures
            final(self)@ == old(self)@.aborted(error),
    {
        self.stage = Stage::Start;
        self.failure = Some(error);
    }

    /// Takes the reply to the pending access and says what to do next.
    pub fn advance(&mut self, reply: u32) -> (action: Action)
        ensures
            final(self)@ == old(self)@.advance(reply),
            action == final(self)@.pending(),
    {
        proof {
            use_type_invariant(&*self);
        }
        if self.failure.is_none() && self.position < self.steps.len() {
            let made: u32 = match self.stage {
                Stage::Polling(made) => made,
                _ => 0,
            };
            match self.steps[self.position] {
                Step::Key(_) => self.complete(),
                Step::Barrier => self.complete(),
                Step::Store { .. } => self.complete(),
                Step::Update { register, clear, set } => match self.stage {
                    Stage::Write(_) => self.complete(),
                    _ => {
                        self.stage = Stage::Write(update(reply, clear, set));
                    },
                },
                Step::AwaitReady => match Self::poll(made, reply) {
                    None => {
                        self.stage = Stage::Polling(made + 1);
                    },
                    Some(Ok(())) => self.complete(),
                    Some(Err(error)) => self.abort(error),
                },
                Step::AwaitCompletion => match Self::poll(made, reply) {
                    None => {
                        self.stage = Stage::Polling(made + 1);
                    },
                    Some(Ok(())) => self.complete(),
                    Some(Err(error)) => {
                        if self.deferred.is_none() {
                            self.deferred = Some(error);
                        }
                        self.complete();
                    },
                },
                Step::CheckUnlocked => {
                    if reply & CR_LOCK != 0 {
                        self.abort(Error::UnlockFailed);
                    } else {
                        self.complete();
                    }
                },
                Step::Acknowledge { register, mask } => match self.stage {
                    Stage::Write(_) => self.complete(),
                    Stage::Reread => {
                        self.stage = Stage::Write(update(reply, mask, 0));
                    },
                    _ => {
                        if reply & mask != 0 {
                            self.stage = Stage::Reread;
                        } else {
                            self.complete();
                        }
                    },
                },
            }
        }
        self.pending()
    }
}

} // verus!
