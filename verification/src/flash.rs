//! The flash controller driver: unlock, page erase, double-word programming,
//! waiting, and relocking.
//!
//! The driver decides which register accesses happen in which order and what
//! each reply means.  Performing an access is left to the caller, who passes
//! every reply back in, through the handle that the driver owns and lends
//! out.  [`FlashUnlocked`] is the capability to erase and program; it exists
//! only after an unlock sequence that the controller accepted, and giving it
//! up always starts the relock sequence.

use vstd::prelude::*;
use crate::registers::{
    Register, KEY1, KEY2, CR_PG, CR_PER, CR_PNB, CR_BKER, CR_START, CR_LOCK, SR_EOP, SR_ERRORS,
    PAGE_COUNT, PAGE_SIZE, busy, readiness,
};
use crate::sequence::{
    Access, Action, Sequence, State, Step, POLL_BUDGET, busy_until_last, wait_outcome,
    status_reads, lemma_finished_stays, lemma_wait_runs, lemma_update_runs, lemma_run_split,
    lemma_single_access_runs,
};

verus! {

/// The ways in which a flash operation can fail.
#[derive(Debug, Clone, Copy, PartialEq, Eq, Structural)]
pub enum Error {
    /// The controller rejected the unlock sequence; only a reset recovers from this.
    UnlockFailed,
    /// The controller was still busy when the polling budget ran out.
    Busy,
    /// A programming-error flag is set in the status register.
    Illegal,
    /// The page number does not exist in single-bank mode.
    InvalidPage,
}

impl Error {
    /// The number that stands for the error in diagnostic output.
    pub open spec fn number(self) -> u8 {
        match self {
            Error::UnlockFailed => 1,
            Error::Busy => 2,
            Error::Illegal => 3,
            Error::InvalidPage => 4,
        }
    }

    /// Computes the number that stands for the error.
    pub fn code(self) -> (code: u8)
        ensures
            code == self.number(),
    {
        match self {
            Error::UnlockFailed => 1,
            Error::Busy => 2,
            Error::Illegal => 3,
            Error::InvalidPage => 4,
        }
    }
}

/// The lower 32 bits of a double word: the half that is stored first.
pub open spec fn low_word(value: u64) -> u32 {
    (value % 0x1_0000_0000) as u32
}

/// The upper 32 bits of a double word: the half that is stored second.
pub open spec fn high_word(value: u64) -> u32 {
    (value / 0x1_0000_0000) as u32
}

/// The unlock sequence: both keys in order, a barrier after each, then the
/// check that the controller has released the lock.
pub open spec fn unlock_steps() -> Seq<Step> {
    seq![Step::Key(KEY1), Step::Barrier, Step::Key(KEY2), Step::Barrier, Step::CheckUnlocked]
}

/// The relock sequence: set the lock bit and leave the rest of the control
/// register as it is.
pub open spec fn relock_steps() -> Seq<Step> {
    seq![Step::Update { register: Register::Control, clear: 0, set: CR_LOCK }]
}

/// Clears every sticky programming-error flag of the status register.
pub open spec fn clear_flags_step() -> Step {
    Step::Update { register: Register::Status, clear: SR_ERRORS, set: 0 }
}

/// Selects `page` of the first bank for erasure and enables page erase.
pub open spec fn select_page_step(page: u32) -> Step {
    Step::Update {
        register: Register::Control,
        clear: CR_PNB | CR_BKER,
        set: CR_PER | ((page * 8) as u32),
    }
}

/// The page erase sequence for a page that exists.  The wait for the erase to
/// complete holds its failure back, so that page erase is disabled again
/// whatever the wait found.
pub open spec fn erase_steps(page: u32) -> Seq<Step> {
    seq![
        Step::AwaitReady,
        clear_flags_step(),
        select_page_step(page),
        Step::Update { register: Register::Control, clear: 0, set: CR_START },
        Step::AwaitCompletion,
        Step::Update { register: Register::Control, clear: CR_PER, set: 0 },
    ]
}

/// What `erase_page` starts: the erase sequence, or nothing but the failure
/// where the page does not exist.
pub open spec fn erase_start(page: u32) -> State {
    if page < PAGE_COUNT {
        State::start(erase_steps(page))
    } else {
        State::failed(Error::InvalidPage)
    }
}

/// The steps that program one double word at `address`: low half, barrier,
/// high half, wait, and acknowledgement of the end-of-operation flag.
pub open spec fn dword_steps(address: int, value: u64) -> Seq<Step> {
    seq![
        Step::Store { address: address as u32, value: low_word(value) },
        Step::Barrier,
        Step::Store { address: (address + 4) as u32, value: high_word(value) },
        Step::AwaitReady,
        Step::Acknowledge { register: Register::Status, mask: SR_EOP },
    ]
}

/// The steps that program `values` from `address` upwards, eight bytes apart.
pub open spec fn program_steps(address: int, values: Seq<u64>) -> Seq<Step>
    decreases values.len(),
{
    if values.len() == 0 {
        Seq::empty()
    } else {
        program_steps(address, values.drop_last()) + dword_steps(
            address + 8 * (values.len() - 1),
            values.last(),
        )
    }
}

/// What comes before the first double word of a programming sequence.
pub open spec fn write_prologue() -> Seq<Step> {
    seq![
        Step::AwaitReady,
        clear_flags_step(),
        Step::Update { register: Register::Control, clear: 0, set: CR_PG },
    ]
}

/// The programming sequence for `values` at `address`.
pub open spec fn write_steps(address: u32, values: Seq<u64>) -> Seq<Step> {
    write_prologue() + program_steps(address as int, values) + seq![
        Step::Update { register: Register::Control, clear: CR_PG, set: 0 },
    ]
}

/// The driver for a locked flash controller.  It owns the handle through
/// which the controller is reached; whoever holds the only handle holds the
/// only driver.
#[derive(Debug)]
pub struct Flash<H> {
    registers: H,
}

/// An unlock sequence in progress.
#[derive(Debug)]
pub struct Unlock<H> {
    registers: H,
    sequence: Sequence,
}

/// Where an unlock attempt stands.
#[derive(Debug)]
pub enum Unlocking<H> {
    /// Perform this access and pass its reply to `Unlock::advance`.
    Perform(Unlock<H>, Access),
    /// The controller accepted the sequence.
    Unlocked(FlashUnlocked<H>),
    /// The controller rejected the sequence.  No driver is left to retry with.
    Failed(Error),
}

/// The driver for an unlocked flash controller: the capability to erase and
/// program.  It runs one sequence at a time.
#[derive(Debug)]
pub struct FlashUnlocked<H> {
    registers: H,
    sequence: Sequence,
}

/// A relock sequence in progress.
#[derive(Debug)]
pub struct Relock<H> {
    registers: H,
    sequence: Sequence,
}

/// Where a relock stands.
#[derive(Debug)]
pub enum Locking<H> {
    /// Perform this access and pass its reply to `Relock::advance`.
    Perform(Relock<H>, Access),
    /// The lock bit has been written.
    Locked(Flash<H>),
}

impl<H> View for Unlock<H> {
    type V = State;

    closed spec fn view(&self) -> State {
        self.sequence@
    }
}

impl<H> View for FlashUnlocked<H> {
    type V = State;

    closed spec fn view(&self) -> State {
        self.sequence@
    }
}

impl<H> View for Relock<H> {
    type V = State;

    closed spec fn view(&self) -> State {
        self.sequence@
    }
}

impl<H> Flash<H> {
    /// The handle that the driver owns.
    pub closed spec fn handle(self) -> H {
        self.registers
    }

    /// The driver for a controller that is locked, as it is after reset.
    pub fn new(registers: H) -> (flash: Flash<H>)
        ensures
            flash.handle() == registers,
    {
        Flash { registers }
    }

    /// The handle through which the accesses are performed.
    pub fn registers(&self) -> (registers: &H)
        ensures
            *registers == self.handle(),
    {
        &self.registers
    }

    /// Size of a flash page in bytes.
    pub fn page_size(&self) -> (size: u32)
        ensures
            size == PAGE_SIZE,
    {
        PAGE_SIZE
    }

    /// The number of the page that holds `address`.
    pub fn address_to_page_number(&self, address: u32) -> (page: u32)
        ensures
            page == address / PAGE_SIZE,
    {
        address / self.page_size()
    }

    /// Starts the unlock sequence.
    pub fn unlock(self) -> (attempt: Unlocking<H>)
        ensures
            attempt matches Unlocking::Perform(unlock, access) && unlock@ == State::start(
                unlock_steps(),
            ) && unlock.handle() == self.handle() && access == Access::Write(
                Register::Key,
                KEY1,
            ),
    {
        let mut steps: Vec<Step> = Vec::new();
        steps.push(Step::Key(KEY1));
        steps.push(Step::Barrier);
        steps.push(Step::Key(KEY2));
        steps.push(Step::Barrier);
        steps.push(Step::CheckUnlocked);
        assert(steps@ =~= unlock_steps());
        Unlocking::Perform(
            Unlock { registers: self.registers, sequence: Sequence::new(steps) },
            Access::Write(Register::Key, KEY1),
        )
    }
}

impl<H> Unlock<H> {
    /// The handle that the attempt owns.
    pub closed spec fn handle(self) -> H {
        self.registers
    }

    /// The handle through which the accesses are performed.
    pub fn registers(&self) -> (registers: &H)
        ensures
            *registers == self.handle(),
    {
        &self.registers
    }

    /// Takes the reply to the access that was handed out with this value.
    /// The attempt goes on with the next access, or ends: with the unlocked
    /// driver where the lock bit was clear after both keys, with
    /// `UnlockFailed` where it was still set.
    pub fn advance(self, reply: u32) -> (next: Unlocking<H>)
        ensures
            (match self@.advance(reply).result() {
                None => next matches Unlocking::Perform(unlock, access) && unlock@
                    == self@.advance(reply) && unlock.handle() == self.handle() && access
                    == unlock@.access(),
                Some(Ok(())) => next matches Unlocking::Unlocked(unlocked) && unlocked@
                    == State::idle() && unlocked.handle() == self.handle(),
                Some(Err(error)) => next matches Unlocking::Failed(failure) && failure == error,
            }),
    {
        let mut sequence = self.sequence;
        match sequence.advance(reply) {
            Action::Perform(access) => Unlocking::Perform(
                Unlock { registers: self.registers, sequence },
                access,
            ),
            Action::Finished(Ok(())) => Unlocking::Unlocked(
                FlashUnlocked { registers: self.registers, sequence: Sequence::new(Vec::new()) },
            ),
            Action::Finished(Err(error)) => Unlocking::Failed(error),
        }
    }
}

/// The step that clears the programming-error flags.
fn clear_flags() -> (step: Step)
    ensures
        step == clear_flags_step(),
{
    Step::Update { register: Register::Status, clear: SR_ERRORS, set: 0 }
}

impl<H> FlashUnlocked<H> {
    /// The handle that the driver owns.
    pub closed spec fn handle(self) -> H {
        self.registers
    }

    /// The handle through which the accesses are performed.
    pub fn registers(&self) -> (registers: &H)
        ensures
            *registers == self.handle(),
    {
        &self.registers
    }

    /// Starts clearing the sticky programming-error flags.
    pub fn clear_programming_flags(&mut self) -> (action: Action)
        ensures
            final(self)@ == State::start(seq![clear_flags_step()]),
            final(self).handle() == old(self).handle(),
            action == final(self)@.pending(),
    {
        let mut steps: Vec<Step> = Vec::new();
        steps.push(clear_flags());
        self.sequence = Sequence::new(steps);
        self.sequence.pending()
    }

    /// Starts the erasure of a page.  A page number outside the bank fails
    /// with `InvalidPage` at once and no access is asked for.
    pub fn erase_page(&mut self, page_number: u32) -> (action: Action)
        ensures
            final(self)@ == erase_start(page_number),
            final(self).handle() == old(self).handle(),
            action == final(self)@.pending(),
    {
        if page_number >= PAGE_COUNT {
            self.sequence = Sequence::failed(Error::InvalidPage);
            return self.sequence.pending();
        }
        let mut steps: Vec<Step> = Vec::new();
        steps.push(Step::AwaitReady);
        steps.push(clear_flags());
        steps.push(
            Step::Update {
                register: Register::Control,
                clear: CR_PNB | CR_BKER,
                set: CR_PER | (page_number * 8),
            },
        );
        steps.push(Step::Update { register: Register::Control, clear: 0, set: CR_START });
        steps.push(Step::AwaitCompletion);
        steps.push(Step::Update { register: Register::Control, clear: CR_PER, set: 0 });
        assert(steps@ =~= erase_steps(page_number));
        self.sequence = Sequence::new(steps);
        self.sequence.pending()
    }

    /// Starts programming `array` into the flash array from `address`
    /// upwards.  The region must have been erased, the address is not null,
    /// and the double words end inside the 32-bit address space.
    pub fn write_dwords(&mut self, address: u32, array: &[u64]) -> (action: Action)
        requires
            address != 0,
            address + 8 * array@.len() <= 0x1_0000_0000,
        ensures
            final(self)@ == State::start(write_steps(address, array@)),
            final(self).handle() == old(self).handle(),
            action == final(self)@.pending(),
    {
        let mut steps: Vec<Step> = Vec::new();
        steps.push(Step::AwaitReady);
        steps.push(clear_flags());
        steps.push(Step::Update { register: Register::Control, clear: 0, set: CR_PG });
        let mut index: usize = 0;
        let mut target: u32 = address;
        while index < array.len()
            invariant
                index <= array@.len(),
                address + 8 * array@.len() <= 0x1_0000_0000,
                index < array@.len() ==> target == address + 8 * index,
                steps@ == write_prologue() + program_steps(
                    address as int,
                    array@.take(index as int),
                ),
            decreases array@.len() - index,
        {
            let value: u64 = array[index];
            let low: u32 = (value % 0x1_0000_0000) as u32;
            let high: u32 = (value / 0x1_0000_0000) as u32;
            proof {
                assert(array@.take(index as int + 1).drop_last() =~= array@.take(index as int));
            }
            steps.push(Step::Store { address: target, value: low });
            steps.push(Step::Barrier);
            steps.push(Step::Store { address: target + 4, value: high });
            steps.push(Step::AwaitReady);
            steps.push(Step::Acknowledge { register: Register::Status, mask: SR_EOP });
            index = index + 1;
            if index < array.len() {
                target = target + 8;
            }
        }
        assert(array@.take(index as int) =~= array@);
        steps.push(Step::Update { register: Register::Control, clear: CR_PG, set: 0 });
        assert(steps@ =~= write_steps(address, array@));
        self.sequence = Sequence::new(steps);
        self.sequence.pending()
    }

    /// Starts a wait for the controller to become ready.
    pub fn wait(&mut self) -> (action: Action)
        ensures
            final(self)@ == State::start(seq![Step::AwaitReady]),
            final(self).handle() == old(self).handle(),
            action == final(self)@.pending(),
    {
        let mut steps: Vec<Step> = Vec::new();
        steps.push(Step::AwaitReady);
        self.sequence = Sequence::new(steps);
        self.sequence.pending()
    }

    /// What the sequence in progress needs next.
    pub fn pending(&self) -> (action: Action)
        ensures
            action == self@.pending(),
    {
        self.sequence.pending()
    }

    /// Takes the reply to the pending access and says what to do next.
    pub fn advance(&mut self, reply: u32) -> (action: Action)
        ensures
            final(self)@ == old(self)@.advance(reply),
            final(self).handle() == old(self).handle(),
            action == final(self)@.pending(),
    {
        self.sequence.advance(reply)
    }

    /// Gives the capability up and starts the relock sequence, whatever the
    /// driver was doing.
    pub fn lock(self) -> (relock: Locking<H>)
        ensures
            relock matches Locking::Perform(machine, access) && machine@ == State::start(
                relock_steps(),
            ) && machine.handle() == self.handle() && access == Access::Read(Register::Control),
    {
        let mut steps: Vec<Step> = Vec::new();
        steps.push(Step::Update { register: Register::Control, clear: 0, set: CR_LOCK });
        Locking::Perform(
            Relock { registers: self.registers, sequence: Sequence::new(steps) },
            Access::Read(Register::Control),
        )
    }
}

impl<H> Relock<H> {
    /// The handle that the relock owns.
    pub closed spec fn handle(self) -> H {
        self.registers
    }

    /// The handle through which the accesses are performed.
    pub fn registers(&self) -> (registers: &H)
        ensures
            *registers == self.handle(),
    {
        &self.registers
    }

    /// Takes the reply to the access that was handed out with this value.
    /// The relock goes on with the next access, or has ended and hands the
    /// driver for the locked controller back.
    pub fn advance(self, reply: u32) -> (next: Locking<H>)
        ensures
            (match self@.advance(reply).result() {
                None => next matches Locking::Perform(machine, access) && machine@
                    == self@.advance(reply) && machine.handle() == self.handle() && access
                    == machine@.access(),
                Some(_) => next matches Locking::Locked(flash) && flash.handle() == self.handle(),
            }),
    {
        let mut sequence = self.sequence;
        match sequence.advance(reply) {
            Action::Perform(access) => Locking::Perform(
                Relock { registers: self.registers, sequence },
                access,
            ),
            Action::Finished(_) => Locking::Locked(Flash { registers: self.registers }),
        }
    }
}

/// Erasing a page that does not exist touches no register: the driver asks
/// for no access, whatever it is fed, and reports `InvalidPage` throughout.
pub proof fn lemma_invalid_page_touches_nothing(page: u32, replies: Seq<u32>)
    requires
        page >= PAGE_COUNT,
    ensures
        erase_start(page).pending() == Action::Finished(Err(Error::InvalidPage)),
        erase_start(page).run(replies) == erase_start(page),
        erase_start(page).trace(replies).len() == replies.len(),
        forall|i: int|
            0 <= i < replies.len() ==> #[trigger] erase_start(page).trace(replies)[i]
                == Action::Finished(Err(Error::InvalidPage)),
{
    lemma_finished_stays(erase_start(page), replies);
}

/// The unlock sequence writes the first key, a barrier, the second key and a
/// barrier, and then reads the control register, whatever the writes are
/// answered with.  The lock bit of that one read decides: still set, the
/// attempt has failed with `UnlockFailed`; clear, it has succeeded.  Either
/// way the sequence has ended, so nothing is written after a rejection.
pub proof fn lemma_unlock_runs(replies: Seq<u32>)
    requires
        replies.len() == 5,
    ensures
        State::start(unlock_steps()).trace(replies) == seq![
            Action::Perform(Access::Write(Register::Key, KEY1)),
            Action::Perform(Access::Barrier),
            Action::Perform(Access::Write(Register::Key, KEY2)),
            Action::Perform(Access::Barrier),
            Action::Perform(Access::Read(Register::Control)),
        ],
        State::start(unlock_steps()).run(replies).result() == Some(
            if replies[4] & CR_LOCK != 0 {
                Err::<(), Error>(Error::UnlockFailed)
            } else {
                Ok(())
            },
        ),
{
    let s0 = State::start(unlock_steps());
    let s1 = s0.advance(replies[0]);
    let s2 = s1.advance(replies[1]);
    let s3 = s2.advance(replies[2]);
    let s4 = s3.advance(replies[3]);
    let s5 = s4.advance(replies[4]);
    let r1 = replies.drop_first();
    let r2 = r1.drop_first();
    let r3 = r2.drop_first();
    let r4 = r3.drop_first();
    let r5 = r4.drop_first();
    assert(s5.run(r5) == s5);
    assert(s4.run(r4) == s5);
    assert(s3.run(r3) == s5);
    assert(s2.run(r2) == s5);
    assert(s1.run(r1) == s5);
    assert(s5.trace(r5) =~= Seq::<Action>::empty());
    assert(s4.trace(r4) =~= seq![s4.pending()]);
    assert(s3.trace(r3) =~= seq![s3.pending(), s4.pending()]);
    assert(s2.trace(r2) =~= seq![s2.pending(), s3.pending(), s4.pending()]);
    assert(s1.trace(r1) =~= seq![s1.pending(), s2.pending(), s3.pending(), s4.pending()]);
}

/// Relocking is unconditional.  The relock sequence reads the control
/// register and writes back what it read with the lock bit set, and then it
/// has ended; it cannot fail, and `FlashUnlocked::lock` starts it from every
/// state of the unlocked driver.
pub proof fn lemma_relock_sets_lock_bit(control: u32, ignored: u32)
    ensures
        State::start(relock_steps()).pending() == Action::Perform(
            Access::Read(Register::Control),
        ),
        State::start(relock_steps()).advance(control).pending() == Action::Perform(
            Access::Write(Register::Control, control | CR_LOCK),
        ),
        (control | CR_LOCK) & CR_LOCK == CR_LOCK,
        State::start(relock_steps()).advance(control).advance(ignored).result() == Some(
            Ok::<(), Error>(()),
        ),
{
    assert((control & !0u32) | 0x8000_0000u32 == control | 0x8000_0000u32) by (bit_vector);
    assert((control | 0x8000_0000u32) & 0x8000_0000u32 == 0x8000_0000u32) by (bit_vector);
}

/// The bound of a wait.  Fed status replies of which all but the last show
/// the busy flag, a wait does nothing but read the status register.  It
/// reports `Busy` exactly when the busy flag was set in every one of the
/// `POLL_BUDGET` reads; before that it ends at the first reply without the
/// busy flag, as ready or as `Illegal` according to the error flags of that
/// same reply.
pub proof fn lemma_wait_outcome(replies: Seq<u32>)
    requires
        1 <= replies.len() <= POLL_BUDGET,
        busy_until_last(replies),
    ensures
        State::start(seq![Step::AwaitReady]).trace(replies) == status_reads(replies.len()),
        State::start(seq![Step::AwaitReady]).run(replies).result() == wait_outcome(0, replies),
        wait_outcome(0, replies) == Some(Err::<(), Error>(Error::Busy)) <==> replies.len()
            == POLL_BUDGET && busy(replies.last()),
        !busy(replies.last()) ==> wait_outcome(0, replies) == Some(readiness(replies.last())),
{
    let start = State::start(seq![Step::AwaitReady]);
    lemma_wait_runs(start, replies);
}

/// An erase that finds the controller not ready stops there.  Where the wait
/// before the erase ends in a failure, the sequence has done nothing but read
/// the status register, and that failure is its result.
pub proof fn lemma_erase_not_ready(page: u32, ready: Seq<u32>)
    requires
        page < PAGE_COUNT,
        1 <= ready.len() <= POLL_BUDGET,
        busy_until_last(ready),
        wait_outcome(0, ready) matches Some(Err(_)),
    ensures
        erase_start(page).trace(ready) == status_reads(ready.len()),
        erase_start(page).run(ready).result() == wait_outcome(0, ready),
{
    lemma_wait_runs(erase_start(page), ready);
}

/// What the replies of a whole page erase look like: the polls of the first
/// wait, the status and control values that the four read-modify-writes
/// read, each followed by the reply to its write, and the polls of the wait
/// for completion.
pub open spec fn erase_replies(
    ready: Seq<u32>,
    status: u32,
    select: u32,
    start: u32,
    done: Seq<u32>,
    disable: u32,
    ignored: u32,
) -> Seq<u32> {
    ready + seq![status, ignored, select, ignored, start, ignored] + done + seq![disable, ignored]
}

/// The page erase, access by access.  Once the controller is ready the
/// sequence clears the error flags, selects the page in the first bank with
/// page erase enabled, sets the start bit, and waits.  Whatever that wait
/// ends with, page erase is then disabled again, and only after that write
/// does the sequence end, with the outcome of the wait as its result.
pub proof fn lemma_erase_runs(
    page: u32,
    ready: Seq<u32>,
    status: u32,
    select: u32,
    start: u32,
    done: Seq<u32>,
    disable: u32,
    ignored: u32,
)
    requires
        page < PAGE_COUNT,
        1 <= ready.len() <= POLL_BUDGET,
        busy_until_last(ready),
        wait_outcome(0, ready) == Some(Ok::<(), Error>(())),
        1 <= done.len() <= POLL_BUDGET,
        busy_until_last(done),
        wait_outcome(0, done) is Some,
    ensures
        erase_start(page).trace(
            erase_replies(ready, status, select, start, done, disable, ignored),
        ) == status_reads(ready.len()) + seq![
            Action::Perform(Access::Read(Register::Status)),
            Action::Perform(Access::Write(Register::Status, status & !SR_ERRORS)),
            Action::Perform(Access::Read(Register::Control)),
            Action::Perform(
                Access::Write(
                    Register::Control,
                    (select & !(CR_PNB | CR_BKER)) | (CR_PER | ((page * 8) as u32)),
                ),
            ),
            Action::Perform(Access::Read(Register::Control)),
            Action::Perform(Access::Write(Register::Control, start | CR_START)),
        ] + status_reads(done.len()) + seq![
            Action::Perform(Access::Read(Register::Control)),
            Action::Perform(Access::Write(Register::Control, disable & !CR_PER)),
        ],
        erase_start(page).run(
            erase_replies(ready, status, select, start, done, disable, ignored),
        ).result() == wait_outcome(0, done),
{
    let s0 = erase_start(page);
    let s1 = s0.completed();
    let s2 = s1.completed();
    let s3 = s2.completed();
    let s4 = s3.completed();
    let s5 = s4.run(done);
    let clear = seq![status, ignored];
    let choose = seq![select, ignored];
    let go = seq![start, ignored];
    let stop = seq![disable, ignored];
    let replies = erase_replies(ready, status, select, start, done, disable, ignored);
    lemma_wait_runs(s0, ready);
    lemma_update_runs(s1, status, ignored);
    lemma_update_runs(s2, select, ignored);
    lemma_update_runs(s3, start, ignored);
    lemma_wait_runs(s4, done);
    lemma_update_runs(s5, disable, ignored);
    assert((status & !0x0000_03F8u32) | 0 == status & !0x0000_03F8u32) by (bit_vector);
    assert((start & !0u32) | 0x0001_0000u32 == start | 0x0001_0000u32) by (bit_vector);
    assert((disable & !0x0000_0002u32) | 0 == disable & !0x0000_0002u32) by (bit_vector);
    let tail4 = done + stop;
    let tail3 = go + tail4;
    let tail2 = choose + tail3;
    let tail1 = clear + tail2;
    assert(replies =~= ready + tail1);
    lemma_run_split(s0, ready, tail1);
    lemma_run_split(s1, clear, tail2);
    lemma_run_split(s2, choose, tail3);
    lemma_run_split(s3, go, tail4);
    lemma_run_split(s4, done, stop);
}

/// The page number that a page erase writes reads back from the page number
/// field, page erase is enabled by the same write, and the bank selection is
/// clear whatever the control register held.
pub proof fn lemma_page_selection(page: u32, control: u32)
    requires
        page < PAGE_COUNT,
    ensures
        ({
            let written = (control & !(CR_PNB | CR_BKER)) | (CR_PER | ((page * 8) as u32));
            &&& (written & CR_PNB) / 8 == page
            &&& written & CR_PER == CR_PER
            &&& written & CR_BKER == 0
        }),
{
    let field = (page * 8) as u32;
    assert(field == page << 3) by (bit_vector)
        requires
            page < 256,
            field == page * 8,
    ;
    let written = (control & !(0x0000_07F8u32 | 0x0000_0800u32)) | (0x0000_0002u32 | field);
    assert((written & 0x0000_07F8u32) / 8 == page && written & 0x0000_0002u32 == 0x0000_0002u32
        && written & 0x0000_0800u32 == 0) by (bit_vector)
        requires
            page < 256,
            field == page << 3,
            written == (control & !(0x0000_07F8u32 | 0x0000_0800u32)) | (0x0000_0002u32 | field),
    ;
}

/// The two halves of a double word are its lower and upper 32 bits.
pub proof fn lemma_word_halves(value: u64)
    ensures
        low_word(value) + 0x1_0000_0000 * high_word(value) == value,
        low_word(value) == value & 0xFFFF_FFFF,
        high_word(value) == value >> 32,
{
    assert(value % 0x1_0000_0000 == value & 0xFFFF_FFFF) by (bit_vector);
    assert(value / 0x1_0000_0000 == value >> 32) by (bit_vector);
}

/// How one double word is programmed.  From a state that has the steps of a
/// double word before it, the sequence stores the low half at the address, a
/// barrier, and the high half four bytes on, whatever these are answered
/// with, and then waits.  Where the wait ends well, the acknowledgement of
/// the end-of-operation flag is next; where it fails, the sequence ends with
/// that failure and the steps of the values that remain are not run.
pub proof fn lemma_dword_programs(
    state: State,
    address: u32,
    value: u64,
    rest: Seq<Step>,
    polls: Seq<u32>,
    ignored: u32,
)
    requires
        state.result() is None,
        state.stage is Start,
        state.remaining == dword_steps(address as int, value) + rest,
        address + 4 <= u32::MAX,
        1 <= polls.len() <= POLL_BUDGET,
        busy_until_last(polls),
        wait_outcome(0, polls) is Some,
    ensures
        state.trace(seq![ignored, ignored, ignored] + polls) == seq![
            Action::Perform(Access::Store { address, value: low_word(value) }),
            Action::Perform(Access::Barrier),
            Action::Perform(Access::Store { address: (address + 4) as u32, value: high_word(value) }),
        ] + status_reads(polls.len()),
        wait_outcome(0, polls) == Some(Ok::<(), Error>(())) ==> state.run(
            seq![ignored, ignored, ignored] + polls,
        ) == (State {
            remaining: seq![Step::Acknowledge { register: Register::Status, mask: SR_EOP }] + rest,
            ..state
        }),
        wait_outcome(0, polls) matches Some(Err(_)) ==> state.run(
            seq![ignored, ignored, ignored] + polls,
        ).result() == wait_outcome(0, polls),
{
    let one = seq![ignored];
    let s1 = state.completed();
    let s2 = s1.completed();
    let s3 = s2.completed();
    let s4 = s3.run(polls);
    lemma_single_access_runs(state, ignored);
    lemma_single_access_runs(s1, ignored);
    lemma_single_access_runs(s2, ignored);
    lemma_wait_runs(s3, polls);
    if wait_outcome(0, polls) == Some(Ok::<(), Error>(())) {
        assert(s4.remaining =~= seq![
            Step::Acknowledge { register: Register::Status, mask: SR_EOP },
        ] + rest);
    }
    let tail2 = one + polls;
    let tail1 = one + tail2;
    assert(seq![ignored, ignored, ignored] + polls =~= one + tail1);
    lemma_run_split(state, one, tail1);
    lemma_run_split(s1, one, tail2);
    lemma_run_split(s2, one, polls);
}

/// Where the steps of each double word stand in a programming sequence: five
/// steps per value, those of value `index` at the address eight bytes times
/// `index` above the start.
pub proof fn lemma_program_layout(address: int, values: Seq<u64>, index: int)
    requires
        0 <= index < values.len(),
    ensures
        program_steps(address, values).len() == 5 * values.len(),
        program_steps(address, values).subrange(5 * index, 5 * index + 5) == dword_steps(
            address + 8 * index,
            values[index],
        ),
    decreases values.len(),
{
    let front = values.drop_last();
    lemma_program_length(address, front);
    if index < values.len() - 1 {
        lemma_program_layout(address, front, index);
    }
}

/// A programming sequence has five steps for each double word.
pub proof fn lemma_program_length(address: int, values: Seq<u64>)
    ensures
        program_steps(address, values).len() == 5 * values.len(),
    decreases values.len(),
{
    if values.len() > 0 {
        lemma_program_length(address, values.drop_last());
    }
}

} // verus!