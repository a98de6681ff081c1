//! Mutual exclusion on the shared bus.
//!
//! Two tasks use the one I2C bus, each for transactions of several
//! transfers. The arbiter hands the bus to one task at a time: a task
//! acquires it before the first transfer of a transaction and releases it
//! after the last, and while it holds the bus no transfer of the other task
//! is admitted. The arbiter only decides; suspending a task that was turned
//! away, and waking it when the bus comes free, is the scheduler's part.

use vstd::prelude::*;

verus! {

/// The tasks that share the bus.
#[derive(Clone, Copy, Debug, PartialEq, Eq, Structural)]
pub enum TaskId {
    /// The task that samples the accelerometer.
    Sensor,
    /// The task that refreshes the display.
    Display,
}

/// What the arbiter keeps track of.
pub struct ArbiterState {
    /// The task that holds the bus, if one does.
    pub holder: Option<TaskId>,
    /// The task that was turned away and is to be woken at the next release.
    pub waiting: Option<TaskId>,
}

impl ArbiterState {
    /// What holds of every arbiter: a task waits only for a bus that
    /// another task holds.
    pub open spec fn well_formed(self) -> bool {
        self.waiting matches Some(task) ==> self.holder is Some && self.holder != Some(task)
    }
}

/// Something a task asks of the arbiter.
pub enum BusCall {
    /// To be given the bus.
    Acquire(TaskId),
    /// To make one transfer on the bus.
    Transfer(TaskId),
    /// To give the bus back.
    Release(TaskId),
}

/// Whether the arbiter in state `s` grants `call`: the bus is given when
/// nobody holds it; transfers and releases are taken from the holder alone.
pub open spec fn granted(s: ArbiterState, call: BusCall) -> bool {
    match call {
        BusCall::Acquire(_) => s.holder is None,
        BusCall::Transfer(task) => s.holder == Some(task),
        BusCall::Release(task) => s.holder == Some(task),
    }
}

/// The arbiter's state after `call` was made in state `s`.
///
/// A granted acquisition makes the caller the holder. One that is turned
/// away leaves the caller waiting, unless it holds the bus itself. A
/// granted release frees the bus, and whoever was waiting is woken and
/// waits no more. Everything else leaves the state as it is.
pub open spec fn after(s: ArbiterState, call: BusCall) -> ArbiterState {
    match call {
        BusCall::Acquire(task) => if s.holder is None {
            ArbiterState { holder: Some(task), waiting: s.waiting }
        } else if s.holder == Some(task) {
            s
        } else {
            ArbiterState { holder: s.holder, waiting: Some(task) }
        },
        BusCall::Transfer(_) => s,
        BusCall::Release(task) => if s.holder == Some(task) {
            ArbiterState { holder: None, waiting: None }
        } else {
            s
        },
    }
}

/// The arbiter's state after all of `calls` were made, in order, from
/// state `s`.
pub open spec fn after_all(s: ArbiterState, calls: Seq<BusCall>) -> ArbiterState
    decreases calls.len(),
{
    if calls.len() == 0 {
        s
    } else {
        after(after_all(s, calls.drop_last()), calls.last())
    }
}

/// Whether the `k`-th of `calls`, made in order from state `s`, is granted.
pub open spec fn took_effect(s: ArbiterState, calls: Seq<BusCall>, k: int) -> bool
    recommends
        0 <= k < calls.len(),
{
    granted(after_all(s, calls.take(k)), calls[k])
}

/// A lease on the bus: the right to make the transfers of one transaction.
/// It comes from [`BusArbiter::acquire`] and goes back with
/// [`BusArbiter::release`]; it cannot be copied.
#[derive(Debug)]
pub struct BusHandle {
    owner: TaskId,
}

impl BusHandle {
    /// The task that the lease was given to.
    pub closed spec fn spec_owner(&self) -> TaskId {
        self.owner
    }

    /// The task that the lease was given to.
    #[verifier::when_used_as_spec(spec_owner)]
    pub fn owner(&self) -> (task: TaskId)
        ensures
            task == self.spec_owner(),
    {
        self.owner
    }
}

/// The arbiter of one bus.
#[derive(Debug)]
pub struct BusArbiter {
    holder: Option<TaskId>,
    waiting: Option<TaskId>,
}

impl View for BusArbiter {
    type V = ArbiterState;

    closed spec fn view(&self) -> ArbiterState {
        ArbiterState { holder: self.holder, waiting: self.waiting }
    }
}

impl BusArbiter {
    #[verifier::type_invariant]
    spec fn inv(&self) -> bool {
        self@.well_formed()
    }

    /// An arbiter whose bus is free, with nobody waiting.
    pub fn new() -> (arbiter: BusArbiter)
        ensures
            arbiter@ == (ArbiterState { holder: None, waiting: None }),
    {
        BusArbiter { holder: None, waiting: None }
    }

    /// The task that holds the bus, if one does.
    pub fn holder(&self) -> (task: Option<TaskId>)
        ensures
            task == self@.holder,
            self@.well_formed(),
    {
        proof {
            use_type_invariant(self);
        }
        self.holder
    }

    /// The task that is waiting for the bus, if one is.
    pub fn waiting(&self) -> (task: Option<TaskId>)
        ensures
            task == self@.waiting,
            self@.well_formed(),
    {
        proof {
            use_type_invariant(self);
        }
        self.waiting
    }

    /// Asks for the bus on behalf of `task`.
    ///
    /// Where the bus is free the lease is given at once. Where it is not,
    /// nothing is given: the task is noted as waiting and has to suspend
    /// until a release names it, then ask again.
    pub fn acquire(&mut self, task: TaskId) -> (lease: Option<BusHandle>)
        ensures
            lease is Some <==> granted(old(self)@, BusCall::Acquire(task)),
            lease is Some ==> lease->Some_0.owner() == task,
            final(self)@ == after(old(self)@, BusCall::Acquire(task)),
            final(self)@.well_formed(),
    {
        proof {
            use_type_invariant(&*self);
        }
        match self.holder {
            None => {
                self.holder = Some(task);
                Some(BusHandle { owner: task })
            },
            Some(holder) => {
                if holder != task {
                    self.waiting = Some(task);
                }
                None
            },
        }
    }

    /// Whether a transfer under `lease` may go onto the bus now: only the
    /// holder's may.
    pub fn admits(&self, lease: &BusHandle) -> (ok: bool)
        ensures
            ok == granted(self@, BusCall::Transfer(lease.owner())),
    {
        self.holder == Some(lease.owner)
    }

    /// Takes the lease back and frees the bus. Returns the task to wake, if
    /// one was waiting.
    ///
    /// A lease of a task that does not hold the bus changes nothing.
    pub fn release(&mut self, lease: BusHandle) -> (wake: Option<TaskId>)
        ensures
            final(self)@ == after(old(self)@, BusCall::Release(lease.owner())),
            wake == if granted(old(self)@, BusCall::Release(lease.owner())) {
                old(self)@.waiting
            } else {
                None
            },
            final(self)@.well_formed(),
    {
        proof {
            use_type_invariant(&*self);
        }
        if self.holder == Some(lease.owner) {
            let wake = self.waiting;
            self.waiting = None;
            self.holder = None;
            wake
        } else {
            None
        }
    }
}

/// No call breaks what holds of every arbiter.
pub proof fn lemma_well_formed_is_kept(s: ArbiterState, call: BusCall)
    requires
        s.well_formed(),
    ensures
        after(s, call).well_formed(),
{
}

/// Once `task` holds the bus it keeps holding it, whatever calls are made,
/// until a release of its own is granted.
proof fn lemma_holder_stays(s: ArbiterState, calls: Seq<BusCall>, task: TaskId, i: int, m: int)
    requires
        0 <= i < m <= calls.len(),
        after_all(s, calls.take(i + 1)).holder == Some(task),
        forall|k: int|
            i < k < m ==> !(calls[k] == BusCall::Release(task) && #[trigger] took_effect(
                s,
                calls,
                k,
            )),
    ensures
        after_all(s, calls.take(m)).holder == Some(task),
    decreases m - i,
{
    if m > i + 1 {
        lemma_holder_stays(s, calls, task, i, m - 1);
        assert(calls.take(m).drop_last() == calls.take(m - 1));
        assert(calls.take(m).last() == calls[m - 1]);
        assert(!(calls[m - 1] == BusCall::Release(task) && took_effect(s, calls, m - 1)));
    }
}

/// Transactions of different tasks never interleave on the bus.
///
/// Whatever the tasks ask of the arbiter and in whatever order: if a
/// transfer of task `a` is admitted, and later one of another task `b`,
/// then `a` has released the bus in between. So the transfers made under
/// one lease reach the bus as one contiguous block.
pub proof fn lemma_transfers_do_not_interleave(
    s: ArbiterState,
    calls: Seq<BusCall>,
    a: TaskId,
    b: TaskId,
    i: int,
    j: int,
)
    requires
        0 <= i < j < calls.len(),
        calls[i] == BusCall::Transfer(a),
        calls[j] == BusCall::Transfer(b),
        a != b,
        took_effect(s, calls, i),
        took_effect(s, calls, j),
    ensures
        exists|k: int|
            i < k < j && calls[k] == BusCall::Release(a) && #[trigger] took_effect(s, calls, k),
{
    if !(exists|k: int|
        i < k < j && calls[k] == BusCall::Release(a) && #[trigger] took_effect(s, calls, k)) {
        assert(calls.take(i + 1).drop_last() == calls.take(i));
        assert(calls.take(i + 1).last() == calls[i]);
        lemma_holder_stays(s, calls, a, i, j);
        assert(false);
    }
}

/// The transfers made under one lease are one block on the bus.
///
/// Whatever the tasks ask of the arbiter and in whatever order: between two
/// admitted transfers of task `a` with no release of `a` granted between
/// them, every transfer that is admitted is one of `a`. So no transfer of
/// the other task lies within a transaction that is made under one lease.
pub proof fn lemma_lease_is_one_block(
    s: ArbiterState,
    calls: Seq<BusCall>,
    a: TaskId,
    b: TaskId,
    i: int,
    m: int,
    j: int,
)
    requires
        0 <= i < m < j < calls.len(),
        calls[i] == BusCall::Transfer(a),
        calls[j] == BusCall::Transfer(a),
        calls[m] == BusCall::Transfer(b),
        took_effect(s, calls, i),
        took_effect(s, calls, j),
        took_effect(s, calls, m),
        forall|k: int|
            i < k < j ==> !(calls[k] == BusCall::Release(a) && #[trigger] took_effect(
                s,
                calls,
                k,
            )),
    ensures
        b == a,
{
    assert(calls.take(i + 1).drop_last() == calls.take(i));
    assert(calls.take(i + 1).last() == calls[i]);
    lemma_holder_stays(s, calls, a, i, m);
}

/// At most one lease is out at any time.
///
/// Whatever the tasks ask of the arbiter and in whatever order: if the bus
/// is given to task `a`, and later given again, then `a` has released it in
/// between.
pub proof fn lemma_leases_do_not_overlap(
    s: ArbiterState,
    calls: Seq<BusCall>,
    a: TaskId,
    b: TaskId,
    i: int,
    j: int,
)
    requires
        0 <= i < j < calls.len(),
        calls[i] == BusCall::Acquire(a),
        calls[j] == BusCall::Acquire(b),
        took_effect(s, calls, i),
        took_effect(s, calls, j),
    ensures
        exists|k: int|
            i < k < j && calls[k] == BusCall::Release(a) && #[trigger] took_effect(s, calls, k),
{
    if !(exists|k: int|
        i < k < j && calls[k] == BusCall::Release(a) && #[trigger] took_effect(s, calls, k)) {
        assert(calls.take(i + 1).drop_last() == calls.take(i));
        assert(calls.take(i + 1).last() == calls[i]);
        lemma_holder_stays(s, calls, a, i, j);
        assert(false);
    }
}

/// A task that is turned away gets its turn.
///
/// If `late` asks for the bus while `holder` has it, it is refused and
/// noted as waiting; the holder's release is granted and frees the bus; and
/// if `late` then asks again before anybody else does, the bus is its own.
pub proof fn lemma_waiter_gets_its_turn(s: ArbiterState, holder: TaskId, late: TaskId)
    requires
        s.holder == Some(holder),
        late != holder,
    ensures
        !granted(s, BusCall::Acquire(late)),
        after(s, BusCall::Acquire(late)).waiting == Some(late),
        granted(after(s, BusCall::Acquire(late)), BusCall::Release(holder)),
        granted(
            after(after(s, BusCall::Acquire(late)), BusCall::Release(holder)),
            BusCall::Acquire(late),
        ),
        after(
            after(after(s, BusCall::Acquire(late)), BusCall::Release(holder)),
            BusCall::Acquire(late),
        ) == (ArbiterState { holder: Some(late), waiting: None }),
{
}

} // verus!
