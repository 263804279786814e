//! Who keeps the worker alive, and who shuts it down.
//!
//! Every client handle and every response in use is a holder of the worker.
//! The worker runs while it has a holder. The release that takes the last
//! holder away closes the queue, which is the worker's only signal to stop,
//! and then hands the thread's handle to the releaser, who joins it. This
//! happens once; a release after it finds nothing to do.

use vstd::prelude::*;
use crate::worker::{WorkerAction, WorkerEvent, WorkerPhase, worker_action, worker_phase_after};

verus! {

/// The sending half of the queue and the handle of the worker's thread,
/// with the number of holders that share them. `S` is the sending half;
/// dropping it closes the queue. `H` is the thread's handle.
pub struct WorkerState<S, H> {
    sender: Option<S>,
    thread: Option<H>,
    holders: u64,
}

/// The mathematical value of a [`WorkerState`].
pub struct WorkerView<S, H> {
    pub sender: Option<S>,
    pub thread: Option<H>,
    pub holders: nat,
}

impl<S, H> WorkerView<S, H> {
    /// The sender and the thread's handle are present together, and exactly
    /// while there is a holder.
    pub open spec fn wf(self) -> bool {
        &&& self.holders > 0 <==> self.sender is Some
        &&& self.sender is Some <==> self.thread is Some
    }

    /// Whether the worker is kept alive.
    pub open spec fn running(self) -> bool {
        self.holders > 0
    }

    /// The state after one more holder joined. A worker that was shut down
    /// takes no holder.
    pub open spec fn acquire(self) -> Self {
        if self.holders > 0 {
            WorkerView { sender: self.sender, thread: self.thread, holders: self.holders + 1 }
        } else {
            self
        }
    }

    /// The state after one holder left. With the last holder the sender and
    /// the thread's handle leave too.
    pub open spec fn release(self) -> Self {
        if self.holders == 1 {
            WorkerView { sender: None, thread: None, holders: 0 }
        } else if self.holders > 1 {
            WorkerView { sender: self.sender, thread: self.thread, holders: (self.holders - 1) as nat }
        } else {
            self
        }
    }

    /// The handle that a release hands out for joining: the thread's, when
    /// the release takes the last holder away, and none otherwise.
    pub open spec fn joined_on_release(self) -> Option<H> {
        if self.holders == 1 {
            self.thread
        } else {
            None
        }
    }
}

impl<S, H> View for WorkerState<S, H> {
    type V = WorkerView<S, H>;

    closed spec fn view(&self) -> WorkerView<S, H> {
        WorkerView { sender: self.sender, thread: self.thread, holders: self.holders as nat }
    }
}

impl<S, H> WorkerState<S, H> {
    #[verifier::type_invariant]
    spec fn inv(self) -> bool {
        self@.wf()
    }

    /// The state of a worker that has just started, with its first holder.
    pub fn new(sender: S, thread: H) -> (state: Self)
        ensures
            state@ == (WorkerView { sender: Some(sender), thread: Some(thread), holders: 1 }),
            state@.wf(),
    {
        WorkerState { sender: Some(sender), thread: Some(thread), holders: 1 }
    }

    /// The number of holders.
    pub fn holders(&self) -> (count: u64)
        ensures
            count == self@.holders,
            self@.wf(),
    {
        proof {
            use_type_invariant(self);
        }
        self.holders
    }

    /// Whether the worker is kept alive.
    pub fn is_running(&self) -> (running: bool)
        ensures
            running == self@.running(),
            self@.wf(),
    {
        proof {
            use_type_invariant(self);
        }
        self.holders > 0
    }

    /// The sending half of the queue, while the worker is kept alive.
    pub fn sender(&self) -> (sender: Option<&S>)
        ensures
            sender is Some <==> self@.running(),
            sender is Some ==> self@.sender == Some(*sender->Some_0),
    {
        proof {
            use_type_invariant(self);
        }
        self.sender.as_ref()
    }

    /// Adds a holder, and says whether it did. A worker that was shut down
    /// takes no holder, and the count of holders does not wrap.
    pub fn acquire(&mut self) -> (granted: bool)
        ensures
            granted == (old(self)@.running() && old(self)@.holders < u64::MAX),
            granted ==> final(self)@ == old(self)@.acquire(),
            !granted ==> final(self)@ == old(self)@,
            old(self)@.wf(),
            final(self)@.wf(),
    {
        proof {
            use_type_invariant(&*self);
        }
        if self.holders == 0 || self.holders == u64::MAX {
            false
        } else {
            let mut taken = WorkerState { sender: None, thread: None, holders: 0 };
            core::mem::swap(self, &mut taken);
            let WorkerState { sender, thread, holders } = taken;
            *self = WorkerState { sender, thread, holders: holders + 1 };
            true
        }
    }

    /// Takes one holder away. The release that takes the last one drops the
    /// sender, which closes the queue, and only then returns the handle of
    /// the worker's thread: the caller joins it before it goes on. Any other
    /// release returns `None`, also one that finds the worker shut down.
    pub fn release(&mut self) -> (joined: Option<H>)
        ensures
            final(self)@ == old(self)@.release(),
            joined == old(self)@.joined_on_release(),
            old(self)@.wf(),
            final(self)@.wf(),
    {
        proof {
            use_type_invariant(&*self);
        }
        if self.holders == 0 {
            None
        } else {
            let mut taken = WorkerState { sender: None, thread: None, holders: 0 };
            core::mem::swap(self, &mut taken);
            let WorkerState { sender, thread, holders } = taken;
            if holders == 1 {
                let _closed = sender;
                thread
            } else {
                *self = WorkerState { sender, thread, holders: holders - 1 };
                None
            }
        }
    }
}

/// What a holder does to the count: a clone of a client handle or a response
/// handed to a caller acquires, a drop of either releases.
#[derive(Clone, Copy, Debug, PartialEq, Eq, Structural)]
pub enum HolderEvent {
    Acquire,
    Release,
}

/// The state that `events`, applied in order, leave behind.
pub open spec fn state_after<S, H>(start: WorkerView<S, H>, events: Seq<HolderEvent>) -> WorkerView<S, H>
    decreases events.len(),
{
    if events.len() == 0 {
        start
    } else {
        let before = state_after(start, events.drop_last());
        match events.last() {
            HolderEvent::Acquire => before.acquire(),
            HolderEvent::Release => before.release(),
        }
    }
}

/// How many of `events` handed the thread's handle out for joining.
pub open spec fn joins_during<S, H>(start: WorkerView<S, H>, events: Seq<HolderEvent>) -> nat
    decreases events.len(),
{
    if events.len() == 0 {
        0
    } else {
        let before = state_after(start, events.drop_last());
        let earlier = joins_during(start, events.drop_last());
        if events.last() == HolderEvent::Release && before.joined_on_release() is Some {
            earlier + 1
        } else {
            earlier
        }
    }
}

/// `count` times the same event.
pub open spec fn repeated(event: HolderEvent, count: nat) -> Seq<HolderEvent> {
    Seq::new(count, |i: int| event)
}

/// Acquiring and releasing keep a state well formed.
pub proof fn lemma_state_after_wf<S, H>(start: WorkerView<S, H>, events: Seq<HolderEvent>)
    requires
        start.wf(),
    ensures
        state_after(start, events).wf(),
    decreases events.len(),
{
    if events.len() > 0 {
        lemma_state_after_wf(start, events.drop_last());
    }
}

/// Events applied one run after another are applied as one run.
pub proof fn lemma_state_after_concat<S, H>(start: WorkerView<S, H>, first: Seq<HolderEvent>, then: Seq<HolderEvent>)
    ensures
        state_after(start, first + then) == state_after(state_after(start, first), then),
        joins_during(start, first + then) == joins_during(start, first) + joins_during(
            state_after(start, first),
            then,
        ),
    decreases then.len(),
{
    if then.len() == 0 {
        assert(first + then == first);
    } else {
        assert((first + then).drop_last() == first + then.drop_last());
        assert((first + then).last() == then.last());
        lemma_state_after_concat(start, first, then.drop_last());
    }
}

/// A running worker that gains `count` holders keeps its sender and its
/// thread, and nobody is handed the thread for joining.
pub proof fn lemma_after_acquires<S, H>(start: WorkerView<S, H>, count: nat)
    requires
        start.running(),
    ensures
        state_after(start, repeated(HolderEvent::Acquire, count)) == (WorkerView {
            sender: start.sender,
            thread: start.thread,
            holders: start.holders + count,
        }),
        joins_during(start, repeated(HolderEvent::Acquire, count)) == 0,
    decreases count,
{
    let events = repeated(HolderEvent::Acquire, count);
    if count > 0 {
        assert(events.drop_last() == repeated(HolderEvent::Acquire, (count - 1) as nat));
        lemma_after_acquires(start, (count - 1) as nat);
    }
}

/// A worker that loses fewer holders than it has keeps its sender and its
/// thread, and nobody is handed the thread for joining.
pub proof fn lemma_after_releases<S, H>(start: WorkerView<S, H>, count: nat)
    requires
        count < start.holders,
    ensures
        state_after(start, repeated(HolderEvent::Release, count)) == (WorkerView {
            sender: start.sender,
            thread: start.thread,
            holders: (start.holders - count) as nat,
        }),
        joins_during(start, repeated(HolderEvent::Release, count)) == 0,
    decreases count,
{
    let events = repeated(HolderEvent::Release, count);
    if count > 0 {
        assert(events.drop_last() == repeated(HolderEvent::Release, (count - 1) as nat));
        lemma_after_releases(start, (count - 1) as nat);
    }
}

/// A worker that loses every holder it has is shut down, and exactly one of
/// the releases, the last, was handed the thread for joining.
pub proof fn lemma_after_all_releases<S, H>(start: WorkerView<S, H>)
    requires
        start.wf(),
        start.running(),
    ensures
        state_after(start, repeated(HolderEvent::Release, start.holders)) == (WorkerView::<S, H> {
            sender: None,
            thread: None,
            holders: 0,
        }),
        joins_during(start, repeated(HolderEvent::Release, start.holders)) == 1,
{
    let events = repeated(HolderEvent::Release, start.holders);
    assert(events.drop_last() == repeated(HolderEvent::Release, (start.holders - 1) as nat));
    lemma_after_releases(start, (start.holders - 1) as nat);
}

/// The thread of a worker is handed out for joining at most once, whatever
/// the holders do and in whatever order; it is handed out exactly when a
/// worker that was running has lost its last holder.
pub proof fn law_worker_joined_at_most_once<S, H>(start: WorkerView<S, H>, events: Seq<HolderEvent>)
    requires
        start.wf(),
    ensures
        joins_during(start, events) <= 1,
        joins_during(start, events) == 1 <==> start.running() && !state_after(start, events).running(),
    decreases events.len(),
{
    if !start.running() {
        law_shut_down_is_final(start, events);
    } else if events.len() > 0 {
        law_worker_joined_at_most_once(start, events.drop_last());
        lemma_state_after_wf(start, events.drop_last());
    }
}

/// A worker that was shut down stays shut down: no later acquire or release
/// brings the sender or the thread back.
pub proof fn law_shut_down_is_final<S, H>(start: WorkerView<S, H>, events: Seq<HolderEvent>)
    requires
        start.wf(),
        !start.running(),
    ensures
        state_after(start, events) == start,
        joins_during(start, events) == 0,
    decreases events.len(),
{
    if events.len() > 0 {
        law_shut_down_is_final(start, events.drop_last());
    }
}

/// After `clones` clones of a client handle and the drop of all of them but
/// one, the worker still runs with the sender it had, so that a request can
/// still be submitted, and nobody was handed the thread for joining.
pub proof fn law_clones_keep_worker_running<S, H>(start: WorkerView<S, H>, clones: nat)
    requires
        start.wf(),
        start.running(),
        clones >= 1,
    ensures
        state_after(
            start,
            repeated(HolderEvent::Acquire, clones) + repeated(HolderEvent::Release, (clones - 1) as nat),
        ) == (WorkerView { sender: start.sender, thread: start.thread, holders: start.holders + 1 }),
        state_after(
            start,
            repeated(HolderEvent::Acquire, clones) + repeated(HolderEvent::Release, (clones - 1) as nat),
        ).running(),
        joins_during(
            start,
            repeated(HolderEvent::Acquire, clones) + repeated(HolderEvent::Release, (clones - 1) as nat),
        ) == 0,
{
    let cloned = repeated(HolderEvent::Acquire, clones);
    let dropped = repeated(HolderEvent::Release, (clones - 1) as nat);
    lemma_after_acquires(start, clones);
    lemma_after_releases(state_after(start, cloned), (clones - 1) as nat);
    lemma_state_after_concat(start, cloned, dropped);
}

/// The release of the last holder shuts the worker down: the sender is gone,
/// which closes the queue, and the releaser is handed the thread to join
/// before it goes on. The worker, for its part, exits when it finds the
/// queue closed and empty.
pub proof fn law_last_release_shuts_down<S, H, P>(start: WorkerView<S, H>)
    requires
        start.wf(),
        start.holders == 1,
    ensures
        start.release() == (WorkerView::<S, H> { sender: None, thread: None, holders: 0 }),
        start.joined_on_release() is Some,
        start.joined_on_release() == start.thread,
        joins_during(start, seq![HolderEvent::Release]) == 1,
        worker_phase_after(WorkerPhase::Serving, WorkerEvent::<P>::Received(None)) == WorkerPhase::Exited,
        worker_action(WorkerPhase::Serving, WorkerEvent::<P>::Received(None)) == WorkerAction::<P>::Exit,
{
    let events = seq![HolderEvent::Release];
    assert(events.drop_last().len() == 0);
    assert(events.last() == HolderEvent::Release);
    assert(state_after(start, events.drop_last()) == start);
    assert(joins_during(start, events.drop_last()) == 0);
}

/// A worker held by `clients` client handles and by `readers` responses, at
/// least one, still runs once every client handle is dropped. Once the
/// responses are dropped too it is shut down, and exactly one release was
/// handed the thread for joining.
pub proof fn law_responses_keep_worker_running<S, H>(start: WorkerView<S, H>, clients: nat, readers: nat)
    requires
        start.wf(),
        start.holders == clients + readers,
        readers >= 1,
    ensures
        state_after(start, repeated(HolderEvent::Release, clients)) == (WorkerView {
            sender: start.sender,
            thread: start.thread,
            holders: readers,
        }),
        state_after(start, repeated(HolderEvent::Release, clients)).running(),
        joins_during(start, repeated(HolderEvent::Release, clients)) == 0,
        !state_after(
            start,
            repeated(HolderEvent::Release, clients) + repeated(HolderEvent::Release, readers),
        ).running(),
        joins_during(
            start,
            repeated(HolderEvent::Release, clients) + repeated(HolderEvent::Release, readers),
        ) == 1,
{
    let first = repeated(HolderEvent::Release, clients);
    let then = repeated(HolderEvent::Release, readers);
    lemma_after_releases(start, clients);
    let midway = state_after(start, first);
    lemma_after_all_releases(midway);
    lemma_state_after_concat(start, first, then);
}

} // verus!
