//! The liveness flag of a stream.
//!
//! The flag starts alive and is marked dead once, at teardown. The control side
//! owns the only handle that can mark it, a [`LivenessFlag`]; the render side
//! reads it through a [`LivenessObserver`]. Neither handle ever takes a lock.
//!
//! The value itself lives in an atomic cell that both handles point to. What
//! another thread has stored there is not known to Verus, so each
//! handle keeps what it knows for certain in a field of its own: the flag
//! whether it has marked the cell, the observer whether it has seen the cell
//! dead. The contracts below are stated over those fields and hold whatever
//! the cell reads.

use firewheel::collector::ArcGc;
use std::sync::atomic::{AtomicBool, Ordering};
use vstd::prelude::*;

verus! {

/// The cell that the handles of one flag share.
///
/// It holds `firewheel`'s `ArcGc<AtomicBool>`. Verus sees nothing of
/// it: `ArcGc` is bounded by a trait of `firewheel`, so it cannot be declared
/// as an outside type.
#[verifier::external_body]
#[derive(Debug)]
struct SharedFlag {
    cell: ArcGc<AtomicBool>,
}

/// `ArcGc::new`: moves `cell` behind a new shared pointer. Nothing is claimed
/// of the result.
#[verifier::external_body]
fn shared_flag_new(cell: AtomicBool) -> (flag: SharedFlag) {
    SharedFlag { cell: ArcGc::new(cell) }
}

/// `Clone::clone` of `ArcGc`: another pointer to the same cell. Nothing is
/// claimed of the result.
#[verifier::external_body]
fn shared_flag_clone(flag: &SharedFlag) -> (other: SharedFlag) {
    SharedFlag { cell: flag.cell.clone() }
}

/// `Deref::deref` of `ArcGc`: the cell behind the pointer. Nothing is claimed
/// of the result.
#[verifier::external_body]
fn shared_flag_cell(flag: &SharedFlag) -> (cell: &AtomicBool) {
    &*flag.cell
}

/// A call on the control side's handle.
pub enum FlagCall {
    /// `mark_dead`
    MarkDead,
    /// `is_alive`
    IsAlive,
}

/// Whether a flag that reads `alive` is alive after `call`.
pub open spec fn flag_after_call(alive: bool, call: FlagCall) -> bool {
    match call {
        FlagCall::MarkDead => false,
        FlagCall::IsAlive => alive,
    }
}

/// Whether a flag that reads `alive` is alive after `calls`, made in order.
pub open spec fn flag_after_calls(alive: bool, calls: Seq<FlagCall>) -> bool
    decreases calls.len(),
{
    if calls.len() == 0 {
        alive
    } else {
        flag_after_call(flag_after_calls(alive, calls.drop_last()), calls.last())
    }
}

/// A dead flag is dead after any calls.
pub proof fn lemma_dead_flag_stays_dead(calls: Seq<FlagCall>)
    ensures
        !flag_after_calls(false, calls),
    decreases calls.len(),
{
    if calls.len() > 0 {
        lemma_dead_flag_stays_dead(calls.drop_last());
    }
}

/// Once `mark_dead` has been called, `is_alive` never again returns true:
/// whatever the flag read before, whatever calls came `before` the marking and
/// whatever calls come `after` it, the flag reads dead.
pub proof fn lemma_marked_flag_never_revives(
    alive: bool,
    before: Seq<FlagCall>,
    after: Seq<FlagCall>,
)
    ensures
        !flag_after_calls(alive, before.push(FlagCall::MarkDead) + after),
    decreases after.len(),
{
    let marked = before.push(FlagCall::MarkDead);
    if after.len() == 0 {
        assert(marked + after =~= marked);
        assert(marked.drop_last() =~= before);
    } else {
        lemma_marked_flag_never_revives(alive, before, after.drop_last());
        assert((marked + after).drop_last() =~= marked + after.drop_last());
    }
}

/// The control side's handle of a liveness flag: the only one that can mark
/// the flag dead.
#[derive(Debug)]
pub struct LivenessFlag {
    shared: SharedFlag,
    marked: bool,
}

impl View for LivenessFlag {
    type V = bool;

    /// Whether the flag is alive: whether this handle has not marked it.
    closed spec fn view(&self) -> bool {
        !self.marked
    }
}

impl LivenessFlag {
    /// A flag that is alive.
    pub fn new() -> (flag: Self)
        ensures
            flag@,
    {
        LivenessFlag { shared: shared_flag_new(AtomicBool::new(true)), marked: false }
    }

    /// Marks the flag dead. It may be called any number of times.
    pub fn mark_dead(&mut self)
        ensures
            final(self)@ == flag_after_call(old(self)@, FlagCall::MarkDead),
    {
        shared_flag_cell(&self.shared).store(false, Ordering::Relaxed);
        self.marked = true;
    }

    /// Whether the flag is alive. As this handle is the only one that marks the
    /// flag, it answers from what it has done itself.
    pub fn is_alive(&self) -> (alive: bool)
        ensures
            alive == self@,
            self@ == flag_after_call(self@, FlagCall::IsAlive),
    {
        !self.marked
    }

    /// A handle for the render side. It knows of the flag what this handle
    /// knows: the observer of a flag that was marked dead starts out having
    /// seen it dead.
    pub fn observer(&self) -> (observer: LivenessObserver)
        ensures
            observer@ == !self@,
    {
        LivenessObserver { shared: shared_flag_clone(&self.shared), seen_dead: self.marked }
    }
}

/// What an observer answers when it has or has not `seen_dead` the flag and
/// the shared cell reads `loaded`.
pub open spec fn observed_alive(seen_dead: bool, loaded: bool) -> bool {
    !seen_dead && loaded
}

/// Whether an observer has seen the flag dead after it read `loads` from the
/// shared cell, in order.
pub open spec fn seen_dead_after(seen_dead: bool, loads: Seq<bool>) -> bool
    decreases loads.len(),
{
    if loads.len() == 0 {
        seen_dead
    } else {
        !observed_alive(seen_dead_after(seen_dead, loads.drop_last()), loads.last())
    }
}

/// An observer that has seen the flag dead never again answers that it is
/// alive, whatever the shared cell reads from then on.
pub proof fn lemma_observer_never_revives(loads: Seq<bool>, next: bool)
    ensures
        seen_dead_after(true, loads),
        !observed_alive(seen_dead_after(true, loads), next),
    decreases loads.len(),
{
    if loads.len() > 0 {
        lemma_observer_never_revives(loads.drop_last(), loads.last());
    }
}

/// The render side's handle of a liveness flag. It reads the flag and cannot
/// mark it.
#[derive(Debug)]
pub struct LivenessObserver {
    shared: SharedFlag,
    seen_dead: bool,
}

impl View for LivenessObserver {
    type V = bool;

    /// Whether this handle has seen the flag dead.
    closed spec fn view(&self) -> bool {
        self.seen_dead
    }
}

impl LivenessObserver {
    /// Takes note of `loaded`, a value read from the shared cell, and answers
    /// whether the flag is alive.
    pub fn observe(&mut self, loaded: bool) -> (alive: bool)
        ensures
            alive == observed_alive(old(self)@, loaded),
            final(self)@ == !alive,
    {
        let alive = !self.seen_dead && loaded;
        self.seen_dead = !alive;
        alive
    }

    /// Whether the flag is alive, as far as this side has seen. Once the answer
    /// was false it stays false.
    pub fn is_alive(&mut self) -> (alive: bool)
        ensures
            old(self)@ ==> !alive,
            final(self)@ == !alive,
    {
        if self.seen_dead {
            false
        } else {
            let loaded = shared_flag_cell(&self.shared).load(Ordering::Relaxed);
            self.observe(loaded)
        }
    }
}

} // verus!
