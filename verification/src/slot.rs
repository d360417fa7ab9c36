//! The single shared slot holding the live backend process handle.
//!
//! Every shutdown trigger funnels through one operation: take the handle out
//! of the slot, and only if one was present, have the driver send the kill
//! signal. Taking empties the slot, so however many triggers fire, exactly
//! one of them obtains the handle and the rest observe "already gone". The
//! driver wraps the slot in its mutual-exclusion lock; the lock makes the
//! takes sequential, and the laws here say what any sequence of takes does.

use vstd::prelude::*;

verus! {

/// A shared storage cell for the handle of the running backend process.
/// `None` means no backend is running: never started, or already handed out
/// for termination.
pub struct ProcessSlot<T> {
    contents: Option<T>,
}

impl<T> View for ProcessSlot<T> {
    type V = Option<T>;

    closed spec fn view(&self) -> Option<T> {
        self.contents
    }
}

/// What one termination attempt does to a slot in state `before`: the caller
/// is handed the stored handle, and the slot is empty afterwards either way.
pub open spec fn take_model<T>(before: Option<T>) -> (Option<T>, Option<T>) {
    (before, None::<T>)
}

impl<T> ProcessSlot<T> {
    /// A fresh slot: no backend is running.
    pub fn new() -> (s: Self)
        ensures
            s@ is None,
    {
        ProcessSlot { contents: None }
    }

    /// Whether the slot currently holds no handle.
    pub fn is_empty(&self) -> (r: bool)
        ensures
            r == (self@ is None),
    {
        self.contents.is_none()
    }

    /// Stores the handle of a freshly launched backend. Called once per
    /// launch, from the startup path, while the slot is still empty; a
    /// second install would silently drop a live process.
    pub fn install(&mut self, handle: T)
        requires
            old(self)@ is None,
        ensures
            final(self)@ == Some(handle),
    {
        self.contents = Some(handle);
    }

    /// Takes the handle out for termination. The slot is empty afterwards,
    /// so of any number of callers, exactly the first one after an install
    /// obtains the handle and must issue the kill signal; all later callers
    /// get `None` and do nothing.
    pub fn take_for_termination(&mut self) -> (r: Option<T>)
        ensures
            (r, final(self)@) == take_model::<T>(old(self)@),
    {
        self.contents.take()
    }
}

/// The results that `n` successive termination attempts observe, starting
/// from a slot in state `s`, each attempt acting as `take_model` says.
pub open spec fn termination_results<T>(s: Option<T>, n: nat) -> Seq<Option<T>>
    decreases n,
{
    if n == 0 {
        Seq::empty()
    } else {
        seq![take_model::<T>(s).0] + termination_results::<T>(take_model::<T>(s).1, (n - 1) as nat)
    }
}

/// How many of the observed results carried a handle.
pub open spec fn handles_obtained<T>(rs: Seq<Option<T>>) -> nat
    decreases rs.len(),
{
    if rs.len() == 0 {
        0
    } else {
        handles_obtained(rs.drop_first()) + (if rs[0] is Some {
            1nat
        } else {
            0nat
        })
    }
}

/// An empty slot stays empty: every one of `n` termination attempts against
/// it observes `None`, and none obtains a handle.
pub proof fn lemma_empty_slot_stays_empty<T>(n: nat)
    ensures
        termination_results::<T>(None::<T>, n).len() == n,
        forall|i: int| 0 <= i < n ==> termination_results::<T>(None::<T>, n)[i] is None,
        handles_obtained(termination_results::<T>(None::<T>, n)) == 0,
    decreases n,
{
    if n > 0 {
        lemma_empty_slot_stays_empty::<T>((n - 1) as nat);
        let rest = termination_results::<T>(None::<T>, (n - 1) as nat);
        assert((seq![None::<T>] + rest).drop_first() =~= rest);
    }
}

/// Termination is idempotent: of `n >= 1` termination attempts, the handle
/// is obtained exactly once if one was installed and never otherwise, and
/// every attempt after the first observes an empty slot.
pub proof fn lemma_termination_idempotent<T>(s: Option<T>, n: nat)
    requires
        n >= 1,
    ensures
        termination_results::<T>(s, n).len() == n,
        termination_results::<T>(s, n)[0] == s,
        forall|i: int| 1 <= i < n ==> termination_results::<T>(s, n)[i] is None,
        handles_obtained(termination_results::<T>(s, n)) == (if s is Some {
            1nat
        } else {
            0nat
        }),
    decreases n,
{
    lemma_empty_slot_stays_empty::<T>((n - 1) as nat);
    let rest = termination_results::<T>(None::<T>, (n - 1) as nat);
    assert((seq![s] + rest).drop_first() =~= rest);
}

/// After `install(h)`, any positive number of termination attempts leaves
/// the slot holding `None`: the first attempt obtains exactly `h`, and every
/// later attempt finds nothing to kill.
pub proof fn lemma_slot_drained<T>(h: T, n: nat)
    requires
        n >= 1,
    ensures
        termination_results::<T>(Some(h), n)[0] == Some(h),
        forall|i: int| 1 <= i < n ==> termination_results::<T>(Some(h), n)[i] is None,
        handles_obtained(termination_results::<T>(Some(h), n)) == 1,
    decreases n,
{
    lemma_termination_idempotent::<T>(Some(h), n);
}

} // verus!
