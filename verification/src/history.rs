//! Histories of calls on the supervisor, and what holds after every one of
//! them.

use crate::supervisor::{admits, slot_after_launch};
use vstd::prelude::*;

verus! {

/// One call on the supervisor, together with what the outside world answers
/// where the call gets as far as asking.
pub enum Call<H> {
    /// A start: `written` is the outcome of the configuration write and
    /// `spawned` that of the launch.
    Start { written: Result<String, String>, spawned: Result<H, String> },
    /// A stop.
    Stop,
}

impl<H> Call<H> {
    /// Whether this call, made while the slot holds `slot`, gets as far as
    /// the launch: a start that is admitted and whose configuration was
    /// written.
    pub open spec fn launches(self, slot: Option<H>) -> bool {
        self matches Call::Start { written, .. } && admits(slot) && written is Ok
    }

    /// Whether this call, made while the slot holds `slot`, takes in a child:
    /// it gets as far as the launch, and the launch gives one.
    pub open spec fn takes_in(self, slot: Option<H>) -> bool {
        self matches Call::Start { spawned, .. } && self.launches(slot) && spawned is Ok
    }

    /// Whether this call, made while the slot holds `slot`, hands a child out
    /// to be terminated: a stop while one is held.
    pub open spec fn hands_out(self, slot: Option<H>) -> bool {
        self is Stop && slot is Some
    }

    /// What the slot holds after this call, made while it holds `slot`.
    pub open spec fn slot_after(self, slot: Option<H>) -> Option<H> {
        match self {
            Call::Start { written, spawned } => if self.launches(slot) {
                slot_after_launch(spawned)
            } else {
                slot
            },
            Call::Stop => None,
        }
    }
}

/// What the slot of a new supervisor holds after the calls of `calls`, made
/// one after the other.
pub open spec fn slot_after_all<H>(calls: Seq<Call<H>>) -> Option<H>
    decreases calls.len(),
{
    if calls.len() == 0 {
        None
    } else {
        calls.last().slot_after(slot_after_all(calls.drop_last()))
    }
}

/// How many children the calls of `calls` took in.
pub open spec fn taken_in<H>(calls: Seq<Call<H>>) -> nat
    decreases calls.len(),
{
    if calls.len() == 0 {
        0
    } else {
        let before = calls.drop_last();
        let now: nat = if calls.last().takes_in(slot_after_all(before)) {
            1
        } else {
            0
        };
        taken_in(before) + now
    }
}

/// How many children the calls of `calls` handed out to be terminated.
pub open spec fn handed_out<H>(calls: Seq<Call<H>>) -> nat
    decreases calls.len(),
{
    if calls.len() == 0 {
        0
    } else {
        let before = calls.drop_last();
        let now: nat = if calls.last().hands_out(slot_after_all(before)) {
            1
        } else {
            0
        };
        handed_out(before) + now
    }
}

/// How many child handles the slot `slot` holds.
pub open spec fn held<H>(slot: Option<H>) -> nat {
    if slot is Some {
        1
    } else {
        0
    }
}

/// After every history of starts and stops, whatever the outside world
/// answered, the children that were taken in and not handed out to be
/// terminated are exactly those in the slot: none is lost, and there is at
/// most one.
pub proof fn lemma_at_most_one_child<H>(calls: Seq<Call<H>>)
    ensures
        taken_in(calls) == handed_out(calls) + held(slot_after_all(calls)),
        taken_in(calls) - handed_out(calls) <= 1,
    decreases calls.len(),
{
    if calls.len() > 0 {
        lemma_at_most_one_child(calls.drop_last());
    }
}

/// A start made while a child is held leaves the slot as it was, launches
/// nothing and takes in no child, whatever the outside world would answer.
pub proof fn lemma_start_while_running_changes_nothing<H>(
    child: H,
    written: Result<String, String>,
    spawned: Result<H, String>,
)
    ensures
        !admits(Some(child)),
        !(Call::Start { written, spawned }).launches(Some(child)),
        !(Call::Start { written, spawned }).takes_in(Some(child)),
        (Call::Start { written, spawned }).slot_after(Some(child)) == Some(child),
{
}

/// A start made right after a stop is admitted, whatever came before.
pub proof fn lemma_start_after_stop_is_admitted<H>(calls: Seq<Call<H>>)
    ensures
        admits(slot_after_all(calls.push(Call::Stop))),
{
    assert(calls.push(Call::Stop).last() == Call::<H>::Stop);
}

} // verus!
