//! Lifecycle of the closure-to-native-callback adapter.
//!
//! The native API accepts only a stateless function pointer as a window
//! procedure, so each window role (main frame, caption child) keeps one
//! process-wide slot holding the address of its heap-allocated behavior unit.
//! This module models the two slots and decides, for each dispatched message,
//! whether the callback must release the unit and post the quit signal (on the
//! destroy notification), invoke the stored unit, or fall back to the default
//! native handling. Each role resolves the unit from its own slot.

use vstd::prelude::*;
use crate::procs::WM_DESTROY;

verus! {

/// The window role a registration or a dispatch belongs to.
#[derive(Clone, Copy, PartialEq, Eq, Structural, Debug)]
pub enum Role {
    MainFrame,
    Caption,
}

/// The two process-wide registration slots, one per role. A slot holds the
/// address of the heap-allocated behavior unit serving that role, or nothing.
#[derive(Clone, Copy, PartialEq, Eq, Debug)]
pub struct ProcSlots {
    pub main_slot: Option<u64>,
    pub child_slot: Option<u64>,
}

/// The slot a role owns.
pub open spec fn slot_of(slots: ProcSlots, role: Role) -> Option<u64> {
    match role {
        Role::MainFrame => slots.main_slot,
        Role::Caption => slots.child_slot,
    }
}

/// What the adapter-produced callback does with one dispatched message.
#[derive(Clone, Copy, PartialEq, Eq, Structural, Debug)]
pub enum DispatchOutcome {
    /// The destroy notification: release the behavior unit, clear the slot,
    /// post the quit signal, and return zero. The unit is not invoked.
    ReleaseAndQuit,
    /// Invoke the stored behavior unit at this address with the message.
    Invoke(u64),
    /// No unit is stored: fall back to the default native handling.
    Fallback,
}

/// How one dispatch changes a role's slot: the destroy notification empties
/// it, every other message leaves it as it is.
pub open spec fn spec_dispatch_slot(slot: Option<u64>, msg: u32) -> Option<u64> {
    if msg == WM_DESTROY {
        None
    } else {
        slot
    }
}

/// What one dispatch does, given the role's slot and the message.
pub open spec fn spec_dispatch_outcome(slot: Option<u64>, msg: u32) -> DispatchOutcome {
    if msg == WM_DESTROY {
        DispatchOutcome::ReleaseAndQuit
    } else {
        match slot {
            Some(unit) => DispatchOutcome::Invoke(unit),
            None => DispatchOutcome::Fallback,
        }
    }
}

/// Fresh slots: nothing registered for either role.
pub fn empty_slots() -> (s: ProcSlots)
    ensures
        s.main_slot is None,
        s.child_slot is None,
{
    ProcSlots { main_slot: None, child_slot: None }
}

/// Record a behavior unit's address in its role's slot, as registration does
/// when it hands the native API the role's callback pointer. The other role's
/// slot is untouched.
pub fn register_behavior(slots: &mut ProcSlots, role: Role, unit: u64)
    ensures
        slot_of(*final(slots), role) == Some(unit),
        role != Role::MainFrame ==> final(slots).main_slot == old(slots).main_slot,
        role != Role::Caption ==> final(slots).child_slot == old(slots).child_slot,
{
    match role {
        Role::MainFrame => slots.main_slot = Some(unit),
        Role::Caption => slots.child_slot = Some(unit),
    }
}

/// Decide what the callback for `role` does with one dispatched message, and
/// update the role's slot accordingly: the destroy notification clears the
/// slot and asks for the quit signal; any other message leaves both slots
/// unchanged and invokes the stored unit, or falls back to the default
/// handling when none is stored.
pub fn adapter_dispatch(slots: &mut ProcSlots, role: Role, msg: u32) -> (o: DispatchOutcome)
    ensures
        o == spec_dispatch_outcome(slot_of(*old(slots), role), msg),
        slot_of(*final(slots), role) == spec_dispatch_slot(slot_of(*old(slots), role), msg),
        role != Role::MainFrame ==> final(slots).main_slot == old(slots).main_slot,
        role != Role::Caption ==> final(slots).child_slot == old(slots).child_slot,
{
    if msg == WM_DESTROY {
        match role {
            Role::MainFrame => slots.main_slot = None,
            Role::Caption => slots.child_slot = None,
        }
        DispatchOutcome::ReleaseAndQuit
    } else {
        let stored: Option<u64> = match role {
            Role::MainFrame => slots.main_slot,
            Role::Caption => slots.child_slot,
        };
        match stored {
            Some(unit) => DispatchOutcome::Invoke(unit),
            None => DispatchOutcome::Fallback,
        }
    }
}

/// A role's slot after a whole sequence of dispatches.
pub open spec fn spec_run_slot(slot: Option<u64>, msgs: Seq<u32>) -> Option<u64>
    decreases msgs.len(),
{
    if msgs.len() == 0 {
        slot
    } else {
        spec_run_slot(spec_dispatch_slot(slot, msgs[0]), msgs.drop_first())
    }
}

/// How many dispatches of the sequence post the quit signal.
pub open spec fn spec_quit_count(slot: Option<u64>, msgs: Seq<u32>) -> nat
    decreases msgs.len(),
{
    if msgs.len() == 0 {
        0
    } else {
        (if spec_dispatch_outcome(slot, msgs[0]) == DispatchOutcome::ReleaseAndQuit {
            1nat
        } else {
            0nat
        }) + spec_quit_count(spec_dispatch_slot(slot, msgs[0]), msgs.drop_first())
    }
}

/// Law: after a behavior unit is registered for a role, any number of
/// non-destroy dispatches leaves the role's slot populated with that unit and
/// posts no quit signal; the destroy dispatch that follows them clears the
/// slot and posts the quit signal exactly once.
pub proof fn lemma_adapter_lifecycle(unit: u64, msgs: Seq<u32>)
    requires
        forall|i: int| 0 <= i < msgs.len() ==> msgs[i] != WM_DESTROY,
    ensures
        spec_run_slot(Some(unit), msgs) == Some(unit),
        spec_quit_count(Some(unit), msgs) == 0,
        spec_run_slot(Some(unit), msgs.push(WM_DESTROY)) is None,
        spec_quit_count(Some(unit), msgs.push(WM_DESTROY)) == 1,
    decreases msgs.len(),
{
    let p = msgs.push(WM_DESTROY);
    if msgs.len() == 0 {
        assert(p[0] == WM_DESTROY);
        assert(p.drop_first() =~= Seq::<u32>::empty());
        assert(spec_run_slot(None::<u64>, p.drop_first()) is None);
        assert(spec_quit_count(None::<u64>, p.drop_first()) == 0);
        assert(spec_run_slot(Some(unit), p) is None);
        assert(spec_quit_count(Some(unit), p) == 1);
    } else {
        assert(forall|i: int|
            0 <= i < msgs.drop_first().len() ==> msgs.drop_first()[i] == msgs[i + 1]);
        lemma_adapter_lifecycle(unit, msgs.drop_first());
        assert(msgs[0] != WM_DESTROY);
        assert(spec_run_slot(Some(unit), msgs) == spec_run_slot(Some(unit), msgs.drop_first()));
        assert(spec_quit_count(Some(unit), msgs) == spec_quit_count(Some(unit), msgs.drop_first()));
        assert(p[0] == msgs[0]);
        assert(p.drop_first() =~= msgs.drop_first().push(WM_DESTROY));
        assert(spec_run_slot(Some(unit), p) == spec_run_slot(
            Some(unit),
            msgs.drop_first().push(WM_DESTROY),
        ));
        assert(spec_quit_count(Some(unit), p) == spec_quit_count(
            Some(unit),
            msgs.drop_first().push(WM_DESTROY),
        ));
    }
}

} // verus!
