use chromeless_shell::adapter::{
    adapter_dispatch, empty_slots, register_behavior, DispatchOutcome, Role,
};
use chromeless_shell::cell::ControllerBinding;
use chromeless_shell::procs::{main_proc_respond, ControllerOp, WM_DESTROY, WM_MOVE, WM_SIZE};

#[test]
fn registration_fills_only_the_roles_own_slot() {
    let mut slots = empty_slots();
    register_behavior(&mut slots, Role::MainFrame, 7);
    assert_eq!(slots.main_slot, Some(7));
    assert_eq!(slots.child_slot, None);
    register_behavior(&mut slots, Role::Caption, 9);
    assert_eq!(slots.main_slot, Some(7));
    assert_eq!(slots.child_slot, Some(9));
}

#[test]
fn non_destroy_messages_invoke_the_stored_unit_and_keep_it() {
    let mut slots = empty_slots();
    register_behavior(&mut slots, Role::MainFrame, 7);
    for msg in [WM_SIZE, WM_MOVE, 0x0111, WM_SIZE] {
        let o = adapter_dispatch(&mut slots, Role::MainFrame, msg);
        assert_eq!(o, DispatchOutcome::Invoke(7));
    }
    assert_eq!(slots.main_slot, Some(7));
}

#[test]
fn destroy_clears_the_slot_and_quits_exactly_once() {
    let mut slots = empty_slots();
    register_behavior(&mut slots, Role::MainFrame, 7);
    let mut quits = 0;
    for msg in [WM_SIZE, WM_MOVE, WM_DESTROY] {
        if adapter_dispatch(&mut slots, Role::MainFrame, msg) == DispatchOutcome::ReleaseAndQuit {
            quits += 1;
        }
    }
    assert_eq!(quits, 1);
    assert_eq!(slots.main_slot, None);
    // With the slot empty, later messages fall back to the default handling.
    let o = adapter_dispatch(&mut slots, Role::MainFrame, WM_SIZE);
    assert_eq!(o, DispatchOutcome::Fallback);
}

#[test]
fn each_role_dispatches_through_its_own_slot() {
    let mut slots = empty_slots();
    register_behavior(&mut slots, Role::MainFrame, 7);
    register_behavior(&mut slots, Role::Caption, 9);
    assert_eq!(adapter_dispatch(&mut slots, Role::Caption, WM_SIZE), DispatchOutcome::Invoke(9));
    assert_eq!(
        adapter_dispatch(&mut slots, Role::Caption, WM_DESTROY),
        DispatchOutcome::ReleaseAndQuit,
    );
    assert_eq!(slots.child_slot, None);
    assert_eq!(slots.main_slot, Some(7));
}

#[test]
fn main_procedure_reads_the_controller_from_the_binding() {
    let mut binding = ControllerBinding::new();
    let d = main_proc_respond(&binding, WM_SIZE, 0);
    assert_eq!(d.controller_op, None);
    binding.bind(3).unwrap();
    let d = main_proc_respond(&binding, WM_SIZE, 0);
    assert_eq!(d.controller_op, Some(ControllerOp::SetBoundsToClientRect));
}

#[test]
fn controller_binding_is_populated_at_most_once() {
    let mut binding = ControllerBinding::new();
    assert_eq!(binding.get(), None);
    assert_eq!(binding.bind(1), Ok(()));
    assert_eq!(binding.get(), Some(1));
    assert_eq!(binding.bind(2), Err(2));
    assert_eq!(binding.get(), Some(1));
    assert_eq!(binding.bind(1), Err(1));
    assert_eq!(binding.get(), Some(1));
}
