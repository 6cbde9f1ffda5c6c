use chromeless_shell::layout::{
    placement_of_rect, scale_by_dpi, main_window_size, child_window_placement, Placement, Rect,
    MAIN_WINDOW_STYLE, CHILD_WINDOW_STYLE,
};
use chromeless_shell::procs::{
    caption_drag_message, child_proc_decide, main_proc_decide, op_failure_is_fatal,
    web_message_to_host, ControllerOp, SyntheticMessage, HTCAPTION, REPOSITION_FLAGS, SC_MINIMIZE,
    SC_RESTORE, WM_DPICHANGED, WM_LBUTTONDOWN, WM_MOVE, WM_NCLBUTTONDOWN, WM_SIZE, WM_SYSCOMMAND,
};

#[test]
fn dpi_scaling_at_150_percent_gives_900_by_600() {
    assert_eq!(scale_by_dpi(600, 144), 900);
    assert_eq!(scale_by_dpi(400, 144), 600);
    assert_eq!(main_window_size(144), (900, 600));
}

#[test]
fn dpi_scaling_at_baseline_is_identity() {
    assert_eq!(scale_by_dpi(600, 96), 600);
    assert_eq!(scale_by_dpi(400, 96), 400);
    assert_eq!(main_window_size(96), (600, 400));
}

#[test]
fn size_and_move_without_controller_do_nothing_and_return_zero() {
    for msg in [WM_SIZE, WM_MOVE] {
        let d = main_proc_decide(msg, 0, false);
        assert_eq!(d.controller_op, None);
        assert!(!d.reposition);
        assert!(!d.use_default);
        assert_eq!(d.result, 0);
    }
}

#[test]
fn size_and_move_with_controller_sync_it() {
    let d = main_proc_decide(WM_SIZE, 0, true);
    assert_eq!(d.controller_op, Some(ControllerOp::SetBoundsToClientRect));
    assert!(!d.use_default);
    let d = main_proc_decide(WM_MOVE, 0, true);
    assert_eq!(d.controller_op, Some(ControllerOp::NotifyMoved));
    assert!(!d.use_default);
}

#[test]
fn minimize_then_restore_hides_once_then_shows_once() {
    let mut ops: Vec<ControllerOp> = Vec::new();
    for w_param in [SC_MINIMIZE, SC_RESTORE] {
        let d = main_proc_decide(WM_SYSCOMMAND, w_param, true);
        if let Some(op) = d.controller_op {
            ops.push(op);
        }
        assert!(d.use_default);
        assert!(!d.reposition);
    }
    assert_eq!(ops, vec![ControllerOp::Hide, ControllerOp::Show]);
}

#[test]
fn other_sys_commands_only_take_the_default_path() {
    let d = main_proc_decide(WM_SYSCOMMAND, 0xF060, true);
    assert_eq!(d.controller_op, None);
    assert!(d.use_default);
}

#[test]
fn dpi_change_repositions_to_the_suggested_rect_without_default_handling() {
    let d = main_proc_decide(WM_DPICHANGED, 0, true);
    assert!(d.reposition);
    assert!(!d.use_default);
    assert_eq!(d.controller_op, None);
    assert_eq!(d.result, 0);
    let p = placement_of_rect(Rect { left: 10, top: 20, right: 810, bottom: 620 });
    assert_eq!(p, Placement { x: 10, y: 20, width: 800, height: 600 });
    assert_eq!(REPOSITION_FLAGS, 0x0004 | 0x0010);
}

#[test]
fn left_button_down_forwards_one_caption_press_to_the_parent() {
    let d = child_proc_decide(WM_LBUTTONDOWN);
    assert_eq!(
        d.forward_to_parent,
        Some(SyntheticMessage { msg: WM_NCLBUTTONDOWN, w_param: HTCAPTION, l_param: 0 }),
    );
    assert!(!d.use_default);
    assert_eq!(d.result, 0);
}

#[test]
fn other_child_messages_take_the_default_path() {
    let d = child_proc_decide(WM_SIZE);
    assert_eq!(d.forward_to_parent, None);
    assert!(d.use_default);
}

#[test]
fn any_web_message_injects_the_same_caption_press() {
    for message in ["", "drag", "anything else"] {
        let m = web_message_to_host(message);
        assert_eq!(m, caption_drag_message());
        assert_eq!(m.msg, WM_NCLBUTTONDOWN);
        assert_eq!(m.w_param, 2);
        assert_eq!(m.l_param, 0);
    }
}

#[test]
fn only_the_move_notification_failure_is_tolerated() {
    assert!(!op_failure_is_fatal(ControllerOp::NotifyMoved));
    assert!(op_failure_is_fatal(ControllerOp::SetBoundsToClientRect));
    assert!(op_failure_is_fatal(ControllerOp::Hide));
    assert!(op_failure_is_fatal(ControllerOp::Show));
}

#[test]
fn window_styles_match_the_native_flags() {
    assert_eq!(MAIN_WINDOW_STYLE, 0x80000000 | 0x00040000 | 0x00020000 | 0x00010000);
    assert_eq!(CHILD_WINDOW_STYLE, 0x40000000 | 0x10000000);
    assert_eq!(child_window_placement(), Placement { x: 0, y: 0, width: 200, height: 50 });
}
