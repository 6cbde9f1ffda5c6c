//! Decision logic of the two window procedures and of the web-to-native
//! message channel.
//!
//! A procedure here is a pure function from a dispatched message (and whether
//! a browser controller is bound yet) to a decision: which controller
//! operation to perform, whether to reposition the window, whether to fall
//! through to the default native handling, and which result code to return.
//! The caller performs the native calls the decision names.

use vstd::prelude::*;
use crate::cell::ControllerBinding;

verus! {

/// Native message identifier: the window was resized.
pub const WM_SIZE: u32 = 0x0005;

/// Native message identifier: the window was moved.
pub const WM_MOVE: u32 = 0x0003;

/// Native message identifier: a system command (minimize, restore, ...).
pub const WM_SYSCOMMAND: u32 = 0x0112;

/// System-command parameter: minimize the window.
pub const SC_MINIMIZE: usize = 0xF020;

/// System-command parameter: restore the window.
pub const SC_RESTORE: usize = 0xF120;

/// Native message identifier: the window's DPI changed.
pub const WM_DPICHANGED: u32 = 0x02E0;

/// Native message identifier: the window is being destroyed.
pub const WM_DESTROY: u32 = 0x0002;

/// Native message identifier: left mouse button pressed in the client area.
pub const WM_LBUTTONDOWN: u32 = 0x0201;

/// Native message identifier: left mouse button pressed in the non-client area.
pub const WM_NCLBUTTONDOWN: u32 = 0x00A1;

/// Hit-test code naming the caption (title-bar) region of a window.
pub const HTCAPTION: usize = 2;

/// Repositioning flag: keep the window's z-order unchanged.
pub const SWP_NOZORDER: u32 = 0x0004;

/// Repositioning flag: do not activate the window.
pub const SWP_NOACTIVATE: u32 = 0x0010;

/// The flags every DPI-change reposition uses: no z-order change, no activation.
pub const REPOSITION_FLAGS: u32 = SWP_NOZORDER | SWP_NOACTIVATE;

/// An operation on the bound browser controller.
#[derive(Clone, Copy, PartialEq, Eq, Structural, Debug)]
pub enum ControllerOp {
    /// Set the controller's bounds to the window's current client rectangle.
    SetBoundsToClientRect,
    /// Tell the controller the parent window's screen position changed.
    NotifyMoved,
    /// Make the browser surface invisible.
    Hide,
    /// Make the browser surface visible again.
    Show,
}

/// What the main window procedure decides for one dispatched message.
#[derive(Clone, Copy, PartialEq, Eq, Debug)]
pub struct MainDecision {
    /// The controller operation to perform, if a controller is bound and the
    /// message asks for one.
    pub controller_op: Option<ControllerOp>,
    /// Whether to reposition the window to the rectangle the message suggests.
    pub reposition: bool,
    /// Whether to fall through to the default native handling; when set, the
    /// procedure's result is whatever that default handling returns.
    pub use_default: bool,
    /// The result code to return when `use_default` is not set.
    pub result: isize,
}

/// A message to inject into a window's native queue.
#[derive(Clone, Copy, PartialEq, Eq, Structural, Debug)]
pub struct SyntheticMessage {
    pub msg: u32,
    pub w_param: usize,
    pub l_param: isize,
}

/// What the child (caption) window procedure decides for one message.
#[derive(Clone, Copy, PartialEq, Eq, Debug)]
pub struct ChildDecision {
    /// A message to send to the parent window, if any.
    pub forward_to_parent: Option<SyntheticMessage>,
    /// Whether to fall through to the default native handling.
    pub use_default: bool,
    /// The result code to return when `use_default` is not set.
    pub result: isize,
}

/// The decision of the main window procedure for one message: resize the
/// bound controller on a size change, notify it on a move, hide it before a
/// minimize and show it before a restore (both then falling through to the
/// default handling), reposition on a DPI change, and leave every other
/// message to the default handling. Controller operations are decided only
/// while a controller is bound.
pub open spec fn spec_main_decision(msg: u32, w_param: usize, controller_bound: bool) -> MainDecision {
    if msg == WM_SIZE {
        MainDecision {
            controller_op: if controller_bound { Some(ControllerOp::SetBoundsToClientRect) } else { None },
            reposition: false,
            use_default: false,
            result: 0 as isize,
        }
    } else if msg == WM_MOVE {
        MainDecision {
            controller_op: if controller_bound { Some(ControllerOp::NotifyMoved) } else { None },
            reposition: false,
            use_default: false,
            result: 0 as isize,
        }
    } else if msg == WM_SYSCOMMAND && w_param == SC_MINIMIZE {
        MainDecision {
            controller_op: if controller_bound { Some(ControllerOp::Hide) } else { None },
            reposition: false,
            use_default: true,
            result: 0 as isize,
        }
    } else if msg == WM_SYSCOMMAND && w_param == SC_RESTORE {
        MainDecision {
            controller_op: if controller_bound { Some(ControllerOp::Show) } else { None },
            reposition: false,
            use_default: true,
            result: 0 as isize,
        }
    } else if msg == WM_DPICHANGED {
        MainDecision { controller_op: None, reposition: true, use_default: false, result: 0 as isize }
    } else {
        MainDecision { controller_op: None, reposition: false, use_default: true, result: 0 as isize }
    }
}

/// Decide how the main window procedure answers one dispatched message.
pub fn main_proc_decide(msg: u32, w_param: usize, controller_bound: bool) -> (d: MainDecision)
    ensures
        d == spec_main_decision(msg, w_param, controller_bound),
{
    if msg == WM_SIZE {
        MainDecision {
            controller_op: if controller_bound { Some(ControllerOp::SetBoundsToClientRect) } else { None },
            reposition: false,
            use_default: false,
            result: 0,
        }
    } else if msg == WM_MOVE {
        MainDecision {
            controller_op: if controller_bound { Some(ControllerOp::NotifyMoved) } else { None },
            reposition: false,
            use_default: false,
            result: 0,
        }
    } else if msg == WM_SYSCOMMAND && w_param == SC_MINIMIZE {
        MainDecision {
            controller_op: if controller_bound { Some(ControllerOp::Hide) } else { None },
            reposition: false,
            use_default: true,
            result: 0,
        }
    } else if msg == WM_SYSCOMMAND && w_param == SC_RESTORE {
        MainDecision {
            controller_op: if controller_bound { Some(ControllerOp::Show) } else { None },
            reposition: false,
            use_default: true,
            result: 0,
        }
    } else if msg == WM_DPICHANGED {
        MainDecision { controller_op: None, reposition: true, use_default: false, result: 0 }
    } else {
        MainDecision { controller_op: None, reposition: false, use_default: true, result: 0 }
    }
}

/// Decide how the main window procedure answers one dispatched message, with
/// the controller's presence read from the single-assignment binding, as the
/// procedure reads it on every message.
pub fn main_proc_respond(binding: &ControllerBinding, msg: u32, w_param: usize) -> (d:
    MainDecision)
    ensures
        d == spec_main_decision(msg, w_param, binding.bound() is Some),
{
    let bound = binding.get().is_some();
    main_proc_decide(msg, w_param, bound)
}

/// Whether a controller operation's failure is fatal to the run: a failed
/// bounds update or visibility toggle is unrecoverable, a failed move
/// notification is best-effort and ignored.
pub fn op_failure_is_fatal(op: ControllerOp) -> (fatal: bool)
    ensures
        fatal <==> op != ControllerOp::NotifyMoved,
{
    match op {
        ControllerOp::NotifyMoved => false,
        _ => true,
    }
}

/// The synthetic message that starts the native window-move drag loop: a
/// non-client left-button press on the caption, with no coordinate payload.
pub open spec fn spec_caption_drag_message() -> SyntheticMessage {
    SyntheticMessage { msg: WM_NCLBUTTONDOWN, w_param: HTCAPTION, l_param: 0 as isize }
}

/// Build the caption-drag message to inject into the main window's queue.
pub fn caption_drag_message() -> (m: SyntheticMessage)
    ensures
        m == spec_caption_drag_message(),
{
    SyntheticMessage { msg: WM_NCLBUTTONDOWN, w_param: HTCAPTION, l_param: 0 }
}

/// The decision of the child (caption) window procedure: a left-button press
/// forwards exactly one caption-drag message to the parent and returns zero
/// without default handling; every other message goes to the default handling.
pub open spec fn spec_child_decision(msg: u32) -> ChildDecision {
    if msg == WM_LBUTTONDOWN {
        ChildDecision {
            forward_to_parent: Some(spec_caption_drag_message()),
            use_default: false,
            result: 0 as isize,
        }
    } else {
        ChildDecision { forward_to_parent: None, use_default: true, result: 0 as isize }
    }
}

/// Decide how the child window procedure answers one dispatched message.
pub fn child_proc_decide(msg: u32) -> (d: ChildDecision)
    ensures
        d == spec_child_decision(msg),
{
    if msg == WM_LBUTTONDOWN {
        ChildDecision { forward_to_parent: Some(caption_drag_message()), use_default: false, result: 0 }
    } else {
        ChildDecision { forward_to_parent: None, use_default: true, result: 0 }
    }
}

/// Decide what to do with a message the web content posted to the host: the
/// content is not inspected, and every delivery asks for exactly one
/// caption-drag message injected into the main window's queue.
pub fn web_message_to_host(_message: &str) -> (m: SyntheticMessage)
    ensures
        m == spec_caption_drag_message(),
{
    caption_drag_message()
}

/// Law: the main procedure is side-effect free while no controller is bound
/// and the message is a size change or a move: it decides no controller
/// operation, no reposition, no default handling, and returns zero.
pub proof fn lemma_unbound_size_move_no_effect(msg: u32, w_param: usize)
    requires
        msg == WM_SIZE || msg == WM_MOVE,
    ensures
        spec_main_decision(msg, w_param, false) == (MainDecision {
            controller_op: None::<ControllerOp>,
            reposition: false,
            use_default: false,
            result: 0 as isize,
        }),
{
}

} // verus!
