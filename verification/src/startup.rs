//! Startup orchestration.
//!
//! The process bootstraps in a fixed order: DPI awareness, the two window
//! class registrations, the display DPI query, main window creation, showing
//! the window, the asynchronous browser bootstrap, child window creation, and
//! finally the blocking message loop. A failed class registration, window
//! creation, or environment creation is fatal: the run reports it once and
//! stops. This module is the state machine that drives that sequence; the
//! native calls themselves are performed by the caller, which feeds each
//! step's outcome back in.

use vstd::prelude::*;
use vstd::seq_lib::*;
use vstd::string::StringExecFns;

verus! {

/// The DPI-awareness mode the process asks the OS for.
#[derive(Clone, Copy, PartialEq, Eq, Structural, Debug)]
pub enum DpiAwareness {
    /// The modern per-monitor mode, when the running OS exposes its
    /// entry point.
    PerMonitorV2,
    /// The legacy process-wide flag, for older systems.
    ProcessWide,
}

/// Choose the DPI-awareness mode: the most capable one the host exposes. The
/// choice is best-effort; neither path reports failure.
pub fn choose_dpi_awareness(modern_available: bool) -> (m: DpiAwareness)
    ensures
        m == (if modern_available {
            DpiAwareness::PerMonitorV2
        } else {
            DpiAwareness::ProcessWide
        }),
{
    if modern_available {
        DpiAwareness::PerMonitorV2
    } else {
        DpiAwareness::ProcessWide
    }
}

/// Where a run of the startup sequence stands.
#[derive(Clone, Copy, PartialEq, Eq, Structural, Debug)]
pub enum StartupPhase {
    Start,
    DpiConfigured,
    MainClassRegistered,
    ChildClassRegistered,
    DpiQueried,
    MainWindowCreated,
    MainWindowShown,
    BootstrapIssued,
    ChildWindowCreated,
    MessageLoopEntered,
    Aborted,
}

/// One step of the startup sequence, to be performed by the caller.
#[derive(Clone, Copy, PartialEq, Eq, Structural, Debug)]
pub enum StartupAction {
    ConfigureDpiAwareness,
    RegisterMainClass,
    RegisterChildClass,
    QueryDisplayDpi,
    CreateMainWindow,
    ShowMainWindow,
    BeginBrowserBootstrap,
    CreateChildWindow,
    EnterMessageLoop,
}

/// The fatal startup failures, each reported once through the alert utility.
#[derive(Clone, Copy, PartialEq, Eq, Structural, Debug)]
pub enum StartupFailure {
    /// A window class could not be registered.
    RegisterClass,
    /// The main window could not be created.
    CreateWindow,
    /// The browser environment could not be created.
    CreateEnvironment,
}

/// The action a run performs next in each phase; the two final phases ask for
/// nothing more.
pub open spec fn spec_next_action(p: StartupPhase) -> Option<StartupAction> {
    match p {
        StartupPhase::Start => Some(StartupAction::ConfigureDpiAwareness),
        StartupPhase::DpiConfigured => Some(StartupAction::RegisterMainClass),
        StartupPhase::MainClassRegistered => Some(StartupAction::RegisterChildClass),
        StartupPhase::ChildClassRegistered => Some(StartupAction::QueryDisplayDpi),
        StartupPhase::DpiQueried => Some(StartupAction::CreateMainWindow),
        StartupPhase::MainWindowCreated => Some(StartupAction::ShowMainWindow),
        StartupPhase::MainWindowShown => Some(StartupAction::BeginBrowserBootstrap),
        StartupPhase::BootstrapIssued => Some(StartupAction::CreateChildWindow),
        StartupPhase::ChildWindowCreated => Some(StartupAction::EnterMessageLoop),
        StartupPhase::MessageLoopEntered => None,
        StartupPhase::Aborted => None,
    }
}

/// The phase reached when the phase's action succeeded.
pub open spec fn spec_success_phase(p: StartupPhase) -> StartupPhase {
    match p {
        StartupPhase::Start => StartupPhase::DpiConfigured,
        StartupPhase::DpiConfigured => StartupPhase::MainClassRegistered,
        StartupPhase::MainClassRegistered => StartupPhase::ChildClassRegistered,
        StartupPhase::ChildClassRegistered => StartupPhase::DpiQueried,
        StartupPhase::DpiQueried => StartupPhase::MainWindowCreated,
        StartupPhase::MainWindowCreated => StartupPhase::MainWindowShown,
        StartupPhase::MainWindowShown => StartupPhase::BootstrapIssued,
        StartupPhase::BootstrapIssued => StartupPhase::ChildWindowCreated,
        StartupPhase::ChildWindowCreated => StartupPhase::MessageLoopEntered,
        StartupPhase::MessageLoopEntered => StartupPhase::MessageLoopEntered,
        StartupPhase::Aborted => StartupPhase::Aborted,
    }
}

/// The failure a phase's action reports when it fails fatally; actions that
/// are best-effort (DPI awareness, showing) or unchecked (the DPI query, the
/// child window) report none and the run continues.
pub open spec fn spec_fatal_failure(p: StartupPhase) -> Option<StartupFailure> {
    match p {
        StartupPhase::DpiConfigured => Some(StartupFailure::RegisterClass),
        StartupPhase::MainClassRegistered => Some(StartupFailure::RegisterClass),
        StartupPhase::DpiQueried => Some(StartupFailure::CreateWindow),
        StartupPhase::MainWindowShown => Some(StartupFailure::CreateEnvironment),
        _ => None,
    }
}

/// The phase after performing the current phase's action with the given
/// outcome: forward on success, `Aborted` when a fatal action failed,
/// forward regardless when the action cannot fail fatally.
pub open spec fn spec_apply_outcome(p: StartupPhase, ok: bool) -> StartupPhase {
    if !ok && spec_fatal_failure(p) is Some {
        StartupPhase::Aborted
    } else {
        spec_success_phase(p)
    }
}

/// The action to perform next, if the run is not over.
pub fn next_action(p: StartupPhase) -> (a: Option<StartupAction>)
    ensures
        a == spec_next_action(p),
{
    match p {
        StartupPhase::Start => Some(StartupAction::ConfigureDpiAwareness),
        StartupPhase::DpiConfigured => Some(StartupAction::RegisterMainClass),
        StartupPhase::MainClassRegistered => Some(StartupAction::RegisterChildClass),
        StartupPhase::ChildClassRegistered => Some(StartupAction::QueryDisplayDpi),
        StartupPhase::DpiQueried => Some(StartupAction::CreateMainWindow),
        StartupPhase::MainWindowCreated => Some(StartupAction::ShowMainWindow),
        StartupPhase::MainWindowShown => Some(StartupAction::BeginBrowserBootstrap),
        StartupPhase::BootstrapIssued => Some(StartupAction::CreateChildWindow),
        StartupPhase::ChildWindowCreated => Some(StartupAction::EnterMessageLoop),
        StartupPhase::MessageLoopEntered => None,
        StartupPhase::Aborted => None,
    }
}

/// Advance the run by the outcome of the action just performed, and name the
/// fatal failure to report when the outcome ends the run.
pub fn apply_outcome(p: StartupPhase, ok: bool) -> (r: (StartupPhase, Option<StartupFailure>))
    ensures
        r.0 == spec_apply_outcome(p, ok),
        r.1 == (if !ok && spec_fatal_failure(p) is Some {
            spec_fatal_failure(p)
        } else {
            None::<StartupFailure>
        }),
{
    let fatal: Option<StartupFailure> = match p {
        StartupPhase::DpiConfigured => Some(StartupFailure::RegisterClass),
        StartupPhase::MainClassRegistered => Some(StartupFailure::RegisterClass),
        StartupPhase::DpiQueried => Some(StartupFailure::CreateWindow),
        StartupPhase::MainWindowShown => Some(StartupFailure::CreateEnvironment),
        _ => None,
    };
    if !ok && fatal.is_some() {
        (StartupPhase::Aborted, fatal)
    } else {
        let next = match p {
            StartupPhase::Start => StartupPhase::DpiConfigured,
            StartupPhase::DpiConfigured => StartupPhase::MainClassRegistered,
            StartupPhase::MainClassRegistered => StartupPhase::ChildClassRegistered,
            StartupPhase::ChildClassRegistered => StartupPhase::DpiQueried,
            StartupPhase::DpiQueried => StartupPhase::MainWindowCreated,
            StartupPhase::MainWindowCreated => StartupPhase::MainWindowShown,
            StartupPhase::MainWindowShown => StartupPhase::BootstrapIssued,
            StartupPhase::BootstrapIssued => StartupPhase::ChildWindowCreated,
            StartupPhase::ChildWindowCreated => StartupPhase::MessageLoopEntered,
            StartupPhase::MessageLoopEntered => StartupPhase::MessageLoopEntered,
            StartupPhase::Aborted => StartupPhase::Aborted,
        };
        (next, None)
    }
}

/// The actions of a whole successful run, in order.
pub open spec fn spec_success_actions() -> Seq<StartupAction> {
    seq![
        StartupAction::ConfigureDpiAwareness,
        StartupAction::RegisterMainClass,
        StartupAction::RegisterChildClass,
        StartupAction::QueryDisplayDpi,
        StartupAction::CreateMainWindow,
        StartupAction::ShowMainWindow,
        StartupAction::BeginBrowserBootstrap,
        StartupAction::CreateChildWindow,
        StartupAction::EnterMessageLoop,
    ]
}

/// The actions still ahead of a phase on an all-success run.
pub open spec fn spec_remaining_actions(p: StartupPhase) -> Seq<StartupAction> {
    match p {
        StartupPhase::Start => spec_success_actions().skip(0),
        StartupPhase::DpiConfigured => spec_success_actions().skip(1),
        StartupPhase::MainClassRegistered => spec_success_actions().skip(2),
        StartupPhase::ChildClassRegistered => spec_success_actions().skip(3),
        StartupPhase::DpiQueried => spec_success_actions().skip(4),
        StartupPhase::MainWindowCreated => spec_success_actions().skip(5),
        StartupPhase::MainWindowShown => spec_success_actions().skip(6),
        StartupPhase::BootstrapIssued => spec_success_actions().skip(7),
        StartupPhase::ChildWindowCreated => spec_success_actions().skip(8),
        StartupPhase::MessageLoopEntered => Seq::empty(),
        StartupPhase::Aborted => Seq::empty(),
    }
}

/// The actions a run performs from phase `p` on, one outcome consumed per
/// action, stopping when the run is over or the outcomes run out.
pub open spec fn spec_trace(p: StartupPhase, outcomes: Seq<bool>) -> Seq<StartupAction>
    decreases outcomes.len(),
{
    if outcomes.len() == 0 {
        Seq::empty()
    } else {
        match spec_next_action(p) {
            None => Seq::empty(),
            Some(a) => seq![a] + spec_trace(
                spec_apply_outcome(p, outcomes[0]),
                outcomes.drop_first(),
            ),
        }
    }
}

/// The trace from any phase is a prefix of that phase's all-success actions:
/// a failure only cuts the sequence short, it never reorders or repeats it.
pub proof fn lemma_trace_is_prefix(p: StartupPhase, outcomes: Seq<bool>)
    ensures
        spec_trace(p, outcomes).is_prefix_of(spec_remaining_actions(p)),
    decreases outcomes.len(),
{
    if outcomes.len() == 0 {
    } else {
        match spec_next_action(p) {
            None => {},
            Some(a) => {
                let q = spec_apply_outcome(p, outcomes[0]);
                lemma_trace_is_prefix(q, outcomes.drop_first());
                assert(spec_remaining_actions(p)[0] == a);
                if q is Aborted {
                    assert(spec_trace(q, outcomes.drop_first()) =~= Seq::<StartupAction>::empty());
                } else {
                    assert(spec_remaining_actions(q) =~= spec_remaining_actions(p).drop_first());
                }
                assert(spec_trace(p, outcomes).is_prefix_of(spec_remaining_actions(p)));
            },
        }
    }
}

/// Law: startup order. In every run, the main class registration comes before
/// the child class registration, both registrations come before the main
/// window is created, the main window exists before the browser bootstrap is
/// issued, the child window is created only after the bootstrap call, and the
/// message loop is entered last: whenever two of these actions both appear in
/// a run's trace, they appear at exactly their positions in the all-success
/// order, and nothing follows the message loop's entry.
pub proof fn lemma_startup_ordering(outcomes: Seq<bool>)
    ensures
        spec_trace(StartupPhase::Start, outcomes).is_prefix_of(spec_success_actions()),
        spec_success_actions().len() == 9,
        spec_success_actions()[1] == StartupAction::RegisterMainClass,
        spec_success_actions()[2] == StartupAction::RegisterChildClass,
        spec_success_actions()[4] == StartupAction::CreateMainWindow,
        spec_success_actions()[6] == StartupAction::BeginBrowserBootstrap,
        spec_success_actions()[7] == StartupAction::CreateChildWindow,
        spec_success_actions()[8] == StartupAction::EnterMessageLoop,
{
    lemma_trace_is_prefix(StartupPhase::Start, outcomes);
    assert(spec_remaining_actions(StartupPhase::Start) =~= spec_success_actions());
}

/// One step of the browser bootstrap that runs once the controller exists.
#[derive(Clone, Copy, PartialEq, Eq, Structural, Debug)]
pub enum BootstrapStep {
    /// Size the controller to the main window's client rectangle.
    SetControllerBounds,
    /// Obtain the browser surface from the controller.
    ObtainSurface,
    /// Register the drag-forwarding script to run on each document creation.
    InjectDragScript,
    /// Load the fixed document by direct content injection.
    LoadPayload,
    /// Register the handler for web-originated messages.
    RegisterMessageHandler,
    /// Store the controller into the single-assignment cell.
    StoreController,
}

/// The bootstrap's steps in their one fixed order; each runs only after the
/// one before it completed, chained through the completion callbacks.
pub open spec fn spec_bootstrap_steps() -> Seq<BootstrapStep> {
    seq![
        BootstrapStep::SetControllerBounds,
        BootstrapStep::ObtainSurface,
        BootstrapStep::InjectDragScript,
        BootstrapStep::LoadPayload,
        BootstrapStep::RegisterMessageHandler,
        BootstrapStep::StoreController,
    ]
}

/// The steps to perform, in order, once the controller has been created.
pub fn bootstrap_steps() -> (r: Vec<BootstrapStep>)
    ensures
        r@ == spec_bootstrap_steps(),
{
    let steps = vec![
        BootstrapStep::SetControllerBounds,
        BootstrapStep::ObtainSurface,
        BootstrapStep::InjectDragScript,
        BootstrapStep::LoadPayload,
        BootstrapStep::RegisterMessageHandler,
        BootstrapStep::StoreController,
    ];
    proof {
        assert(steps@ =~= spec_bootstrap_steps());
    }
    steps
}

/// The text of the alert a fatal failure shows: a fixed prefix naming the
/// failed native call, followed by the OS's own error text; the environment
/// failure's text ends with a line break, as the reference message does.
pub open spec fn spec_alert_text(f: StartupFailure, os_error: Seq<char>) -> Seq<char> {
    match f {
        StartupFailure::RegisterClass => "RegisterClassW failed: "@ + os_error,
        StartupFailure::CreateWindow => "CreateWindowExW failed: "@ + os_error,
        StartupFailure::CreateEnvironment => "Creating WebView2 Environment failed: "@ + os_error
            + "\n"@,
    }
}

/// Build the alert text for a fatal startup failure.
pub fn alert_text(f: StartupFailure, os_error: &str) -> (r: String)
    ensures
        r@ == spec_alert_text(f, os_error@),
{
    let mut s: String = match f {
        StartupFailure::RegisterClass => "RegisterClassW failed: ".to_owned(),
        StartupFailure::CreateWindow => "CreateWindowExW failed: ".to_owned(),
        StartupFailure::CreateEnvironment => "Creating WebView2 Environment failed: ".to_owned(),
    };
    s.append(os_error);
    if let StartupFailure::CreateEnvironment = f {
        s.append("\n");
    }
    s
}

/// The caption of every fatal-failure alert.
pub fn alert_caption() -> (r: &'static str)
    ensures
        r@ == "Error"@,
{
    "Error"
}

/// Alert style flag: show the error icon.
pub const MB_ICONERROR: u32 = 0x10;

/// Alert style flag: offer only the confirming button.
pub const MB_OK: u32 = 0x0;

/// The style every fatal-failure alert uses.
pub const ALERT_STYLE: u32 = MB_ICONERROR | MB_OK;

} // verus!
