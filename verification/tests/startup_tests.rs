use chromeless_shell::payload::{
    child_class_name, drag_forward_script, html_payload, main_class_name, window_title,
};
use chromeless_shell::startup::{
    alert_caption, alert_text, apply_outcome, bootstrap_steps, choose_dpi_awareness, next_action,
    BootstrapStep, DpiAwareness, StartupAction, StartupFailure, StartupPhase, ALERT_STYLE,
};

#[test]
fn bootstrap_performs_its_steps_in_the_fixed_order() {
    assert_eq!(
        bootstrap_steps(),
        vec![
            BootstrapStep::SetControllerBounds,
            BootstrapStep::ObtainSurface,
            BootstrapStep::InjectDragScript,
            BootstrapStep::LoadPayload,
            BootstrapStep::RegisterMessageHandler,
            BootstrapStep::StoreController,
        ],
    );
}

#[test]
fn dpi_awareness_prefers_the_modern_mode() {
    assert_eq!(choose_dpi_awareness(true), DpiAwareness::PerMonitorV2);
    assert_eq!(choose_dpi_awareness(false), DpiAwareness::ProcessWide);
}

fn run_startup(mut outcome_of: impl FnMut(StartupAction) -> bool) -> (
    Vec<StartupAction>,
    Vec<StartupFailure>,
    StartupPhase,
) {
    let mut phase = StartupPhase::Start;
    let mut actions = Vec::new();
    let mut failures = Vec::new();
    while let Some(action) = next_action(phase) {
        actions.push(action);
        let ok = outcome_of(action);
        let (next, failure) = apply_outcome(phase, ok);
        if let Some(f) = failure {
            failures.push(f);
        }
        phase = next;
    }
    (actions, failures, phase)
}

#[test]
fn successful_startup_performs_every_step_in_order() {
    let (actions, failures, phase) = run_startup(|_| true);
    assert_eq!(
        actions,
        vec![
            StartupAction::ConfigureDpiAwareness,
            StartupAction::RegisterMainClass,
            StartupAction::RegisterChildClass,
            StartupAction::QueryDisplayDpi,
            StartupAction::CreateMainWindow,
            StartupAction::ShowMainWindow,
            StartupAction::BeginBrowserBootstrap,
            StartupAction::CreateChildWindow,
            StartupAction::EnterMessageLoop,
        ],
    );
    assert!(failures.is_empty());
    assert_eq!(phase, StartupPhase::MessageLoopEntered);
}

#[test]
fn failed_class_registration_aborts_before_any_window_exists() {
    let (actions, failures, phase) = run_startup(|a| a != StartupAction::RegisterMainClass);
    assert_eq!(
        actions,
        vec![StartupAction::ConfigureDpiAwareness, StartupAction::RegisterMainClass],
    );
    assert_eq!(failures, vec![StartupFailure::RegisterClass]);
    assert_eq!(phase, StartupPhase::Aborted);
}

#[test]
fn failed_window_creation_aborts_before_the_bootstrap() {
    let (actions, failures, phase) = run_startup(|a| a != StartupAction::CreateMainWindow);
    assert_eq!(*actions.last().unwrap(), StartupAction::CreateMainWindow);
    assert!(!actions.contains(&StartupAction::BeginBrowserBootstrap));
    assert!(!actions.contains(&StartupAction::CreateChildWindow));
    assert_eq!(failures, vec![StartupFailure::CreateWindow]);
    assert_eq!(phase, StartupPhase::Aborted);
}

#[test]
fn failed_environment_creation_aborts_before_the_child_window() {
    let (actions, failures, phase) = run_startup(|a| a != StartupAction::BeginBrowserBootstrap);
    assert_eq!(*actions.last().unwrap(), StartupAction::BeginBrowserBootstrap);
    assert!(!actions.contains(&StartupAction::CreateChildWindow));
    assert!(!actions.contains(&StartupAction::EnterMessageLoop));
    assert_eq!(failures, vec![StartupFailure::CreateEnvironment]);
    assert_eq!(phase, StartupPhase::Aborted);
}

#[test]
fn best_effort_steps_do_not_abort_on_failure() {
    let fatal = [
        StartupAction::RegisterMainClass,
        StartupAction::RegisterChildClass,
        StartupAction::CreateMainWindow,
        StartupAction::BeginBrowserBootstrap,
    ];
    let (actions, failures, phase) = run_startup(|a| fatal.contains(&a));
    assert_eq!(actions.len(), 9);
    assert!(failures.is_empty());
    assert_eq!(phase, StartupPhase::MessageLoopEntered);
}

#[test]
fn alert_texts_interpolate_the_os_error() {
    assert_eq!(
        alert_text(StartupFailure::RegisterClass, "boom"),
        "RegisterClassW failed: boom",
    );
    assert_eq!(
        alert_text(StartupFailure::CreateWindow, "no window"),
        "CreateWindowExW failed: no window",
    );
    assert_eq!(
        alert_text(StartupFailure::CreateEnvironment, "no runtime"),
        "Creating WebView2 Environment failed: no runtime\n",
    );
    assert_eq!(alert_caption(), "Error");
    assert_eq!(ALERT_STYLE, 0x10);
}

#[test]
fn payload_and_names_are_the_fixed_literals() {
    assert_eq!(main_class_name(), "WebView2 Win32 Class");
    assert_eq!(child_class_name(), "Caption Win32 Class");
    assert_eq!(window_title(), "WebView2 - Win 32");
    let html = html_payload();
    assert!(html.starts_with("\n<!doctype html>"));
    assert!(html.contains("<title>Demo</title>"));
    assert!(html.contains("console.log('Affe')"));
    assert!(html.contains("window.chrome.webview.postMessage('drag')"));
    assert!(html.trim_end().ends_with("</html>"));
    let script = drag_forward_script();
    assert!(script.starts_with("document.addEventListener('mousedown'"));
    assert!(script.contains("window.chrome.webview.postMessage('drag')"));
    assert!(script.contains("getComputedStyle(target)['-webkit-app-region']"));
}
