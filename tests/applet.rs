use remote_uci_applet::descriptor::RegistrationDescriptor;
use remote_uci_applet::signal::ShutdownSignal;
use remote_uci_applet::startup::start;
use remote_uci_applet::supervisor::{Action, Event, Supervisor, SupervisorState};
use remote_uci_applet::tray::{license_url, Effect, MenuAction, MenuEntry, TrayController, TrayStatus};

const URL: &str = "https://lichess.org/analysis/external?url=ws%3A%2F%2F127.0.0.1%3A9670&secret=abc";

fn controller() -> TrayController {
    TrayController::new(ShutdownSignal::new(), RegistrationDescriptor::new(URL.to_string()))
}

fn block_on<F: std::future::Future>(f: F) -> F::Output {
    tokio::runtime::Builder::new_current_thread().build().unwrap().block_on(f)
}

#[test]
fn fresh_signal_is_not_fired() {
    let s = ShutdownSignal::new();
    assert!(!s.fired());
}

#[test]
fn repeated_fire_transitions_once() {
    let mut s = ShutdownSignal::new();
    let results: Vec<bool> = (0..5).map(|_| s.fire()).collect();
    assert_eq!(results, vec![true, false, false, false, false]);
    assert!(s.fired());
}

#[test]
fn wait_after_fire_completes() {
    let mut s = ShutdownSignal::new();
    let waiter = s.waiter();
    s.fire();
    s.fire();
    block_on(waiter.notified());
}

#[test]
fn wait_issued_before_fire_completes() {
    let mut s = ShutdownSignal::new();
    let waiter = s.waiter();
    let pending = waiter.notified();
    s.fire();
    block_on(pending);
}

#[test]
fn registration_url_is_repeatable() {
    let d = RegistrationDescriptor::new(URL.to_string());
    let a = d.registration_url();
    let b = d.registration_url();
    assert_eq!(a, URL);
    assert_eq!(a, b);
}

#[test]
fn tray_identity() {
    let t = controller();
    assert_eq!(t.id(), "remote-uci-applet");
    assert_eq!(t.title(), "External Lichess Engine");
    assert_eq!(t.status(), TrayStatus::Passive);
    assert_eq!(t.id(), t.id());
}

#[test]
fn menu_has_four_entries_in_order() {
    let m = controller().menu();
    assert_eq!(m.len(), 4);
    assert!(matches!(&m[0], MenuEntry::Standard { label, informative: false, action: MenuAction::OpenRegistrationUrl } if label == "Connect"));
    assert!(matches!(&m[1], MenuEntry::Standard { label, informative: true, action: MenuAction::OpenLicenseUrl } if label == "License"));
    assert!(matches!(&m[2], MenuEntry::Separator));
    assert!(matches!(&m[3], MenuEntry::Standard { label, informative: false, action: MenuAction::RequestShutdown } if label == "Shutdown"));
}

#[test]
fn connect_opens_registration_url() {
    let mut t = controller();
    match t.activate(MenuAction::OpenRegistrationUrl) {
        Effect::OpenUrl(u) => assert_eq!(u, URL),
        other => panic!("unexpected effect {:?}", other),
    }
}

#[test]
fn license_opens_license_url_in_any_state() {
    let mut t = controller();
    let expected = "https://github.com/lichess-org/external-engine/blob/main/COPYING.md";
    assert_eq!(license_url(), expected);
    assert!(matches!(t.activate(MenuAction::OpenLicenseUrl), Effect::OpenUrl(u) if u == expected));
    t.activate(MenuAction::RequestShutdown);
    assert!(matches!(t.activate(MenuAction::OpenLicenseUrl), Effect::OpenUrl(u) if u == expected));
    assert!(matches!(t.activate(MenuAction::OpenRegistrationUrl), Effect::OpenUrl(u) if u == URL));
}

#[test]
fn shutdown_activations_fire_once() {
    let mut t = controller();
    let firsts: Vec<bool> = (0..4)
        .map(|_| match t.activate(MenuAction::RequestShutdown) {
            Effect::ShutdownRequested { first } => first,
            other => panic!("unexpected effect {:?}", other),
        })
        .collect();
    assert_eq!(firsts, vec![true, false, false, false]);
}

#[test]
fn signal_then_clean_drain_is_one_clean_stop() {
    let mut s = Supervisor::new();
    assert!(s.awaits_signal());
    assert!(matches!(s.on_event(Event::<String>::SignalFired), Action::StopAccepting));
    assert_eq!(s.state(), SupervisorState::ShutdownRequested);
    assert!(!s.awaits_signal());
    assert!(matches!(s.on_event(Event::<String>::SignalFired), Action::Wait));
    assert!(matches!(s.on_event(Event::<String>::ServerFinished(Ok(()))), Action::Finish(Ok(()))));
    assert_eq!(s.state(), SupervisorState::Terminated { by_signal: true });
    assert!(s.is_terminated());
    assert!(matches!(s.on_event(Event::<String>::ServerFinished(Ok(()))), Action::Wait));
    assert!(matches!(s.on_event(Event::<String>::SignalFired), Action::Wait));
}

#[test]
fn server_error_wins_when_first() {
    let mut s = Supervisor::new();
    let a = s.on_event(Event::ServerFinished(Err("bind".to_string())));
    assert!(matches!(a, Action::Finish(Err(ref e)) if e == "bind"));
    assert_eq!(s.state(), SupervisorState::Terminated { by_signal: false });
    assert!(matches!(s.on_event(Event::<String>::SignalFired), Action::Wait));
}

#[test]
fn run_with_immediate_shutdown_stops_cleanly() {
    let started = match start::<String>(Ok(RegistrationDescriptor::new(URL.to_string()))) {
        Ok(s) => s,
        Err(e) => panic!("start failed: {}", e),
    };
    let mut tray = started.tray;
    let mut supervisor = started.supervisor;
    let waiter = started.waiter;
    assert!(matches!(tray.activate(MenuAction::RequestShutdown), Effect::ShutdownRequested { first: true }));
    block_on(waiter.notified());
    assert!(matches!(supervisor.on_event(Event::<String>::SignalFired), Action::StopAccepting));
    let outcome = supervisor.on_event(Event::<String>::ServerFinished(Ok(())));
    assert!(matches!(outcome, Action::Finish(Ok(()))));
    assert_eq!(supervisor.state(), SupervisorState::Terminated { by_signal: true });
}

#[test]
fn construction_error_stops_startup() {
    let r = start::<String>(Err("bind: address in use".to_string()));
    match r {
        Err(e) => assert_eq!(e, "bind: address in use"),
        Ok(_) => panic!("startup went on after a construction error"),
    }
}

#[test]
fn fresh_start_has_unfired_signal() {
    let started = start::<String>(Ok(RegistrationDescriptor::new(URL.to_string()))).ok().unwrap();
    assert_eq!(started.supervisor.state(), SupervisorState::Running);
    let mut tray = started.tray;
    assert!(matches!(tray.activate(MenuAction::OpenRegistrationUrl), Effect::OpenUrl(u) if u == URL));
    assert!(matches!(tray.activate(MenuAction::RequestShutdown), Effect::ShutdownRequested { first: true }));
}
