use mmb_shutdown::shutdown::{
    actor_label, leak_entry, leak_report, record_service_completion, service_label, CompletionReceiver, GracefulShutdownMsg, Service,
    ShutdownRecipient, ShutdownService,
};
use mmb_shutdown::wait::{completion_outcome, CompletionOutcome, WaitAction, WaitEvent, WaitTracker};
use parking_lot::Mutex;
use std::sync::Arc;

/// An actor that answers a shutdown request at once with success.
struct ReplyingActor;

impl ShutdownRecipient for ReplyingActor {
    fn try_send(&self, msg: GracefulShutdownMsg) -> bool {
        let _ = msg.service_finished.send(Ok(()));
        true
    }
}

/// An actor whose mailbox is gone: the request is dropped.
struct GoneActor;

impl ShutdownRecipient for GoneActor {
    fn try_send(&self, _msg: GracefulShutdownMsg) -> bool {
        false
    }
}

/// Runs the synchronous phases of a graceful shutdown: fan-out, the wait for
/// signals that already resolved, and the release with its leak report.
fn shut_down<S: Service + ?Sized, A: ShutdownRecipient>(
    shutdown_service: &mut ShutdownService<S, A>,
) -> Vec<String> {
    let pending = shutdown_service.notify_all();
    let mut tracker = WaitTracker::new(pending.len());
    let mut action = tracker.on_event(WaitEvent::Started);
    for (index, mut completion) in pending.into_iter().enumerate() {
        if completion.receiver.try_recv().is_ok() {
            action = tracker.on_event(WaitEvent::Resolved(index));
        }
    }
    if action == WaitAction::KeepWaiting {
        action = tracker.on_event(WaitEvent::DeadlineElapsed);
    }
    assert_eq!(action, WaitAction::StopRuntime);
    shutdown_service.release_services()
}

pub struct TestService;

impl TestService {
    pub fn new() -> Arc<Self> {
        Arc::new(Self)
    }
}

impl Service for TestService {
    fn name(&self) -> &str {
        "SomeTestService"
    }

    fn graceful_shutdown(self: Arc<Self>) -> Option<CompletionReceiver> {
        None
    }
}

const REF_TEST_SERVICE: &str = "RefTestService";

pub struct RefTestService(Mutex<Option<Arc<RefTestService>>>);

impl RefTestService {
    pub fn new() -> Arc<Self> {
        Arc::new(Self(Mutex::new(None)))
    }

    pub fn set_ref(&self, service: Arc<RefTestService>) {
        *self.0.lock() = Some(service);
    }
}

impl Service for RefTestService {
    fn name(&self) -> &str {
        REF_TEST_SERVICE
    }

    fn graceful_shutdown(self: Arc<Self>) -> Option<CompletionReceiver> {
        None
    }
}

/// A service that finishes asynchronously and reports success at once.
struct SignallingService;

impl Service for SignallingService {
    fn name(&self) -> &str {
        "Signalling"
    }

    fn graceful_shutdown(self: Arc<Self>) -> Option<CompletionReceiver> {
        let (sender, receiver) = tokio::sync::oneshot::channel();
        let _ = sender.send(Ok(()));
        Some(receiver)
    }
}

#[test]
fn success() {
    let mut shutdown_service: ShutdownService<dyn Service, ReplyingActor> =
        ShutdownService::default();

    let test = TestService::new();
    shutdown_service.register_service(test);

    let not_dropped_services = shut_down(&mut shutdown_service);
    assert_eq!(not_dropped_services.len(), 0);
}

#[test]
fn failed() {
    let mut shutdown_service: ShutdownService<dyn Service, ReplyingActor> =
        ShutdownService::default();

    let test = RefTestService::new();
    let clone = test.clone();
    test.set_ref(clone);
    shutdown_service.register_service(test);

    let not_dropped_services = shut_down(&mut shutdown_service);
    assert_eq!(not_dropped_services, vec![REF_TEST_SERVICE.to_string()]);
}

#[test]
fn same_service_registered_twice_is_released() {
    let mut shutdown_service: ShutdownService<TestService, ReplyingActor> =
        ShutdownService::default();
    let test = TestService::new();
    shutdown_service.register_services(&[test.clone(), test]);
    assert_eq!(shut_down(&mut shutdown_service), Vec::<String>::new());
}

#[test]
fn only_the_live_registration_is_reported() {
    let mut shutdown_service: ShutdownService<RefTestService, ReplyingActor> =
        ShutdownService::default();
    let released = RefTestService::new();
    let kept = RefTestService::new();
    shutdown_service.register_service(released);
    shutdown_service.register_service(kept.clone());
    assert_eq!(shut_down(&mut shutdown_service), vec![REF_TEST_SERVICE.to_string()]);
    drop(kept);
}

#[test]
fn outside_holder_keeps_service_alive() {
    let mut shutdown_service: ShutdownService<dyn Service, ReplyingActor> =
        ShutdownService::default();
    let held = TestService::new();
    shutdown_service.register_service(held.clone());
    shutdown_service.register_service(TestService::new());
    assert_eq!(shut_down(&mut shutdown_service), vec!["SomeTestService".to_string()]);
    drop(held);
}

#[test]
fn fan_out_labels_actors_then_services() {
    let mut shutdown_service: ShutdownService<dyn Service, ReplyingActor> =
        ShutdownService::default();
    shutdown_service.register_service(TestService::new());
    shutdown_service.register_service(Arc::new(SignallingService));
    shutdown_service.register_actor("first".to_string(), ReplyingActor);
    shutdown_service.register_actor("second".to_string(), ReplyingActor);
    let pending = shutdown_service.notify_all();
    let labels: Vec<String> = pending.iter().map(|p| p.label.clone()).collect();
    assert_eq!(labels, vec!["actor first", "actor second", "service Signalling"]);
    for mut completion in pending {
        let received = completion.receiver.try_recv();
        assert_eq!(completion_outcome(&received), CompletionOutcome::Succeeded);
    }
    assert_eq!(shutdown_service.release_services(), Vec::<String>::new());
    assert_eq!(shutdown_service.release_services(), Vec::<String>::new());
}

#[test]
fn undeliverable_actor_resolves_as_dropped() {
    let mut shutdown_service: ShutdownService<dyn Service, GoneActor> = ShutdownService::default();
    shutdown_service.register_actor("gone".to_string(), GoneActor);
    let pending = shutdown_service.notify_actors();
    assert_eq!(pending.len(), 1);
    assert_eq!(pending[0].label, "actor gone");
    for mut completion in pending {
        let received = completion.receiver.try_recv();
        assert_eq!(completion_outcome(&received), CompletionOutcome::ProducerDropped);
    }
}

#[test]
fn completion_outcomes_are_classified() {
    let ok: Result<Result<(), String>, u8> = Ok(Ok(()));
    let reported: Result<Result<(), String>, u8> = Ok(Err("disk full".to_string()));
    let dropped: Result<Result<(), String>, u8> = Err(0);
    assert_eq!(completion_outcome(&ok), CompletionOutcome::Succeeded);
    assert_eq!(completion_outcome(&reported), CompletionOutcome::ReportedError);
    assert_eq!(completion_outcome(&dropped), CompletionOutcome::ProducerDropped);
}

#[test]
fn labels_carry_the_component_kind() {
    assert_eq!(actor_label("Balance"), "actor Balance");
    assert_eq!(service_label("Orders"), "service Orders");
    assert_eq!(actor_label(""), "actor ");
}

#[test]
fn leak_report_keeps_live_names_in_order() {
    let observed = vec![
        Some("a".to_string()),
        None,
        Some("c".to_string()),
        None,
    ];
    assert_eq!(leak_report(observed), vec!["a".to_string(), "c".to_string()]);
    assert_eq!(leak_report(vec![None, None]), Vec::<String>::new());
    assert_eq!(leak_report(Vec::new()), Vec::<String>::new());
}

#[test]
fn wait_ends_when_all_signals_resolve() {
    let mut tracker = WaitTracker::new(2);
    assert_eq!(tracker.on_event(WaitEvent::Started), WaitAction::KeepWaiting);
    assert_eq!(tracker.on_event(WaitEvent::Resolved(1)), WaitAction::KeepWaiting);
    assert_eq!(tracker.on_event(WaitEvent::Resolved(1)), WaitAction::KeepWaiting);
    assert!(!tracker.is_stopped());
    assert_eq!(tracker.on_event(WaitEvent::Resolved(0)), WaitAction::StopRuntime);
    assert!(tracker.is_stopped());
    assert!(!tracker.timed_out());
    assert_eq!(tracker.on_event(WaitEvent::DeadlineElapsed), WaitAction::Ignore);
    assert!(!tracker.timed_out());
}

#[test]
fn wait_ends_at_deadline_when_a_signal_never_resolves() {
    let mut tracker = WaitTracker::new(3);
    assert_eq!(tracker.on_event(WaitEvent::Started), WaitAction::KeepWaiting);
    assert_eq!(tracker.on_event(WaitEvent::Resolved(0)), WaitAction::KeepWaiting);
    assert_eq!(tracker.on_event(WaitEvent::Resolved(7)), WaitAction::KeepWaiting);
    assert_eq!(tracker.on_event(WaitEvent::DeadlineElapsed), WaitAction::StopRuntime);
    assert!(tracker.is_stopped());
    assert!(tracker.timed_out());
    assert_eq!(tracker.on_event(WaitEvent::Resolved(1)), WaitAction::Ignore);
    assert_eq!(tracker.on_event(WaitEvent::DeadlineElapsed), WaitAction::Ignore);
}

#[test]
fn wait_with_nothing_to_wait_for_ends_at_start() {
    let mut tracker = WaitTracker::new(0);
    assert_eq!(tracker.on_event(WaitEvent::Started), WaitAction::StopRuntime);
    assert!(!tracker.timed_out());
}

#[test]
fn leaked_service_registered_twice_is_reported_once() {
    let mut shutdown_service: ShutdownService<RefTestService, ReplyingActor> =
        ShutdownService::default();
    let test = RefTestService::new();
    test.set_ref(test.clone());
    shutdown_service.register_service(test.clone());
    shutdown_service.register_service(test);
    assert_eq!(shut_down(&mut shutdown_service), vec![REF_TEST_SERVICE.to_string()]);
}

#[test]
fn hook_results_are_recorded() {
    let mut pending = Vec::new();
    record_service_completion(&mut pending, "Quiet", None);
    assert_eq!(pending.len(), 0);
    let (sender, receiver) = tokio::sync::oneshot::channel();
    record_service_completion(&mut pending, "Busy", Some(receiver));
    assert_eq!(pending.len(), 1);
    assert_eq!(pending[0].label, "service Busy");
    let _ = sender.send(Ok(()));
    assert!(matches!(pending[0].receiver.try_recv(), Ok(Ok(()))));
}

#[test]
fn leak_entries_follow_the_strong_count() {
    assert_eq!(leak_entry(0, Some("gone".to_string())), None);
    assert_eq!(leak_entry(0, None), None);
    assert_eq!(leak_entry(2, Some("kept".to_string())), Some("kept".to_string()));
}
