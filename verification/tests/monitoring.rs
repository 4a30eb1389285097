use sidecar_supervisor::error::SidecarError;
use sidecar_supervisor::monitor::{
    exit_failure, EventMonitor, MonitorAction, OutputStream, WorkerEvent,
};
use sidecar_supervisor::supervisor::{
    SidecarManager, SpawnOutcome, StartOutcome, StartStep, StopStep, WorkerHandle,
};

fn running() -> (SidecarManager, WorkerHandle) {
    let mut manager = SidecarManager::new();
    let handle = start(&mut manager);
    (manager, handle)
}

fn start(manager: &mut SidecarManager) -> WorkerHandle {
    let program = match manager.start_sidecar(None) {
        StartStep::Spawn(command) => command.program,
        other => panic!("expected a spawn order, got {:?}", other),
    };
    match manager.spawn_finished(&program, SpawnOutcome::Spawned) {
        StartOutcome::Started { handle, .. } => handle,
        other => panic!("expected a started worker, got {:?}", other),
    }
}

#[test]
fn new_monitor_is_bound_and_active() {
    let monitor = EventMonitor::new(WorkerHandle { generation: 7 });
    assert_eq!(monitor.generation(), 7);
    assert!(!monitor.is_terminal());
}

#[test]
fn output_is_forwarded_verbatim() {
    let (mut manager, handle) = running();
    let mut monitor = EventMonitor::new(handle);
    let bytes = vec![0u8, 159, 146, 150, b'\n', b'o', b'k'];
    let action = monitor.handle_event(
        &mut manager,
        WorkerEvent::Output { stream: OutputStream::Stdout, bytes: bytes.clone() },
    );
    assert_eq!(action, MonitorAction::Forward { stream: OutputStream::Stdout, bytes });
    let action = monitor.handle_event(
        &mut manager,
        WorkerEvent::Output { stream: OutputStream::Stderr, bytes: Vec::new() },
    );
    assert_eq!(action, MonitorAction::Forward { stream: OutputStream::Stderr, bytes: Vec::new() });
    assert!(!monitor.is_terminal());
    assert!(manager.is_running());
    assert_eq!(manager.get_error(), None);
}

#[test]
fn stream_names() {
    assert_eq!(OutputStream::Stdout.name(), "stdout");
    assert_eq!(OutputStream::Stderr.name(), "stderr");
}

#[test]
fn other_events_are_ignored() {
    let (mut manager, handle) = running();
    let mut monitor = EventMonitor::new(handle);
    assert_eq!(monitor.handle_event(&mut manager, WorkerEvent::Other), MonitorAction::Continue);
    assert!(!monitor.is_terminal());
    assert!(manager.is_running());
    assert_eq!(manager.get_error(), None);
}

#[test]
fn exit_code_one_is_recorded() {
    let (mut manager, handle) = running();
    let mut monitor = EventMonitor::new(handle);
    let action = monitor.handle_event(&mut manager, WorkerEvent::Terminated(Some(1)));
    assert_eq!(action, MonitorAction::Finished { released: true });
    assert!(monitor.is_terminal());
    assert!(!manager.is_running());
    let message = manager.get_error().expect("an error is on record");
    assert_eq!(message, "Process terminated with code: Some(1)");
    assert!(message.contains('1'));
}

#[test]
fn exit_code_zero_leaves_no_error() {
    let (mut manager, handle) = running();
    let mut monitor = EventMonitor::new(handle);
    let action = monitor.handle_event(&mut manager, WorkerEvent::Terminated(Some(0)));
    assert_eq!(action, MonitorAction::Finished { released: true });
    assert!(monitor.is_terminal());
    assert!(!manager.is_running());
    assert_eq!(manager.get_error(), None);
}

#[test]
fn exit_without_code_is_recorded() {
    let (mut manager, handle) = running();
    let mut monitor = EventMonitor::new(handle);
    monitor.handle_event(&mut manager, WorkerEvent::Terminated(None));
    assert!(!manager.is_running());
    assert_eq!(manager.get_error(), Some("Process terminated with code: None".to_string()));
}

#[test]
fn negative_exit_code_is_recorded() {
    let (mut manager, handle) = running();
    let mut monitor = EventMonitor::new(handle);
    monitor.handle_event(&mut manager, WorkerEvent::Terminated(Some(-2147483648)));
    assert_eq!(
        manager.get_error(),
        Some("Process terminated with code: Some(-2147483648)".to_string())
    );
}

#[test]
fn transport_failure_is_recorded() {
    let (mut manager, handle) = running();
    let mut monitor = EventMonitor::new(handle);
    let action =
        monitor.handle_event(&mut manager, WorkerEvent::SpawnIoError("broken pipe".to_string()));
    assert_eq!(action, MonitorAction::Finished { released: true });
    assert!(monitor.is_terminal());
    assert!(!manager.is_running());
    assert_eq!(manager.get_error(), Some("Process error: broken pipe".to_string()));
}

#[test]
fn events_after_the_end_are_not_processed() {
    let (mut manager, handle) = running();
    let mut monitor = EventMonitor::new(handle);
    monitor.handle_event(&mut manager, WorkerEvent::Terminated(Some(0)));
    let next = start(&mut manager);
    assert_eq!(next.generation, 2);
    let action = monitor.handle_event(&mut manager, WorkerEvent::Terminated(Some(3)));
    assert_eq!(action, MonitorAction::Finished { released: false });
    let action = monitor.handle_event(
        &mut manager,
        WorkerEvent::Output { stream: OutputStream::Stdout, bytes: vec![1, 2, 3] },
    );
    assert_eq!(action, MonitorAction::Finished { released: false });
    let action = monitor.handle_event(&mut manager, WorkerEvent::SpawnIoError("x".to_string()));
    assert_eq!(action, MonitorAction::Finished { released: false });
    assert_eq!(manager.handle(), Some(next));
    assert_eq!(manager.get_error(), None);
}

#[test]
fn stale_monitor_spares_the_new_worker() {
    let (mut manager, first) = running();
    let mut old_monitor = EventMonitor::new(first);
    assert_eq!(manager.stop_sidecar(), StopStep::Kill(first));
    let second = start(&mut manager);
    let action = old_monitor.handle_event(&mut manager, WorkerEvent::Terminated(None));
    assert_eq!(action, MonitorAction::Finished { released: false });
    assert!(old_monitor.is_terminal());
    assert!(manager.is_running());
    assert_eq!(manager.handle(), Some(second));
    assert_eq!(manager.get_error(), None);
}

#[test]
fn exit_after_stop_records_nothing() {
    let (mut manager, handle) = running();
    let mut monitor = EventMonitor::new(handle);
    assert_eq!(manager.stop_sidecar(), StopStep::Kill(handle));
    assert_eq!(manager.kill_finished(Ok(())), Ok(()));
    let action = monitor.handle_event(&mut manager, WorkerEvent::Terminated(None));
    assert_eq!(action, MonitorAction::Finished { released: false });
    assert!(!manager.is_running());
    assert_eq!(manager.get_error(), None);
}

#[test]
fn scripted_stream_ends_at_first_terminal_event() {
    let (mut manager, handle) = running();
    let mut monitor = EventMonitor::new(handle);
    let events = vec![
        WorkerEvent::Output { stream: OutputStream::Stdout, bytes: b"listening".to_vec() },
        WorkerEvent::Other,
        WorkerEvent::Output { stream: OutputStream::Stderr, bytes: b"fatal".to_vec() },
        WorkerEvent::Terminated(Some(2)),
        WorkerEvent::Terminated(Some(0)),
        WorkerEvent::SpawnIoError("late".to_string()),
    ];
    let mut forwarded = Vec::new();
    let mut processed = 0;
    for event in events {
        match monitor.handle_event(&mut manager, event) {
            MonitorAction::Forward { stream, bytes } => forwarded.push((stream, bytes)),
            MonitorAction::Continue => {}
            MonitorAction::Finished { .. } => break,
        }
        processed += 1;
    }
    assert_eq!(processed, 3);
    assert_eq!(
        forwarded,
        vec![
            (OutputStream::Stdout, b"listening".to_vec()),
            (OutputStream::Stderr, b"fatal".to_vec()),
        ]
    );
    assert!(!manager.is_running());
    assert_eq!(manager.get_error(), Some("Process terminated with code: Some(2)".to_string()));
}

#[test]
fn exit_failure_by_code() {
    assert_eq!(exit_failure(Some(0)), None);
    assert_eq!(exit_failure(Some(1)), Some(SidecarError::AbnormalExit { code: Some(1) }));
    assert_eq!(exit_failure(Some(-1)), Some(SidecarError::AbnormalExit { code: Some(-1) }));
    assert_eq!(exit_failure(None), Some(SidecarError::AbnormalExit { code: None }));
}
