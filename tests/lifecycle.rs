use wasi_provider::lifecycle::{Directive, Entry, Lifecycle, Phase, Status, StatusKind, WorkerEvent};

fn run(events: &[WorkerEvent]) -> (Vec<StatusKind>, Vec<Directive>, Phase) {
    let mut l = Lifecycle::new();
    let mut kinds = Vec::new();
    let mut directives = Vec::new();
    for (i, e) in events.iter().enumerate() {
        let (s, d) = l.step(*e, i as i64);
        if let Some(s) = s {
            kinds.push(s.kind());
        }
        directives.push(d);
    }
    (kinds, directives, l.phase())
}

#[test]
fn load_failure_reports_only_terminated() {
    let (k, d, p) = run(&[WorkerEvent::LoadFailed]);
    assert_eq!(k, vec![StatusKind::Terminated { failed: true }]);
    assert_eq!(d, vec![Directive::Exit { failed: true }]);
    assert_eq!(p, Phase::Finished);
}

#[test]
fn link_failure_reports_only_terminated() {
    let (k, _, p) = run(&[WorkerEvent::Loaded, WorkerEvent::LinkFailed]);
    assert_eq!(k, vec![StatusKind::Terminated { failed: true }]);
    assert_eq!(p, Phase::Finished);
}

#[test]
fn instantiate_failure_reports_only_terminated() {
    let (k, _, _) = run(&[WorkerEvent::Loaded, WorkerEvent::Linked, WorkerEvent::InstantiateFailed]);
    assert_eq!(k, vec![StatusKind::Terminated { failed: true }]);
}

#[test]
fn entry_point_run_reports_running_then_terminated() {
    let (k, d, p) = run(&[
        WorkerEvent::Loaded,
        WorkerEvent::Linked,
        WorkerEvent::Instantiated,
        WorkerEvent::EntryLookedUp(Entry::Function),
        WorkerEvent::EntryReturned { trapped: false },
    ]);
    assert_eq!(k, vec![StatusKind::Running, StatusKind::Terminated { failed: false }]);
    assert_eq!(
        d,
        vec![
            Directive::Proceed,
            Directive::Proceed,
            Directive::LookUpEntry,
            Directive::RunEntry,
            Directive::Exit { failed: false }
        ]
    );
    assert_eq!(p, Phase::Finished);
}

#[test]
fn interrupted_entry_point_reports_failure() {
    let (k, _, _) = run(&[
        WorkerEvent::Loaded,
        WorkerEvent::Linked,
        WorkerEvent::Instantiated,
        WorkerEvent::EntryLookedUp(Entry::Function),
        WorkerEvent::EntryReturned { trapped: true },
    ]);
    assert_eq!(k, vec![StatusKind::Running, StatusKind::Terminated { failed: true }]);
}

#[test]
fn entry_mode_never_serves() {
    let (_, d, p) = run(&[
        WorkerEvent::Loaded,
        WorkerEvent::Linked,
        WorkerEvent::Instantiated,
        WorkerEvent::EntryLookedUp(Entry::Function),
        WorkerEvent::EntryLookedUp(Entry::Absent),
        WorkerEvent::ChannelClosed,
    ]);
    assert_eq!(d[4], Directive::Ignore);
    assert_eq!(d[5], Directive::Ignore);
    assert_eq!(p, Phase::EntryRunning);
}

#[test]
fn serving_mode_ends_when_channel_closes() {
    let (k, d, p) = run(&[
        WorkerEvent::Loaded,
        WorkerEvent::Linked,
        WorkerEvent::Instantiated,
        WorkerEvent::EntryLookedUp(Entry::Absent),
        WorkerEvent::ChannelClosed,
    ]);
    assert_eq!(d[3], Directive::Serve);
    assert_eq!(k, vec![StatusKind::Running, StatusKind::Terminated { failed: true }]);
    assert_eq!(p, Phase::Finished);
}

#[test]
fn entry_not_a_function_fails() {
    let (k, _, _) = run(&[
        WorkerEvent::Loaded,
        WorkerEvent::Linked,
        WorkerEvent::Instantiated,
        WorkerEvent::EntryLookedUp(Entry::NotFunction),
    ]);
    assert_eq!(k, vec![StatusKind::Running, StatusKind::Terminated { failed: true }]);
}

#[test]
fn finished_worker_ignores_events() {
    let (k, d, _) = run(&[WorkerEvent::LoadFailed, WorkerEvent::Loaded, WorkerEvent::Instantiated]);
    assert_eq!(k.len(), 1);
    assert_eq!(d[1], Directive::Ignore);
    assert_eq!(d[2], Directive::Ignore);
}

#[test]
fn status_carries_time_and_message() {
    let mut l = Lifecycle::new();
    let (s, _) = l.step(WorkerEvent::LoadFailed, 77);
    match s {
        Some(Status::Terminated { failed, message, timestamp }) => {
            assert!(failed);
            assert_eq!(message, "unable to create module");
            assert_eq!(timestamp, 77);
        }
        _ => panic!("expected a termination report"),
    }
    let mut l = Lifecycle::new();
    let (s, _) = l.step(WorkerEvent::Loaded, 5);
    assert!(s.is_none());
}

fn last_message(events: &[WorkerEvent]) -> String {
    let mut l = Lifecycle::new();
    let mut last = String::new();
    for e in events {
        if let (Some(Status::Terminated { message, .. }), _) = l.step(*e, 0) {
            last = message;
        }
    }
    last
}

#[test]
fn termination_messages() {
    assert_eq!(last_message(&[WorkerEvent::LoadFailed]), "unable to create module");
    assert_eq!(last_message(&[WorkerEvent::Loaded, WorkerEvent::LinkFailed]), "unable to load module");
    assert_eq!(last_message(&[WorkerEvent::Loaded, WorkerEvent::Linked, WorkerEvent::InstantiateFailed]), "unable to instantiate module");
    let run = [WorkerEvent::Loaded, WorkerEvent::Linked, WorkerEvent::Instantiated, WorkerEvent::EntryLookedUp(Entry::Function)];
    let mut ok = run.to_vec();
    ok.push(WorkerEvent::EntryReturned { trapped: false });
    assert_eq!(last_message(&ok), "Module run completed");
    let mut trapped = run.to_vec();
    trapped.push(WorkerEvent::EntryReturned { trapped: true });
    assert_eq!(last_message(&trapped), "unable to run module");
    assert_eq!(
        last_message(&[WorkerEvent::Loaded, WorkerEvent::Linked, WorkerEvent::Instantiated, WorkerEvent::EntryLookedUp(Entry::Absent), WorkerEvent::ChannelClosed]),
        "command channel closed"
    );
}
