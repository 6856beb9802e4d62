use vstd::prelude::*;

verus! {

/// The lifecycle state of one module execution worker.
#[derive(Clone, Copy, Debug, PartialEq, Eq, Structural)]
pub enum Phase {
    /// Nothing done yet.
    Created,
    /// The module binary compiled.
    Loaded,
    /// Every import resolved.
    Linked,
    /// The instance exists and `Running` was reported; the entry point is
    /// being looked up.
    Dispatching,
    /// The designated entry point runs; exec requests are refused.
    EntryRunning,
    /// No entry point: exec requests are served one at a time.
    Serving,
    /// The worker is done and `Terminated` was reported.
    Finished,
}

/// What the lookup of the designated entry point found.
#[derive(Clone, Copy, Debug, PartialEq, Eq, Structural)]
pub enum Entry {
    Absent,
    Function,
    NotFunction,
}

/// What happened to the worker since its last step.
#[derive(Clone, Copy, Debug, PartialEq, Eq, Structural)]
pub enum WorkerEvent {
    /// The module binary is malformed.
    LoadFailed,
    Loaded,
    /// An import names an unknown namespace or a missing symbol.
    LinkFailed,
    Linked,
    InstantiateFailed,
    Instantiated,
    EntryLookedUp(Entry),
    /// The entry point returned, or trapped (an interrupt included).
    EntryReturned { trapped: bool },
    /// The exec channel closed, from either side.
    ChannelClosed,
}

/// The observable projection of a status report.
#[derive(Clone, Copy, Debug, PartialEq, Eq, Structural)]
pub enum StatusKind {
    Running,
    Terminated { failed: bool },
}

/// A lifecycle status report. Timestamps are milliseconds since the Unix epoch.
#[derive(Clone, Debug)]
pub enum Status {
    Running { timestamp: i64 },
    Terminated { failed: bool, message: String, timestamp: i64 },
}

impl Status {
    pub open spec fn kind_spec(&self) -> StatusKind {
        match self {
            Status::Running { .. } => StatusKind::Running,
            Status::Terminated { failed, .. } => StatusKind::Terminated { failed: *failed },
        }
    }

    /// The report's kind, without message and timestamp.
    pub fn kind(&self) -> (r: StatusKind)
        ensures
            r == self.kind_spec(),
    {
        match self {
            Status::Running { .. } => StatusKind::Running,
            Status::Terminated { failed, .. } => StatusKind::Terminated { failed: *failed },
        }
    }
}

/// What the worker does next.
#[derive(Clone, Copy, Debug, PartialEq, Eq, Structural)]
pub enum Directive {
    /// Go on to the next stage of start-up.
    Proceed,
    /// Look up the designated entry point.
    LookUpEntry,
    /// Drop both ends of the exec channel, then call the entry point once.
    RunEntry,
    /// Serve exec requests until the channel closes.
    Serve,
    /// Stop the worker thread, with an error when `failed`.
    Exit { failed: bool },
    /// The event does not apply in this state: nothing changes.
    Ignore,
}

/// The transition function: the next phase, the status report to emit, if
/// any, and what to do next.
pub open spec fn transition(p: Phase, e: WorkerEvent) -> (Phase, Option<StatusKind>, Directive) {
    let fail = (Phase::Finished, Some(StatusKind::Terminated { failed: true }), Directive::Exit { failed: true });
    match (p, e) {
        (Phase::Created, WorkerEvent::LoadFailed) => fail,
        (Phase::Created, WorkerEvent::Loaded) => (Phase::Loaded, None, Directive::Proceed),
        (Phase::Loaded, WorkerEvent::LinkFailed) => fail,
        (Phase::Loaded, WorkerEvent::Linked) => (Phase::Linked, None, Directive::Proceed),
        (Phase::Linked, WorkerEvent::InstantiateFailed) => fail,
        (Phase::Linked, WorkerEvent::Instantiated) => (
            Phase::Dispatching,
            Some(StatusKind::Running),
            Directive::LookUpEntry,
        ),
        (Phase::Dispatching, WorkerEvent::EntryLookedUp(Entry::Absent)) => (
            Phase::Serving,
            None,
            Directive::Serve,
        ),
        (Phase::Dispatching, WorkerEvent::EntryLookedUp(Entry::Function)) => (
            Phase::EntryRunning,
            None,
            Directive::RunEntry,
        ),
        (Phase::Dispatching, WorkerEvent::EntryLookedUp(Entry::NotFunction)) => fail,
        (Phase::EntryRunning, WorkerEvent::EntryReturned { trapped }) => (
            Phase::Finished,
            Some(StatusKind::Terminated { failed: trapped }),
            Directive::Exit { failed: trapped },
        ),
        (Phase::Serving, WorkerEvent::ChannelClosed) => fail,
        _ => (p, None, Directive::Ignore),
    }
}

/// The phase after a sequence of events, from `Created`.
pub open spec fn phase_after(events: Seq<WorkerEvent>) -> Phase
    decreases events.len(),
{
    if events.len() == 0 {
        Phase::Created
    } else {
        transition(phase_after(events.drop_last()), events.last()).0
    }
}

/// The status reports emitted over a sequence of events, from `Created`.
pub open spec fn reports(events: Seq<WorkerEvent>) -> Seq<StatusKind>
    decreases events.len(),
{
    if events.len() == 0 {
        Seq::empty()
    } else {
        let prev = reports(events.drop_last());
        match transition(phase_after(events.drop_last()), events.last()).1 {
            Some(k) => prev.push(k),
            None => prev,
        }
    }
}

/// The phases in which exec requests are answered.
pub open spec fn serves_exec(p: Phase) -> bool {
    p == Phase::Serving
}

/// The phases reached once the module chose its entry point.
pub open spec fn entry_mode(p: Phase) -> bool {
    p == Phase::EntryRunning || (p == Phase::Finished)
}

/// The reports that may have been emitted in each phase.
pub open spec fn reports_fit(p: Phase, r: Seq<StatusKind>) -> bool {
    match p {
        Phase::Created | Phase::Loaded | Phase::Linked => r.len() == 0,
        Phase::Dispatching | Phase::EntryRunning | Phase::Serving => r == seq![StatusKind::Running],
        Phase::Finished => r == seq![StatusKind::Terminated { failed: true }] || (r.len() == 2
            && r[0] == StatusKind::Running && r[1] is Terminated),
    }
}

proof fn lemma_reports_fit(events: Seq<WorkerEvent>)
    ensures
        reports_fit(phase_after(events), reports(events)),
    decreases events.len(),
{
    if events.len() > 0 {
        lemma_reports_fit(events.drop_last());
        let prev = reports(events.drop_last());
        if phase_after(events.drop_last()) == Phase::Created {
            assert(prev.push(StatusKind::Terminated { failed: true }) =~= seq![
                StatusKind::Terminated { failed: true },
            ]);
        }
        if phase_after(events.drop_last()) == Phase::Loaded {
            assert(prev.push(StatusKind::Terminated { failed: true }) =~= seq![
                StatusKind::Terminated { failed: true },
            ]);
        }
        if phase_after(events.drop_last()) == Phase::Linked {
            assert(prev.push(StatusKind::Terminated { failed: true }) =~= seq![
                StatusKind::Terminated { failed: true },
            ]);
            assert(prev.push(StatusKind::Running) =~= seq![StatusKind::Running]);
        }
    }
}

/// Whatever events a worker meets, its status reports are, in order: none;
/// one `Terminated { failed: true }` with no `Running` before it (the module
/// never ran); one `Running`; or one `Running` followed by one `Terminated`.
/// A finished worker has reported one of the two sequences that end in
/// `Terminated`.
pub proof fn lemma_status_sequence(events: Seq<WorkerEvent>)
    ensures
        reports(events).len() == 0 || reports(events) == seq![
            StatusKind::Terminated { failed: true },
        ] || reports(events) == seq![StatusKind::Running] || (reports(events).len() == 2
            && reports(events)[0] == StatusKind::Running && reports(events)[1] is Terminated),
        phase_after(events) == Phase::Finished ==> (reports(events) == seq![
            StatusKind::Terminated { failed: true },
        ] || (reports(events).len() == 2 && reports(events)[0] == StatusKind::Running
            && reports(events)[1] is Terminated)),
{
    lemma_reports_fit(events);
}

proof fn lemma_entry_mode_kept(events: Seq<WorkerEvent>, more: Seq<WorkerEvent>)
    requires
        entry_mode(phase_after(events)),
    ensures
        entry_mode(phase_after(events + more)),
    decreases more.len(),
{
    if more.len() > 0 {
        lemma_entry_mode_kept(events, more.drop_last());
        assert((events + more).drop_last() =~= events + more.drop_last());
    } else {
        assert(events + more =~= events);
    }
}

/// Once a worker has found its designated entry point, no later event
/// brings it to serve exec requests: every exec call against it fails on
/// the closed channel, whenever it is made.
pub proof fn lemma_entry_point_refuses_exec(events: Seq<WorkerEvent>, more: Seq<WorkerEvent>)
    requires
        phase_after(events) == Phase::EntryRunning,
    ensures
        !serves_exec(phase_after(events + more)),
{
    lemma_entry_mode_kept(events, more);
}

proof fn lemma_serving_mode_kept(events: Seq<WorkerEvent>, more: Seq<WorkerEvent>)
    requires
        phase_after(events) == Phase::Serving || phase_after(events) == Phase::Finished,
    ensures
        phase_after(events + more) == Phase::Serving || phase_after(events + more)
            == Phase::Finished,
    decreases more.len(),
{
    if more.len() > 0 {
        lemma_serving_mode_kept(events, more.drop_last());
        assert((events + more).drop_last() =~= events + more.drop_last());
    } else {
        assert(events + more =~= events);
    }
}

/// The exec mode of a worker is fixed once chosen: a worker that serves
/// exec requests never goes on to run an entry point, so the exec channel
/// stays available until the worker finishes.
pub proof fn lemma_serving_never_runs_entry(events: Seq<WorkerEvent>, more: Seq<WorkerEvent>)
    requires
        phase_after(events) == Phase::Serving,
    ensures
        phase_after(events + more) != Phase::EntryRunning,
{
    lemma_serving_mode_kept(events, more);
}

/// The lifecycle state machine of a module execution worker.
pub struct Lifecycle {
    phase: Phase,
}

/// The message of the `Terminated` report that a transition emits.
pub open spec fn report_message(p: Phase, e: WorkerEvent) -> Seq<char> {
    match (p, e) {
        (Phase::Created, WorkerEvent::LoadFailed) => "unable to create module"@,
        (Phase::Loaded, WorkerEvent::LinkFailed) => "unable to load module"@,
        (Phase::Linked, WorkerEvent::InstantiateFailed) => "unable to instantiate module"@,
        (Phase::Dispatching, WorkerEvent::EntryLookedUp(Entry::NotFunction)) =>
            "_start export was not a function"@,
        (Phase::EntryRunning, WorkerEvent::EntryReturned { trapped }) => if trapped {
            "unable to run module"@
        } else {
            "Module run completed"@
        },
        (Phase::Serving, WorkerEvent::ChannelClosed) => "command channel closed"@,
        _ => Seq::empty(),
    }
}

fn failed(message: &str, now: i64) -> (r: Status)
    ensures
        r.kind_spec() == (StatusKind::Terminated { failed: true }),
        r matches Status::Terminated { timestamp, message: m, .. } && timestamp == now && m@
            == message@,
{
    Status::Terminated { failed: true, message: message.to_owned(), timestamp: now }
}

impl Lifecycle {
    pub closed spec fn phase_spec(&self) -> Phase {
        self.phase
    }

    /// A worker that has done nothing yet.
    pub fn new() -> (r: Lifecycle)
        ensures
            r.phase_spec() == Phase::Created,
    {
        Lifecycle { phase: Phase::Created }
    }

    /// The current phase.
    pub fn phase(&self) -> (r: Phase)
        ensures
            r == self.phase_spec(),
    {
        self.phase
    }

    /// Applies one event at time `now`: moves to the next phase and returns
    /// the status report to emit, if any, with what to do next.
    pub fn step(&mut self, event: WorkerEvent, now: i64) -> (r: (Option<Status>, Directive))
        ensures
            final(self).phase_spec() == transition(old(self).phase_spec(), event).0,
            r.1 == transition(old(self).phase_spec(), event).2,
            match (r.0, transition(old(self).phase_spec(), event).1) {
                (Some(s), Some(k)) => s.kind_spec() == k && match s {
                    Status::Running { timestamp } => timestamp == now,
                    Status::Terminated { timestamp, .. } => timestamp == now,
                },
                (None, None) => true,
                _ => false,
            },
            r.0 matches Some(Status::Terminated { message, .. }) ==> message@ == report_message(
                old(self).phase_spec(),
                event,
            ),
    {
        let (next, status, directive) = match (self.phase, event) {
            (Phase::Created, WorkerEvent::LoadFailed) => (
                Phase::Finished,
                Some(failed("unable to create module", now)),
                Directive::Exit { failed: true },
            ),
            (Phase::Created, WorkerEvent::Loaded) => (Phase::Loaded, None, Directive::Proceed),
            (Phase::Loaded, WorkerEvent::LinkFailed) => (
                Phase::Finished,
                Some(failed("unable to load module", now)),
                Directive::Exit { failed: true },
            ),
            (Phase::Loaded, WorkerEvent::Linked) => (Phase::Linked, None, Directive::Proceed),
            (Phase::Linked, WorkerEvent::InstantiateFailed) => (
                Phase::Finished,
                Some(failed("unable to instantiate module", now)),
                Directive::Exit { failed: true },
            ),
            (Phase::Linked, WorkerEvent::Instantiated) => (
                Phase::Dispatching,
                Some(Status::Running { timestamp: now }),
                Directive::LookUpEntry,
            ),
            (Phase::Dispatching, WorkerEvent::EntryLookedUp(Entry::Absent)) => (
                Phase::Serving,
                None,
                Directive::Serve,
            ),
            (Phase::Dispatching, WorkerEvent::EntryLookedUp(Entry::Function)) => (
                Phase::EntryRunning,
                None,
                Directive::RunEntry,
            ),
            (Phase::Dispatching, WorkerEvent::EntryLookedUp(Entry::NotFunction)) => (
                Phase::Finished,
                Some(failed("_start export was not a function", now)),
                Directive::Exit { failed: true },
            ),
            (Phase::EntryRunning, WorkerEvent::EntryReturned { trapped }) => {
                let message = if trapped {
                    "unable to run module"
                } else {
                    "Module run completed"
                };
                (
                    Phase::Finished,
                    Some(
                        Status::Terminated {
                            failed: trapped,
                            message: message.to_owned(),
                            timestamp: now,
                        },
                    ),
                    Directive::Exit { failed: trapped },
                )
            },
            (Phase::Serving, WorkerEvent::ChannelClosed) => (
                Phase::Finished,
                Some(failed("command channel closed", now)),
                Directive::Exit { failed: true },
            ),
            (p, _) => (p, None, Directive::Ignore),
        };
        self.phase = next;
        (status, directive)
    }

}

} // verus!
