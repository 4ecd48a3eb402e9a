//! The reload loop: when to build, when to serve, and when to stop.
//!
//! The loop is a state machine. Its driver waits for messages, runs the
//! pipeline, starts and stops the server process, and tells the machine of
//! each event; the machine answers with what to do.

use crate::bus::{Msg, Signal};
use crate::pipeline::{BuildOutcome, Outcome, Stage};
use vstd::prelude::*;

verus! {

/// Where the loop stands.
#[derive(Clone, Copy, Debug, PartialEq, Eq, Structural)]
pub enum Phase {
    /// Waiting for a change or the word to stop.
    Idle,
    /// The pipeline is running.
    Building,
    /// The build succeeded and the server is being started.
    Serving,
    /// The loop has ended.
    Stopped,
}

/// The state of the loop.
#[derive(Clone, Copy, Debug, PartialEq, Eq, Structural)]
pub struct ReloadLoop {
    pub phase: Phase,
    /// No build has been started yet: the first one is a full build.
    pub first: bool,
    /// A server process is running and is the loop's to stop.
    pub server: bool,
    /// A change came in that the build under way does not cover.
    pub pending: bool,
}

/// What happened.
#[derive(Clone, Debug, PartialEq, Eq)]
pub enum Event {
    /// The loop is set going.
    Start,
    /// A message came in on the bus.
    Message(Msg),
    /// The pipeline run ended.
    BuildEnded(BuildOutcome),
    /// The server process was started.
    ServerStarted,
    /// The server process could not be started, for the cause given.
    ServerFailed(String),
}

/// The view of an `Event`.
pub enum Occurrence {
    Start,
    Message(Signal),
    BuildEnded(Outcome),
    ServerStarted,
    ServerFailed(Seq<char>),
}

impl View for Event {
    type V = Occurrence;

    open spec fn view(&self) -> Occurrence {
        match self {
            Event::Start => Occurrence::Start,
            Event::Message(msg) => Occurrence::Message(msg@),
            Event::BuildEnded(outcome) => Occurrence::BuildEnded(outcome@),
            Event::ServerStarted => Occurrence::ServerStarted,
            Event::ServerFailed(cause) => Occurrence::ServerFailed(cause@),
        }
    }
}

/// What the driver of the loop is to do.
#[derive(Clone, Debug, PartialEq, Eq)]
pub enum Action {
    /// Start a run of the pipeline, a full build or not.
    Build { full: bool },
    /// Set the cancellation token of the run under way.
    CancelBuild,
    /// Publish the message that makes browsers reload.
    PublishReload,
    /// Terminate the server process.
    StopServer,
    /// Start the server process just built.
    StartServer,
    /// Report that a stage of the build failed.
    ReportFailure { stage: Stage, cause: String },
    /// Report that the server process could not be started.
    ReportSpawnFailure(String),
    /// Stop listening on the bus.
    Unsubscribe,
}

/// The view of an `Action`.
pub enum Deed {
    Build { full: bool },
    CancelBuild,
    PublishReload,
    StopServer,
    StartServer,
    ReportFailure { stage: Stage, cause: Seq<char> },
    ReportSpawnFailure(Seq<char>),
    Unsubscribe,
}

impl View for Action {
    type V = Deed;

    open spec fn view(&self) -> Deed {
        match self {
            Action::Build { full } => Deed::Build { full: *full },
            Action::CancelBuild => Deed::CancelBuild,
            Action::PublishReload => Deed::PublishReload,
            Action::StopServer => Deed::StopServer,
            Action::StartServer => Deed::StartServer,
            Action::ReportFailure { stage, cause } => Deed::ReportFailure {
                stage: *stage,
                cause: cause@,
            },
            Action::ReportSpawnFailure(cause) => Deed::ReportSpawnFailure(cause@),
            Action::Unsubscribe => Deed::Unsubscribe,
        }
    }
}

/// The deeds of a list of actions.
pub open spec fn deeds(actions: Seq<Action>) -> Seq<Deed> {
    actions.map_values(|a: Action| a@)
}

/// The event asks for a build: the loop is set going, or source code or a
/// style sheet changed.
pub open spec fn wants_build(event: Occurrence) -> bool {
    event is Start || event == Occurrence::Message(Signal::SrcChanged) || event
        == Occurrence::Message(Signal::StyleChanged)
}

/// The report that the end of a run asks for: one for a failure, none
/// else.
pub open spec fn failure_report(outcome: Outcome) -> Seq<Deed> {
    match outcome {
        Outcome::Failure { stage, cause } => seq![Deed::ReportFailure { stage, cause }],
        _ => seq![],
    }
}

/// The event is the word to stop.
pub open spec fn wants_stop(event: Occurrence) -> bool {
    event == Occurrence::Message(Signal::ShutDown)
}

impl ReloadLoop {
    /// The loop after it has begun a build.
    pub open spec fn building(self) -> ReloadLoop {
        ReloadLoop { phase: Phase::Building, first: false, pending: false, ..self }
    }

    /// What holds of the loop from its beginning on: until the first build
    /// is begun the loop rests, or has been stopped, and has no server; a
    /// change is remembered only while building or serving; and while the
    /// new server is being started no server runs.
    pub open spec fn wf(self) -> bool {
        &&& self.first ==> (self.phase == Phase::Idle || self.phase == Phase::Stopped)
            && !self.server
        &&& self.pending ==> self.phase == Phase::Building || self.phase == Phase::Serving
        &&& self.phase == Phase::Serving ==> !self.server
    }

    /// The loop back at rest.
    pub open spec fn idle(self) -> ReloadLoop {
        ReloadLoop { phase: Phase::Idle, pending: false, ..self }
    }

    /// The state after an event.
    ///
    /// A stopped loop stays stopped. The word to stop ends the loop from
    /// any state. At rest, a change begins a build. During a build, a change
    /// is remembered; when the run ends, a remembered change or a cancelled
    /// run begins the next build at once, a success leads to serving, and a
    /// failure leads back to rest. While the server is being started, a
    /// change is remembered; once the server runs or has failed to start,
    /// a remembered change begins the next build, and else the loop rests.
    pub open spec fn after(self, event: Occurrence) -> ReloadLoop {
        if self.phase == Phase::Stopped {
            self
        } else if wants_stop(event) {
            ReloadLoop { phase: Phase::Stopped, server: false, pending: false, ..self }
        } else {
            match self.phase {
                Phase::Idle => if wants_build(event) {
                    self.building()
                } else {
                    self
                },
                Phase::Building => match event {
                    Occurrence::BuildEnded(outcome) => if self.pending || outcome is Cancelled {
                        self.building()
                    } else if outcome is Success {
                        ReloadLoop { phase: Phase::Serving, server: false, ..self }
                    } else {
                        self.idle()
                    },
                    _ => if wants_build(event) {
                        ReloadLoop { pending: true, ..self }
                    } else {
                        self
                    },
                },
                Phase::Serving => match event {
                    Occurrence::ServerStarted => if self.pending {
                        ReloadLoop { server: true, ..self }.building()
                    } else {
                        ReloadLoop { server: true, ..self }.idle()
                    },
                    Occurrence::ServerFailed(_) => if self.pending {
                        self.building()
                    } else {
                        self.idle()
                    },
                    _ => if wants_build(event) {
                        ReloadLoop { pending: true, ..self }
                    } else {
                        self
                    },
                },
                Phase::Stopped => self,
            }
        }
    }

    /// What the driver is to do after an event, in this order.
    ///
    /// To stop, the run under way is cancelled, the server is terminated if
    /// one runs or is being started, and the loop leaves the bus. A build is
    /// begun full the first time only. The first change during a build
    /// cancels it. After a success the browsers are told to reload, the old
    /// server is terminated if one runs, and the new one is started. Every
    /// failure is reported, also that of a run which a change has overtaken:
    /// the report then comes before the next build is begun.
    pub open spec fn orders(self, event: Occurrence) -> Seq<Deed> {
        if self.phase == Phase::Stopped {
            seq![]
        } else if wants_stop(event) {
            (if self.phase == Phase::Building {
                seq![Deed::CancelBuild]
            } else {
                seq![]
            }) + (if self.server || self.phase == Phase::Serving {
                seq![Deed::StopServer]
            } else {
                seq![]
            }) + seq![Deed::Unsubscribe]
        } else {
            match self.phase {
                Phase::Idle => if wants_build(event) {
                    seq![Deed::Build { full: self.first }]
                } else {
                    seq![]
                },
                Phase::Building => match event {
                    Occurrence::BuildEnded(outcome) => if self.pending || outcome is Cancelled {
                        failure_report(outcome) + seq![Deed::Build { full: false }]
                    } else {
                        match outcome {
                            Outcome::Success { .. } => (seq![Deed::PublishReload]) + (
                            if self.server {
                                seq![Deed::StopServer]
                            } else {
                                seq![]
                            }) + seq![Deed::StartServer],
                            Outcome::Failure { stage, cause } => seq![
                                Deed::ReportFailure { stage, cause },
                            ],
                            Outcome::Cancelled => seq![],
                        }
                    },
                    _ => if wants_build(event) && !self.pending {
                        seq![Deed::CancelBuild]
                    } else {
                        seq![]
                    },
                },
                Phase::Serving => match event {
                    Occurrence::ServerStarted => if self.pending {
                        seq![Deed::Build { full: false }]
                    } else {
                        seq![]
                    },
                    Occurrence::ServerFailed(cause) => (seq![Deed::ReportSpawnFailure(cause)]) + (
                    if self.pending {
                        seq![Deed::Build { full: false }]
                    } else {
                        seq![]
                    }),
                    _ => seq![],
                },
                Phase::Stopped => seq![],
            }
        }
    }
}

/// Whether the event asks for a build.
pub fn asks_build(event: &Event) -> (r: bool)
    ensures
        r == wants_build(event@),
{
    match event {
        Event::Start => true,
        Event::Message(Msg::SrcChanged) => true,
        Event::Message(Msg::StyleChanged) => true,
        _ => false,
    }
}

/// Whether the event is the word to stop.
pub fn asks_stop(event: &Event) -> (r: bool)
    ensures
        r == wants_stop(event@),
{
    match event {
        Event::Message(Msg::ShutDown) => true,
        _ => false,
    }
}

impl ReloadLoop {
    /// The loop before anything has happened: at rest, with no server and
    /// the first build still to come.
    pub fn new() -> (r: ReloadLoop)
        ensures
            r == (ReloadLoop { phase: Phase::Idle, first: true, server: false, pending: false }),
            r.wf(),
    {
        ReloadLoop { phase: Phase::Idle, first: true, server: false, pending: false }
    }

    /// Whether the loop has ended.
    pub fn is_stopped(&self) -> (r: bool)
        ensures
            r == (self.phase == Phase::Stopped),
    {
        self.phase == Phase::Stopped
    }

    fn begin_build(&mut self)
        ensures
            *final(self) == old(self).building(),
    {
        self.phase = Phase::Building;
        self.first = false;
        self.pending = false;
    }

    fn rest(&mut self)
        ensures
            *final(self) == old(self).idle(),
    {
        self.phase = Phase::Idle;
        self.pending = false;
    }

    /// Takes an event, moves the loop on and returns what the driver is to
    /// do, in order.
    pub fn step(&mut self, event: Event) -> (actions: Vec<Action>)
        ensures
            *final(self) == old(self).after(event@),
            deeds(actions@) == old(self).orders(event@),
            old(self).wf() ==> final(self).wf(),
    {
        let mut actions: Vec<Action> = Vec::new();
        if self.phase == Phase::Stopped {
        } else if asks_stop(&event) {
            if self.phase == Phase::Building {
                actions.push(Action::CancelBuild);
            }
            if self.server || self.phase == Phase::Serving {
                actions.push(Action::StopServer);
            }
            actions.push(Action::Unsubscribe);
            self.phase = Phase::Stopped;
            self.server = false;
            self.pending = false;
        } else {
            match self.phase {
                Phase::Idle => {
                    if asks_build(&event) {
                        actions.push(Action::Build { full: self.first });
                        self.begin_build();
                    }
                },
                Phase::Building => match event {
                    Event::BuildEnded(outcome) => {
                        let cancelled = match &outcome {
                            BuildOutcome::Cancelled => true,
                            _ => false,
                        };
                        if self.pending || cancelled {
                            if let BuildOutcome::Failure { stage, cause } = outcome {
                                actions.push(Action::ReportFailure { stage, cause });
                            }
                            actions.push(Action::Build { full: false });
                            self.begin_build();
                        } else {
                            match outcome {
                                BuildOutcome::Success(_) => {
                                    actions.push(Action::PublishReload);
                                    if self.server {
                                        actions.push(Action::StopServer);
                                    }
                                    actions.push(Action::StartServer);
                                    self.phase = Phase::Serving;
                                    self.server = false;
                                },
                                BuildOutcome::Failure { stage, cause } => {
                                    actions.push(Action::ReportFailure { stage, cause });
                                    self.rest();
                                },
                                BuildOutcome::Cancelled => {},
                            }
                        }
                    },
                    _ => {
                        if asks_build(&event) {
                            if !self.pending {
                                actions.push(Action::CancelBuild);
                            }
                            self.pending = true;
                        }
                    },
                },
                Phase::Serving => match event {
                    Event::ServerStarted => {
                        self.server = true;
                        if self.pending {
                            actions.push(Action::Build { full: false });
                            self.begin_build();
                        } else {
                            self.rest();
                        }
                    },
                    Event::ServerFailed(cause) => {
                        actions.push(Action::ReportSpawnFailure(cause));
                        if self.pending {
                            actions.push(Action::Build { full: false });
                            self.begin_build();
                        } else {
                            self.rest();
                        }
                    },
                    _ => {
                        if asks_build(&event) {
                            self.pending = true;
                        }
                    },
                },
                Phase::Stopped => {},
            }
        }
        proof {
            assert(deeds(actions@) =~= old(self).orders(event@));
        }
        actions
    }
}

/// A change of source code or of a style sheet.
pub open spec fn is_change(event: Occurrence) -> bool {
    event == Occurrence::Message(Signal::SrcChanged) || event == Occurrence::Message(
        Signal::StyleChanged,
    )
}

/// Every event leaves a well-formed loop well-formed.
pub proof fn lemma_after_wf(s: ReloadLoop, event: Occurrence)
    requires
        s.wf(),
    ensures
        s.after(event).wf(),
{
}

/// A stopped loop stays stopped and orders nothing more.
pub proof fn lemma_stopped_is_final(s: ReloadLoop, event: Occurrence)
    requires
        s.phase == Phase::Stopped,
    ensures
        s.after(event) == s,
        s.orders(event) == Seq::<Deed>::empty(),
{
}

/// The word to stop ends the loop from any state: the server is terminated
/// if and only if one runs or is being started, the loop leaves the bus last
/// of all, and no server is left behind.
pub proof fn lemma_stop_ends_loop(s: ReloadLoop, event: Occurrence)
    requires
        s.phase != Phase::Stopped,
        wants_stop(event),
    ensures
        s.after(event).phase == Phase::Stopped,
        !s.after(event).server,
        s.orders(event).contains(Deed::StopServer) == (s.server || s.phase == Phase::Serving),
        s.orders(event).last() == Deed::Unsubscribe,
        !s.orders(event).contains(Deed::StartServer),
        forall|full: bool| !s.orders(event).contains(Deed::Build { full }),
{
    let orders = s.orders(event);
    if s.server || s.phase == Phase::Serving {
        if s.phase == Phase::Building {
            assert(orders[1] == Deed::StopServer);
        } else {
            assert(orders[0] == Deed::StopServer);
        }
    }
}

/// A failed build leaves the loop at rest with its server untouched and
/// only a report to make; the next change begins a build again.
pub proof fn lemma_failure_rests(s: ReloadLoop, stage: Stage, cause: Seq<char>, change: Occurrence)
    requires
        s.wf(),
        s.phase == Phase::Building,
        !s.pending,
        is_change(change),
    ensures
        s.after(Occurrence::BuildEnded(Outcome::Failure { stage, cause })).phase == Phase::Idle,
        s.after(Occurrence::BuildEnded(Outcome::Failure { stage, cause })).server == s.server,
        s.orders(Occurrence::BuildEnded(Outcome::Failure { stage, cause })) == seq![
            Deed::ReportFailure { stage, cause },
        ],
        s.after(Occurrence::BuildEnded(Outcome::Failure { stage, cause })).after(change).phase
            == Phase::Building,
        s.after(Occurrence::BuildEnded(Outcome::Failure { stage, cause })).orders(change) == seq![
            Deed::Build { full: false },
        ],
{
}

/// A change during a build cancels the run once: a second change orders
/// nothing, and whichever way the run then ends, exactly one build is begun
/// in its place, after the report of the failure if the run failed.
pub proof fn lemma_change_supersedes_build(
    s: ReloadLoop,
    change: Occurrence,
    again: Occurrence,
    outcome: Outcome,
)
    requires
        s.phase == Phase::Building,
        !s.pending,
        is_change(change),
        is_change(again),
    ensures
        s.orders(change) == seq![Deed::CancelBuild],
        s.after(change).phase == Phase::Building,
        s.after(change).orders(again) == Seq::<Deed>::empty(),
        s.after(change).after(again) == s.after(change),
        s.after(change).orders(Occurrence::BuildEnded(outcome)) == failure_report(outcome)
            + seq![Deed::Build { full: false }],
        !failure_report(outcome).contains(Deed::Build { full: false }),
        s.after(change).after(Occurrence::BuildEnded(outcome)).phase == Phase::Building,
        !s.after(change).after(Occurrence::BuildEnded(outcome)).pending,
{
}

/// The server is started only when a build that no change has overtaken
/// ends in success, and the browsers are told to reload just before.
pub proof fn lemma_server_follows_success(s: ReloadLoop, event: Occurrence)
    requires
        s.orders(event).contains(Deed::StartServer),
    ensures
        s.phase == Phase::Building,
        !s.pending,
        event is BuildEnded,
        event->BuildEnded_0 is Success,
        s.orders(event).first() == Deed::PublishReload,
        s.orders(event).last() == Deed::StartServer,
        s.after(event).phase == Phase::Serving,
{
    let orders = s.orders(event);
    let i = choose|i: int| 0 <= i < orders.len() && orders[i] == Deed::StartServer;
}

/// Every failure of a run is reported, first of all that is ordered when
/// the run ends, whether or not a change has overtaken the run.
pub proof fn lemma_failure_is_reported(s: ReloadLoop, stage: Stage, cause: Seq<char>)
    requires
        s.phase == Phase::Building,
    ensures
        s.orders(Occurrence::BuildEnded(Outcome::Failure { stage, cause })).first()
            == (Deed::ReportFailure { stage, cause }),
        s.after(Occurrence::BuildEnded(Outcome::Failure { stage, cause })).phase != Phase::Stopped,
        s.after(Occurrence::BuildEnded(Outcome::Failure { stage, cause })).server == s.server,
{
}

/// The loop terminates a server only where it has one running or being
/// started, and it cancels a build only while one is under way.
pub proof fn lemma_acts_on_what_is_there(s: ReloadLoop, event: Occurrence)
    ensures
        s.orders(event).contains(Deed::StopServer) ==> s.server || s.phase == Phase::Serving,
        s.orders(event).contains(Deed::CancelBuild) ==> s.phase == Phase::Building,
{
    let orders = s.orders(event);
    if orders.contains(Deed::StopServer) {
        let i = choose|i: int| 0 <= i < orders.len() && orders[i] == Deed::StopServer;
    }
    if orders.contains(Deed::CancelBuild) {
        let i = choose|i: int| 0 <= i < orders.len() && orders[i] == Deed::CancelBuild;
    }
}

/// Only the first build of a loop is a full build.
pub proof fn lemma_full_build_once(s: ReloadLoop, event: Occurrence, later: Occurrence)
    requires
        s.orders(event).contains(Deed::Build { full: true }),
    ensures
        s.first,
        s.phase == Phase::Idle,
        !s.after(event).first,
        !s.after(event).orders(later).contains(Deed::Build { full: true }),
        !s.after(event).after(later).first,
{
    let orders = s.orders(event);
    let i = choose|i: int| 0 <= i < orders.len() && orders[i] == Deed::Build { full: true };
    let t = s.after(event);
    let next = t.orders(later);
    if next.contains(Deed::Build { full: true }) {
        let j = choose|j: int| 0 <= j < next.len() && next[j] == Deed::Build { full: true };
    }
}

} // verus!
