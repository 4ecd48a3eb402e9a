//! The build pipeline: which stage may start when, and how a run ends.
//!
//! A run is driven from outside. The driver asks `next` what to do, starts
//! the stage it is given, and reports with `record` how the stage went.

use crate::path::components;
use camino::Utf8PathBuf;
use vstd::prelude::*;

verus! {

/// A stage of the build.
#[derive(Clone, Copy, Debug, PartialEq, Eq, Structural)]
pub enum Stage {
    /// Empty the directory of the compiled bundle.
    Clean,
    /// Bring the assets in the staging directory up to date.
    Assets,
    /// Compile the style sheet.
    Style,
    /// Compile, bind and, for a release, optimize the WebAssembly module.
    Wasm,
    /// Compile the server.
    Server,
}

/// Where a stage stands within a run.
#[derive(Clone, Copy, Debug, PartialEq, Eq, Structural)]
pub enum Status {
    /// Not part of this run.
    Skipped,
    /// Not started yet.
    Pending,
    /// Started and not yet reported on.
    Running,
    /// Finished with its output written.
    Done,
    /// Failed or aborted.
    Stopped,
}

/// How a stage went.
#[derive(Clone, Debug, PartialEq, Eq)]
pub enum StageResult {
    /// The stage finished and wrote its output.
    Done,
    /// The stage failed, for the cause given.
    Failed(String),
    /// The stage was aborted because the run was cancelled.
    Aborted,
}

/// What a successful run leaves behind.
#[derive(Clone, Debug, PartialEq, Eq)]
pub struct Artifacts {
    /// The staging directory, filled.
    pub site: Utf8PathBuf,
    /// The server executable.
    pub server: Utf8PathBuf,
}

/// How a run ended.
#[derive(Clone, Debug, PartialEq, Eq)]
pub enum BuildOutcome {
    Success(Artifacts),
    Failure { stage: Stage, cause: String },
    /// A newer change made the run pointless.
    Cancelled,
}

/// What the driver of a run does next.
#[derive(Clone, Debug, PartialEq, Eq)]
pub enum Step {
    /// Start this stage.
    Launch(Stage),
    /// Wait for a running stage to end, then report on it.
    Wait,
    /// The run is over.
    Finish(BuildOutcome),
}

/// One run of the pipeline.
#[derive(Clone, Debug)]
pub struct Run {
    clean: Status,
    assets: Status,
    style: Status,
    wasm: Status,
    server: Status,
    verdict: Option<BuildOutcome>,
    artifacts: Artifacts,
}

/// The view of a `BuildOutcome`.
pub enum Outcome {
    Success { site: Seq<Seq<char>>, server: Seq<Seq<char>> },
    Failure { stage: Stage, cause: Seq<char> },
    Cancelled,
}

/// The view of a `Step`.
pub enum StepView {
    Launch(Stage),
    Wait,
    Finish(Outcome),
}

/// The view of a `Run`: where each stage stands, the first failure or abort
/// reported, and what the run is to leave behind.
pub struct RunState {
    pub clean: Status,
    pub assets: Status,
    pub style: Status,
    pub wasm: Status,
    pub server: Status,
    pub verdict: Option<Outcome>,
    pub site: Seq<Seq<char>>,
    pub exe: Seq<Seq<char>>,
}

impl View for BuildOutcome {
    type V = Outcome;

    open spec fn view(&self) -> Outcome {
        match self {
            BuildOutcome::Success(artifacts) => Outcome::Success {
                site: components(artifacts.site),
                server: components(artifacts.server),
            },
            BuildOutcome::Failure { stage, cause } => Outcome::Failure {
                stage: *stage,
                cause: cause@,
            },
            BuildOutcome::Cancelled => Outcome::Cancelled,
        }
    }
}

impl View for Step {
    type V = StepView;

    open spec fn view(&self) -> StepView {
        match self {
            Step::Launch(stage) => StepView::Launch(*stage),
            Step::Wait => StepView::Wait,
            Step::Finish(outcome) => StepView::Finish(outcome@),
        }
    }
}

impl View for Run {
    type V = RunState;

    closed spec fn view(&self) -> RunState {
        RunState {
            clean: self.clean,
            assets: self.assets,
            style: self.style,
            wasm: self.wasm,
            server: self.server,
            verdict: match self.verdict {
                Some(outcome) => Some(outcome@),
                None => None,
            },
            site: components(self.artifacts.site),
            exe: components(self.artifacts.server),
        }
    }
}

impl RunState {
    /// Where `stage` stands.
    pub open spec fn status(self, stage: Stage) -> Status {
        match stage {
            Stage::Clean => self.clean,
            Stage::Assets => self.assets,
            Stage::Style => self.style,
            Stage::Wasm => self.wasm,
            Stage::Server => self.server,
        }
    }

    /// The state with `stage` standing at `status`.
    pub open spec fn with_status(self, stage: Stage, status: Status) -> RunState {
        match stage {
            Stage::Clean => RunState { clean: status, ..self },
            Stage::Assets => RunState { assets: status, ..self },
            Stage::Style => RunState { style: status, ..self },
            Stage::Wasm => RunState { wasm: status, ..self },
            Stage::Server => RunState { server: status, ..self },
        }
    }

    /// `stage` needs no more work: it is done or not part of the run.
    pub open spec fn settled(self, stage: Stage) -> bool {
        self.status(stage) == Status::Done || self.status(stage) == Status::Skipped
    }

    /// `stage` may start: it is pending and all that it builds on is settled.
    /// The bundle directory is cleaned first, then the assets are brought in,
    /// and only then do the three compilations start, in any order.
    pub open spec fn ready(self, stage: Stage) -> bool {
        self.status(stage) == Status::Pending && match stage {
            Stage::Clean => true,
            Stage::Assets => self.settled(Stage::Clean),
            _ => self.settled(Stage::Clean) && self.settled(Stage::Assets),
        }
    }

    /// Some stage is running.
    pub open spec fn busy(self) -> bool {
        exists|stage: Stage| self.status(stage) == Status::Running
    }

    /// The first stage, in the order of the build, that may start.
    pub open spec fn first_ready(self) -> Option<Stage> {
        if self.ready(Stage::Clean) {
            Some(Stage::Clean)
        } else if self.ready(Stage::Assets) {
            Some(Stage::Assets)
        } else if self.ready(Stage::Style) {
            Some(Stage::Style)
        } else if self.ready(Stage::Wasm) {
            Some(Stage::Wasm)
        } else if self.ready(Stage::Server) {
            Some(Stage::Server)
        } else {
            None
        }
    }

    /// What the driver does next, and the state of the run after it.
    ///
    /// Once a stage has failed or was aborted, or once the run is cancelled,
    /// nothing more is started: the run waits for the stages that are still
    /// running and then ends, with the first failure or abort reported, or
    /// as cancelled. Otherwise the first stage that may start is started;
    /// if none may, the run waits for a running stage, and it ends in
    /// success when none is running either.
    pub open spec fn next(self, cancelled: bool) -> (RunState, StepView) {
        if self.verdict is Some || cancelled {
            if self.busy() {
                (self, StepView::Wait)
            } else if self.verdict is Some {
                (self, StepView::Finish(self.verdict->0))
            } else {
                (self, StepView::Finish(Outcome::Cancelled))
            }
        } else {
            match self.first_ready() {
                Some(stage) => (self.with_status(stage, Status::Running), StepView::Launch(stage)),
                None => if self.busy() {
                    (self, StepView::Wait)
                } else {
                    (self, StepView::Finish(Outcome::Success { site: self.site, server: self.exe }))
                },
            }
        }
    }

    /// The state after a report on `stage`.
    ///
    /// A report on a stage that is not running changes nothing. A stage that
    /// finished is done. A stage that failed or was aborted is stopped, and
    /// the first such report decides how the run ends.
    pub open spec fn record(self, stage: Stage, result: ResultView) -> RunState {
        if self.status(stage) != Status::Running {
            self
        } else {
            match result {
                ResultView::Done => self.with_status(stage, Status::Done),
                ResultView::Failed(cause) => RunState {
                    verdict: if self.verdict is Some {
                        self.verdict
                    } else {
                        Some(Outcome::Failure { stage, cause })
                    },
                    ..self.with_status(stage, Status::Stopped)
                },
                ResultView::Aborted => RunState {
                    verdict: if self.verdict is Some {
                        self.verdict
                    } else {
                        Some(Outcome::Cancelled)
                    },
                    ..self.with_status(stage, Status::Stopped)
                },
            }
        }
    }
}

/// The view of a `StageResult`.
pub enum ResultView {
    Done,
    Failed(Seq<char>),
    Aborted,
}

impl View for StageResult {
    type V = ResultView;

    open spec fn view(&self) -> ResultView {
        match self {
            StageResult::Done => ResultView::Done,
            StageResult::Failed(cause) => ResultView::Failed(cause@),
            StageResult::Aborted => ResultView::Aborted,
        }
    }
}

/// The state of a run of which nothing has started: a full build has all
/// five stages pending, any other build skips the first two.
pub open spec fn fresh(full: bool, site: Seq<Seq<char>>, exe: Seq<Seq<char>>) -> RunState {
    RunState {
        clean: if full {
            Status::Pending
        } else {
            Status::Skipped
        },
        assets: if full {
            Status::Pending
        } else {
            Status::Skipped
        },
        style: Status::Pending,
        wasm: Status::Pending,
        server: Status::Pending,
        verdict: None,
        site,
        exe,
    }
}

impl BuildOutcome {
    /// A copy of the outcome.
    pub fn duplicate(&self) -> (r: BuildOutcome)
        ensures
            r@ == self@,
    {
        match self {
            BuildOutcome::Success(artifacts) => BuildOutcome::Success(
                Artifacts { site: artifacts.site.clone(), server: artifacts.server.clone() },
            ),
            BuildOutcome::Failure { stage, cause } => BuildOutcome::Failure {
                stage: *stage,
                cause: cause.clone(),
            },
            BuildOutcome::Cancelled => BuildOutcome::Cancelled,
        }
    }
}

impl Run {
    /// A run of which nothing has started. A full build goes through all
    /// five stages; any other build leaves the bundle directory and the
    /// assets as they are.
    pub fn start(full: bool, artifacts: Artifacts) -> (r: Run)
        ensures
            r@ == fresh(full, components(artifacts.site), components(artifacts.server)),
            r@.sound(),
    {
        proof {
            lemma_fresh_sound(full, components(artifacts.site), components(artifacts.server));
        }
        let first = if full {
            Status::Pending
        } else {
            Status::Skipped
        };
        Run {
            clean: first,
            assets: first,
            style: Status::Pending,
            wasm: Status::Pending,
            server: Status::Pending,
            verdict: None,
            artifacts,
        }
    }

    /// Where `stage` stands.
    pub fn status(&self, stage: Stage) -> (r: Status)
        ensures
            r == self@.status(stage),
    {
        match stage {
            Stage::Clean => self.clean,
            Stage::Assets => self.assets,
            Stage::Style => self.style,
            Stage::Wasm => self.wasm,
            Stage::Server => self.server,
        }
    }

    fn set_status(&mut self, stage: Stage, status: Status)
        ensures
            final(self)@ == old(self)@.with_status(stage, status),
    {
        match stage {
            Stage::Clean => self.clean = status,
            Stage::Assets => self.assets = status,
            Stage::Style => self.style = status,
            Stage::Wasm => self.wasm = status,
            Stage::Server => self.server = status,
        }
    }

    fn is_settled(&self, stage: Stage) -> (r: bool)
        ensures
            r == self@.settled(stage),
    {
        let status = self.status(stage);
        status == Status::Done || status == Status::Skipped
    }

    fn is_ready(&self, stage: Stage) -> (r: bool)
        ensures
            r == self@.ready(stage),
    {
        self.status(stage) == Status::Pending && match stage {
            Stage::Clean => true,
            Stage::Assets => self.is_settled(Stage::Clean),
            _ => self.is_settled(Stage::Clean) && self.is_settled(Stage::Assets),
        }
    }

    /// Whether some stage is running.
    pub fn is_busy(&self) -> (r: bool)
        ensures
            r == self@.busy(),
    {
        let r = self.clean == Status::Running || self.assets == Status::Running || self.style
            == Status::Running || self.wasm == Status::Running || self.server == Status::Running;
        proof {
            if r {
                let stage = if self.clean == Status::Running {
                    Stage::Clean
                } else if self.assets == Status::Running {
                    Stage::Assets
                } else if self.style == Status::Running {
                    Stage::Style
                } else if self.wasm == Status::Running {
                    Stage::Wasm
                } else {
                    Stage::Server
                };
                assert(self@.status(stage) == Status::Running);
            }
        }
        r
    }

    fn first_ready(&self) -> (r: Option<Stage>)
        ensures
            r == self@.first_ready(),
    {
        if self.is_ready(Stage::Clean) {
            Some(Stage::Clean)
        } else if self.is_ready(Stage::Assets) {
            Some(Stage::Assets)
        } else if self.is_ready(Stage::Style) {
            Some(Stage::Style)
        } else if self.is_ready(Stage::Wasm) {
            Some(Stage::Wasm)
        } else if self.is_ready(Stage::Server) {
            Some(Stage::Server)
        } else {
            None
        }
    }

    /// What the driver does next. `cancelled` says whether the cancellation
    /// token of the run is set. A stage that is handed out counts as running
    /// from then on.
    pub fn next(&mut self, cancelled: bool) -> (r: Step)
        ensures
            (final(self)@, r@) == old(self)@.next(cancelled),
            cancelled ==> !(r is Launch) && final(self)@ == old(self)@,
            old(self)@.sound() ==> final(self)@.sound(),
    {
        proof {
            if self@.sound() {
                lemma_next_sound(self@, cancelled);
            }
        }
        if self.verdict.is_some() || cancelled {
            if self.is_busy() {
                Step::Wait
            } else {
                match &self.verdict {
                    Some(outcome) => Step::Finish(outcome.duplicate()),
                    None => Step::Finish(BuildOutcome::Cancelled),
                }
            }
        } else {
            match self.first_ready() {
                Some(stage) => {
                    self.set_status(stage, Status::Running);
                    Step::Launch(stage)
                },
                None => if self.is_busy() {
                    Step::Wait
                } else {
                    Step::Finish(
                        BuildOutcome::Success(
                            Artifacts {
                                site: self.artifacts.site.clone(),
                                server: self.artifacts.server.clone(),
                            },
                        ),
                    )
                },
            }
        }
    }

    /// Takes the report on how `stage` went.
    pub fn record(&mut self, stage: Stage, result: StageResult)
        ensures
            final(self)@ == old(self)@.record(stage, result@),
            old(self)@.sound() ==> final(self)@.sound(),
    {
        proof {
            if self@.sound() {
                lemma_record_sound(self@, stage, result@);
            }
        }
        if self.status(stage) == Status::Running {
            match result {
                StageResult::Done => self.set_status(stage, Status::Done),
                StageResult::Failed(cause) => {
                    self.set_status(stage, Status::Stopped);
                    if self.verdict.is_none() {
                        self.verdict = Some(BuildOutcome::Failure { stage, cause });
                    }
                },
                StageResult::Aborted => {
                    self.set_status(stage, Status::Stopped);
                    if self.verdict.is_none() {
                        self.verdict = Some(BuildOutcome::Cancelled);
                    }
                },
            }
        }
    }
}

impl RunState {
    /// `stage` has been started at some time.
    pub open spec fn started(self, stage: Stage) -> bool {
        self.status(stage) == Status::Running || self.status(stage) == Status::Done
            || self.status(stage) == Status::Stopped
    }

    /// What holds of every run from its start on: a failure or abort is on
    /// record exactly when some stage is stopped; the first two stages are in
    /// the run together or not at all, and the other three always are; and
    /// no stage has been started before all that it builds on was settled.
    pub open spec fn sound(self) -> bool {
        &&& self.verdict is Some <==> exists|stage: Stage| self.status(stage) == Status::Stopped
        &&& self.verdict is Some ==> !(self.verdict->0 is Success)
        &&& self.clean == Status::Skipped <==> self.assets == Status::Skipped
        &&& self.style != Status::Skipped && self.wasm != Status::Skipped && self.server
            != Status::Skipped
        &&& self.started(Stage::Assets) ==> self.settled(Stage::Clean)
        &&& self.started(Stage::Style) || self.started(Stage::Wasm) || self.started(Stage::Server)
            ==> self.settled(Stage::Clean) && self.settled(Stage::Assets)
    }
}

/// A run of which nothing has started is sound.
pub proof fn lemma_fresh_sound(full: bool, site: Seq<Seq<char>>, exe: Seq<Seq<char>>)
    ensures
        fresh(full, site, exe).sound(),
{
    let s = fresh(full, site, exe);
    assert forall|stage: Stage| s.status(stage) != Status::Stopped by {}
}

/// Asking for the next step keeps a run sound.
pub proof fn lemma_next_sound(s: RunState, cancelled: bool)
    requires
        s.sound(),
    ensures
        s.next(cancelled).0.sound(),
{
    let t = s.next(cancelled).0;
    if t != s {
        let launched = s.first_ready()->0;
        assert(t == s.with_status(launched, Status::Running));
        assert forall|stage: Stage| t.status(stage) == Status::Stopped implies s.status(stage)
            == Status::Stopped by {}
        assert forall|stage: Stage| t.status(stage) != Status::Stopped by {
            if t.status(stage) == Status::Stopped {
                assert(s.status(stage) == Status::Stopped);
            }
        }
    }
}

/// Reporting on a stage keeps a run sound.
pub proof fn lemma_record_sound(s: RunState, stage: Stage, result: ResultView)
    requires
        s.sound(),
    ensures
        s.record(stage, result).sound(),
{
    let t = s.record(stage, result);
    if s.status(stage) == Status::Running {
        match result {
            ResultView::Done => {
                assert forall|other: Stage| t.status(other) == Status::Stopped implies s.status(
                    other,
                ) == Status::Stopped by {}
                if s.verdict is Some {
                    let stopped = choose|other: Stage| s.status(other) == Status::Stopped;
                    assert(t.status(stopped) == Status::Stopped);
                }
            },
            _ => {
                assert(t.status(stage) == Status::Stopped);
            },
        }
    }
}

/// While the cancellation token is set, no stage is started: the run is
/// left as it is, and unless a stage is still running it ends at once, as
/// cancelled if no failure was reported before.
pub proof fn lemma_cancelled_starts_nothing(s: RunState)
    ensures
        s.next(true).0 == s,
        !(s.next(true).1 is Launch),
        !s.busy() && s.verdict is None ==> s.next(true).1 == StepView::Finish(Outcome::Cancelled),
        !s.busy() && s.verdict is Some ==> s.next(true).1 == StepView::Finish(s.verdict->0),
{
}

/// A stage is started only when it is pending and all that it builds on is
/// settled, and only while nothing has failed and the run is not cancelled.
pub proof fn lemma_launch_in_order(s: RunState, cancelled: bool, stage: Stage)
    requires
        s.next(cancelled).1 == StepView::Launch(stage),
    ensures
        !cancelled,
        s.verdict is None,
        s.ready(stage),
        s.next(cancelled).0 == s.with_status(stage, Status::Running),
{
}

/// A sound run ends in success only when every stage is settled and nothing
/// failed, and it then names what the run was to leave behind.
pub proof fn lemma_success_is_complete(s: RunState, cancelled: bool)
    requires
        s.sound(),
        s.next(cancelled).1 is Finish,
        s.next(cancelled).1->Finish_0 is Success,
    ensures
        !cancelled,
        s.verdict is None,
        forall|stage: Stage| s.settled(stage),
        s.next(cancelled).1 == StepView::Finish(Outcome::Success { site: s.site, server: s.exe }),
{
    assert(!s.busy());
    assert forall|stage: Stage| s.settled(stage) by {
        assert(s.status(stage) != Status::Running);
        assert(s.status(stage) != Status::Stopped);
        assert(!s.ready(Stage::Clean));
        assert(!s.ready(Stage::Assets));
        assert(!s.ready(Stage::Style));
        assert(!s.ready(Stage::Wasm));
        assert(!s.ready(Stage::Server));
    }
}

/// The first failure or abort reported decides how the run ends: a later
/// report does not change it.
pub proof fn lemma_first_verdict_stands(s: RunState, stage: Stage, result: ResultView)
    requires
        s.verdict is Some,
    ensures
        s.record(stage, result).verdict == s.verdict,
{
}

} // verus!
