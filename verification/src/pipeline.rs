//! The self-build pipeline, `cargo check` then `cargo test` then
//! `cargo build --release`, then the digest and size of the release binary,
//! as a state machine. The caller runs each action and hands back what came of
//! it; the machine decides what comes next and what the run results in.

use vstd::prelude::*;
use crate::digest::{hex_lower, sha256, sha256_hex};
use crate::status::BuildStatus;
use crate::test_output::{passed_total, sums_fit, test_counts, try_parse_test_count};
use crate::types::{error_message, BuildError, BuildErrorView, BuildRecord, BuildRecordView};

verus! {

/// One of the three cargo commands of the pipeline.
#[derive(Debug, Clone, Copy, PartialEq, Eq, Structural)]
pub enum CargoStep {
    /// `cargo check --workspace`
    Check,
    /// `cargo test --workspace`
    Test,
    /// `cargo build --release`
    Release,
}

/// The arguments given to `cargo` for a step.
pub open spec fn cargo_args(step: CargoStep) -> Seq<Seq<char>> {
    match step {
        CargoStep::Check => seq!["check"@, "--workspace"@],
        CargoStep::Test => seq!["test"@, "--workspace"@],
        CargoStep::Release => seq!["build"@, "--release"@],
    }
}

/// The words that open the message of a failed step.
pub open spec fn cargo_label(step: CargoStep) -> Seq<char> {
    match step {
        CargoStep::Check => "cargo check: "@,
        CargoStep::Test => "cargo test: "@,
        CargoStep::Release => "cargo build: "@,
    }
}

impl CargoStep {
    /// The arguments given to `cargo` for this step.
    pub fn args(&self) -> (a: Vec<&'static str>)
        ensures
            a@.map_values(|s: &str| s@) == cargo_args(*self),
    {
        let a = match self {
            CargoStep::Check => vec!["check", "--workspace"],
            CargoStep::Test => vec!["test", "--workspace"],
            CargoStep::Release => vec!["build", "--release"],
        };
        assert(a@.map_values(|s: &str| s@) =~= cargo_args(*self));
        a
    }

    /// The message of the pipeline's error when this step fails with `stderr`.
    pub fn failure(&self, stderr: &str) -> (e: BuildError)
        ensures
            e@ == BuildErrorView::BuildFailed(cargo_label(*self) + stderr@),
    {
        let label = match self {
            CargoStep::Check => "cargo check: ",
            CargoStep::Test => "cargo test: ",
            CargoStep::Release => "cargo build: ",
        };
        BuildError::BuildFailed(label.to_owned().concat(stderr))
    }
}

/// What a finished command left: whether it exited with success, and what it
/// printed, read as text.
pub struct CommandOutput {
    pub success: bool,
    pub stdout: String,
    pub stderr: String,
}

/// What a successful pipeline yields: the number of passed tests, the digest of
/// the release binary in hex, and its size in bytes.
pub struct BuildArtifacts {
    pub test_count: i64,
    pub binary_hash: String,
    pub binary_size: i64,
}

pub struct ArtifactsView {
    pub test_count: i64,
    pub binary_hash: Seq<char>,
    pub binary_size: i64,
}

impl View for BuildArtifacts {
    type V = ArtifactsView;

    open spec fn view(&self) -> ArtifactsView {
        ArtifactsView {
            test_count: self.test_count,
            binary_hash: self.binary_hash@,
            binary_size: self.binary_size,
        }
    }
}

/// Where a pipeline run stands.
#[derive(Debug, Clone, Copy, PartialEq, Eq, Structural)]
pub enum BuildStage {
    Checking,
    Testing,
    Releasing,
    Hashing,
    Measuring,
    Finished,
}

/// A pipeline run: where it stands and what it has learnt so far. Once the
/// binary has been read, its digest is known: 64 hex digits.
pub struct BuildRun {
    stage: BuildStage,
    test_count: i64,
    binary_hash: String,
}

pub struct BuildRunView {
    pub stage: BuildStage,
    pub test_count: i64,
    pub binary_hash: Seq<char>,
}

impl View for BuildRun {
    type V = BuildRunView;

    closed spec fn view(&self) -> BuildRunView {
        BuildRunView {
            stage: self.stage,
            test_count: self.test_count,
            binary_hash: self.binary_hash@,
        }
    }
}

/// What came of the last action.
pub enum BuildEvent {
    /// A cargo command ran to its end.
    CargoExited(CommandOutput),
    /// An action failed with an I/O error (with its message).
    IoFailed(String),
    /// The release binary was read; these are its bytes.
    BinaryRead(Vec<u8>),
    /// The size of the release binary in bytes.
    BinaryMeasured(u64),
}

pub enum BuildEventView {
    CargoExited { success: bool, stdout: Seq<char>, stderr: Seq<char> },
    IoFailed(Seq<char>),
    BinaryRead(Seq<u8>),
    BinaryMeasured(u64),
}

impl View for BuildEvent {
    type V = BuildEventView;

    open spec fn view(&self) -> BuildEventView {
        match self {
            BuildEvent::CargoExited(o) => BuildEventView::CargoExited {
                success: o.success,
                stdout: o.stdout@,
                stderr: o.stderr@,
            },
            BuildEvent::IoFailed(m) => BuildEventView::IoFailed(m@),
            BuildEvent::BinaryRead(b) => BuildEventView::BinaryRead(b@),
            BuildEvent::BinaryMeasured(n) => BuildEventView::BinaryMeasured(*n),
        }
    }
}

/// What the caller is to do next.
pub enum BuildAction {
    /// Run `cargo` with the step's arguments in the workspace.
    RunCargo(CargoStep),
    /// Read the bytes of the release binary.
    ReadBinary,
    /// Find the size of the release binary.
    MeasureBinary,
    /// The run is over with this result.
    Finish(Result<BuildArtifacts, BuildError>),
    /// The run is over without a result: the running total of passed tests left
    /// the range of `i64`, where the counting itself fails.
    Abandon,
    /// The event did not answer the last action; nothing changes.
    Idle,
}

pub enum BuildActionView {
    RunCargo(CargoStep),
    ReadBinary,
    MeasureBinary,
    Finish(Result<ArtifactsView, BuildErrorView>),
    Abandon,
    Idle,
}

impl View for BuildAction {
    type V = BuildActionView;

    open spec fn view(&self) -> BuildActionView {
        match self {
            BuildAction::RunCargo(s) => BuildActionView::RunCargo(*s),
            BuildAction::ReadBinary => BuildActionView::ReadBinary,
            BuildAction::MeasureBinary => BuildActionView::MeasureBinary,
            BuildAction::Finish(Ok(a)) => BuildActionView::Finish(Ok(a@)),
            BuildAction::Finish(Err(e)) => BuildActionView::Finish(Err(e@)),
            BuildAction::Abandon => BuildActionView::Abandon,
            BuildAction::Idle => BuildActionView::Idle,
        }
    }
}

/// A run at its start, before `cargo check`.
pub open spec fn build_start() -> BuildRunView {
    BuildRunView { stage: BuildStage::Checking, test_count: 0, binary_hash: Seq::<char>::empty() }
}

pub open spec fn finished(r: BuildRunView) -> BuildRunView {
    BuildRunView { stage: BuildStage::Finished, ..r }
}

/// The step of the pipeline: from a run and what came of its last action, the
/// run after it and the next action.
pub open spec fn build_next(r: BuildRunView, e: BuildEventView) -> (BuildRunView, BuildActionView) {
    let stay = (r, BuildActionView::Idle);
    match r.stage {
        BuildStage::Checking => match e {
            BuildEventView::CargoExited { success, stdout, stderr } => if success {
                (BuildRunView { stage: BuildStage::Testing, ..r }, BuildActionView::RunCargo(
                    CargoStep::Test,
                ))
            } else {
                (
                    finished(r),
                    BuildActionView::Finish(
                        Err(BuildErrorView::BuildFailed(cargo_label(CargoStep::Check) + stderr)),
                    ),
                )
            },
            BuildEventView::IoFailed(m) => (
                finished(r),
                BuildActionView::Finish(Err(BuildErrorView::Io(m))),
            ),
            _ => stay,
        },
        BuildStage::Testing => match e {
            BuildEventView::CargoExited { success, stdout, stderr } => if !sums_fit(
                test_counts(stdout),
            ) {
                (finished(r), BuildActionView::Abandon)
            } else if success {
                (
                    BuildRunView {
                        stage: BuildStage::Releasing,
                        test_count: passed_total(stdout) as i64,
                        ..r
                    },
                    BuildActionView::RunCargo(CargoStep::Release),
                )
            } else {
                (
                    finished(r),
                    BuildActionView::Finish(
                        Err(BuildErrorView::BuildFailed(cargo_label(CargoStep::Test) + stderr)),
                    ),
                )
            },
            BuildEventView::IoFailed(m) => (
                finished(r),
                BuildActionView::Finish(Err(BuildErrorView::Io(m))),
            ),
            _ => stay,
        },
        BuildStage::Releasing => match e {
            BuildEventView::CargoExited { success, stdout, stderr } => if success {
                (BuildRunView { stage: BuildStage::Hashing, ..r }, BuildActionView::ReadBinary)
            } else {
                (
                    finished(r),
                    BuildActionView::Finish(
                        Err(BuildErrorView::BuildFailed(cargo_label(CargoStep::Release) + stderr)),
                    ),
                )
            },
            BuildEventView::IoFailed(m) => (
                finished(r),
                BuildActionView::Finish(Err(BuildErrorView::Io(m))),
            ),
            _ => stay,
        },
        BuildStage::Hashing => match e {
            BuildEventView::BinaryRead(bytes) => (
                BuildRunView {
                    stage: BuildStage::Measuring,
                    binary_hash: hex_lower(sha256(bytes)),
                    ..r
                },
                BuildActionView::MeasureBinary,
            ),
            BuildEventView::IoFailed(m) => (
                finished(r),
                BuildActionView::Finish(Err(BuildErrorView::Io(m))),
            ),
            _ => stay,
        },
        BuildStage::Measuring => match e {
            BuildEventView::BinaryMeasured(n) => (
                finished(r),
                BuildActionView::Finish(
                    Ok(
                        ArtifactsView {
                            test_count: r.test_count,
                            binary_hash: r.binary_hash,
                            binary_size: n as i64,
                        },
                    ),
                ),
            ),
            BuildEventView::IoFailed(m) => (
                finished(r),
                BuildActionView::Finish(Err(BuildErrorView::Io(m))),
            ),
            _ => stay,
        },
        BuildStage::Finished => stay,
    }
}

impl BuildRun {
    /// While the size is measured, the digest read before it has 64 digits.
    #[verifier::type_invariant]
    spec fn digest_known(self) -> bool {
        self.stage == BuildStage::Measuring ==> self.binary_hash@.len() == 64
    }

    /// Where the run stands.
    pub fn stage(&self) -> (s: BuildStage)
        ensures
            s == self@.stage,
    {
        self.stage
    }

    /// A new run and its first action, `cargo check`.
    pub fn start() -> (r: (BuildRun, BuildAction))
        ensures
            r.0@ == build_start(),
            r.1@ == BuildActionView::RunCargo(CargoStep::Check),
    {
        let run = BuildRun { stage: BuildStage::Checking, test_count: 0, binary_hash: "".to_owned() };
        proof {
            reveal_strlit("");
        }
        assert(run.binary_hash@ =~= Seq::<char>::empty());
        (run, BuildAction::RunCargo(CargoStep::Check))
    }

    fn finish(self) -> (r: BuildRun)
        ensures
            r@ == finished(self@),
    {
        BuildRun { stage: BuildStage::Finished, ..self }
    }

    /// The run after `event`, and the next action; see `build_next`.
    pub fn step(self, event: BuildEvent) -> (r: (BuildRun, BuildAction))
        ensures
            (r.0@, r.1@) == build_next(self@, event@),
            r.1 matches BuildAction::Finish(Ok(a)) ==> a.binary_hash@.len() == 64,
    {
        proof {
            use_type_invariant(&self);
        }
        let ghost e = event@;
        match self.stage {
            BuildStage::Checking => {
                match event {
                    BuildEvent::CargoExited(o) => {
                        if o.success {
                            (
                                BuildRun { stage: BuildStage::Testing, ..self },
                                BuildAction::RunCargo(CargoStep::Test),
                            )
                        } else {
                            let err = CargoStep::Check.failure(o.stderr.as_str());
                            (self.finish(), BuildAction::Finish(Err(err)))
                        }
                    },
                    BuildEvent::IoFailed(m) => (
                        self.finish(),
                        BuildAction::Finish(Err(BuildError::Io(m))),
                    ),
                    _ => (self, BuildAction::Idle),
                }
            },
            BuildStage::Releasing => {
                match event {
                    BuildEvent::CargoExited(o) => {
                        if o.success {
                            (BuildRun { stage: BuildStage::Hashing, ..self }, BuildAction::ReadBinary)
                        } else {
                            let err = CargoStep::Release.failure(o.stderr.as_str());
                            (self.finish(), BuildAction::Finish(Err(err)))
                        }
                    },
                    BuildEvent::IoFailed(m) => (
                        self.finish(),
                        BuildAction::Finish(Err(BuildError::Io(m))),
                    ),
                    _ => (self, BuildAction::Idle),
                }
            },
            BuildStage::Testing => {
                match event {
                    BuildEvent::CargoExited(o) => {
                        match try_parse_test_count(o.stdout.as_str()) {
                            None => (self.finish(), BuildAction::Abandon),
                            Some(count) => {
                                if o.success {
                                    (
                                        BuildRun {
                                            stage: BuildStage::Releasing,
                                            test_count: count,
                                            ..self
                                        },
                                        BuildAction::RunCargo(CargoStep::Release),
                                    )
                                } else {
                                    let err = CargoStep::Test.failure(o.stderr.as_str());
                                    (self.finish(), BuildAction::Finish(Err(err)))
                                }
                            },
                        }
                    },
                    BuildEvent::IoFailed(m) => (
                        self.finish(),
                        BuildAction::Finish(Err(BuildError::Io(m))),
                    ),
                    _ => (self, BuildAction::Idle),
                }
            },
            BuildStage::Hashing => {
                match event {
                    BuildEvent::BinaryRead(bytes) => {
                        let hash = sha256_hex(bytes.as_slice());
                        (
                            BuildRun { stage: BuildStage::Measuring, binary_hash: hash, ..self },
                            BuildAction::MeasureBinary,
                        )
                    },
                    BuildEvent::IoFailed(m) => (
                        self.finish(),
                        BuildAction::Finish(Err(BuildError::Io(m))),
                    ),
                    _ => (self, BuildAction::Idle),
                }
            },
            BuildStage::Measuring => {
                match event {
                    BuildEvent::BinaryMeasured(n) => {
                        let artifacts = BuildArtifacts {
                            test_count: self.test_count,
                            binary_hash: self.binary_hash.clone(),
                            binary_size: n as i64,
                        };
                        (self.finish(), BuildAction::Finish(Ok(artifacts)))
                    },
                    BuildEvent::IoFailed(m) => (
                        self.finish(),
                        BuildAction::Finish(Err(BuildError::Io(m))),
                    ),
                    _ => (self, BuildAction::Idle),
                }
            },
            BuildStage::Finished => (self, BuildAction::Idle),
        }
    }
}

/// The run and the actions issued after the events `evs`, from the start;
/// the first action is the one the start issues.
pub open spec fn build_trace(evs: Seq<BuildEventView>) -> (BuildRunView, Seq<BuildActionView>)
    decreases evs.len(),
{
    if evs.len() == 0 {
        (build_start(), seq![BuildActionView::RunCargo(CargoStep::Check)])
    } else {
        let (r, acts) = build_trace(evs.drop_last());
        let (r2, a) = build_next(r, evs.last());
        (r2, acts.push(a))
    }
}

/// The cargo commands among `acts`, in order.
pub open spec fn cargo_steps(acts: Seq<BuildActionView>) -> Seq<CargoStep>
    decreases acts.len(),
{
    if acts.len() == 0 {
        Seq::<CargoStep>::empty()
    } else {
        let p = cargo_steps(acts.drop_last());
        match acts.last() {
            BuildActionView::RunCargo(step) => p.push(step),
            _ => p,
        }
    }
}

/// `check`, then `test`, then `build --release`.
pub open spec fn pipeline_order() -> Seq<CargoStep> {
    seq![CargoStep::Check, CargoStep::Test, CargoStep::Release]
}

pub open spec fn trace_invariant(r: BuildRunView, acts: Seq<BuildActionView>) -> bool {
    let cs = cargo_steps(acts);
    match r.stage {
        BuildStage::Checking => cs == pipeline_order().take(1),
        BuildStage::Testing => cs == pipeline_order().take(2),
        BuildStage::Finished => cs.len() <= 3 && cs == pipeline_order().take(cs.len() as int),
        _ => cs == pipeline_order(),
    }
}

proof fn lemma_build_trace_invariant(evs: Seq<BuildEventView>)
    ensures
        trace_invariant(build_trace(evs).0, build_trace(evs).1),
    decreases evs.len(),
{
    let order = pipeline_order();
    if evs.len() == 0 {
        let acts = seq![BuildActionView::RunCargo(CargoStep::Check)];
        assert(acts.drop_last() =~= Seq::<BuildActionView>::empty());
        assert(cargo_steps(acts.drop_last()) =~= Seq::<CargoStep>::empty());
        assert(cargo_steps(acts) =~= order.take(1));
    } else {
        lemma_build_trace_invariant(evs.drop_last());
        let (r, acts) = build_trace(evs.drop_last());
        let (r2, a) = build_next(r, evs.last());
        let acts2 = acts.push(a);
        assert(acts2.drop_last() =~= acts);
        let cs = cargo_steps(acts);
        assert(order.take(1) =~= seq![CargoStep::Check]);
        assert(order.take(2) =~= seq![CargoStep::Check, CargoStep::Test]);
        assert(order.take(3) =~= order);
        assert(order.take(1).push(CargoStep::Test) =~= order.take(2));
        assert(order.take(2).push(CargoStep::Release) =~= order);
    }
}

/// The cargo commands of a run are issued in the order `check`, `test`,
/// `build --release`, each at most once: whatever the events, the commands
/// issued so far are a prefix of that order.
pub proof fn lemma_cargo_steps_in_order(evs: Seq<BuildEventView>)
    ensures
        cargo_steps(build_trace(evs).1).len() <= 3,
        cargo_steps(build_trace(evs).1) == pipeline_order().take(
            cargo_steps(build_trace(evs).1).len() as int,
        ),
{
    lemma_build_trace_invariant(evs);
    let cs = cargo_steps(build_trace(evs).1);
    assert(pipeline_order().take(3) =~= pipeline_order());
    assert(pipeline_order().take(1).len() == 1);
    assert(pipeline_order().take(2).len() == 2);
}

/// A run ends with its artifacts only after all three cargo commands were
/// issued.
pub proof fn lemma_success_needs_all_steps(evs: Seq<BuildEventView>)
    requires
        build_trace(evs).1.last() is Finish,
        build_trace(evs).1.last()->Finish_0 is Ok,
    ensures
        cargo_steps(build_trace(evs).1) == pipeline_order(),
{
    if evs.len() == 0 {
    } else {
        lemma_build_trace_invariant(evs.drop_last());
        let (r, acts) = build_trace(evs.drop_last());
        let (r2, a) = build_next(r, evs.last());
        assert(acts.push(a).drop_last() =~= acts);
        assert(acts.push(a).last() == a);
        assert(r.stage == BuildStage::Measuring);
    }
}

/// The event at `i` is a successful exit of a cargo command, answering the run
/// in `stage`.
pub open spec fn succeeded_at(evs: Seq<BuildEventView>, i: int, stage: BuildStage) -> bool {
    &&& 0 <= i < evs.len()
    &&& build_trace(evs.take(i)).0.stage == stage
    &&& evs[i] is CargoExited
    &&& evs[i]->CargoExited_success
}

pub open spec fn stage_rank(s: BuildStage) -> int {
    match s {
        BuildStage::Checking => 0,
        BuildStage::Testing => 1,
        BuildStage::Releasing => 2,
        BuildStage::Hashing => 3,
        BuildStage::Measuring => 4,
        BuildStage::Finished => -1,
    }
}

pub open spec fn exits_invariant(evs: Seq<BuildEventView>) -> bool {
    let rank = stage_rank(build_trace(evs).0.stage);
    &&& rank >= 1 ==> exists|i: int| #[trigger] succeeded_at(evs, i, BuildStage::Checking)
    &&& rank >= 2 ==> exists|i: int| #[trigger] succeeded_at(evs, i, BuildStage::Testing)
    &&& rank >= 3 ==> exists|i: int| #[trigger] succeeded_at(evs, i, BuildStage::Releasing)
}

proof fn lemma_succeeded_at_extends(evs: Seq<BuildEventView>, e: BuildEventView, i: int, stage: BuildStage)
    requires
        succeeded_at(evs, i, stage),
    ensures
        succeeded_at(evs.push(e), i, stage),
{
    assert(evs.push(e).take(i) =~= evs.take(i));
}

proof fn lemma_exits_invariant(evs: Seq<BuildEventView>)
    ensures
        exits_invariant(evs),
    decreases evs.len(),
{
    if evs.len() > 0 {
        let prev = evs.drop_last();
        let e = evs.last();
        lemma_exits_invariant(prev);
        assert(evs =~= prev.push(e));
        assert(evs.take(prev.len() as int) =~= prev);
        let r = build_trace(prev).0;
        if stage_rank(r.stage) >= 1 {
            let i = choose|i: int| #[trigger] succeeded_at(prev, i, BuildStage::Checking);
            lemma_succeeded_at_extends(prev, e, i, BuildStage::Checking);
        }
        if stage_rank(r.stage) >= 2 {
            let i = choose|i: int| #[trigger] succeeded_at(prev, i, BuildStage::Testing);
            lemma_succeeded_at_extends(prev, e, i, BuildStage::Testing);
        }
        if stage_rank(r.stage) >= 3 {
            let i = choose|i: int| #[trigger] succeeded_at(prev, i, BuildStage::Releasing);
            lemma_succeeded_at_extends(prev, e, i, BuildStage::Releasing);
        }
        if e is CargoExited && e->CargoExited_success && stage_rank(r.stage) <= 2 && stage_rank(
            r.stage,
        ) >= 0 {
            assert(succeeded_at(evs, prev.len() as int, r.stage));
        }
    }
}

proof fn lemma_step_rank(r: BuildRunView, e: BuildEventView)
    ensures
        r.stage == BuildStage::Finished ==> build_next(r, e).0.stage == BuildStage::Finished,
        build_next(r, e).0.stage != BuildStage::Finished ==> r.stage != BuildStage::Finished
            && stage_rank(build_next(r, e).0.stage) >= stage_rank(r.stage),
{
}

proof fn lemma_rank_monotone(evs: Seq<BuildEventView>, a: int, b: int)
    requires
        0 <= a <= b <= evs.len(),
        build_trace(evs.take(b)).0.stage != BuildStage::Finished,
    ensures
        build_trace(evs.take(a)).0.stage != BuildStage::Finished,
        stage_rank(build_trace(evs.take(a)).0.stage) <= stage_rank(
            build_trace(evs.take(b)).0.stage,
        ),
    decreases b - a,
{
    if a < b {
        assert(evs.take(b).drop_last() =~= evs.take(b - 1));
        lemma_step_rank(build_trace(evs.take(b - 1)).0, evs.take(b).last());
        lemma_rank_monotone(evs, a, b - 1);
    }
}

proof fn lemma_stage_order(evs: Seq<BuildEventView>, i: int, j: int)
    requires
        0 <= i <= evs.len(),
        0 <= j <= evs.len(),
        build_trace(evs.take(i)).0.stage != BuildStage::Finished,
        build_trace(evs.take(j)).0.stage != BuildStage::Finished,
        stage_rank(build_trace(evs.take(i)).0.stage) < stage_rank(
            build_trace(evs.take(j)).0.stage,
        ),
    ensures
        i < j,
{
    if j <= i {
        lemma_rank_monotone(evs, j, i);
    }
}

/// A run ends with its artifacts only where `cargo check`, `cargo test` and
/// `cargo build --release` each exited with success, in that order.
pub proof fn lemma_success_needs_successful_exits(evs: Seq<BuildEventView>)
    requires
        build_trace(evs).1.last() is Finish,
        build_trace(evs).1.last()->Finish_0 is Ok,
    ensures
        exists|i: int, j: int, k: int|
            i < j < k && #[trigger] succeeded_at(evs, i, BuildStage::Checking) && #[trigger] succeeded_at(
                evs,
                j,
                BuildStage::Testing,
            ) && #[trigger] succeeded_at(evs, k, BuildStage::Releasing),
{
    assert(evs.len() > 0);
    let prev = evs.drop_last();
    lemma_exits_invariant(prev);
    let (r, acts) = build_trace(prev);
    let (r2, a) = build_next(r, evs.last());
    assert(acts.push(a).last() == a);
    assert(r.stage == BuildStage::Measuring);
    let i = choose|i: int| #[trigger] succeeded_at(prev, i, BuildStage::Checking);
    let j = choose|j: int| #[trigger] succeeded_at(prev, j, BuildStage::Testing);
    let k = choose|k: int| #[trigger] succeeded_at(prev, k, BuildStage::Releasing);
    assert(evs =~= prev.push(evs.last()));
    lemma_succeeded_at_extends(prev, evs.last(), i, BuildStage::Checking);
    lemma_succeeded_at_extends(prev, evs.last(), j, BuildStage::Testing);
    lemma_succeeded_at_extends(prev, evs.last(), k, BuildStage::Releasing);
    lemma_stage_order(prev, i, j);
    lemma_stage_order(prev, j, k);
}

/// A failed cargo command ends the run with the command's error and its
/// output; nothing runs after it.
pub proof fn lemma_failed_step_ends_run(r: BuildRunView, stdout: Seq<char>, stderr: Seq<char>)
    requires
        r.stage == BuildStage::Checking || r.stage == BuildStage::Releasing || (r.stage
            == BuildStage::Testing && sums_fit(test_counts(stdout))),
    ensures
        ({
            let (r2, a) = build_next(
                r,
                BuildEventView::CargoExited { success: false, stdout, stderr },
            );
            let step = if r.stage == BuildStage::Checking {
                CargoStep::Check
            } else if r.stage == BuildStage::Testing {
                CargoStep::Test
            } else {
                CargoStep::Release
            };
            &&& r2.stage == BuildStage::Finished
            &&& a == BuildActionView::Finish(
                Err(BuildErrorView::BuildFailed(cargo_label(step) + stderr)),
            )
            &&& forall|e: BuildEventView| #[trigger] build_next(r2, e) == (r2, BuildActionView::Idle)
        }),
{
}

/// The record of a finished run, as plain values; see `completion_record`.
pub open spec fn completion_view(
    id: Seq<char>,
    commit: Seq<char>,
    outcome: Result<ArtifactsView, BuildErrorView>,
    duration_nanos: u64,
) -> BuildRecordView {
    match outcome {
        Ok(a) => BuildRecordView {
            id,
            status: BuildStatus::Succeeded,
            commit_hash: commit,
            test_count: Some(a.test_count),
            binary_hash: Some(a.binary_hash),
            binary_size: Some(a.binary_size),
            started_at: Seq::<char>::empty(),
            completed_at: None,
            error: None,
            duration_nanos: Some(duration_nanos),
        },
        Err(e) => BuildRecordView {
            id,
            status: BuildStatus::Failed,
            commit_hash: commit,
            test_count: None,
            binary_hash: None,
            binary_size: None,
            started_at: Seq::<char>::empty(),
            completed_at: None,
            error: Some(error_message(e)),
            duration_nanos: Some(duration_nanos),
        },
    }
}

pub open spec fn outcome_view(o: Result<BuildArtifacts, BuildError>) -> Result<ArtifactsView, BuildErrorView> {
    match o {
        Ok(a) => Ok(a@),
        Err(e) => Err(e@),
    }
}

/// A cargo command that exits with success moves the run on, whatever it
/// wrote to its error stream: `check` is followed by `test`, `test` by the
/// release build (with the count read from the test output), the release
/// build by reading the binary. Only the exit status decides.
pub proof fn lemma_successful_exit_moves_on(r: BuildRunView, stdout: Seq<char>, stderr: Seq<char>)
    ensures
        r.stage == BuildStage::Checking ==> build_next(
            r,
            BuildEventView::CargoExited { success: true, stdout, stderr },
        ) == (
            BuildRunView { stage: BuildStage::Testing, ..r },
            BuildActionView::RunCargo(CargoStep::Test),
        ),
        r.stage == BuildStage::Testing && sums_fit(test_counts(stdout)) ==> build_next(
            r,
            BuildEventView::CargoExited { success: true, stdout, stderr },
        ) == (
            BuildRunView {
                stage: BuildStage::Releasing,
                test_count: passed_total(stdout) as i64,
                binary_hash: r.binary_hash,
            },
            BuildActionView::RunCargo(CargoStep::Release),
        ),
        r.stage == BuildStage::Releasing ==> build_next(
            r,
            BuildEventView::CargoExited { success: true, stdout, stderr },
        ) == (BuildRunView { stage: BuildStage::Hashing, ..r }, BuildActionView::ReadBinary),
{
}

/// The record of a finished run keeps the run's id, its commit and its
/// duration, whether the run succeeded or failed; it has no start or
/// completion time of its own.
pub proof fn lemma_completion_keeps_run_facts(
    id: Seq<char>,
    commit: Seq<char>,
    outcome: Result<ArtifactsView, BuildErrorView>,
    duration_nanos: u64,
)
    ensures
        completion_view(id, commit, outcome, duration_nanos).id == id,
        completion_view(id, commit, outcome, duration_nanos).commit_hash == commit,
        completion_view(id, commit, outcome, duration_nanos).duration_nanos == Some(
            duration_nanos,
        ),
        completion_view(id, commit, outcome, duration_nanos).completed_at is None,
        outcome is Ok <==> completion_view(id, commit, outcome, duration_nanos).error is None,
{
}

/// The record with which a finished run is stored: `Succeeded` with the
/// artifacts, or `Failed` with the message of the error; in both cases the
/// id, the commit and the duration, with no start or completion time set.
pub fn completion_record(
    id: String,
    commit: String,
    outcome: Result<BuildArtifacts, BuildError>,
    duration_nanos: u64,
) -> (r: BuildRecord)
    ensures
        r@ == completion_view(id@, commit@, outcome_view(outcome), duration_nanos),
{
    let started_at = "".to_owned();
    proof {
        reveal_strlit("");
    }
    assert(started_at@ =~= Seq::<char>::empty());
    match outcome {
        Ok(a) => BuildRecord {
            id,
            status: BuildStatus::Succeeded,
            commit_hash: commit,
            test_count: Some(a.test_count),
            binary_hash: Some(a.binary_hash),
            binary_size: Some(a.binary_size),
            started_at,
            completed_at: None,
            error: None,
            duration_nanos: Some(duration_nanos),
        },
        Err(e) => BuildRecord {
            id,
            status: BuildStatus::Failed,
            commit_hash: commit,
            test_count: None,
            binary_hash: None,
            binary_size: None,
            started_at,
            completed_at: None,
            error: Some(e.to_string()),
            duration_nanos: Some(duration_nanos),
        },
    }
}

} // verus!
