//! The two requests that span several outside steps: deploying a build, and
//! running a build in the background and recording its outcome. Each is a
//! state machine; the caller performs the actions and hands back what came of
//! them.

use vstd::prelude::*;
use crate::api::{check_deployable, not_deployable_message};
use crate::pipeline::{
    completion_record, completion_view, outcome_view, ArtifactsView, BuildArtifacts,
};
use crate::status::BuildStatus;
use crate::types::{error_message, BuildError, BuildErrorView, BuildRecord, BuildRecordView};

verus! {

/// Where a deploy request stands.
#[derive(Debug, Clone, Copy, PartialEq, Eq, Structural)]
pub enum DeployRequestStage {
    Loading,
    Deploying,
    Marking,
    Done,
}

/// A request to deploy the build `id`.
pub struct DeployRequest {
    pub stage: DeployRequestStage,
    pub id: String,
    pub backup: String,
}

pub struct DeployRequestView {
    pub stage: DeployRequestStage,
    pub id: Seq<char>,
    pub backup: Seq<char>,
}

impl View for DeployRequest {
    type V = DeployRequestView;

    open spec fn view(&self) -> DeployRequestView {
        DeployRequestView { stage: self.stage, id: self.id@, backup: self.backup@ }
    }
}

/// What came of the last action of a deploy request.
pub enum DeployRequestEvent {
    /// The build was looked up: its status, or why it could not be had.
    Loaded(Result<BuildStatus, BuildError>),
    /// The binary was deployed (with the backup path), or not.
    Deployed(Result<String, BuildError>),
    /// The build was marked deployed; whether that worked does not matter.
    Marked,
}

pub enum DeployRequestEventView {
    Loaded(Result<BuildStatus, BuildErrorView>),
    Deployed(Result<Seq<char>, BuildErrorView>),
    Marked,
}

impl View for DeployRequestEvent {
    type V = DeployRequestEventView;

    open spec fn view(&self) -> DeployRequestEventView {
        match self {
            DeployRequestEvent::Loaded(Ok(s)) => DeployRequestEventView::Loaded(Ok(*s)),
            DeployRequestEvent::Loaded(Err(e)) => DeployRequestEventView::Loaded(Err(e@)),
            DeployRequestEvent::Deployed(Ok(p)) => DeployRequestEventView::Deployed(Ok(p@)),
            DeployRequestEvent::Deployed(Err(e)) => DeployRequestEventView::Deployed(Err(e@)),
            DeployRequestEvent::Marked => DeployRequestEventView::Marked,
        }
    }
}

/// The answer to a deploy request.
pub enum DeployReply {
    /// The binary was deployed; the old one was kept at `backup`.
    Deployed { backup: String },
    /// The request was refused or failed, with this message.
    Refused { error: String },
}

pub enum DeployReplyView {
    Deployed { backup: Seq<char> },
    Refused { error: Seq<char> },
}

/// What the caller is to do next for a deploy request.
pub enum DeployRequestAction {
    /// Look up the build with this id.
    LoadBuild(String),
    /// Deploy the release binary.
    DeployBinary,
    /// Set the status of the build with this id to `Deployed`.
    MarkDeployed(String),
    /// Answer the request.
    Reply(DeployReply),
    /// The event did not answer the last action; nothing changes.
    Idle,
}

pub enum DeployRequestActionView {
    LoadBuild(Seq<char>),
    DeployBinary,
    MarkDeployed(Seq<char>),
    Reply(DeployReplyView),
    Idle,
}

impl View for DeployRequestAction {
    type V = DeployRequestActionView;

    open spec fn view(&self) -> DeployRequestActionView {
        match self {
            DeployRequestAction::LoadBuild(id) => DeployRequestActionView::LoadBuild(id@),
            DeployRequestAction::DeployBinary => DeployRequestActionView::DeployBinary,
            DeployRequestAction::MarkDeployed(id) => DeployRequestActionView::MarkDeployed(id@),
            DeployRequestAction::Reply(DeployReply::Deployed { backup }) => DeployRequestActionView::Reply(
                DeployReplyView::Deployed { backup: backup@ },
            ),
            DeployRequestAction::Reply(DeployReply::Refused { error }) => DeployRequestActionView::Reply(
                DeployReplyView::Refused { error: error@ },
            ),
            DeployRequestAction::Idle => DeployRequestActionView::Idle,
        }
    }
}

pub open spec fn refuse(r: DeployRequestView, error: Seq<char>) -> (DeployRequestView, DeployRequestActionView) {
    (
        DeployRequestView { stage: DeployRequestStage::Done, ..r },
        DeployRequestActionView::Reply(DeployReplyView::Refused { error }),
    )
}

/// The step of a deploy request. A build that cannot be had, or is not in
/// status `Succeeded`, is refused before anything is deployed; a deploy that
/// fails is refused with its error; a deploy that works marks the build
/// deployed and answers with the backup path.
pub open spec fn deploy_request_next(r: DeployRequestView, e: DeployRequestEventView) -> (
    DeployRequestView,
    DeployRequestActionView,
) {
    let stay = (r, DeployRequestActionView::Idle);
    match r.stage {
        DeployRequestStage::Loading => match e {
            DeployRequestEventView::Loaded(Err(err)) => refuse(r, error_message(err)),
            DeployRequestEventView::Loaded(Ok(status)) => if status == BuildStatus::Succeeded {
                (
                    DeployRequestView { stage: DeployRequestStage::Deploying, ..r },
                    DeployRequestActionView::DeployBinary,
                )
            } else {
                refuse(r, not_deployable_message(status))
            },
            _ => stay,
        },
        DeployRequestStage::Deploying => match e {
            DeployRequestEventView::Deployed(Err(err)) => refuse(r, error_message(err)),
            DeployRequestEventView::Deployed(Ok(backup)) => (
                DeployRequestView { stage: DeployRequestStage::Marking, backup, ..r },
                DeployRequestActionView::MarkDeployed(r.id),
            ),
            _ => stay,
        },
        DeployRequestStage::Marking => match e {
            DeployRequestEventView::Marked => (
                DeployRequestView { stage: DeployRequestStage::Done, ..r },
                DeployRequestActionView::Reply(DeployReplyView::Deployed { backup: r.backup }),
            ),
            _ => stay,
        },
        DeployRequestStage::Done => stay,
    }
}

pub open spec fn deploy_request_start(id: Seq<char>) -> DeployRequestView {
    DeployRequestView { stage: DeployRequestStage::Loading, id, backup: Seq::<char>::empty() }
}

impl DeployRequest {
    /// A request to deploy the build `id`, and its first action: look it up.
    pub fn start(id: &str) -> (r: (DeployRequest, DeployRequestAction))
        ensures
            r.0@ == deploy_request_start(id@),
            r.1@ == DeployRequestActionView::LoadBuild(id@),
    {
        let backup = "".to_owned();
        proof {
            reveal_strlit("");
        }
        assert(backup@ =~= Seq::<char>::empty());
        (
            DeployRequest { stage: DeployRequestStage::Loading, id: id.to_owned(), backup },
            DeployRequestAction::LoadBuild(id.to_owned()),
        )
    }

    fn refused(self, error: String) -> (r: (DeployRequest, DeployRequestAction))
        ensures
            (r.0@, r.1@) == refuse(self@, error@),
    {
        (
            DeployRequest { stage: DeployRequestStage::Done, ..self },
            DeployRequestAction::Reply(DeployReply::Refused { error }),
        )
    }

    /// The request after `event`, and the next action; see
    /// `deploy_request_next`.
    pub fn step(self, event: DeployRequestEvent) -> (r: (DeployRequest, DeployRequestAction))
        ensures
            (r.0@, r.1@) == deploy_request_next(self@, event@),
    {
        match self.stage {
            DeployRequestStage::Loading => match event {
                DeployRequestEvent::Loaded(Err(err)) => {
                    let m = err.to_string();
                    self.refused(m)
                },
                DeployRequestEvent::Loaded(Ok(status)) => match check_deployable(status) {
                    Ok(()) => (
                        DeployRequest { stage: DeployRequestStage::Deploying, ..self },
                        DeployRequestAction::DeployBinary,
                    ),
                    Err(m) => self.refused(m),
                },
                _ => (self, DeployRequestAction::Idle),
            },
            DeployRequestStage::Deploying => match event {
                DeployRequestEvent::Deployed(Err(err)) => {
                    let m = err.to_string();
                    self.refused(m)
                },
                DeployRequestEvent::Deployed(Ok(backup)) => {
                    let id = self.id.clone();
                    (
                        DeployRequest { stage: DeployRequestStage::Marking, backup, ..self },
                        DeployRequestAction::MarkDeployed(id),
                    )
                },
                _ => (self, DeployRequestAction::Idle),
            },
            DeployRequestStage::Marking => match event {
                DeployRequestEvent::Marked => {
                    let backup = self.backup.clone();
                    (
                        DeployRequest { stage: DeployRequestStage::Done, ..self },
                        DeployRequestAction::Reply(DeployReply::Deployed { backup }),
                    )
                },
                _ => (self, DeployRequestAction::Idle),
            },
            DeployRequestStage::Done => (self, DeployRequestAction::Idle),
        }
    }
}

/// The request and the actions issued after the events `evs`, from the
/// request for `id`.
pub open spec fn deploy_request_trace(id: Seq<char>, evs: Seq<DeployRequestEventView>) -> (
    DeployRequestView,
    Seq<DeployRequestActionView>,
)
    decreases evs.len(),
{
    if evs.len() == 0 {
        (deploy_request_start(id), seq![DeployRequestActionView::LoadBuild(id)])
    } else {
        let (r, acts) = deploy_request_trace(id, evs.drop_last());
        let (r2, a) = deploy_request_next(r, evs.last());
        (r2, acts.push(a))
    }
}

/// Among `evs`, the build was found in status `Succeeded` and, after that,
/// its binary was deployed.
pub open spec fn loaded_succeeded_then_deployed(evs: Seq<DeployRequestEventView>) -> bool {
    exists|i: int, j: int|
        0 <= i < j < evs.len() && #[trigger] evs[i] == DeployRequestEventView::Loaded(
            Ok(BuildStatus::Succeeded),
        ) && (#[trigger] evs[j]) is Deployed && evs[j]->Deployed_0 is Ok
}

pub open spec fn request_invariant(r: DeployRequestView, acts: Seq<DeployRequestActionView>, evs: Seq<DeployRequestEventView>) -> bool {
    &&& (r.stage == DeployRequestStage::Deploying) ==> exists|i: int|
        0 <= i < evs.len() && #[trigger] evs[i] == DeployRequestEventView::Loaded(
            Ok(BuildStatus::Succeeded),
        )
    &&& (r.stage == DeployRequestStage::Marking) ==> loaded_succeeded_then_deployed(evs)
    &&& (exists|k: int| 0 <= k < acts.len() && (#[trigger] acts[k]) is MarkDeployed)
        ==> loaded_succeeded_then_deployed(evs)
}

proof fn lemma_deploy_request_invariant(id: Seq<char>, evs: Seq<DeployRequestEventView>)
    ensures
        request_invariant(deploy_request_trace(id, evs).0, deploy_request_trace(id, evs).1, evs),
    decreases evs.len(),
{
    if evs.len() == 0 {
        let acts = deploy_request_trace(id, evs).1;
        assert(acts =~= seq![DeployRequestActionView::LoadBuild(id)]);
        assert forall|k: int| 0 <= k < acts.len() implies !((#[trigger] acts[k]) is MarkDeployed) by {}
    } else {
        let prev = evs.drop_last();
        let e = evs.last();
        lemma_deploy_request_invariant(id, prev);
        let (r, acts) = deploy_request_trace(id, prev);
        let (r2, a) = deploy_request_next(r, e);
        let acts2 = acts.push(a);
        assert(evs =~= prev.push(e));
        assert forall|i: int| 0 <= i < prev.len() implies #[trigger] evs[i] == prev[i] by {}
        if loaded_succeeded_then_deployed(prev) {
            let (i, j) = choose|i: int, j: int|
                0 <= i < j < prev.len() && #[trigger] prev[i] == DeployRequestEventView::Loaded(
                    Ok(BuildStatus::Succeeded),
                ) && (#[trigger] prev[j]) is Deployed && prev[j]->Deployed_0 is Ok;
            assert(evs[i] == prev[i] && evs[j] == prev[j]);
            assert(loaded_succeeded_then_deployed(evs));
        }
        if r.stage == DeployRequestStage::Deploying {
            let i = choose|i: int|
                0 <= i < prev.len() && #[trigger] prev[i] == DeployRequestEventView::Loaded(
                    Ok(BuildStatus::Succeeded),
                );
            assert(evs[i] == prev[i]);
            if e is Deployed && e->Deployed_0 is Ok {
                assert(evs[evs.len() - 1] == e);
                assert(loaded_succeeded_then_deployed(evs));
            }
        }
        if r.stage == DeployRequestStage::Loading && r2.stage == DeployRequestStage::Deploying {
            assert(evs[evs.len() - 1] == e);
        }
        if exists|k: int| 0 <= k < acts2.len() && (#[trigger] acts2[k]) is MarkDeployed {
            let k = choose|k: int| 0 <= k < acts2.len() && (#[trigger] acts2[k]) is MarkDeployed;
            if k < acts.len() {
                assert(acts2[k] == acts[k]);
            }
        }
    }
}

/// A build is marked deployed only after it was found in status `Succeeded`
/// and then its binary was deployed: in any trace of a deploy request, a
/// `MarkDeployed` action is preceded by both events.
pub proof fn lemma_marked_only_after_success(id: Seq<char>, evs: Seq<DeployRequestEventView>, k: int)
    requires
        0 <= k < deploy_request_trace(id, evs).1.len(),
        deploy_request_trace(id, evs).1[k] is MarkDeployed,
    ensures
        loaded_succeeded_then_deployed(evs),
{
    lemma_deploy_request_invariant(id, evs);
}

/// A build in any status but `Succeeded` is refused at once, with a message
/// that names its status, and nothing is deployed.
pub proof fn lemma_refused_unless_succeeded(id: Seq<char>, status: BuildStatus)
    requires
        status != BuildStatus::Succeeded,
    ensures
        deploy_request_next(
            deploy_request_start(id),
            DeployRequestEventView::Loaded(Ok(status)),
        ).1 == DeployRequestActionView::Reply(
            DeployReplyView::Refused { error: not_deployable_message(status) },
        ),
{
}

/// Where a background build stands.
#[derive(Debug, Clone, Copy, PartialEq, Eq, Structural)]
pub enum BuildRequestStage {
    Marking,
    Building,
    Labeling,
    Done,
}

/// A background build of the record `id`: it marks the record as building,
/// runs the pipeline, reads the commit, and stores the outcome.
pub struct BuildRequest {
    pub stage: BuildRequestStage,
    pub id: String,
    pub outcome: Option<Result<BuildArtifacts, BuildError>>,
    pub duration_nanos: u64,
}

pub struct BuildRequestView {
    pub stage: BuildRequestStage,
    pub id: Seq<char>,
    pub outcome: Option<Result<ArtifactsView, BuildErrorView>>,
    pub duration_nanos: u64,
}

impl View for BuildRequest {
    type V = BuildRequestView;

    open spec fn view(&self) -> BuildRequestView {
        BuildRequestView {
            stage: self.stage,
            id: self.id@,
            outcome: match self.outcome {
                Some(o) => Some(outcome_view(o)),
                None => None,
            },
            duration_nanos: self.duration_nanos,
        }
    }
}

/// What came of the last action of a background build.
pub enum BuildRequestEvent {
    /// The status was set to `Building`; whether that worked does not matter.
    Marked,
    /// The pipeline returned this outcome after this many nanoseconds.
    BuildReturned { outcome: Result<BuildArtifacts, BuildError>, duration_nanos: u64 },
    /// The pipeline's task panicked.
    BuildPanicked,
    /// The commit label was read.
    CommitRead(String),
}

pub enum BuildRequestEventView {
    Marked,
    BuildReturned { outcome: Result<ArtifactsView, BuildErrorView>, duration_nanos: u64 },
    BuildPanicked,
    CommitRead(Seq<char>),
}

impl View for BuildRequestEvent {
    type V = BuildRequestEventView;

    open spec fn view(&self) -> BuildRequestEventView {
        match self {
            BuildRequestEvent::Marked => BuildRequestEventView::Marked,
            BuildRequestEvent::BuildReturned { outcome, duration_nanos } => BuildRequestEventView::BuildReturned {
                outcome: outcome_view(*outcome),
                duration_nanos: *duration_nanos,
            },
            BuildRequestEvent::BuildPanicked => BuildRequestEventView::BuildPanicked,
            BuildRequestEvent::CommitRead(c) => BuildRequestEventView::CommitRead(c@),
        }
    }
}

/// What the caller is to do next for a background build.
pub enum BuildRequestAction {
    /// Set the status of the record with this id to `Building`.
    MarkBuilding(String),
    /// Run the build pipeline.
    RunBuild,
    /// Read the commit label.
    ReadCommit,
    /// Store this record as the completion of the build; the request is over.
    Complete(BuildRecord),
    /// The pipeline panicked: the request is over and the record is left as
    /// it is.
    GiveUp,
    /// The event did not answer the last action; nothing changes.
    Idle,
}

pub enum BuildRequestActionView {
    MarkBuilding(Seq<char>),
    RunBuild,
    ReadCommit,
    Complete(BuildRecordView),
    GiveUp,
    Idle,
}

impl View for BuildRequestAction {
    type V = BuildRequestActionView;

    open spec fn view(&self) -> BuildRequestActionView {
        match self {
            BuildRequestAction::MarkBuilding(id) => BuildRequestActionView::MarkBuilding(id@),
            BuildRequestAction::RunBuild => BuildRequestActionView::RunBuild,
            BuildRequestAction::ReadCommit => BuildRequestActionView::ReadCommit,
            BuildRequestAction::Complete(r) => BuildRequestActionView::Complete(r@),
            BuildRequestAction::GiveUp => BuildRequestActionView::GiveUp,
            BuildRequestAction::Idle => BuildRequestActionView::Idle,
        }
    }
}

/// The step of a background build.
pub open spec fn build_request_next(r: BuildRequestView, e: BuildRequestEventView) -> (
    BuildRequestView,
    BuildRequestActionView,
) {
    let stay = (r, BuildRequestActionView::Idle);
    match r.stage {
        BuildRequestStage::Marking => match e {
            BuildRequestEventView::Marked => (
                BuildRequestView { stage: BuildRequestStage::Building, ..r },
                BuildRequestActionView::RunBuild,
            ),
            _ => stay,
        },
        BuildRequestStage::Building => match e {
            BuildRequestEventView::BuildReturned { outcome, duration_nanos } => (
                BuildRequestView {
                    stage: BuildRequestStage::Labeling,
                    outcome: Some(outcome),
                    duration_nanos,
                    ..r
                },
                BuildRequestActionView::ReadCommit,
            ),
            BuildRequestEventView::BuildPanicked => (
                BuildRequestView { stage: BuildRequestStage::Done, ..r },
                BuildRequestActionView::GiveUp,
            ),
            _ => stay,
        },
        BuildRequestStage::Labeling => match e {
            BuildRequestEventView::CommitRead(commit) => match r.outcome {
                Some(o) => (
                    BuildRequestView { stage: BuildRequestStage::Done, outcome: None, ..r },
                    BuildRequestActionView::Complete(
                        completion_view(r.id, commit, o, r.duration_nanos),
                    ),
                ),
                None => stay,
            },
            _ => stay,
        },
        BuildRequestStage::Done => stay,
    }
}

pub open spec fn build_request_start(id: Seq<char>) -> BuildRequestView {
    BuildRequestView { stage: BuildRequestStage::Marking, id, outcome: None, duration_nanos: 0 }
}

impl BuildRequest {
    /// A background build of the record `id`, and its first action: mark the
    /// record as building.
    pub fn start(id: &str) -> (r: (BuildRequest, BuildRequestAction))
        ensures
            r.0@ == build_request_start(id@),
            r.1@ == BuildRequestActionView::MarkBuilding(id@),
    {
        (
            BuildRequest {
                stage: BuildRequestStage::Marking,
                id: id.to_owned(),
                outcome: None,
                duration_nanos: 0,
            },
            BuildRequestAction::MarkBuilding(id.to_owned()),
        )
    }

    /// The build after `event`, and the next action; see `build_request_next`.
    pub fn step(self, event: BuildRequestEvent) -> (r: (BuildRequest, BuildRequestAction))
        ensures
            (r.0@, r.1@) == build_request_next(self@, event@),
    {
        match self.stage {
            BuildRequestStage::Marking => match event {
                BuildRequestEvent::Marked => (
                    BuildRequest { stage: BuildRequestStage::Building, ..self },
                    BuildRequestAction::RunBuild,
                ),
                _ => (self, BuildRequestAction::Idle),
            },
            BuildRequestStage::Building => match event {
                BuildRequestEvent::BuildReturned { outcome, duration_nanos } => (
                    BuildRequest {
                        stage: BuildRequestStage::Labeling,
                        id: self.id,
                        outcome: Some(outcome),
                        duration_nanos,
                    },
                    BuildRequestAction::ReadCommit,
                ),
                BuildRequestEvent::BuildPanicked => (
                    BuildRequest { stage: BuildRequestStage::Done, ..self },
                    BuildRequestAction::GiveUp,
                ),
                _ => (self, BuildRequestAction::Idle),
            },
            BuildRequestStage::Labeling => match event {
                BuildRequestEvent::CommitRead(commit) => {
                    if self.outcome.is_none() {
                        return (self, BuildRequestAction::Idle);
                    }
                    let BuildRequest { stage, id, outcome, duration_nanos } = self;
                    let o = outcome.unwrap();
                    let record = completion_record(id.clone(), commit, o, duration_nanos);
                    (
                        BuildRequest {
                            stage: BuildRequestStage::Done,
                            id,
                            outcome: None,
                            duration_nanos,
                        },
                        BuildRequestAction::Complete(record),
                    )
                },
                _ => (self, BuildRequestAction::Idle),
            },
            BuildRequestStage::Done => (self, BuildRequestAction::Idle),
        }
    }
}

/// A completed build is recorded `Succeeded` exactly when the pipeline
/// returned its artifacts, and `Failed` with the message of the error
/// otherwise.
pub proof fn lemma_completion_status(
    id: Seq<char>,
    commit: Seq<char>,
    outcome: Result<ArtifactsView, BuildErrorView>,
    duration_nanos: u64,
)
    ensures
        (completion_view(id, commit, outcome, duration_nanos).status == BuildStatus::Succeeded)
            <==> outcome is Ok,
        outcome matches Err(e) ==> completion_view(id, commit, outcome, duration_nanos).status
            == BuildStatus::Failed && completion_view(id, commit, outcome, duration_nanos).error
            == Some(error_message(e)),
{
}

} // verus!
