use convergio_build::pipeline::BuildArtifacts;
use convergio_build::requests::{
    BuildRequest, BuildRequestAction, BuildRequestEvent, DeployReply, DeployRequest,
    DeployRequestAction, DeployRequestEvent,
};
use convergio_build::status::BuildStatus;
use convergio_build::types::{build_not_found, BuildError};

fn refused(a: DeployRequestAction) -> String {
    match a {
        DeployRequestAction::Reply(DeployReply::Refused { error }) => error,
        _ => panic!("expected a refusal"),
    }
}

#[test]
fn route_deploy_rejects_non_succeeded_build() {
    let (req, a) = DeployRequest::start("abc");
    assert!(matches!(a, DeployRequestAction::LoadBuild(ref id) if id == "abc"));
    let (_, a) = req.step(DeployRequestEvent::Loaded(Ok(BuildStatus::Queued)));
    let e = refused(a);
    assert!(e.contains("must be 'succeeded'"));
    assert_eq!(e, "build status is 'queued', must be 'succeeded'");
}

#[test]
fn route_deploy_unknown_build_is_not_found() {
    let (req, _) = DeployRequest::start("nonexistent");
    let (_, a) = req.step(DeployRequestEvent::Loaded(Err(build_not_found("nonexistent"))));
    let e = refused(a);
    assert!(e.contains("not found"));
}

#[test]
fn deploy_request_marks_after_deploy() {
    let (req, _) = DeployRequest::start("b1");
    let (req, a) = req.step(DeployRequestEvent::Loaded(Ok(BuildStatus::Succeeded)));
    assert!(matches!(a, DeployRequestAction::DeployBinary));
    let (req, a) = req.step(DeployRequestEvent::Deployed(Ok("/bin/d.bak".into())));
    assert!(matches!(a, DeployRequestAction::MarkDeployed(ref id) if id == "b1"));
    let (req, a) = req.step(DeployRequestEvent::Marked);
    match a {
        DeployRequestAction::Reply(DeployReply::Deployed { backup }) => {
            assert_eq!(backup, "/bin/d.bak")
        },
        _ => panic!("deployed"),
    }
    let (_, a) = req.step(DeployRequestEvent::Marked);
    assert!(matches!(a, DeployRequestAction::Idle));
}

#[test]
fn deploy_request_reports_deploy_failure() {
    let (req, _) = DeployRequest::start("b1");
    let (req, _) = req.step(DeployRequestEvent::Loaded(Ok(BuildStatus::Succeeded)));
    let (_, a) = req.step(DeployRequestEvent::Deployed(Err(BuildError::DeployFailed(
        "no backup binary found".into(),
    ))));
    assert_eq!(refused(a), "deploy failed: no backup binary found");
}

#[test]
fn build_request_records_success() {
    let (req, a) = BuildRequest::start("id7");
    assert!(matches!(a, BuildRequestAction::MarkBuilding(ref id) if id == "id7"));
    let (req, a) = req.step(BuildRequestEvent::Marked);
    assert!(matches!(a, BuildRequestAction::RunBuild));
    let (req, a) = req.step(BuildRequestEvent::BuildReturned {
        outcome: Ok(BuildArtifacts { test_count: 42, binary_hash: "deadbeef".into(), binary_size: 1024 }),
        duration_nanos: 12_500,
    });
    assert!(matches!(a, BuildRequestAction::ReadCommit));
    let (_, a) = req.step(BuildRequestEvent::CommitRead("def5678".into()));
    match a {
        BuildRequestAction::Complete(r) => {
            assert_eq!(r.id, "id7");
            assert_eq!(r.status, BuildStatus::Succeeded);
            assert_eq!(r.commit_hash, "def5678");
            assert_eq!(r.test_count, Some(42));
            assert_eq!(r.binary_hash.as_deref(), Some("deadbeef"));
            assert_eq!(r.binary_size, Some(1024));
            assert_eq!(r.duration_nanos, Some(12_500));
        },
        _ => panic!("complete"),
    }
}

#[test]
fn build_request_records_failure_and_gives_up_on_panic() {
    let (req, _) = BuildRequest::start("id8");
    let (req, _) = req.step(BuildRequestEvent::Marked);
    let (req, _) = req.step(BuildRequestEvent::BuildReturned {
        outcome: Err(BuildError::BuildFailed("cargo check: boom".into())),
        duration_nanos: 3_000,
    });
    let (_, a) = req.step(BuildRequestEvent::CommitRead("fail999".into()));
    match a {
        BuildRequestAction::Complete(r) => {
            assert_eq!(r.status, BuildStatus::Failed);
            assert_eq!(r.error.as_deref(), Some("build failed: cargo check: boom"));
        },
        _ => panic!("complete"),
    }
    let (req, _) = BuildRequest::start("id9");
    let (req, _) = req.step(BuildRequestEvent::Marked);
    let (_, a) = req.step(BuildRequestEvent::BuildPanicked);
    assert!(matches!(a, BuildRequestAction::GiveUp));
}
