use convergio_build::digest::{hex_encode, sha256_hex};
use convergio_build::pipeline::{
    completion_record, BuildAction, BuildArtifacts, BuildEvent, BuildRun, BuildStage, CargoStep,
    CommandOutput,
};
use convergio_build::status::BuildStatus;
use convergio_build::types::BuildError;

fn exited(success: bool, stdout: &str, stderr: &str) -> BuildEvent {
    BuildEvent::CargoExited(CommandOutput {
        success,
        stdout: stdout.into(),
        stderr: stderr.into(),
    })
}

#[test]
fn pipeline_runs_check_test_release_then_measures() {
    let (run, a) = BuildRun::start();
    assert!(matches!(a, BuildAction::RunCargo(CargoStep::Check)));
    let (run, a) = run.step(exited(true, "", ""));
    assert!(matches!(a, BuildAction::RunCargo(CargoStep::Test)));
    let (run, a) = run.step(exited(true, "test result: ok. 59 passed; 0 failed;\ntest result: ok. 12 passed;", ""));
    assert!(matches!(a, BuildAction::RunCargo(CargoStep::Release)));
    let (run, a) = run.step(exited(true, "", ""));
    assert!(matches!(a, BuildAction::ReadBinary));
    let (run, a) = run.step(BuildEvent::BinaryRead(b"abc".to_vec()));
    assert!(matches!(a, BuildAction::MeasureBinary));
    let (run, a) = run.step(BuildEvent::BinaryMeasured(1024));
    assert_eq!(run.stage(), BuildStage::Finished);
    match a {
        BuildAction::Finish(Ok(art)) => {
            assert_eq!(art.test_count, 71);
            assert_eq!(
                art.binary_hash,
                "ba7816bf8f01cfea414140de5dae2223b00361a396177a9cb410ff61f20015ad"
            );
            assert_eq!(art.binary_size, 1024);
        },
        _ => panic!("the pipeline succeeds"),
    }
}

#[test]
fn failed_check_stops_the_pipeline() {
    let (run, _) = BuildRun::start();
    let (run, a) = run.step(exited(false, "", "error[E0308]"));
    assert_eq!(run.stage(), BuildStage::Finished);
    match a {
        BuildAction::Finish(Err(e)) => {
            assert_eq!(e.to_string(), "build failed: cargo check: error[E0308]")
        },
        _ => panic!("check failure"),
    }
    let (_, a) = run.step(exited(true, "", ""));
    assert!(matches!(a, BuildAction::Idle));
}

#[test]
fn failed_tests_and_release_are_reported() {
    let (run, _) = BuildRun::start();
    let (run, _) = run.step(exited(true, "", ""));
    let (_, a) = run.step(exited(false, "test result: FAILED. 3 passed; 1 failed;", "oops"));
    match a {
        BuildAction::Finish(Err(e)) => assert_eq!(e.to_string(), "build failed: cargo test: oops"),
        _ => panic!("test failure"),
    }
    let (run, _) = BuildRun::start();
    let (run, _) = run.step(exited(true, "", ""));
    let (run, _) = run.step(exited(true, "", ""));
    let (_, a) = run.step(exited(false, "", "link"));
    match a {
        BuildAction::Finish(Err(e)) => assert_eq!(e.to_string(), "build failed: cargo build: link"),
        _ => panic!("release failure"),
    }
}

#[test]
fn io_errors_and_overflow() {
    let (run, _) = BuildRun::start();
    let (_, a) = run.step(BuildEvent::IoFailed("no cargo".into()));
    assert!(matches!(a, BuildAction::Finish(Err(BuildError::Io(ref m))) if m == "no cargo"));
    let (run, _) = BuildRun::start();
    let (run, _) = run.step(exited(true, "", ""));
    let (_, a) = run.step(exited(true, "test result: 9223372036854775807 passed; 1 passed", ""));
    assert!(matches!(a, BuildAction::Abandon));
}

#[test]
fn unexpected_event_changes_nothing() {
    let (run, _) = BuildRun::start();
    let (run, a) = run.step(BuildEvent::BinaryMeasured(3));
    assert!(matches!(a, BuildAction::Idle));
    assert_eq!(run.stage(), BuildStage::Checking);
}

#[test]
fn cargo_arguments() {
    assert_eq!(CargoStep::Check.args(), vec!["check", "--workspace"]);
    assert_eq!(CargoStep::Test.args(), vec!["test", "--workspace"]);
    assert_eq!(CargoStep::Release.args(), vec!["build", "--release"]);
}

#[test]
fn completion_records() {
    let ok = completion_record(
        "id1".into(),
        "def456".into(),
        Ok(BuildArtifacts {
            test_count: 971,
            binary_hash: "sha256abc".into(),
            binary_size: 50_000_000,
        }),
        120_500,
    );
    assert_eq!(ok.status, BuildStatus::Succeeded);
    assert_eq!(ok.test_count, Some(971));
    assert_eq!(ok.binary_hash.as_deref(), Some("sha256abc"));
    assert_eq!(ok.binary_size, Some(50_000_000));
    assert_eq!(ok.duration_nanos, Some(120_500));
    assert!(ok.error.is_none());
    let failed = completion_record(
        "id2".into(),
        "fail999".into(),
        Err(BuildError::BuildFailed("cargo check failed".into())),
        3_000,
    );
    assert_eq!(failed.status, BuildStatus::Failed);
    assert_eq!(failed.error.as_deref(), Some("build failed: cargo check failed"));
    assert!(failed.test_count.is_none() && failed.binary_hash.is_none());
}

#[test]
fn digests_in_hex() {
    assert_eq!(hex_encode(&[0x00, 0x0f, 0xa0, 0xff]), "000fa0ff");
    assert_eq!(hex_encode(&[]), "");
    assert_eq!(
        sha256_hex(b""),
        "e3b0c44298fc1c149afbf4c8996fb92427ae41e4649b934ca495991b7852b855"
    );
    assert_eq!(sha256_hex(b"abc").len(), 64);
}
