use convergio_build::deploy::{DeployAction, DeployEvent, DeployRun, DeployStage, ServiceCommand};
use convergio_build::paths::{backup_path, choose_workspace_root, release_binary_path};
use convergio_build::types::BuildError;

#[test]
fn release_binary_path_correct() {
    let p = release_binary_path("/tmp/daemon");
    assert_eq!(p, "/tmp/daemon/target/release/convergio");
}

#[test]
fn release_binary_path_joins_like_path_join() {
    assert_eq!(release_binary_path("/tmp/daemon/"), "/tmp/daemon/target/release/convergio");
    assert_eq!(release_binary_path(""), "target/release/convergio");
    assert_eq!(release_binary_path("ws"), "ws/target/release/convergio");
}

#[test]
fn backup_path_swaps_extension() {
    assert_eq!(backup_path("/usr/local/bin/convergio"), "/usr/local/bin/convergio.bak");
    assert_eq!(backup_path("/opt/app/daemon.bin"), "/opt/app/daemon.bak");
}

#[test]
fn deploy_fails_without_binary() {
    let (run, first) =
        DeployRun::deploy("/tmp/nonexistent-workspace", "/usr/local/bin/convergio");
    match first {
        DeployAction::CheckExists(p) => {
            assert_eq!(p, "/tmp/nonexistent-workspace/target/release/convergio")
        },
        _ => panic!("the first action checks the release binary"),
    }
    let (run, action) = run.step(DeployEvent::Exists(false));
    assert_eq!(run.stage, DeployStage::Finished);
    match action {
        DeployAction::Finish(Err(e)) => {
            assert_eq!(e.to_string(), "deploy failed: release binary not found — run build first")
        },
        _ => panic!("a missing release binary ends the deploy with an error"),
    }
}

fn expect_copy(a: &DeployAction, from: &str, to: &str) {
    match a {
        DeployAction::Copy { from: f, to: t } => {
            assert_eq!(f, from);
            assert_eq!(t, to);
        },
        _ => panic!("expected a copy"),
    }
}

#[test]
fn deploy_backs_up_installs_and_restarts() {
    let cur = "/usr/local/bin/convergio";
    let (run, _) = DeployRun::deploy("/ws", cur);
    let (run, a) = run.step(DeployEvent::Exists(true));
    assert!(matches!(a, DeployAction::CheckExists(ref p) if p == cur));
    let (run, a) = run.step(DeployEvent::Exists(true));
    expect_copy(&a, cur, "/usr/local/bin/convergio.bak");
    let (run, a) = run.step(DeployEvent::Done);
    expect_copy(&a, "/ws/target/release/convergio", cur);
    let (run, a) = run.step(DeployEvent::Done);
    assert!(matches!(a, DeployAction::MakeExecutable(ref p) if p == cur));
    let (run, a) = run.step(DeployEvent::Done);
    assert!(matches!(a, DeployAction::Launchctl(ServiceCommand::Stop)));
    let (run, a) = run.step(DeployEvent::CommandExited { success: false, stderr: "x".into() });
    assert!(matches!(a, DeployAction::Launchctl(ServiceCommand::Start)));
    // A failed restart does not fail the deploy.
    let (run, a) = run.step(DeployEvent::CommandExited { success: false, stderr: "no".into() });
    assert_eq!(run.stage, DeployStage::Finished);
    match a {
        DeployAction::Finish(Ok(b)) => assert_eq!(b, "/usr/local/bin/convergio.bak"),
        _ => panic!("deploy succeeds"),
    }
    let (_, a) = run.step(DeployEvent::Done);
    assert!(matches!(a, DeployAction::Idle));
}

#[test]
fn deploy_skips_backup_when_nothing_runs() {
    let (run, _) = DeployRun::deploy("/ws", "/bin/d");
    let (run, _) = run.step(DeployEvent::Exists(true));
    let (_, a) = run.step(DeployEvent::Exists(false));
    expect_copy(&a, "/ws/target/release/convergio", "/bin/d");
}

#[test]
fn deploy_copy_error_is_io() {
    let (run, _) = DeployRun::deploy("/ws", "/bin/d");
    let (run, _) = run.step(DeployEvent::Exists(true));
    let (run, _) = run.step(DeployEvent::Exists(false));
    let (_, a) = run.step(DeployEvent::IoFailed("disk full".into()));
    match a {
        DeployAction::Finish(Err(BuildError::Io(m))) => assert_eq!(m, "disk full"),
        _ => panic!("io error"),
    }
}

#[test]
fn rollback_without_backup_fails() {
    let (run, a) = DeployRun::rollback("/bin/d");
    assert!(matches!(a, DeployAction::CheckExists(ref p) if p == "/bin/d.bak"));
    let (_, a) = run.step(DeployEvent::Exists(false));
    match a {
        DeployAction::Finish(Err(e)) => {
            assert_eq!(e.to_string(), "deploy failed: no backup binary found")
        },
        _ => panic!("rollback fails"),
    }
}

#[test]
fn rollback_restores_backup_and_reports_restart_failure() {
    let (run, _) = DeployRun::rollback("/bin/d");
    let (run, a) = run.step(DeployEvent::Exists(true));
    expect_copy(&a, "/bin/d.bak", "/bin/d");
    let (run, _) = run.step(DeployEvent::Done);
    let (run, _) = run.step(DeployEvent::Done);
    let (run, _) = run.step(DeployEvent::CommandExited { success: true, stderr: String::new() });
    let (_, a) = run.step(DeployEvent::CommandExited { success: false, stderr: "boom".into() });
    match a {
        DeployAction::Finish(Err(e)) => {
            assert_eq!(e.to_string(), "deploy failed: launchctl start: boom")
        },
        _ => panic!("rollback fails when the service does not start"),
    }
}

#[test]
fn launchctl_arguments() {
    assert_eq!(ServiceCommand::Stop.args(), vec!["stop", "com.convergio.daemon"]);
    assert_eq!(ServiceCommand::Start.args(), vec!["start", "com.convergio.daemon"]);
}

#[test]
fn workspace_root_is_first_marked_ancestor() {
    let anc = vec!["/a/b/c".to_string(), "/a/b".to_string(), "/a".to_string(), "/".to_string()];
    assert_eq!(
        choose_workspace_root(anc.clone(), &vec![false, true, true, false], "fb".into()),
        "/a/b"
    );
    assert_eq!(choose_workspace_root(anc, &vec![false; 4], "fb".into()), "fb");
    assert_eq!(choose_workspace_root(Vec::new(), &Vec::new(), "fb".into()), "fb");
}
