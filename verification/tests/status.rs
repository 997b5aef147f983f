use convergio_build::status::BuildStatus;

const ALL: [BuildStatus; 7] = [
    BuildStatus::Queued,
    BuildStatus::Building,
    BuildStatus::Testing,
    BuildStatus::Compiling,
    BuildStatus::Succeeded,
    BuildStatus::Failed,
    BuildStatus::Deployed,
];

#[test]
fn status_names() {
    let names: Vec<&str> = ALL.iter().map(|s| s.as_str()).collect();
    assert_eq!(
        names,
        vec!["queued", "building", "testing", "compiling", "succeeded", "failed", "deployed"]
    );
    assert_eq!(BuildStatus::Succeeded.to_string(), "succeeded");
}

#[test]
fn status_roundtrip() {
    for s in ALL {
        assert_eq!(BuildStatus::parse_status(s.as_str()), s);
    }
}

#[test]
fn unknown_status_reads_as_failed() {
    assert_eq!(BuildStatus::parse_status("bogus"), BuildStatus::Failed);
    assert_eq!(BuildStatus::parse_status(""), BuildStatus::Failed);
    assert_eq!(BuildStatus::parse_status("Queued"), BuildStatus::Failed);
    assert_eq!(BuildStatus::parse_status("queued "), BuildStatus::Failed);
}
