use convergio_build::commit::commit_from_git_output;
use convergio_build::ids::new_build;
use convergio_build::status::BuildStatus;
use convergio_build::test_output::{parse_test_count, try_parse_test_count};
use convergio_build::types::{build_not_found, keep_readable_rows, BuildError, BuildRecord};

#[test]
fn parse_test_count_from_output() {
    let output = "test result: ok. 59 passed; 0 failed; 0 ignored;\n\
                   test result: ok. 12 passed; 0 failed; 0 ignored;";
    assert_eq!(parse_test_count(output), 71);
}

#[test]
fn parse_test_count_empty() {
    assert_eq!(parse_test_count("no test output"), 0);
}

#[test]
fn parse_test_count_sums_lines_of_a_real_run() {
    let output = "running 3 tests\n\
                  test a ... ok\n\
                  test result: ok. 3 passed; 0 failed; 0 ignored; 0 measured; 0 filtered out; finished in 0.01s\r\n\
                  \n\
                  running 0 tests\n\
                  test result: ok. 0 passed; 0 failed; 0 ignored\n";
    assert_eq!(parse_test_count(output), 3);
}

#[test]
fn parse_test_count_ignores_lines_not_at_start() {
    assert_eq!(parse_test_count("  test result: ok. 5 passed;"), 0);
    assert_eq!(parse_test_count("note: test result: ok. 5 passed;"), 0);
}

#[test]
fn parse_test_count_reads_signed_and_skips_bad_numbers() {
    assert_eq!(parse_test_count("test result: -4 passed; +6 passed; x passed; passed"), 2);
    assert_eq!(parse_test_count("test result: 7 passed\u{a0}; 9 failed"), 7);
    assert_eq!(parse_test_count("test result: 7 notpassed"), 7);
    assert_eq!(parse_test_count("test result: 99999999999999999999 passed; 1 passed"), 1);
}

#[test]
fn parse_test_count_join_law_example() {
    let a = "test result: ok. 4 passed;";
    let b = "test result: ok. 6 passed;";
    let joined = format!("{a}\n{b}");
    assert_eq!(parse_test_count(&joined), parse_test_count(a) + parse_test_count(b));
}

#[test]
fn try_parse_test_count_detects_overflow() {
    let big = "test result: 9223372036854775807 passed; 1 passed";
    assert_eq!(try_parse_test_count(big), None);
    let fine = "test result: 9223372036854775807 passed; -1 passed";
    assert_eq!(try_parse_test_count(fine), Some(9223372036854775806));
    let back = "test result: 9223372036854775807 passed; 1 passed; -1 passed";
    assert_eq!(try_parse_test_count(back), None);
}

#[test]
fn commit_label_is_trimmed_output() {
    assert_eq!(commit_from_git_output(true, b"abc1234\n".to_vec()), "abc1234");
    assert_eq!(commit_from_git_output(true, b"  \t\n".to_vec()), "unknown");
    assert_eq!(commit_from_git_output(false, b"abc1234\n".to_vec()), "unknown");
    assert_eq!(commit_from_git_output(true, vec![0xff, 0x61]), "unknown");
}

#[test]
fn new_build_is_queued_with_uuid() {
    let b = new_build("abc123");
    assert_eq!(b.commit_hash, "abc123");
    assert_eq!(b.status, BuildStatus::Queued);
    assert_eq!(b.id.len(), 36);
    let chars: Vec<char> = b.id.chars().collect();
    for (i, c) in chars.iter().enumerate() {
        if i == 8 || i == 13 || i == 18 || i == 23 {
            assert_eq!(*c, '-');
        } else {
            assert!(c.is_ascii_hexdigit() && !c.is_ascii_uppercase());
        }
    }
    assert_eq!(chars[14], '4');
    assert!(matches!(chars[19], '8' | '9' | 'a' | 'b'));
    assert_ne!(new_build("abc123").id, b.id);
}

#[test]
fn get_build_not_found_message() {
    let err = build_not_found("nonexistent");
    assert_eq!(err.to_string(), "not found: build nonexistent");
    assert!(err.to_string().contains("not found"));
}

#[test]
fn error_messages_name_their_kind() {
    assert_eq!(BuildError::Db("x".into()).to_string(), "db: x");
    assert_eq!(BuildError::Pool("x".into()).to_string(), "pool: x");
    assert_eq!(BuildError::Io("x".into()).to_string(), "io: x");
    assert_eq!(BuildError::BuildFailed("x".into()).to_string(), "build failed: x");
    assert_eq!(BuildError::DeployFailed("x".into()).to_string(), "deploy failed: x");
    assert_eq!(BuildError::NotFound("x".into()).to_string(), "not found: x");
}

fn record(id: &str) -> BuildRecord {
    BuildRecord {
        id: id.into(),
        status: BuildStatus::Queued,
        commit_hash: "c".into(),
        test_count: None,
        binary_hash: None,
        binary_size: None,
        started_at: String::new(),
        completed_at: None,
        error: None,
        duration_nanos: None,
    }
}

#[test]
fn unreadable_rows_are_skipped() {
    let rows = vec![
        Ok(record("a")),
        Err(BuildError::Db("bad row".into())),
        Ok(record("b")),
    ];
    let kept = keep_readable_rows(rows);
    assert_eq!(kept.len(), 2);
    assert_eq!(kept[0].id, "a");
    assert_eq!(kept[1].id, "b");
    assert!(keep_readable_rows(Vec::new()).is_empty());
}
