//! The build record and the errors of build operations.

use vstd::prelude::*;
use crate::status::BuildStatus;

verus! {

/// Error of a build operation. Each variant holds the text of what went wrong;
/// errors from the database and from I/O are held by their messages.
pub enum BuildError {
    Db(String),
    Pool(String),
    Io(String),
    BuildFailed(String),
    DeployFailed(String),
    NotFound(String),
}

/// A `BuildError` as plain values.
pub enum BuildErrorView {
    Db(Seq<char>),
    Pool(Seq<char>),
    Io(Seq<char>),
    BuildFailed(Seq<char>),
    DeployFailed(Seq<char>),
    NotFound(Seq<char>),
}

impl View for BuildError {
    type V = BuildErrorView;

    open spec fn view(&self) -> BuildErrorView {
        match self {
            BuildError::Db(m) => BuildErrorView::Db(m@),
            BuildError::Pool(m) => BuildErrorView::Pool(m@),
            BuildError::Io(m) => BuildErrorView::Io(m@),
            BuildError::BuildFailed(m) => BuildErrorView::BuildFailed(m@),
            BuildError::DeployFailed(m) => BuildErrorView::DeployFailed(m@),
            BuildError::NotFound(m) => BuildErrorView::NotFound(m@),
        }
    }
}

/// The text by which an error is reported: a label for its kind, a colon and
/// a space, and what it holds.
pub open spec fn error_message(e: BuildErrorView) -> Seq<char> {
    match e {
        BuildErrorView::Db(m) => "db: "@ + m,
        BuildErrorView::Pool(m) => "pool: "@ + m,
        BuildErrorView::Io(m) => "io: "@ + m,
        BuildErrorView::BuildFailed(m) => "build failed: "@ + m,
        BuildErrorView::DeployFailed(m) => "deploy failed: "@ + m,
        BuildErrorView::NotFound(m) => "not found: "@ + m,
    }
}

impl BuildError {
    /// The text by which the error is reported.
    pub fn to_string(&self) -> (r: String)
        ensures
            r@ == error_message(self@),
    {
        match self {
            BuildError::Db(m) => "db: ".to_owned().concat(m.as_str()),
            BuildError::Pool(m) => "pool: ".to_owned().concat(m.as_str()),
            BuildError::Io(m) => "io: ".to_owned().concat(m.as_str()),
            BuildError::BuildFailed(m) => "build failed: ".to_owned().concat(m.as_str()),
            BuildError::DeployFailed(m) => "deploy failed: ".to_owned().concat(m.as_str()),
            BuildError::NotFound(m) => "not found: ".to_owned().concat(m.as_str()),
        }
    }
}

/// The error for a build id that no record has: `not found: build <id>`.
pub fn build_not_found(id: &str) -> (e: BuildError)
    ensures
        e@ == BuildErrorView::NotFound("build "@ + id@),
{
    BuildError::NotFound("build ".to_owned().concat(id))
}

/// A build record as it is stored. The duration is held in nanoseconds.
pub struct BuildRecord {
    pub id: String,
    pub status: BuildStatus,
    pub commit_hash: String,
    pub test_count: Option<i64>,
    pub binary_hash: Option<String>,
    pub binary_size: Option<i64>,
    pub started_at: String,
    pub completed_at: Option<String>,
    pub error: Option<String>,
    pub duration_nanos: Option<u64>,
}

pub struct BuildRecordView {
    pub id: Seq<char>,
    pub status: BuildStatus,
    pub commit_hash: Seq<char>,
    pub test_count: Option<i64>,
    pub binary_hash: Option<Seq<char>>,
    pub binary_size: Option<i64>,
    pub started_at: Seq<char>,
    pub completed_at: Option<Seq<char>>,
    pub error: Option<Seq<char>>,
    pub duration_nanos: Option<u64>,
}

pub open spec fn opt_view(s: Option<String>) -> Option<Seq<char>> {
    match s {
        Some(t) => Some(t@),
        None => None,
    }
}

impl View for BuildRecord {
    type V = BuildRecordView;

    open spec fn view(&self) -> BuildRecordView {
        BuildRecordView {
            id: self.id@,
            status: self.status,
            commit_hash: self.commit_hash@,
            test_count: self.test_count,
            binary_hash: opt_view(self.binary_hash),
            binary_size: self.binary_size,
            started_at: self.started_at@,
            completed_at: opt_view(self.completed_at),
            error: opt_view(self.error),
            duration_nanos: self.duration_nanos,
        }
    }
}

/// The records among `rows` that were read whole, in order; a row that could
/// not be read is skipped.
pub open spec fn readable_rows(rows: Seq<Result<BuildRecord, BuildError>>) -> Seq<BuildRecord>
    decreases rows.len(),
{
    if rows.len() == 0 {
        Seq::<BuildRecord>::empty()
    } else {
        let prev = readable_rows(rows.drop_last());
        match rows.last() {
            Ok(r) => prev.push(r),
            Err(_) => prev,
        }
    }
}

/// The records among `rows` that were read whole, in order.
pub fn keep_readable_rows(rows: Vec<Result<BuildRecord, BuildError>>) -> (out: Vec<BuildRecord>)
    ensures
        out@ == readable_rows(rows@),
{
    let ghost all = rows@;
    let mut out: Vec<BuildRecord> = Vec::new();
    for row in it: rows
        invariant
            it.seq() == all,
            out@ == readable_rows(all.take(it.index() as int)),
    {
        proof {
            assert(all.take(it.index() + 1).drop_last() =~= all.take(it.index() as int));
        }
        match row {
            Ok(r) => {
                out.push(r);
            },
            Err(_) => {},
        }
    }
    assert(all.take(all.len() as int) =~= all);
    out
}

} // verus!
