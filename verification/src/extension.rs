//! What the self-build module tells the daemon about itself: its manifest,
//! its database schema, its health and its metrics.

use vstd::prelude::*;
use crate::status::BuildStatus;

verus! {

/// The kind of module.
#[derive(Debug, Clone, Copy, PartialEq, Eq, Structural)]
pub enum ModuleKind {
    Platform,
}

/// A capability the module provides.
pub struct Capability {
    pub name: &'static str,
    pub version: &'static str,
    pub description: &'static str,
}

/// The module's manifest.
pub struct Manifest {
    pub id: &'static str,
    pub description: &'static str,
    pub version: String,
    pub kind: ModuleKind,
    pub provides: Vec<Capability>,
    pub requires: Vec<&'static str>,
    pub agent_tools: Vec<&'static str>,
    pub required_roles: Vec<&'static str>,
}

pub struct CapabilityView {
    pub name: Seq<char>,
    pub version: Seq<char>,
    pub description: Seq<char>,
}

pub open spec fn capability_view(c: Capability) -> CapabilityView {
    CapabilityView { name: c.name@, version: c.version@, description: c.description@ }
}

/// The capabilities of the module: building the daemon and deploying it.
pub open spec fn capability_table() -> Seq<CapabilityView> {
    seq![
        CapabilityView {
            name: "self-build"@,
            version: "1.0"@,
            description: "Build the daemon from source (check, test, release)"@,
        },
        CapabilityView {
            name: "self-deploy"@,
            version: "1.0"@,
            description: "Deploy new binary with launchd restart and rollback"@,
        },
    ]
}

/// The manifest of the self-build module; `version` is the version of the
/// package.
pub fn build_manifest(version: &str) -> (m: Manifest)
    ensures
        m.id@ == "convergio-build"@,
        m.description@ == "Self-build: the daemon builds, tests, and deploys itself"@,
        m.version@ == version@,
        m.kind == ModuleKind::Platform,
        m.provides@.map_values(|c: Capability| capability_view(c)) == capability_table(),
        m.requires@.len() == 0,
        m.agent_tools@.len() == 0,
        m.required_roles@.map_values(|r: &str| r@) == seq!["orchestrator"@, "all"@],
{
    let m = Manifest {
        id: "convergio-build",
        description: "Self-build: the daemon builds, tests, and deploys itself",
        version: version.to_owned(),
        kind: ModuleKind::Platform,
        provides: vec![
            Capability {
                name: "self-build",
                version: "1.0",
                description: "Build the daemon from source (check, test, release)",
            },
            Capability {
                name: "self-deploy",
                version: "1.0",
                description: "Deploy new binary with launchd restart and rollback",
            },
        ],
        requires: Vec::new(),
        agent_tools: Vec::new(),
        required_roles: vec!["orchestrator", "all"],
    };
    assert(m.provides@.map_values(|c: Capability| capability_view(c)) =~= capability_table());
    assert(m.required_roles@.map_values(|r: &str| r@) =~= seq!["orchestrator"@, "all"@]);
    m
}

/// A step of the database schema.
pub struct Migration {
    pub version: u32,
    pub description: &'static str,
    pub up: &'static str,
}

/// The statements that create the build history table and its indexes.
pub open spec fn schema_sql() -> Seq<char> {
    "\
CREATE TABLE IF NOT EXISTS build_history (
    id            TEXT PRIMARY KEY,
    status        TEXT NOT NULL DEFAULT 'queued',
    commit_hash   TEXT NOT NULL,
    test_count    INTEGER,
    binary_hash   TEXT,
    binary_size   INTEGER,
    started_at    TEXT NOT NULL DEFAULT (datetime('now')),
    completed_at  TEXT,
    error         TEXT,
    duration_secs REAL
);
CREATE INDEX IF NOT EXISTS idx_build_history_date
    ON build_history(started_at);
CREATE INDEX IF NOT EXISTS idx_build_history_status
    ON build_history(status);"@
}

/// The migrations of the module, numbered from 1 in order.
pub fn migrations() -> (ms: Vec<Migration>)
    ensures
        ms@.len() == 1,
        ms@[0].version == 1,
        ms@[0].description@ == "build history tracking table"@,
        ms@[0].up@ == schema_sql(),
        forall|i: int| 0 <= i < ms@.len() ==> #[trigger] ms@[i].version == i + 1,
{
    vec![
        Migration {
            version: 1,
            description: "build history tracking table",
            up: "\
CREATE TABLE IF NOT EXISTS build_history (
    id            TEXT PRIMARY KEY,
    status        TEXT NOT NULL DEFAULT 'queued',
    commit_hash   TEXT NOT NULL,
    test_count    INTEGER,
    binary_hash   TEXT,
    binary_size   INTEGER,
    started_at    TEXT NOT NULL DEFAULT (datetime('now')),
    completed_at  TEXT,
    error         TEXT,
    duration_secs REAL
);
CREATE INDEX IF NOT EXISTS idx_build_history_date
    ON build_history(started_at);
CREATE INDEX IF NOT EXISTS idx_build_history_status
    ON build_history(status);",
        },
    ]
}

/// The health of the module.
pub enum Health {
    Healthy,
    Degraded { reason: String },
    Down { reason: String },
}

/// The health from what the database gave: `Down` with the pool's error where
/// no connection could be had, `Healthy` where the build history table could be
/// counted, `Degraded` where it could not.
pub fn health_from(pool: Result<(), String>, history_readable: bool) -> (h: Health)
    ensures
        pool matches Err(e) ==> (h matches Health::Down { reason } && reason@ == "pool error: "@
            + e@),
        (pool is Ok && history_readable) ==> h is Healthy,
        (pool is Ok && !history_readable) ==> (h matches Health::Degraded { reason } && reason@
            == "build_history table inaccessible"@),
{
    match pool {
        Err(e) => Health::Down { reason: "pool error: ".to_owned().concat(e.as_str()) },
        Ok(()) => if history_readable {
            Health::Healthy
        } else {
            Health::Degraded { reason: "build_history table inaccessible".to_owned() }
        },
    }
}

/// A metric: a name and a count.
pub struct Metric {
    pub name: &'static str,
    pub value: i64,
}

/// The metrics for the counts that could be read, in this order: all builds
/// (`build.total`), those that succeeded (`build.succeeded`), those deployed
/// (`build.deployed`).
pub open spec fn metrics_spec(total: Option<i64>, succeeded: Option<i64>, deployed: Option<i64>) -> Seq<(Seq<char>, i64)> {
    let a = match total {
        Some(n) => seq![("build.total"@, n)],
        None => Seq::<(Seq<char>, i64)>::empty(),
    };
    let b = match succeeded {
        Some(n) => seq![("build.succeeded"@, n)],
        None => Seq::<(Seq<char>, i64)>::empty(),
    };
    let c = match deployed {
        Some(n) => seq![("build.deployed"@, n)],
        None => Seq::<(Seq<char>, i64)>::empty(),
    };
    a + b + c
}

/// The metrics from the counts that the database gave; a count that could
/// not be read gives no metric.
pub fn build_metrics(total: Option<i64>, succeeded: Option<i64>, deployed: Option<i64>) -> (ms: Vec<Metric>)
    ensures
        ms@.map_values(|m: Metric| (m.name@, m.value)) == metrics_spec(total, succeeded, deployed),
{
    let mut ms: Vec<Metric> = Vec::new();
    if let Some(n) = total {
        ms.push(Metric { name: "build.total", value: n });
    }
    let ghost a = ms@.map_values(|m: Metric| (m.name@, m.value));
    if let Some(n) = succeeded {
        ms.push(Metric { name: "build.succeeded", value: n });
    }
    let ghost b = ms@.map_values(|m: Metric| (m.name@, m.value));
    if let Some(n) = deployed {
        ms.push(Metric { name: "build.deployed", value: n });
    }
    assert(ms@.map_values(|m: Metric| (m.name@, m.value)) =~= metrics_spec(
        total,
        succeeded,
        deployed,
    ));
    ms
}

/// The metrics of the module: none where no connection to the database could
/// be had (`pool` holds its error); otherwise one for each count that could
/// be read, as `build_metrics` gives them.
pub fn module_metrics(
    pool: Result<(), String>,
    total: Option<i64>,
    succeeded: Option<i64>,
    deployed: Option<i64>,
) -> (ms: Vec<Metric>)
    ensures
        pool is Err ==> ms@.len() == 0,
        pool is Ok ==> ms@.map_values(|m: Metric| (m.name@, m.value)) == metrics_spec(
            total,
            succeeded,
            deployed,
        ),
{
    match pool {
        Err(_) => Vec::new(),
        Ok(()) => build_metrics(total, succeeded, deployed),
    }
}

/// The number of rows in status `s`.
pub open spec fn status_count(rows: Seq<BuildStatus>, s: BuildStatus) -> nat
    decreases rows.len(),
{
    if rows.len() == 0 {
        0
    } else {
        status_count(rows.drop_last(), s) + if rows.last() == s {
            1nat
        } else {
            0nat
        }
    }
}

proof fn lemma_two_counts(rows: Seq<BuildStatus>)
    ensures
        status_count(rows, BuildStatus::Succeeded) + status_count(rows, BuildStatus::Deployed)
            <= rows.len(),
    decreases rows.len(),
{
    if rows.len() > 0 {
        lemma_two_counts(rows.drop_last());
    }
}

/// For a table whose rows have the statuses `rows`, where the three counts
/// are read, the metrics are, in order, the number of rows, the number that
/// succeeded and the number deployed; the two last never add up to more than
/// the first.
pub proof fn lemma_metrics_of_table(rows: Seq<BuildStatus>)
    requires
        rows.len() <= i64::MAX,
    ensures
        ({
            let ns = status_count(rows, BuildStatus::Succeeded);
            let nd = status_count(rows, BuildStatus::Deployed);
            let ms = metrics_spec(
                Some(rows.len() as i64),
                Some(ns as i64),
                Some(nd as i64),
            );
            &&& ms == seq![
                ("build.total"@, rows.len() as i64),
                ("build.succeeded"@, ns as i64),
                ("build.deployed"@, nd as i64),
            ]
            &&& ms[1].1 + ms[2].1 <= ms[0].1
        }),
{
    lemma_two_counts(rows);
    let ns = status_count(rows, BuildStatus::Succeeded);
    let nd = status_count(rows, BuildStatus::Deployed);
    assert(metrics_spec(Some(rows.len() as i64), Some(ns as i64), Some(nd as i64)) =~= seq![
        ("build.total"@, rows.len() as i64),
        ("build.succeeded"@, ns as i64),
        ("build.deployed"@, nd as i64),
    ]);
}

} // verus!
