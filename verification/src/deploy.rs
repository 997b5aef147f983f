//! Deploying a release binary over the running one, and rolling back to the
//! backup, as state machines. The caller performs each action (a file check,
//! a copy, a permission change, a `launchctl` call) and hands back what came
//! of it; the machine decides what comes next and how the operation ends.

use vstd::prelude::*;
use crate::paths::{backup_path, join_path, path_with_extension, release_binary_path, release_relative_path};
use crate::types::{BuildError, BuildErrorView};

verus! {

/// The label of the service that runs the daemon.
pub open spec fn service_label() -> Seq<char> {
    "com.convergio.daemon"@
}

/// A `launchctl` command on the daemon's service.
#[derive(Debug, Clone, Copy, PartialEq, Eq, Structural)]
pub enum ServiceCommand {
    Stop,
    Start,
}

impl ServiceCommand {
    /// The arguments given to `launchctl`.
    pub fn args(&self) -> (a: Vec<&'static str>)
        ensures
            a@.len() == 2,
            a@[0]@ == (match *self {
                ServiceCommand::Stop => "stop"@,
                ServiceCommand::Start => "start"@,
            }),
            a@[1]@ == service_label(),
    {
        match self {
            ServiceCommand::Stop => vec!["stop", "com.convergio.daemon"],
            ServiceCommand::Start => vec!["start", "com.convergio.daemon"],
        }
    }
}

/// Which operation a run performs.
#[derive(Debug, Clone, Copy, PartialEq, Eq, Structural)]
pub enum DeployKind {
    /// Install the release binary over the running one, after a backup.
    Deploy,
    /// Put the backup back over the running binary.
    Rollback,
}

/// Where an operation stands.
#[derive(Debug, Clone, Copy, PartialEq, Eq, Structural)]
pub enum DeployStage {
    CheckingSource,
    CheckingCurrent,
    BackingUp,
    Installing,
    Permitting,
    Stopping,
    Starting,
    Finished,
}

/// An operation in progress: the binary that is to be installed (`source`),
/// the running binary (`current`) and the backup path.
pub struct DeployRun {
    pub kind: DeployKind,
    pub stage: DeployStage,
    pub source: String,
    pub current: String,
    pub backup: String,
}

pub struct DeployRunView {
    pub kind: DeployKind,
    pub stage: DeployStage,
    pub source: Seq<char>,
    pub current: Seq<char>,
    pub backup: Seq<char>,
}

impl View for DeployRun {
    type V = DeployRunView;

    open spec fn view(&self) -> DeployRunView {
        DeployRunView {
            kind: self.kind,
            stage: self.stage,
            source: self.source@,
            current: self.current@,
            backup: self.backup@,
        }
    }
}

/// What came of the last action.
pub enum DeployEvent {
    /// The answer to whether a file exists.
    Exists(bool),
    /// A copy or permission change was done.
    Done,
    /// An action failed with an I/O error (with its message).
    IoFailed(String),
    /// `launchctl` ran to its end.
    CommandExited { success: bool, stderr: String },
}

pub enum DeployEventView {
    Exists(bool),
    Done,
    IoFailed(Seq<char>),
    CommandExited { success: bool, stderr: Seq<char> },
}

impl View for DeployEvent {
    type V = DeployEventView;

    open spec fn view(&self) -> DeployEventView {
        match self {
            DeployEvent::Exists(b) => DeployEventView::Exists(*b),
            DeployEvent::Done => DeployEventView::Done,
            DeployEvent::IoFailed(m) => DeployEventView::IoFailed(m@),
            DeployEvent::CommandExited { success, stderr } => DeployEventView::CommandExited {
                success: *success,
                stderr: stderr@,
            },
        }
    }
}

/// What the caller is to do next.
pub enum DeployAction {
    /// Find out whether the file at this path exists.
    CheckExists(String),
    /// Copy the file `from` over the file `to`.
    Copy { from: String, to: String },
    /// Give the file the mode `0o755`.
    MakeExecutable(String),
    /// Run `launchctl` on the service.
    Launchctl(ServiceCommand),
    /// The operation is over; on success it holds the backup path.
    Finish(Result<String, BuildError>),
    /// The event did not answer the last action; nothing changes.
    Idle,
}

pub enum DeployActionView {
    CheckExists(Seq<char>),
    Copy { from: Seq<char>, to: Seq<char> },
    MakeExecutable(Seq<char>),
    Launchctl(ServiceCommand),
    Finish(Result<Seq<char>, BuildErrorView>),
    Idle,
}

impl View for DeployAction {
    type V = DeployActionView;

    open spec fn view(&self) -> DeployActionView {
        match self {
            DeployAction::CheckExists(p) => DeployActionView::CheckExists(p@),
            DeployAction::Copy { from, to } => DeployActionView::Copy { from: from@, to: to@ },
            DeployAction::MakeExecutable(p) => DeployActionView::MakeExecutable(p@),
            DeployAction::Launchctl(c) => DeployActionView::Launchctl(*c),
            DeployAction::Finish(Ok(p)) => DeployActionView::Finish(Ok(p@)),
            DeployAction::Finish(Err(e)) => DeployActionView::Finish(Err(e@)),
            DeployAction::Idle => DeployActionView::Idle,
        }
    }
}

/// The message when the binary to install is missing.
pub open spec fn missing_source_message(kind: DeployKind) -> Seq<char> {
    match kind {
        DeployKind::Deploy => "release binary not found — run build first"@,
        DeployKind::Rollback => "no backup binary found"@,
    }
}

/// The end of an operation once the service has been restarted, or has
/// failed to restart with `err`: a deploy succeeds whatever the restart
/// gave, a rollback fails with the restart's error.
pub open spec fn after_restart(r: DeployRunView, err: Option<BuildErrorView>) -> DeployActionView {
    match err {
        None => DeployActionView::Finish(Ok(r.backup)),
        Some(e) => match r.kind {
            DeployKind::Deploy => DeployActionView::Finish(Ok(r.backup)),
            DeployKind::Rollback => DeployActionView::Finish(Err(e)),
        },
    }
}

pub open spec fn at(r: DeployRunView, stage: DeployStage) -> DeployRunView {
    DeployRunView { stage, ..r }
}

/// The copy that puts the source over the running binary.
pub open spec fn install_copy(r: DeployRunView) -> DeployActionView {
    DeployActionView::Copy { from: r.source, to: r.current }
}

/// The step of a deploy or rollback: from an operation and what came of its
/// last action, the operation after it and the next action.
pub open spec fn deploy_next(r: DeployRunView, e: DeployEventView) -> (DeployRunView, DeployActionView) {
    let stay = (r, DeployActionView::Idle);
    let done = at(r, DeployStage::Finished);
    match r.stage {
        DeployStage::CheckingSource => match e {
            DeployEventView::Exists(found) => if !found {
                (
                    done,
                    DeployActionView::Finish(
                        Err(BuildErrorView::DeployFailed(missing_source_message(r.kind))),
                    ),
                )
            } else if r.kind == DeployKind::Deploy {
                (at(r, DeployStage::CheckingCurrent), DeployActionView::CheckExists(r.current))
            } else {
                (at(r, DeployStage::Installing), install_copy(r))
            },
            _ => stay,
        },
        DeployStage::CheckingCurrent => match e {
            DeployEventView::Exists(found) => if found {
                (
                    at(r, DeployStage::BackingUp),
                    DeployActionView::Copy { from: r.current, to: r.backup },
                )
            } else {
                (at(r, DeployStage::Installing), install_copy(r))
            },
            _ => stay,
        },
        DeployStage::BackingUp => match e {
            DeployEventView::Done => (at(r, DeployStage::Installing), install_copy(r)),
            DeployEventView::IoFailed(m) => (
                done,
                DeployActionView::Finish(Err(BuildErrorView::Io(m))),
            ),
            _ => stay,
        },
        DeployStage::Installing => match e {
            DeployEventView::Done => (
                at(r, DeployStage::Permitting),
                DeployActionView::MakeExecutable(r.current),
            ),
            DeployEventView::IoFailed(m) => (
                done,
                DeployActionView::Finish(Err(BuildErrorView::Io(m))),
            ),
            _ => stay,
        },
        DeployStage::Permitting => match e {
            DeployEventView::Done => (
                at(r, DeployStage::Stopping),
                DeployActionView::Launchctl(ServiceCommand::Stop),
            ),
            DeployEventView::IoFailed(m) => (
                done,
                DeployActionView::Finish(Err(BuildErrorView::Io(m))),
            ),
            _ => stay,
        },
        DeployStage::Stopping => match e {
            DeployEventView::CommandExited { .. } => (
                at(r, DeployStage::Starting),
                DeployActionView::Launchctl(ServiceCommand::Start),
            ),
            DeployEventView::IoFailed(m) => (done, after_restart(r, Some(BuildErrorView::Io(m)))),
            _ => stay,
        },
        DeployStage::Starting => match e {
            DeployEventView::CommandExited { success, stderr } => if success {
                (done, after_restart(r, None))
            } else {
                (
                    done,
                    after_restart(
                        r,
                        Some(BuildErrorView::DeployFailed("launchctl start: "@ + stderr)),
                    ),
                )
            },
            DeployEventView::IoFailed(m) => (done, after_restart(r, Some(BuildErrorView::Io(m)))),
            _ => stay,
        },
        DeployStage::Finished => stay,
    }
}

/// A deploy from the workspace at `workspace` over the running binary at
/// `current`, at its start.
pub open spec fn deploy_start(workspace: Seq<char>, current: Seq<char>) -> DeployRunView {
    DeployRunView {
        kind: DeployKind::Deploy,
        stage: DeployStage::CheckingSource,
        source: join_path(workspace, release_relative_path()),
        current,
        backup: path_with_extension(current, "bak"@),
    }
}

/// A rollback of the running binary at `current` to its backup, at its start.
pub open spec fn rollback_start(current: Seq<char>) -> DeployRunView {
    DeployRunView {
        kind: DeployKind::Rollback,
        stage: DeployStage::CheckingSource,
        source: path_with_extension(current, "bak"@),
        current,
        backup: path_with_extension(current, "bak"@),
    }
}

/// The operation and the actions issued after the events `evs`, from `start`;
/// the first action is the check of the source.
pub open spec fn deploy_trace(start: DeployRunView, evs: Seq<DeployEventView>) -> (
    DeployRunView,
    Seq<DeployActionView>,
)
    decreases evs.len(),
{
    if evs.len() == 0 {
        (start, seq![DeployActionView::CheckExists(start.source)])
    } else {
        let (r, acts) = deploy_trace(start, evs.drop_last());
        let (r2, a) = deploy_next(r, evs.last());
        (r2, acts.push(a))
    }
}

/// Among `evs`, one answered the check of the source with: it exists.
pub open spec fn source_found(start: DeployRunView, evs: Seq<DeployEventView>) -> bool {
    exists|i: int|
        0 <= i < evs.len() && (#[trigger] deploy_trace(start, evs.take(i))).0.stage
            == DeployStage::CheckingSource && evs[i] == DeployEventView::Exists(true)
}

pub open spec fn past_checks(stage: DeployStage) -> bool {
    stage != DeployStage::CheckingSource && stage != DeployStage::Finished
}

pub open spec fn is_copy(a: DeployActionView) -> bool {
    a is Copy
}

proof fn lemma_take_push(evs: Seq<DeployEventView>, e: DeployEventView, i: int)
    requires
        0 <= i <= evs.len(),
    ensures
        evs.push(e).take(i) == evs.take(i),
{
    assert(evs.push(e).take(i) =~= evs.take(i));
}

proof fn lemma_source_found_invariant(start: DeployRunView, evs: Seq<DeployEventView>)
    requires
        start.stage == DeployStage::CheckingSource,
    ensures
        past_checks(deploy_trace(start, evs).0.stage) ==> source_found(start, evs),
        (exists|k: int|
            0 <= k < deploy_trace(start, evs).1.len() && is_copy(
                #[trigger] deploy_trace(start, evs).1[k],
            )) ==> source_found(start, evs),
    decreases evs.len(),
{
    if evs.len() == 0 {
        let acts = deploy_trace(start, evs).1;
        assert(acts =~= seq![DeployActionView::CheckExists(start.source)]);
        assert forall|k: int| 0 <= k < acts.len() implies !is_copy(#[trigger] acts[k]) by {}
    } else {
        let prev = evs.drop_last();
        let e = evs.last();
        lemma_source_found_invariant(start, prev);
        let (r, acts) = deploy_trace(start, prev);
        let (r2, a) = deploy_next(r, e);
        assert(evs =~= prev.push(e));
        assert(evs.take(prev.len() as int) =~= prev);
        if source_found(start, prev) {
            let i = choose|i: int|
                0 <= i < prev.len() && (#[trigger] deploy_trace(start, prev.take(i))).0.stage
                    == DeployStage::CheckingSource && prev[i] == DeployEventView::Exists(true);
            lemma_take_push(prev, e, i);
            assert(deploy_trace(start, evs.take(i)).0.stage == DeployStage::CheckingSource);
            assert(source_found(start, evs));
        }
        if r.stage == DeployStage::CheckingSource && e == DeployEventView::Exists(true) {
            let i = prev.len() as int;
            assert(deploy_trace(start, evs.take(i)).0.stage == DeployStage::CheckingSource);
            assert(source_found(start, evs));
        }
        let acts2 = acts.push(a);
        if exists|k: int| 0 <= k < acts2.len() && is_copy(#[trigger] acts2[k]) {
            let k = choose|k: int| 0 <= k < acts2.len() && is_copy(#[trigger] acts2[k]);
            if k < acts.len() {
                assert(acts2[k] == acts[k]);
            } else {
                assert(is_copy(a));
            }
        }
    }
}

/// The running binary is overwritten only after the binary that replaces it
/// was found: in any trace, a copy is issued only where one event answered
/// the check of the source with `exists`.
pub proof fn lemma_copy_needs_source(start: DeployRunView, evs: Seq<DeployEventView>, k: int)
    requires
        start.stage == DeployStage::CheckingSource,
        0 <= k < deploy_trace(start, evs).1.len(),
        deploy_trace(start, evs).1[k] is Copy,
    ensures
        source_found(start, evs),
{
    lemma_source_found_invariant(start, evs);
    assert(is_copy(deploy_trace(start, evs).1[k]));
}

/// A deploy moves on to putting the release binary over the running one only
/// right after the running binary was found missing, or right after its
/// backup was made; the action it then issues is that copy.
pub proof fn lemma_install_follows_backup(r: DeployRunView, e: DeployEventView)
    requires
        r.kind == DeployKind::Deploy,
        r.stage != DeployStage::Installing,
        deploy_next(r, e).0.stage == DeployStage::Installing,
    ensures
        (r.stage == DeployStage::CheckingCurrent && e == DeployEventView::Exists(false)) || (
        r.stage == DeployStage::BackingUp && e == DeployEventView::Done),
        deploy_next(r, e).1 == install_copy(r),
{
}

/// A rollback undoes the copy by which a deploy backed up the running binary:
/// the deploy copies the running binary to the backup path, the rollback
/// copies that same path back over the running binary.
pub proof fn lemma_rollback_reverses_backup(workspace: Seq<char>, current: Seq<char>)
    ensures
        ({
            let d = at(deploy_start(workspace, current), DeployStage::CheckingCurrent);
            let rb = rollback_start(current);
            &&& deploy_next(d, DeployEventView::Exists(true)).1 == DeployActionView::Copy {
                from: current,
                to: rb.source,
            }
            &&& deploy_next(rb, DeployEventView::Exists(true)).1 == DeployActionView::Copy {
                from: rb.source,
                to: current,
            }
        }),
{
}

/// Whatever the start of the service gives, a deploy that has installed the
/// binary ends with success and the backup path; a rollback ends with the
/// error of a start that failed or could not be run.
pub proof fn lemma_restart_outcome(r: DeployRunView, e: DeployEventView)
    requires
        r.stage == DeployStage::Starting,
        e is CommandExited || e is IoFailed,
    ensures
        r.kind == DeployKind::Deploy ==> deploy_next(r, e).1 == DeployActionView::Finish(
            Ok(r.backup),
        ),
        (r.kind == DeployKind::Rollback && e is CommandExited && !e->success) ==> deploy_next(
            r,
            e,
        ).1 == DeployActionView::Finish(
            Err(BuildErrorView::DeployFailed("launchctl start: "@ + e->stderr)),
        ),
        (r.kind == DeployKind::Rollback && e is IoFailed) ==> deploy_next(r, e).1
            == DeployActionView::Finish(Err(BuildErrorView::Io(e->IoFailed_0))),
{
}

/// The copies among `acts`, as (from, to), in order.
pub open spec fn copies(acts: Seq<DeployActionView>) -> Seq<(Seq<char>, Seq<char>)>
    decreases acts.len(),
{
    if acts.len() == 0 {
        Seq::<(Seq<char>, Seq<char>)>::empty()
    } else {
        let p = copies(acts.drop_last());
        match acts.last() {
            DeployActionView::Copy { from, to } => p.push((from, to)),
            _ => p,
        }
    }
}

/// The files, by path, after the copies `cs` were made from `fs`: a copy of a
/// file that exists puts its bytes at the destination.
pub open spec fn apply_copies(fs: Map<Seq<char>, Seq<u8>>, cs: Seq<(Seq<char>, Seq<char>)>) -> Map<Seq<char>, Seq<u8>>
    decreases cs.len(),
{
    if cs.len() == 0 {
        fs
    } else {
        let f = apply_copies(fs, cs.drop_last());
        let (from, to) = cs.last();
        if f.contains_key(from) {
            f.insert(to, f[from])
        } else {
            f
        }
    }
}

pub open spec fn copies_invariant(start: DeployRunView, r: DeployRunView, acts: Seq<DeployActionView>) -> bool {
    let cs = copies(acts);
    let backup_copy = (start.current, start.backup);
    let install = (start.source, start.current);
    let deploying = start.kind == DeployKind::Deploy;
    &&& r.kind == start.kind && r.source == start.source && r.current == start.current
        && r.backup == start.backup
    &&& match r.stage {
        DeployStage::CheckingSource => cs.len() == 0,
        DeployStage::CheckingCurrent => cs.len() == 0 && deploying,
        DeployStage::BackingUp => cs == seq![backup_copy] && deploying,
        DeployStage::Finished => {
            &&& cs.len() <= 2
            &&& cs.len() == 2 ==> deploying && cs == seq![backup_copy, install]
            &&& cs.len() == 1 ==> cs == seq![install] || (deploying && cs == seq![backup_copy])
        },
        _ => cs == seq![install] || (deploying && cs == seq![backup_copy, install]),
    }
}

proof fn lemma_copies_invariant(start: DeployRunView, evs: Seq<DeployEventView>)
    requires
        start.stage == DeployStage::CheckingSource,
    ensures
        copies_invariant(start, deploy_trace(start, evs).0, deploy_trace(start, evs).1),
    decreases evs.len(),
{
    if evs.len() == 0 {
        let acts = seq![DeployActionView::CheckExists(start.source)];
        assert(acts.drop_last() =~= Seq::<DeployActionView>::empty());
        assert(copies(acts.drop_last()) =~= Seq::<(Seq<char>, Seq<char>)>::empty());
    } else {
        lemma_copies_invariant(start, evs.drop_last());
        let (r, acts) = deploy_trace(start, evs.drop_last());
        let (r2, a) = deploy_next(r, evs.last());
        assert(acts.push(a).drop_last() =~= acts);
        let cs = copies(acts);
        let backup_copy = (start.current, start.backup);
        let install = (start.source, start.current);
        assert(Seq::<(Seq<char>, Seq<char>)>::empty().push(backup_copy) =~= seq![backup_copy]);
        assert(Seq::<(Seq<char>, Seq<char>)>::empty().push(install) =~= seq![install]);
        assert(seq![backup_copy].push(install) =~= seq![backup_copy, install]);
        if cs.len() == 0 {
            assert(cs =~= Seq::<(Seq<char>, Seq<char>)>::empty());
        }
    }
}

/// A rollback after a deploy puts back the bytes the running binary had before
/// the deploy: where the deploy backed the running binary up and installed the
/// new one, and the rollback then copied the backup over the running binary,
/// the running binary holds its old bytes again (as long as the backup path is
/// neither the running binary nor the new release binary, and nothing else
/// wrote these files).
pub proof fn lemma_rollback_restores_binary(
    workspace: Seq<char>,
    current: Seq<char>,
    deploy_events: Seq<DeployEventView>,
    rollback_events: Seq<DeployEventView>,
    fs: Map<Seq<char>, Seq<u8>>,
)
    requires
        copies(deploy_trace(deploy_start(workspace, current), deploy_events).1).len() == 2,
        copies(deploy_trace(rollback_start(current), rollback_events).1).len() >= 1,
        fs.contains_key(current),
        path_with_extension(current, "bak"@) != current,
        join_path(workspace, release_relative_path()) != path_with_extension(current, "bak"@),
    ensures
        apply_copies(
            apply_copies(fs, copies(deploy_trace(deploy_start(workspace, current), deploy_events).1)),
            copies(deploy_trace(rollback_start(current), rollback_events).1),
        )[current] == fs[current],
{
    let ds = deploy_start(workspace, current);
    let rs = rollback_start(current);
    lemma_copies_invariant(ds, deploy_events);
    lemma_copies_invariant(rs, rollback_events);
    let dc = copies(deploy_trace(ds, deploy_events).1);
    let rc = copies(deploy_trace(rs, rollback_events).1);
    let b = ds.backup;
    let s = ds.source;
    assert(dc == seq![(current, b), (s, current)]);
    assert(rc == seq![(b, current)]);
    assert(dc.drop_last() =~= seq![(current, b)]);
    assert(dc.drop_last().drop_last() =~= Seq::<(Seq<char>, Seq<char>)>::empty());
    assert(apply_copies(fs, dc.drop_last().drop_last()) == fs);
    assert(dc.drop_last().last() == (current, b));
    let f1 = apply_copies(fs, dc.drop_last());
    assert(f1 == fs.insert(b, fs[current]));
    let f2 = apply_copies(fs, dc);
    assert(f2[b] == fs[current]);
    assert(f2.contains_key(b));
    assert(rc.drop_last() =~= Seq::<(Seq<char>, Seq<char>)>::empty());
    assert(apply_copies(f2, rc.drop_last()) == f2);
    assert(rc.last() == (b, current));
    assert(apply_copies(f2, rc) == f2.insert(current, f2[b]));
}

/// Once the service was asked to stop, it is always asked to start again,
/// whatever the stop gave: a deploy or rollback never ends with the service
/// left stopped after a `launchctl stop` that ran.
pub proof fn lemma_stop_is_followed_by_start(r: DeployRunView, success: bool, stderr: Seq<char>)
    requires
        r.stage == DeployStage::Stopping,
    ensures
        deploy_next(r, DeployEventView::CommandExited { success, stderr }) == (
            DeployRunView { stage: DeployStage::Starting, ..r },
            DeployActionView::Launchctl(ServiceCommand::Start),
        ),
{
}

/// A `launchctl start` that succeeds ends a deploy and a rollback alike with
/// success and the backup path.
pub proof fn lemma_started_service_succeeds(r: DeployRunView, stderr: Seq<char>)
    requires
        r.stage == DeployStage::Starting,
    ensures
        deploy_next(r, DeployEventView::CommandExited { success: true, stderr }) == (
            DeployRunView { stage: DeployStage::Finished, ..r },
            DeployActionView::Finish(Ok(r.backup)),
        ),
{
}

impl DeployRun {
    /// A deploy of the release binary of `workspace` over the running binary
    /// at `current`, and its first action: check that the release binary
    /// exists.
    pub fn deploy(workspace: &str, current: &str) -> (r: (DeployRun, DeployAction))
        ensures
            r.0@ == deploy_start(workspace@, current@),
            r.1@ == DeployActionView::CheckExists(r.0@.source),
    {
        let source = release_binary_path(workspace);
        let backup = backup_path(current);
        let action = DeployAction::CheckExists(source.clone());
        (
            DeployRun {
                kind: DeployKind::Deploy,
                stage: DeployStage::CheckingSource,
                source,
                current: current.to_owned(),
                backup,
            },
            action,
        )
    }

    /// A rollback of the running binary at `current` to its backup, and its
    /// first action: check that the backup exists.
    pub fn rollback(current: &str) -> (r: (DeployRun, DeployAction))
        ensures
            r.0@ == rollback_start(current@),
            r.1@ == DeployActionView::CheckExists(r.0@.source),
    {
        let backup = backup_path(current);
        let action = DeployAction::CheckExists(backup.clone());
        (
            DeployRun {
                kind: DeployKind::Rollback,
                stage: DeployStage::CheckingSource,
                source: backup.clone(),
                current: current.to_owned(),
                backup,
            },
            action,
        )
    }

    fn moved(self, stage: DeployStage) -> (r: DeployRun)
        ensures
            r@ == at(self@, stage),
    {
        DeployRun { stage, ..self }
    }

    fn install(&self) -> (a: DeployAction)
        ensures
            a@ == install_copy(self@),
    {
        DeployAction::Copy { from: self.source.clone(), to: self.current.clone() }
    }

    fn end_after_restart(self, err: Option<BuildError>) -> (r: (DeployRun, DeployAction))
        ensures
            r.0@ == at(self@, DeployStage::Finished),
            r.1@ == after_restart(
                self@,
                match err {
                    Some(e) => Some(e@),
                    None => None,
                },
            ),
    {
        let backup = self.backup.clone();
        let kind = self.kind;
        let run = self.moved(DeployStage::Finished);
        match err {
            None => (run, DeployAction::Finish(Ok(backup))),
            Some(e) => match kind {
                DeployKind::Deploy => (run, DeployAction::Finish(Ok(backup))),
                DeployKind::Rollback => (run, DeployAction::Finish(Err(e))),
            },
        }
    }

    /// The operation after `event`, and the next action; see `deploy_next`.
    pub fn step(self, event: DeployEvent) -> (r: (DeployRun, DeployAction))
        ensures
            (r.0@, r.1@) == deploy_next(self@, event@),
    {
        match self.stage {
            DeployStage::CheckingSource => match event {
                DeployEvent::Exists(found) => {
                    if !found {
                        let msg = match self.kind {
                            DeployKind::Deploy => "release binary not found — run build first",
                            DeployKind::Rollback => "no backup binary found",
                        };
                        (
                            self.moved(DeployStage::Finished),
                            DeployAction::Finish(Err(BuildError::DeployFailed(msg.to_owned()))),
                        )
                    } else if self.kind == DeployKind::Deploy {
                        let a = DeployAction::CheckExists(self.current.clone());
                        (self.moved(DeployStage::CheckingCurrent), a)
                    } else {
                        let a = self.install();
                        (self.moved(DeployStage::Installing), a)
                    }
                },
                _ => (self, DeployAction::Idle),
            },
            DeployStage::CheckingCurrent => match event {
                DeployEvent::Exists(found) => {
                    if found {
                        let a = DeployAction::Copy {
                            from: self.current.clone(),
                            to: self.backup.clone(),
                        };
                        (self.moved(DeployStage::BackingUp), a)
                    } else {
                        let a = self.install();
                        (self.moved(DeployStage::Installing), a)
                    }
                },
                _ => (self, DeployAction::Idle),
            },
            DeployStage::BackingUp => match event {
                DeployEvent::Done => {
                    let a = self.install();
                    (self.moved(DeployStage::Installing), a)
                },
                DeployEvent::IoFailed(m) => (
                    self.moved(DeployStage::Finished),
                    DeployAction::Finish(Err(BuildError::Io(m))),
                ),
                _ => (self, DeployAction::Idle),
            },
            DeployStage::Installing => match event {
                DeployEvent::Done => {
                    let a = DeployAction::MakeExecutable(self.current.clone());
                    (self.moved(DeployStage::Permitting), a)
                },
                DeployEvent::IoFailed(m) => (
                    self.moved(DeployStage::Finished),
                    DeployAction::Finish(Err(BuildError::Io(m))),
                ),
                _ => (self, DeployAction::Idle),
            },
            DeployStage::Permitting => match event {
                DeployEvent::Done => (
                    self.moved(DeployStage::Stopping),
                    DeployAction::Launchctl(ServiceCommand::Stop),
                ),
                DeployEvent::IoFailed(m) => (
                    self.moved(DeployStage::Finished),
                    DeployAction::Finish(Err(BuildError::Io(m))),
                ),
                _ => (self, DeployAction::Idle),
            },
            DeployStage::Stopping => match event {
                DeployEvent::CommandExited { .. } => (
                    self.moved(DeployStage::Starting),
                    DeployAction::Launchctl(ServiceCommand::Start),
                ),
                DeployEvent::IoFailed(m) => self.end_after_restart(Some(BuildError::Io(m))),
                _ => (self, DeployAction::Idle),
            },
            DeployStage::Starting => match event {
                DeployEvent::CommandExited { success, stderr } => {
                    if success {
                        self.end_after_restart(None)
                    } else {
                        let e = BuildError::DeployFailed(
                            "launchctl start: ".to_owned().concat(stderr.as_str()),
                        );
                        self.end_after_restart(Some(e))
                    }
                },
                DeployEvent::IoFailed(m) => self.end_after_restart(Some(BuildError::Io(m))),
                _ => (self, DeployAction::Idle),
            },
            DeployStage::Finished => (self, DeployAction::Idle),
        }
    }
}

} // verus!
