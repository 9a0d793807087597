//! The export traversal as a state machine: buckets outer, objects
//! inner, strictly sequential. The machine decides; the driver performs
//! the network and filesystem work and feeds each outcome back as an
//! event. Every remote failure and every directory-creation failure is
//! fatal; only the final write of fetched bytes is recoverable.

use vstd::prelude::*;
use vstd::pervasive::unreached;

use crate::errors::ErrorKind;
use crate::errors::ExportError;
use crate::paths::dir_prefix;
use crate::paths::join_path;
use crate::paths::joined;
use crate::paths::lemma_joined_has_parent;
use crate::paths::parent_dir;

verus! {

/// Where the traversal stands: which answer from the driver it waits
/// for, or how the run ended.
#[derive(Clone, Copy, Debug, PartialEq, Eq, Structural)]
pub enum Phase {
    /// The bucket listing was requested and not yet answered.
    AwaitingBuckets,
    /// The object listing of the current bucket was requested.
    AwaitingObjects,
    /// Creation of the current target's parent directory was requested.
    AwaitingDirs,
    /// The current object's bytes were requested.
    AwaitingData,
    /// The write of the current object's bytes was requested.
    AwaitingWrite,
    /// Every bucket was processed; the run succeeded.
    Finished,
    /// A fatal failure ended the run early.
    Aborted,
}

/// The mathematical state of a run: the destination root, the path
/// separator, the bucket names listed so far with the position of the
/// current bucket, the object keys of the current bucket with the
/// position of the current object, and the phase.
pub struct RunModel {
    pub root: Seq<char>,
    pub sep: char,
    pub buckets: Seq<Seq<char>>,
    pub bucket_idx: int,
    pub objects: Seq<Seq<char>>,
    pub object_idx: int,
    pub phase: Phase,
}

/// The outcome of the last action, as the machine models it.
pub enum EventModel {
    BucketsListed(Seq<Seq<char>>),
    BucketListingFailed(Seq<char>),
    ObjectsListed(Seq<Seq<char>>),
    ObjectListingFailed(Seq<char>),
    DirsCreated,
    DirsFailed(Seq<char>),
    DataFetched(Seq<u8>),
    FetchFailed(Seq<char>),
    Written,
    WriteFailed(Seq<char>),
}

/// What the machine asks the driver to do next, as the machine models it.
pub enum ActionModel {
    ListBuckets,
    ListObjects(Seq<char>),
    CreateDirs(Seq<char>),
    Fetch(Seq<char>, Seq<char>),
    Write(Seq<char>, Seq<u8>),
    Finish,
    Abort(ErrorKind, Seq<char>),
}

/// The bucket the traversal currently stands on.
pub open spec fn cur_bucket(m: RunModel) -> Seq<char> {
    m.buckets[m.bucket_idx]
}

/// The object key the traversal currently stands on.
pub open spec fn cur_object(m: RunModel) -> Seq<char> {
    m.objects[m.object_idx]
}

/// The directory of the current bucket: `root + sep + bucket`.
pub open spec fn bucket_dir_of(m: RunModel) -> Seq<char> {
    joined(m.root, m.sep, cur_bucket(m))
}

/// The destination path of the current object:
/// `root + sep + bucket + sep + key`, the key's own separators kept.
pub open spec fn target_path_of(m: RunModel) -> Seq<char> {
    joined(bucket_dir_of(m), m.sep, cur_object(m))
}

/// The two positions stay within their listings.
pub open spec fn idx_bounds(m: RunModel) -> bool {
    &&& 0 <= m.bucket_idx <= m.buckets.len()
    &&& 0 <= m.object_idx <= m.objects.len()
}

/// Well-formedness of a run: positions in bounds, and whenever the
/// machine works on a bucket or an object, that bucket or object exists.
pub open spec fn inv(m: RunModel) -> bool {
    &&& idx_bounds(m)
    &&& (m.phase == Phase::AwaitingObjects ==> m.bucket_idx < m.buckets.len())
    &&& ((m.phase == Phase::AwaitingDirs || m.phase == Phase::AwaitingData || m.phase
        == Phase::AwaitingWrite) ==> m.bucket_idx < m.buckets.len() && m.object_idx
        < m.objects.len())
}

/// Which events answer which phase. Terminal phases accept none.
pub open spec fn accepts(phase: Phase, e: EventModel) -> bool {
    match phase {
        Phase::AwaitingBuckets => e is BucketsListed || e is BucketListingFailed,
        Phase::AwaitingObjects => e is ObjectsListed || e is ObjectListingFailed,
        Phase::AwaitingDirs => e is DirsCreated || e is DirsFailed,
        Phase::AwaitingData => e is DataFetched || e is FetchFailed,
        Phase::AwaitingWrite => e is Written || e is WriteFailed,
        Phase::Finished => false,
        Phase::Aborted => false,
    }
}

/// Move to the bucket at `bucket_idx`: list its objects, or finish when
/// every bucket is done.
pub open spec fn step_advance_bucket(m: RunModel) -> (RunModel, ActionModel) {
    if m.bucket_idx >= m.buckets.len() {
        (RunModel { phase: Phase::Finished, ..m }, ActionModel::Finish)
    } else {
        (RunModel { phase: Phase::AwaitingObjects, ..m }, ActionModel::ListObjects(cur_bucket(m)))
    }
}

/// Move to the object at `object_idx`: have its parent directory made,
/// or move to the next bucket when this bucket's objects are done.
pub open spec fn step_advance_object(m: RunModel) -> (RunModel, ActionModel) {
    if m.object_idx >= m.objects.len() {
        step_advance_bucket(RunModel { bucket_idx: m.bucket_idx + 1, ..m })
    } else {
        (
            RunModel { phase: Phase::AwaitingDirs, ..m },
            ActionModel::CreateDirs(dir_prefix(target_path_of(m), m.sep)),
        )
    }
}

/// End the run on a fatal failure.
pub open spec fn step_abort(m: RunModel, kind: ErrorKind, msg: Seq<char>) -> (
    RunModel,
    ActionModel,
) {
    (RunModel { phase: Phase::Aborted, ..m }, ActionModel::Abort(kind, msg))
}

/// The transition relation of the export: given the state and the
/// outcome of the last action, the next state and the next action.
pub open spec fn spec_step(m: RunModel, e: EventModel) -> (RunModel, ActionModel) {
    match (m.phase, e) {
        (Phase::AwaitingBuckets, EventModel::BucketsListed(bs)) => step_advance_bucket(
            RunModel { buckets: bs, bucket_idx: 0, ..m },
        ),
        (Phase::AwaitingBuckets, EventModel::BucketListingFailed(msg)) => step_abort(
            m,
            ErrorKind::Transport,
            msg,
        ),
        (Phase::AwaitingObjects, EventModel::ObjectsListed(os)) => step_advance_object(
            RunModel { objects: os, object_idx: 0, ..m },
        ),
        (Phase::AwaitingObjects, EventModel::ObjectListingFailed(msg)) => step_abort(
            m,
            ErrorKind::Transport,
            msg,
        ),
        (Phase::AwaitingDirs, EventModel::DirsCreated) => (
            RunModel { phase: Phase::AwaitingData, ..m },
            ActionModel::Fetch(cur_bucket(m), cur_object(m)),
        ),
        (Phase::AwaitingDirs, EventModel::DirsFailed(msg)) => step_abort(m, ErrorKind::Io, msg),
        (Phase::AwaitingData, EventModel::DataFetched(d)) => (
            RunModel { phase: Phase::AwaitingWrite, ..m },
            ActionModel::Write(target_path_of(m), d),
        ),
        (Phase::AwaitingData, EventModel::FetchFailed(msg)) => step_abort(
            m,
            ErrorKind::Transport,
            msg,
        ),
        (Phase::AwaitingWrite, EventModel::Written) => step_advance_object(
            RunModel { object_idx: m.object_idx + 1, ..m },
        ),
        (Phase::AwaitingWrite, EventModel::WriteFailed(_)) => step_advance_object(
            RunModel { object_idx: m.object_idx + 1, ..m },
        ),
        _ => (m, ActionModel::Finish),
    }
}

/// One run of the export traversal, driven from outside: the driver
/// performs each returned action and answers with the matching event.
pub struct ExportRun {
    pub root: String,
    pub sep: char,
    pub buckets: Vec<String>,
    pub bucket_idx: usize,
    pub objects: Vec<String>,
    pub object_idx: usize,
    pub phase: Phase,
}

impl View for ExportRun {
    type V = RunModel;

    open spec fn view(&self) -> RunModel {
        RunModel {
            root: self.root@,
            sep: self.sep,
            buckets: self.buckets.deep_view(),
            bucket_idx: self.bucket_idx as int,
            objects: self.objects.deep_view(),
            object_idx: self.object_idx as int,
            phase: self.phase,
        }
    }
}

/// The outcome of the last action, fed back by the driver.
pub enum Event {
    /// The bucket listing succeeded with these names, in service order.
    BucketsListed(Vec<String>),
    /// The bucket listing failed with this message.
    BucketListingFailed(String),
    /// The object listing succeeded with these keys, in service order.
    ObjectsListed(Vec<String>),
    /// The object listing failed with this message.
    ObjectListingFailed(String),
    /// The parent directory now exists.
    DirsCreated,
    /// Creating the parent directory failed with this message.
    DirsFailed(String),
    /// The object's bytes arrived.
    DataFetched(Vec<u8>),
    /// Fetching the object failed with this message.
    FetchFailed(String),
    /// The bytes were written to the destination path.
    Written,
    /// Writing the bytes failed with this message (recoverable).
    WriteFailed(String),
}

impl View for Event {
    type V = EventModel;

    open spec fn view(&self) -> EventModel {
        match self {
            Event::BucketsListed(bs) => EventModel::BucketsListed(bs.deep_view()),
            Event::BucketListingFailed(msg) => EventModel::BucketListingFailed(msg@),
            Event::ObjectsListed(os) => EventModel::ObjectsListed(os.deep_view()),
            Event::ObjectListingFailed(msg) => EventModel::ObjectListingFailed(msg@),
            Event::DirsCreated => EventModel::DirsCreated,
            Event::DirsFailed(msg) => EventModel::DirsFailed(msg@),
            Event::DataFetched(d) => EventModel::DataFetched(d@),
            Event::FetchFailed(msg) => EventModel::FetchFailed(msg@),
            Event::Written => EventModel::Written,
            Event::WriteFailed(msg) => EventModel::WriteFailed(msg@),
        }
    }
}

/// What the driver must do next.
pub enum Action {
    /// List every bucket of the store.
    ListBuckets,
    /// List every object of the named bucket.
    ListObjects(String),
    /// Create this directory and any missing ancestors.
    CreateDirs(String),
    /// Fetch the bytes of this bucket's object.
    Fetch(String, String),
    /// Write these bytes to this path.
    Write(String, Vec<u8>),
    /// The run is complete; exit successfully.
    Finish,
    /// The run failed fatally; surface this error.
    Abort(ExportError),
}

impl View for Action {
    type V = ActionModel;

    open spec fn view(&self) -> ActionModel {
        match self {
            Action::ListBuckets => ActionModel::ListBuckets,
            Action::ListObjects(b) => ActionModel::ListObjects(b@),
            Action::CreateDirs(p) => ActionModel::CreateDirs(p@),
            Action::Fetch(b, k) => ActionModel::Fetch(b@, k@),
            Action::Write(p, d) => ActionModel::Write(p@, d@),
            Action::Finish => ActionModel::Finish,
            Action::Abort(e) => ActionModel::Abort(e.kind, e.message@),
        }
    }
}

impl ExportRun {
    /// The destination path of the current object, built by joining.
    fn target_path(&self) -> (r: String)
        requires
            self@.bucket_idx < self@.buckets.len(),
            self@.object_idx < self@.objects.len(),
        ensures
            r@ == target_path_of(self@),
    {
        let bd = join_path(self.root.as_str(), self.sep, self.buckets[self.bucket_idx].as_str());
        join_path(bd.as_str(), self.sep, self.objects[self.object_idx].as_str())
    }

    /// End the run on a fatal failure of the given kind.
    fn abort_with(self, kind: ErrorKind, msg: String) -> (r: (ExportRun, Action))
        requires
            idx_bounds(self@),
        ensures
            r.0@ == step_abort(self@, kind, msg@).0,
            r.1@ == step_abort(self@, kind, msg@).1,
            inv(r.0@),
    {
        let run = ExportRun { phase: Phase::Aborted, ..self };
        (run, Action::Abort(ExportError::new(kind, msg)))
    }

    /// Turn to the bucket at `bucket_idx`, or finish.
    fn advance_bucket(self) -> (r: (ExportRun, Action))
        requires
            idx_bounds(self@),
        ensures
            r.0@ == step_advance_bucket(self@).0,
            r.1@ == step_advance_bucket(self@).1,
            inv(r.0@),
    {
        if self.bucket_idx >= self.buckets.len() {
            let run = ExportRun { phase: Phase::Finished, ..self };
            (run, Action::Finish)
        } else {
            let name = self.buckets[self.bucket_idx].clone();
            let run = ExportRun { phase: Phase::AwaitingObjects, ..self };
            (run, Action::ListObjects(name))
        }
    }

    /// Turn to the object at `object_idx`, or to the next bucket.
    fn advance_object(self) -> (r: (ExportRun, Action))
        requires
            idx_bounds(self@),
            self@.bucket_idx < self@.buckets.len(),
        ensures
            r.0@ == step_advance_object(self@).0,
            r.1@ == step_advance_object(self@).1,
            inv(r.0@),
    {
        let nb = self.buckets.len();
        proof {
            assert(self@.buckets.len() == self.buckets@.len());
            assert(self@.objects.len() == self.objects@.len());
            assert(self.bucket_idx < nb);
        }
        if self.object_idx >= self.objects.len() {
            let run = ExportRun { bucket_idx: self.bucket_idx + 1, ..self };
            run.advance_bucket()
        } else {
            let p = self.target_path();
            proof {
                lemma_joined_has_parent(bucket_dir_of(self@), self@.sep, cur_object(self@));
            }
            let parent = match parent_dir(p.as_str(), self.sep) {
                Some(par) => par,
                None => unreached(),
            };
            let run = ExportRun { phase: Phase::AwaitingDirs, ..self };
            (run, Action::CreateDirs(parent))
        }
    }

    /// Begin a run for a destination root and a path separator. The
    /// first action is to list the buckets.
    pub fn start(root: String, sep: char) -> (r: (ExportRun, Action))
        ensures
            r.0@.root == root@,
            r.0@.sep == sep,
            r.0@.buckets.len() == 0,
            r.0@.bucket_idx == 0,
            r.0@.objects.len() == 0,
            r.0@.object_idx == 0,
            r.0@.phase == Phase::AwaitingBuckets,
            inv(r.0@),
            r.1@ == ActionModel::ListBuckets,
    {
        let run = ExportRun {
            root,
            sep,
            buckets: Vec::new(),
            bucket_idx: 0,
            objects: Vec::new(),
            object_idx: 0,
            phase: Phase::AwaitingBuckets,
        };
        (run, Action::ListBuckets)
    }

    /// Feed back the outcome of the last action and get the next action.
    /// The transition taken is exactly `spec_step` on the models.
    pub fn step(self, event: Event) -> (r: (ExportRun, Action))
        requires
            inv(self@),
            accepts(self@.phase, event@),
        ensures
            r.0@ == spec_step(self@, event@).0,
            r.1@ == spec_step(self@, event@).1,
            inv(r.0@),
    {
        match event {
            Event::BucketsListed(bs) => {
                let run = ExportRun { buckets: bs, bucket_idx: 0, ..self };
                run.advance_bucket()
            },
            Event::BucketListingFailed(msg) => self.abort_with(ErrorKind::Transport, msg),
            Event::ObjectsListed(os) => {
                let run = ExportRun { objects: os, object_idx: 0, ..self };
                run.advance_object()
            },
            Event::ObjectListingFailed(msg) => self.abort_with(ErrorKind::Transport, msg),
            Event::DirsCreated => {
                let b = self.buckets[self.bucket_idx].clone();
                let k = self.objects[self.object_idx].clone();
                let run = ExportRun { phase: Phase::AwaitingData, ..self };
                (run, Action::Fetch(b, k))
            },
            Event::DirsFailed(msg) => self.abort_with(ErrorKind::Io, msg),
            Event::DataFetched(d) => {
                let p = self.target_path();
                let run = ExportRun { phase: Phase::AwaitingWrite, ..self };
                (run, Action::Write(p, d))
            },
            Event::FetchFailed(msg) => self.abort_with(ErrorKind::Transport, msg),
            Event::Written => {
                let n = self.objects.len();
                proof {
                    assert(self@.objects.len() == self.objects@.len());
                    assert(self.object_idx < n);
                }
                let run = ExportRun { object_idx: self.object_idx + 1, ..self };
                run.advance_object()
            },
            Event::WriteFailed(_msg) => {
                let n = self.objects.len();
                proof {
                    assert(self@.objects.len() == self.objects@.len());
                    assert(self.object_idx < n);
                }
                let run = ExportRun { object_idx: self.object_idx + 1, ..self };
                run.advance_object()
            },
        }
    }
}

/// The path of every planned write is exactly
/// `root + sep + bucket + sep + key` for the current bucket and object,
/// with the key's internal separators left untouched.
pub proof fn lemma_write_path_exact(m: RunModel, d: Seq<u8>)
    requires
        inv(m),
        m.phase == Phase::AwaitingData,
    ensures
        spec_step(m, EventModel::DataFetched(d)).1 == ActionModel::Write(
            m.root + seq![m.sep] + m.buckets[m.bucket_idx] + seq![m.sep]
                + m.objects[m.object_idx],
            d,
        ),
{
    assert(target_path_of(m) =~= m.root + seq![m.sep] + m.buckets[m.bucket_idx] + seq![m.sep]
        + m.objects[m.object_idx]);
}

/// An empty bucket is skipped whole: no directory creation, no fetch, no
/// write, no failure — the traversal moves on to the next bucket or
/// finishes.
pub proof fn lemma_empty_bucket_skipped(m: RunModel)
    requires
        inv(m),
        m.phase == Phase::AwaitingObjects,
    ensures
        ({
            let (m2, a) = spec_step(m, EventModel::ObjectsListed(Seq::empty()));
            &&& m2.phase != Phase::Aborted
            &&& m2.bucket_idx == m.bucket_idx + 1
            &&& !(a is CreateDirs)
            &&& !(a is Fetch)
            &&& !(a is Write)
            &&& !(a is Abort)
        }),
{
}

/// Every listing failure, fetch failure and directory-creation failure
/// is fatal: the run aborts at once, and an aborted run accepts no
/// further event, so nothing still pending is processed. Remote
/// failures abort as `Transport`, directory creation as `Io`.
pub proof fn lemma_fatal_events_abort(m: RunModel, e: EventModel)
    requires
        inv(m),
        accepts(m.phase, e),
        e is BucketListingFailed || e is ObjectListingFailed || e is DirsFailed
            || e is FetchFailed,
    ensures
        spec_step(m, e).0.phase == Phase::Aborted,
        spec_step(m, e).1 is Abort,
        !(e is DirsFailed) ==> spec_step(m, e).1->Abort_0 == ErrorKind::Transport,
        e is DirsFailed ==> spec_step(m, e).1->Abort_0 == ErrorKind::Io,
        forall|e2: EventModel| !accepts(Phase::Aborted, e2),
{
}

/// A failed write is the one recoverable failure: the traversal records
/// it and moves to the next object, exactly as if the write had
/// succeeded — it never aborts the run.
pub proof fn lemma_write_failure_continues(m: RunModel, msg: Seq<char>)
    requires
        inv(m),
        m.phase == Phase::AwaitingWrite,
    ensures
        ({
            let (m2, a) = spec_step(m, EventModel::WriteFailed(msg));
            &&& m2.phase != Phase::Aborted
            &&& !(a is Abort)
            &&& m2.object_idx == m.object_idx + 1
        }),
        spec_step(m, EventModel::WriteFailed(msg)) == spec_step(m, EventModel::Written),
{
}

} // verus!
