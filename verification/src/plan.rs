//! What a successful export writes, computed from the store contents
//! alone, and the proof that the traversal writes exactly that — so two
//! runs against an unchanged store plan byte-identical writes to
//! identical paths (overwrite semantics, not append).

use vstd::prelude::*;

use crate::export::inv;
use crate::export::spec_step;
use crate::export::target_path_of;
use crate::export::ActionModel;
use crate::export::EventModel;
use crate::export::Phase;
use crate::export::RunModel;
use crate::paths::joined;

verus! {

/// Everything the remote store holds, as the listings deliver it:
/// bucket names in listing order, each bucket's object keys in listing
/// order, and each object's bytes.
pub struct StoreModel {
    pub buckets: Seq<Seq<char>>,
    pub objects: Seq<Seq<Seq<char>>>,
    pub data: Seq<Seq<Seq<u8>>>,
}

/// The per-bucket sequences line up with the bucket list.
pub open spec fn store_wf(st: StoreModel) -> bool {
    &&& st.objects.len() == st.buckets.len()
    &&& st.data.len() == st.buckets.len()
    &&& forall|i: int|
        0 <= i < st.buckets.len() ==> st.data[i].len() == st.objects[i].len()
}

/// One planned write: a destination path and the bytes put there.
pub struct WriteOp {
    pub path: Seq<char>,
    pub data: Seq<u8>,
}

/// The writes of bucket `i`: one per key, in key order, each to
/// `root + sep + bucket + sep + key`.
pub open spec fn bucket_writes(root: Seq<char>, sep: char, st: StoreModel, i: int) -> Seq<
    WriteOp,
> {
    Seq::new(
        st.objects[i].len(),
        |j: int|
            WriteOp {
                path: joined(joined(root, sep, st.buckets[i]), sep, st.objects[i][j]),
                data: st.data[i][j],
            },
    )
}

/// The writes of the buckets from `i` on, in bucket order.
pub open spec fn writes_from(root: Seq<char>, sep: char, st: StoreModel, i: int) -> Seq<WriteOp>
    decreases st.buckets.len() - i,
{
    if i < 0 || i >= st.buckets.len() {
        Seq::empty()
    } else {
        bucket_writes(root, sep, st, i) + writes_from(root, sep, st, i + 1)
    }
}

/// Every write of a full export of the store, in traversal order.
pub open spec fn export_writes(root: Seq<char>, sep: char, st: StoreModel) -> Seq<WriteOp> {
    writes_from(root, sep, st, 0)
}

/// The event a store that answers every request successfully returns in
/// a given state: the listings as the store holds them, the bytes as the
/// store holds them, success for every directory creation and write.
pub open spec fn happy_event(m: RunModel, st: StoreModel) -> EventModel {
    match m.phase {
        Phase::AwaitingBuckets => EventModel::BucketsListed(st.buckets),
        Phase::AwaitingObjects => EventModel::ObjectsListed(st.objects[m.bucket_idx]),
        Phase::AwaitingDirs => EventModel::DirsCreated,
        Phase::AwaitingData => EventModel::DataFetched(st.data[m.bucket_idx][m.object_idx]),
        _ => EventModel::Written,
    }
}

/// A run state agrees with the store it is driven against: well-formed
/// on both sides, the listed buckets are the store's buckets, and the
/// listed objects are the current bucket's keys.
pub open spec fn consistent(m: RunModel, st: StoreModel) -> bool {
    &&& store_wf(st)
    &&& inv(m)
    &&& (m.phase == Phase::AwaitingBuckets ==> m.bucket_idx == 0 && m.object_idx == 0)
    &&& (m.phase != Phase::AwaitingBuckets ==> m.buckets == st.buckets)
    &&& ((m.phase == Phase::AwaitingDirs || m.phase == Phase::AwaitingData || m.phase
        == Phase::AwaitingWrite) ==> m.objects == st.objects[m.bucket_idx])
}

/// 1 while the bucket listing is outstanding, 0 after.
pub open spec fn rank_listing(p: Phase) -> int {
    if p == Phase::AwaitingBuckets {
        1
    } else {
        0
    }
}

/// 1 while an object listing is outstanding, 0 after.
pub open spec fn rank_objects(p: Phase) -> int {
    if p == Phase::AwaitingObjects {
        1
    } else {
        0
    }
}

/// Order of the per-object phases: directories, then fetch, then write.
pub open spec fn rank_phase(p: Phase) -> int {
    match p {
        Phase::AwaitingDirs => 2,
        Phase::AwaitingData => 1,
        _ => 0,
    }
}

/// The writes a run still performs from state `m` when the store
/// answers every request successfully: step with the store's answer
/// until the run finishes, collecting each `Write` action.
pub open spec fn happy_writes(m: RunModel, st: StoreModel) -> Seq<WriteOp>
    decreases
            rank_listing(m.phase),
            st.buckets.len() - m.bucket_idx,
            rank_objects(m.phase),
            m.objects.len() - m.object_idx,
            rank_phase(m.phase),
        when consistent(m, st)
        via happy_writes_decreases
{
    if m.phase == Phase::Finished || m.phase == Phase::Aborted {
        Seq::empty()
    } else {
        let e = happy_event(m, st);
        let m2 = spec_step(m, e).0;
        let a = spec_step(m, e).1;
        (match a {
            ActionModel::Write(p, d) => seq![WriteOp { path: p, data: d }],
            _ => Seq::<WriteOp>::empty(),
        }) + happy_writes(m2, st)
    }
}

/// Stepping with the store's successful answer keeps the run consistent
/// with the store and shrinks the traversal measure.
#[via_fn]
proof fn happy_writes_decreases(m: RunModel, st: StoreModel) {
    if m.phase == Phase::Finished || m.phase == Phase::Aborted {
    } else {
        let e = happy_event(m, st);
        let m2 = spec_step(m, e).0;
        assert(consistent(m2, st));
    }
}

/// The writes still owed from state `m`: the rest of the current
/// bucket's objects (the current one included until its bytes are
/// written), then the remaining buckets whole.
pub open spec fn remaining_writes(m: RunModel, st: StoreModel) -> Seq<WriteOp> {
    match m.phase {
        Phase::AwaitingBuckets => writes_from(m.root, m.sep, st, 0),
        Phase::AwaitingObjects => writes_from(m.root, m.sep, st, m.bucket_idx),
        Phase::AwaitingDirs => bucket_writes(m.root, m.sep, st, m.bucket_idx).skip(m.object_idx)
            + writes_from(m.root, m.sep, st, m.bucket_idx + 1),
        Phase::AwaitingData => bucket_writes(m.root, m.sep, st, m.bucket_idx).skip(m.object_idx)
            + writes_from(m.root, m.sep, st, m.bucket_idx + 1),
        Phase::AwaitingWrite => bucket_writes(m.root, m.sep, st, m.bucket_idx).skip(
            m.object_idx + 1,
        ) + writes_from(m.root, m.sep, st, m.bucket_idx + 1),
        Phase::Finished => Seq::empty(),
        Phase::Aborted => Seq::empty(),
    }
}

/// A consistent run that the store answers successfully performs
/// exactly the writes it still owes.
pub proof fn lemma_happy_writes_are_remaining(m: RunModel, st: StoreModel)
    requires
        consistent(m, st),
    ensures
        happy_writes(m, st) == remaining_writes(m, st),
    decreases
            rank_listing(m.phase),
            st.buckets.len() - m.bucket_idx,
            rank_objects(m.phase),
            m.objects.len() - m.object_idx,
            rank_phase(m.phase),
{
    if m.phase == Phase::Finished || m.phase == Phase::Aborted {
    } else {
        let e = happy_event(m, st);
        let m2 = spec_step(m, e).0;
        assert(consistent(m2, st));
        lemma_happy_writes_are_remaining(m2, st);
        match m.phase {
            Phase::AwaitingBuckets => {
                if st.buckets.len() == 0 {
                    assert(happy_writes(m, st) =~= remaining_writes(m, st));
                } else {
                    assert(happy_writes(m, st) =~= remaining_writes(m, st));
                }
            },
            Phase::AwaitingObjects => {
                let bi = m.bucket_idx;
                let bw = bucket_writes(m.root, m.sep, st, bi);
                let rest = writes_from(m.root, m.sep, st, bi + 1);
                if st.objects[bi].len() == 0 {
                    assert(bw =~= Seq::<WriteOp>::empty());
                    assert(remaining_writes(m, st) =~= rest);
                    assert(happy_writes(m, st) =~= rest);
                } else {
                    assert(bw.skip(0) =~= bw);
                    assert(happy_writes(m, st) =~= bw + rest);
                }
            },
            Phase::AwaitingDirs => {
                assert(happy_writes(m, st) =~= remaining_writes(m, st));
            },
            Phase::AwaitingData => {
                let bi = m.bucket_idx;
                let oi = m.object_idx;
                let bw = bucket_writes(m.root, m.sep, st, bi);
                let rest = writes_from(m.root, m.sep, st, bi + 1);
                let w = WriteOp { path: target_path_of(m), data: st.data[bi][oi] };
                assert(w == bw[oi]);
                assert(bw.skip(oi) =~= seq![bw[oi]] + bw.skip(oi + 1));
                assert(happy_writes(m, st) == seq![w] + (bw.skip(oi + 1) + rest));
                assert(seq![w] + (bw.skip(oi + 1) + rest) =~= (seq![bw[oi]] + bw.skip(oi + 1))
                    + rest);
            },
            Phase::AwaitingWrite => {
                let bi = m.bucket_idx;
                let oi = m.object_idx;
                let bw = bucket_writes(m.root, m.sep, st, bi);
                let rest = writes_from(m.root, m.sep, st, bi + 1);
                if oi + 1 < m.objects.len() {
                    assert(happy_writes(m, st) =~= bw.skip(oi + 1) + rest);
                } else {
                    assert(bw.skip(oi + 1) =~= Seq::<WriteOp>::empty());
                    assert(remaining_writes(m, st) =~= rest);
                    assert(happy_writes(m, st) =~= rest);
                }
            },
            _ => {},
        }
    }
}

/// The writes from bucket `k` on include write `j` of every bucket `i`
/// at or past `k`.
proof fn lemma_writes_from_contains(
    root: Seq<char>,
    sep: char,
    st: StoreModel,
    k: int,
    i: int,
    j: int,
)
    requires
        store_wf(st),
        0 <= k <= i < st.buckets.len(),
        0 <= j < st.objects[i].len(),
    ensures
        writes_from(root, sep, st, k).contains(bucket_writes(root, sep, st, i)[j]),
    decreases i - k,
{
    let x = bucket_writes(root, sep, st, i)[j];
    if k == i {
        assert(writes_from(root, sep, st, k)[j] == x);
    } else {
        lemma_writes_from_contains(root, sep, st, k + 1, i, j);
        let b = writes_from(root, sep, st, k + 1);
        let t = choose|t: int| 0 <= t < b.len() && b[t] == x;
        assert(writes_from(root, sep, st, k)[bucket_writes(root, sep, st, k).len() + t] == x);
    }
}

/// For every bucket/object pair the listings return, the export plans a
/// write of that object's bytes to exactly
/// `root + sep + bucket + sep + key`, the key's internal separators
/// kept as they are.
pub proof fn lemma_export_paths_exact(root: Seq<char>, sep: char, st: StoreModel, i: int, j: int)
    requires
        store_wf(st),
        0 <= i < st.buckets.len(),
        0 <= j < st.objects[i].len(),
    ensures
        export_writes(root, sep, st).contains(
            WriteOp {
                path: joined(joined(root, sep, st.buckets[i]), sep, st.objects[i][j]),
                data: st.data[i][j],
            },
        ),
{
    lemma_writes_from_contains(root, sep, st, 0, i, j);
}

/// A successful export performs exactly `export_writes`: a function of
/// the destination root, the separator and the store contents alone.
/// Running the export twice against an unchanged store therefore plans
/// the identical writes — same paths, same bytes, in the same order.
pub proof fn lemma_export_deterministic(m: RunModel, st: StoreModel)
    requires
        store_wf(st),
        inv(m),
        m.phase == Phase::AwaitingBuckets,
        m.bucket_idx == 0,
        m.object_idx == 0,
    ensures
        happy_writes(m, st) == export_writes(m.root, m.sep, st),
{
    lemma_happy_writes_are_remaining(m, st);
}

} // verus!
