use vstd::prelude::*;

use crate::records::{CompV, DiskV, EntryV, NetV, PingV, ProbeV, SnapshotV, VitalsV};

verus! {

// The mathematical model of the store: each relation is a sequence of rows,
// each child row a pair of the owning entry's id and the record value. The
// trusted store surface names the six relations of the database in these
// terms; everything proved about the write and read paths is stated here.

/// The six relations of the store.
#[verifier::ext_equal]
pub ghost struct DbModel {
    pub logs: Seq<(i64, i64)>,
    pub vitals: Seq<(i64, VitalsV)>,
    pub disks: Seq<(i64, DiskV)>,
    pub networks: Seq<(i64, NetV)>,
    pub components: Seq<(i64, CompV)>,
    pub pings: Seq<(i64, PingV)>,
}

/// Every record of `xs` keyed by `id`, in order.
pub open spec fn with_id<T>(id: i64, xs: Seq<T>) -> Seq<(i64, T)> {
    xs.map_values(|x: T| (id, x))
}

/// The records of the rows of `rows` that are keyed by `id`, in row order.
pub open spec fn rows_for<T>(rows: Seq<(i64, T)>, id: i64) -> Seq<T> {
    rows.filter(|p: (i64, T)| p.0 == id).map_values(|p: (i64, T)| p.1)
}

/// The records of `xs` whose slot in `mask` is true, in order: what a
/// best-effort write pass kept.
pub open spec fn kept<T>(xs: Seq<T>, mask: Seq<bool>) -> Seq<T>
    recommends
        xs.len() == mask.len(),
    decreases xs.len(),
{
    if xs.len() == 0 {
        Seq::<T>::empty()
    } else {
        let rest = kept(xs.drop_last(), mask.drop_last());
        if mask.last() {
            rest.push(xs.last())
        } else {
            rest
        }
    }
}

/// No relation of `db` holds a row keyed by `id`.
pub open spec fn fresh_id(db: DbModel, id: i64) -> bool {
    &&& forall|j: int| 0 <= j < db.logs.len() ==> (#[trigger] db.logs[j]).0 != id
    &&& rows_for(db.vitals, id).len() == 0
    &&& rows_for(db.disks, id).len() == 0
    &&& rows_for(db.networks, id).len() == 0
    &&& rows_for(db.components, id).len() == 0
    &&& rows_for(db.pings, id).len() == 0
}

/// The ping rows that one append adds: one row when the probe succeeded and
/// its insert went through, none otherwise.
pub open spec fn ping_added(id: i64, ping: ProbeV, ping_ok: bool) -> Seq<(i64, PingV)> {
    match ping {
        ProbeV::Latency(p) => {
            if ping_ok {
                seq![(id, p)]
            } else {
                Seq::<(i64, PingV)>::empty()
            }
        },
        _ => Seq::<(i64, PingV)>::empty(),
    }
}

/// How one append relates the store before it to the store after it: the new
/// log row is present; the vitals row and the ping row are present exactly
/// when their inserts succeeded; of each child list exactly the records whose
/// insert succeeded were added, keyed by the new id; nothing else changed.
pub open spec fn append_effect(
    pre: DbModel,
    post: DbModel,
    id: i64,
    ts: i64,
    s: SnapshotV,
    vitals_ok: bool,
    disk_mask: Seq<bool>,
    net_mask: Seq<bool>,
    comp_mask: Seq<bool>,
    ping_ok: bool,
) -> bool {
    &&& post.logs == pre.logs.push((id, ts))
    &&& post.vitals == if vitals_ok {
        pre.vitals.push((id, s.vitals))
    } else {
        pre.vitals
    }
    &&& disk_mask.len() == s.disks.len()
    &&& net_mask.len() == s.networks.len()
    &&& comp_mask.len() == s.components.len()
    &&& post.disks == pre.disks + with_id(id, kept(s.disks, disk_mask))
    &&& post.networks == pre.networks + with_id(id, kept(s.networks, net_mask))
    &&& post.components == pre.components + with_id(id, kept(s.components, comp_mask))
    &&& post.pings == pre.pings + ping_added(id, s.ping, ping_ok)
    &&& ping_ok ==> s.ping is Latency
}

/// An append in which every insert succeeded.
pub open spec fn append_effect_all(
    pre: DbModel,
    post: DbModel,
    id: i64,
    ts: i64,
    s: SnapshotV,
) -> bool {
    append_effect(
        pre,
        post,
        id,
        ts,
        s,
        true,
        Seq::new(s.disks.len(), |i: int| true),
        Seq::new(s.networks.len(), |i: int| true),
        Seq::new(s.components.len(), |i: int| true),
        s.ping is Latency,
    )
}

/// Which of a list of per-row write results succeeded.
pub open spec fn ok_mask(rs: Seq<Result<(), crate::StoreError>>) -> Seq<bool> {
    rs.map_values(|r: Result<(), crate::StoreError>| r is Ok)
}

/// Extending both the records and the mask by one slot keeps exactly the
/// records already kept, plus the new one when its slot is true.
pub proof fn lemma_kept_push<T>(xs: Seq<T>, mask: Seq<bool>, x: T, b: bool)
    requires
        xs.len() == mask.len(),
    ensures
        kept(xs.push(x), mask.push(b)) == if b {
            kept(xs, mask).push(x)
        } else {
            kept(xs, mask)
        },
{
    assert(xs.push(x).drop_last() =~= xs);
    assert(mask.push(b).drop_last() =~= mask);
}

/// Keying distributes over appending one record.
pub proof fn lemma_with_id_push<T>(id: i64, xs: Seq<T>, x: T)
    ensures
        with_id(id, xs.push(x)) == with_id(id, xs).push((id, x)),
{
    assert(with_id(id, xs.push(x)) =~= with_id(id, xs).push((id, x)));
}

/// A mask of all-true slots keeps every record.
pub proof fn lemma_kept_all<T>(xs: Seq<T>, mask: Seq<bool>)
    requires
        xs.len() == mask.len(),
        forall|i: int| 0 <= i < mask.len() ==> mask[i],
    ensures
        kept(xs, mask) == xs,
    decreases xs.len(),
{
    if xs.len() > 0 {
        lemma_kept_all(xs.drop_last(), mask.drop_last());
        assert(kept(xs, mask) =~= xs);
    } else {
        assert(kept(xs, mask) =~= xs);
    }
}

/// What the read path promises of one reconstructed entry against the store
/// it was read from: the entry's id and timestamp are a log row; its vitals
/// is absent exactly when no vitals row carries the id, and otherwise is one
/// of them; its child lists hold, as unordered collections, exactly the child
/// rows keyed by the id; its ping is absent exactly when no ping row carries
/// the id, and otherwise is one of them.
pub open spec fn entry_matches(db: DbModel, e: EntryV) -> bool {
    &&& db.logs.contains((e.id, e.timestamp))
    &&& match e.vitals {
        None => rows_for(db.vitals, e.id).len() == 0,
        Some(v) => rows_for(db.vitals, e.id).contains(v),
    }
    &&& e.disks.to_multiset() == rows_for(db.disks, e.id).to_multiset()
    &&& e.networks.to_multiset() == rows_for(db.networks, e.id).to_multiset()
    &&& e.components.to_multiset() == rows_for(db.components, e.id).to_multiset()
    &&& match e.ping {
        None => rows_for(db.pings, e.id).len() == 0,
        Some(p) => rows_for(db.pings, e.id).contains(p),
    }
}

} // verus!
