use vstd::prelude::*;

use crate::model::{append_effect_all, entry_matches, fresh_id, rows_for, with_id, DbModel};
use crate::records::{EntryV, ProbeV, SnapshotV};

verus! {

// The laws of the store, stated over its model and proved once and for all:
// what `append`'s and `list_entries`'s contracts give together.

/// Filtering by key distributes over appending one relation to another.
proof fn lemma_rows_for_add<T>(a: Seq<(i64, T)>, b: Seq<(i64, T)>, id: i64)
    ensures
        rows_for(a + b, id) == rows_for(a, id) + rows_for(b, id),
{
    broadcast use vstd::prelude::Seq::filter_distributes_over_add;

    assert(rows_for(a + b, id) =~= rows_for(a, id) + rows_for(b, id));
}

/// The rows of a whole relation keyed by one id are exactly the records it
/// was keyed with.
proof fn lemma_rows_for_with_id<T>(id: i64, xs: Seq<T>)
    ensures
        rows_for(with_id(id, xs), id) == xs,
    decreases xs.len(),
{
    reveal(Seq::filter);
    let w = with_id(id, xs);
    if xs.len() == 0 {
        assert(w =~= Seq::<(i64, T)>::empty());
        assert(rows_for(w, id) =~= xs);
    } else {
        lemma_rows_for_with_id(id, xs.drop_last());
        let prev = with_id(id, xs.drop_last());
        assert(w.drop_last() =~= prev);
        assert(w.last() == (id, xs.last()));
        assert(rows_for(w, id) =~= rows_for(prev, id).push(xs.last()));
        assert(xs.drop_last().push(xs.last()) =~= xs);
        assert(rows_for(w, id) =~= xs);
    }
}

/// A relation with no row keyed by `id`, extended by records keyed by `id`,
/// holds exactly those records under `id`.
proof fn lemma_rows_for_extended<T>(pre: Seq<(i64, T)>, xs: Seq<T>, id: i64)
    requires
        rows_for(pre, id).len() == 0,
    ensures
        rows_for(pre + with_id(id, xs), id) == xs,
{
    lemma_rows_for_add(pre, with_id(id, xs), id);
    lemma_rows_for_with_id(id, xs);
    assert(rows_for(pre, id) + xs =~= xs);
}

/// Law: the write and read paths are round-trip compatible. If one append
/// wrote snapshot `s` in full under a fresh id, then any entry the read path
/// reconstructs under that id carries the append's timestamp, exactly the
/// snapshot's vitals, its disk, network and component lists as unordered
/// collections, and its ping present with the measured value exactly when
/// the probe had succeeded. The freshness premise holds of every store this
/// library built, since the store assigns ids never used before.
pub proof fn lemma_round_trip(
    pre: DbModel,
    post: DbModel,
    s: SnapshotV,
    id: i64,
    ts: i64,
    e: EntryV,
)
    requires
        append_effect_all(pre, post, id, ts, s),
        fresh_id(pre, id),
        entry_matches(post, e),
        e.id == id,
    ensures
        e.timestamp == ts,
        e.vitals == Some(s.vitals),
        e.disks.to_multiset() == s.disks.to_multiset(),
        e.networks.to_multiset() == s.networks.to_multiset(),
        e.components.to_multiset() == s.components.to_multiset(),
        match s.ping {
            ProbeV::Latency(p) => e.ping == Some(p),
            _ => e.ping is None,
        },
{
    // The timestamp: the only log row keyed by the fresh id is the new one.
    assert(post.logs == pre.logs.push((id, ts)));
    assert(post.logs.contains((e.id, e.timestamp)));
    let k = choose|k: int| 0 <= k < post.logs.len() && post.logs[k] == (id, e.timestamp);
    assert(post.logs[k] == (id, e.timestamp));
    if k < pre.logs.len() {
        assert(pre.logs[k] == (id, e.timestamp));
        assert(false);
    }
    assert(e.timestamp == ts);

    // The vitals: the rows keyed by the fresh id are exactly the one new row.
    assert(pre.vitals.push((id, s.vitals)) =~= pre.vitals + with_id(id, seq![s.vitals]));
    lemma_rows_for_extended(pre.vitals, seq![s.vitals], id);
    assert(rows_for(post.vitals, id) == seq![s.vitals]);
    match e.vitals {
        None => {
            assert(false);
        },
        Some(v) => {
            assert(rows_for(post.vitals, id).contains(v));
            assert(v == s.vitals);
        },
    }

    // The children: a full append keyed every record of each list by the
    // fresh id, and nothing else carries that id.
    crate::model::lemma_kept_all(s.disks, Seq::new(s.disks.len(), |i: int| true));
    crate::model::lemma_kept_all(s.networks, Seq::new(s.networks.len(), |i: int| true));
    crate::model::lemma_kept_all(s.components, Seq::new(s.components.len(), |i: int| true));
    lemma_rows_for_extended(pre.disks, s.disks, id);
    lemma_rows_for_extended(pre.networks, s.networks, id);
    lemma_rows_for_extended(pre.components, s.components, id);
    assert(rows_for(post.disks, id) == s.disks);
    assert(rows_for(post.networks, id) == s.networks);
    assert(rows_for(post.components, id) == s.components);

    // The ping: present exactly when the probe measured a latency.
    match s.ping {
        ProbeV::Latency(p) => {
            assert(crate::model::ping_added(id, s.ping, true) =~= with_id(id, seq![p]));
            lemma_rows_for_extended(pre.pings, seq![p], id);
            assert(rows_for(post.pings, id) == seq![p]);
            match e.ping {
                None => {
                    assert(false);
                },
                Some(q) => {
                    assert(rows_for(post.pings, id).contains(q));
                    assert(q == p);
                },
            }
        },
        _ => {
            assert(post.pings =~= pre.pings);
            assert(rows_for(post.pings, id).len() == 0);
            match e.ping {
                None => {},
                Some(q) => {
                    assert(rows_for(post.pings, id).contains(q));
                    assert(false);
                },
            }
        },
    }
}

/// Law: schema setup is idempotent. `states` is the store before any setup
/// run and after each of any number of them, `ready` whether the schema is
/// present at each of those moments; each successful run preserves the rows
/// and establishes the schema, exactly as `ensure_schema` promises. However
/// many runs there were, the store holds exactly the rows it started with and
/// the schema is present, just as after a single run.
pub proof fn lemma_schema_setup_idempotent(states: Seq<DbModel>, ready: Seq<bool>)
    requires
        states.len() >= 2,
        ready.len() == states.len(),
        forall|i: int|
            1 <= i < states.len() ==> #[trigger] states[i] == states[i - 1] && ready[i],
    ensures
        states.last() == states[0],
        ready.last(),
    decreases states.len(),
{
    if states.len() > 2 {
        lemma_schema_setup_idempotent(states.drop_last(), ready.drop_last());
    }
}

} // verus!
