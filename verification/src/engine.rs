use vstd::prelude::*;

use crate::model::{append_effect, entry_matches, ok_mask, with_id, kept, DbModel};
use crate::model::{lemma_kept_push, lemma_with_id_push};
use crate::records::{ProbeOutcome, ReconstructedEntry, Snapshot, SystemVitals};
use crate::store;
use crate::store::{db_of, schema_ready};
use crate::StoreError;

verus! {

// The persistence engine: schema setup, the write path that decomposes one
// snapshot into linked rows, and the read path that joins the rows back into
// snapshot-shaped entries. All of it is verified against the store's model.

/// What one append reported: the id and timestamp of the new entry's root
/// row, and the outcome of every child insert, so that a caller observes a
/// partial failure without relying on console output.
pub struct AppendReport {
    pub log_id: i64,
    pub timestamp: i64,
    pub vitals: Result<(), StoreError>,
    pub disks: Vec<Result<(), StoreError>>,
    pub networks: Vec<Result<(), StoreError>>,
    pub components: Vec<Result<(), StoreError>>,
    pub ping: Option<Result<(), StoreError>>,
}

impl AppendReport {
    /// Whether the ping row was written.
    pub open spec fn ping_written(&self) -> bool {
        match self.ping {
            Some(p) => p is Ok,
            None => false,
        }
    }
}

/// Idempotently creates the six relations if absent: safe on every process
/// start, against an empty file as against a store a previous run populated.
/// No stored row changes, whether it succeeds or fails.
pub fn ensure_schema(conn: &mut rusqlite::Connection) -> (r: Result<(), StoreError>)
    ensures
        db_of(*final(conn)) == db_of(*old(conn)),
        r is Ok ==> schema_ready(*final(conn)),
        schema_ready(*old(conn)) ==> schema_ready(*final(conn)),
{
    store::create_schema(conn)
}

/// Writes one snapshot as a set of linked rows: the root row must succeed and
/// carries a timestamp taken at write time; the vitals row, each disk,
/// network and component row, and the ping row (only for a successful probe)
/// are then written best-effort, one by one, a failed child never stopping
/// the rest. The report says which child rows were written; the store ends up
/// holding the old rows plus the new root row and exactly the children that
/// succeeded.
pub fn append(conn: &mut rusqlite::Connection, s: &Snapshot) -> (r: Result<
    AppendReport,
    StoreError,
>)
    ensures
        schema_ready(*final(conn)) == schema_ready(*old(conn)),
        match r {
            Ok(rep) => {
                &&& append_effect(
                    db_of(*old(conn)),
                    db_of(*final(conn)),
                    rep.log_id,
                    rep.timestamp,
                    s@,
                    rep.vitals is Ok,
                    ok_mask(rep.disks@),
                    ok_mask(rep.networks@),
                    ok_mask(rep.components@),
                    rep.ping_written(),
                )
                &&& forall|j: int|
                    0 <= j < db_of(*old(conn)).logs.len() ==> (#[trigger] db_of(
                        *old(conn),
                    ).logs[j]).0 != rep.log_id
                &&& (rep.ping is Some) == (s.ping is Latency)
            },
            Err(_) => db_of(*final(conn)) == db_of(*old(conn)),
        },
{
    let ghost db0 = db_of(*conn);
    let ts = store::now_seconds();
    let id = match store::insert_log_row(conn, ts) {
        Ok(id) => id,
        Err(e) => {
            return Err(e);
        },
    };
    let vitals_res = store::insert_vitals_row(conn, id, &s.vitals);
    let ghost logs1 = db0.logs.push((id, ts));
    let ghost vitals1 = if vitals_res is Ok {
        db0.vitals.push((id, s@.vitals))
    } else {
        db0.vitals
    };

    let mut disks_rep: Vec<Result<(), StoreError>> = Vec::new();
    let mut i: usize = 0;
    while i < s.disks.len()
        invariant
            i == disks_rep.len(),
            i <= s.disks.len(),
            schema_ready(*conn) == schema_ready(*old(conn)),
            db_of(*conn) == (DbModel {
                logs: logs1,
                vitals: vitals1,
                disks: db0.disks + with_id(id, kept(s@.disks.take(i as int), ok_mask(disks_rep@))),
                ..db0
            }),
        decreases s.disks.len() - i,
    {
        let res = store::insert_disk_row(conn, id, &s.disks[i]);
        proof {
            lemma_kept_push(
                s@.disks.take(i as int),
                ok_mask(disks_rep@),
                s@.disks[i as int],
                res is Ok,
            );
            lemma_with_id_push(id, kept(s@.disks.take(i as int), ok_mask(disks_rep@)), s@.disks[i as int]);
            assert(s@.disks.take(i as int + 1) =~= s@.disks.take(i as int).push(s@.disks[i as int]));
            assert(ok_mask(disks_rep@.push(res)) =~= ok_mask(disks_rep@).push(res is Ok));
            if res is Ok {
                assert(db0.disks + with_id(id, kept(s@.disks.take(i as int), ok_mask(disks_rep@))).push(
                    (id, s@.disks[i as int]),
                ) =~= (db0.disks + with_id(id, kept(s@.disks.take(i as int), ok_mask(disks_rep@)))).push(
                    (id, s@.disks[i as int]),
                ));
            }
        }
        disks_rep.push(res);
        i = i + 1;
    }
    proof {
        assert(s@.disks.take(s.disks.len() as int) =~= s@.disks);
    }

    let mut nets_rep: Vec<Result<(), StoreError>> = Vec::new();
    let ghost disks2 = db0.disks + with_id(id, kept(s@.disks, ok_mask(disks_rep@)));
    let mut i: usize = 0;
    while i < s.networks.len()
        invariant
            i == nets_rep.len(),
            i <= s.networks.len(),
            schema_ready(*conn) == schema_ready(*old(conn)),
            db_of(*conn) == (DbModel {
                logs: logs1,
                vitals: vitals1,
                disks: disks2,
                networks: db0.networks + with_id(
                    id,
                    kept(s@.networks.take(i as int), ok_mask(nets_rep@)),
                ),
                ..db0
            }),
        decreases s.networks.len() - i,
    {
        let res = store::insert_network_row(conn, id, &s.networks[i]);
        proof {
            lemma_kept_push(
                s@.networks.take(i as int),
                ok_mask(nets_rep@),
                s@.networks[i as int],
                res is Ok,
            );
            lemma_with_id_push(
                id,
                kept(s@.networks.take(i as int), ok_mask(nets_rep@)),
                s@.networks[i as int],
            );
            assert(s@.networks.take(i as int + 1) =~= s@.networks.take(i as int).push(
                s@.networks[i as int],
            ));
            assert(ok_mask(nets_rep@.push(res)) =~= ok_mask(nets_rep@).push(res is Ok));
            if res is Ok {
                assert(db0.networks + with_id(
                    id,
                    kept(s@.networks.take(i as int), ok_mask(nets_rep@)),
                ).push((id, s@.networks[i as int])) =~= (db0.networks + with_id(
                    id,
                    kept(s@.networks.take(i as int), ok_mask(nets_rep@)),
                )).push((id, s@.networks[i as int])));
            }
        }
        nets_rep.push(res);
        i = i + 1;
    }
    proof {
        assert(s@.networks.take(s.networks.len() as int) =~= s@.networks);
    }

    let mut comps_rep: Vec<Result<(), StoreError>> = Vec::new();
    let ghost nets2 = db0.networks + with_id(id, kept(s@.networks, ok_mask(nets_rep@)));
    let mut i: usize = 0;
    while i < s.components.len()
        invariant
            i == comps_rep.len(),
            i <= s.components.len(),
            schema_ready(*conn) == schema_ready(*old(conn)),
            db_of(*conn) == (DbModel {
                logs: logs1,
                vitals: vitals1,
                disks: disks2,
                networks: nets2,
                components: db0.components + with_id(
                    id,
                    kept(s@.components.take(i as int), ok_mask(comps_rep@)),
                ),
                ..db0
            }),
        decreases s.components.len() - i,
    {
        let res = store::insert_component_row(conn, id, &s.components[i]);
        proof {
            lemma_kept_push(
                s@.components.take(i as int),
                ok_mask(comps_rep@),
                s@.components[i as int],
                res is Ok,
            );
            lemma_with_id_push(
                id,
                kept(s@.components.take(i as int), ok_mask(comps_rep@)),
                s@.components[i as int],
            );
            assert(s@.components.take(i as int + 1) =~= s@.components.take(i as int).push(
                s@.components[i as int],
            ));
            assert(ok_mask(comps_rep@.push(res)) =~= ok_mask(comps_rep@).push(res is Ok));
            if res is Ok {
                assert(db0.components + with_id(
                    id,
                    kept(s@.components.take(i as int), ok_mask(comps_rep@)),
                ).push((id, s@.components[i as int])) =~= (db0.components + with_id(
                    id,
                    kept(s@.components.take(i as int), ok_mask(comps_rep@)),
                )).push((id, s@.components[i as int])));
            }
        }
        comps_rep.push(res);
        i = i + 1;
    }
    proof {
        assert(s@.components.take(s.components.len() as int) =~= s@.components);
    }

    let ping_rep: Option<Result<(), StoreError>> = match &s.ping {
        ProbeOutcome::Latency(p) => Some(store::insert_ping_row(conn, id, p)),
        ProbeOutcome::NotFound => None,
        ProbeOutcome::ProcessFailed(_) => None,
    };
    proof {
        match s@.ping {
            crate::records::ProbeV::Latency(p) => {
                if ping_rep == Some(Result::<(), StoreError>::Ok(())) {
                    assert(db_of(*conn).pings =~= db0.pings + crate::model::ping_added(
                        id,
                        s@.ping,
                        true,
                    ));
                }
            },
            _ => {},
        }
    }

    Ok(
        AppendReport {
            log_id: id,
            timestamp: ts,
            vitals: vitals_res,
            disks: disks_rep,
            networks: nets_rep,
            components: comps_rep,
            ping: ping_rep,
        },
    )
}

/// Reads every stored entry back, in ascending id order whatever the physical
/// row order, and joins each with its child rows: the vitals row (absent rows
/// tolerated as `None`), the full disk, network and component lists (exactly
/// the rows keyed by the entry's id, as unordered collections), and the ping
/// row, present or absent as stored. A query failure aborts the listing and
/// is surfaced.
pub fn list_entries(conn: &rusqlite::Connection) -> (r: Result<
    Vec<ReconstructedEntry>,
    StoreError,
>)
    ensures
        match r {
            Ok(v) => {
                &&& v@.map_values(|e: ReconstructedEntry| (e.id, e.timestamp)).to_multiset()
                    == db_of(*conn).logs.to_multiset()
                &&& forall|k: int|
                    0 <= k < v@.len() ==> entry_matches(db_of(*conn), (#[trigger] v@[k])@)
                &&& forall|a: int, b: int|
                    0 <= a < b < v@.len() ==> (#[trigger] v@[a]).id < (#[trigger] v@[b]).id
            },
            Err(_) => true,
        },
{
    broadcast use vstd::seq_lib::group_to_multiset_ensures;

    let logs = match store::read_log_rows(conn) {
        Ok(v) => v,
        Err(e) => {
            return Err(e);
        },
    };
    let mut out: Vec<ReconstructedEntry> = Vec::new();
    let mut i: usize = 0;
    while i < logs.len()
        invariant
            i == out.len(),
            i <= logs.len(),
            logs@.to_multiset() == db_of(*conn).logs.to_multiset(),
            forall|a: int, b: int|
                0 <= a < b < logs@.len() ==> (#[trigger] logs@[a]).0 < (#[trigger] logs@[b]).0,
            forall|k: int| 0 <= k < i ==> entry_matches(db_of(*conn), (#[trigger] out@[k])@),
            forall|k: int|
                0 <= k < i ==> ((#[trigger] out@[k]).id, out@[k].timestamp) == logs@[k],
        decreases logs.len() - i,
    {
        broadcast use vstd::seq_lib::group_to_multiset_ensures;

        let pair = logs[i];
        let id = pair.0;
        let ts = pair.1;
        let mut vlist = match store::read_vitals_for(conn, id) {
            Ok(v) => v,
            Err(e) => {
                return Err(e);
            },
        };
        let ghost vlist0 = vlist@;
        let vitals: Option<SystemVitals> = if vlist.len() > 0 {
            Some(vlist.remove(0))
        } else {
            None
        };
        proof {
            let mapped = vlist0.map_values(|x: SystemVitals| x@);
            match &vitals {
                Some(v0) => {
                    let vrows = crate::model::rows_for(db_of(*conn).vitals, id);
                    assert(mapped[0] == v0@);
                    assert(mapped.contains(v0@));
                    assert(vrows.to_multiset().contains(v0@));
                    assert(vrows.contains(v0@));
                },
                None => {
                    let vrows = crate::model::rows_for(db_of(*conn).vitals, id);
                    assert(mapped.len() == 0);
                    assert(mapped.to_multiset().len() == 0);
                    assert(vrows.to_multiset().len() == 0);
                    assert(vrows.len() == 0);
                },
            }
        }
        let disks = match store::read_disks_for(conn, id) {
            Ok(v) => v,
            Err(e) => {
                return Err(e);
            },
        };
        let networks = match store::read_networks_for(conn, id) {
            Ok(v) => v,
            Err(e) => {
                return Err(e);
            },
        };
        let components = match store::read_components_for(conn, id) {
            Ok(v) => v,
            Err(e) => {
                return Err(e);
            },
        };
        let ping = match store::read_ping_for(conn, id) {
            Ok(p) => p,
            Err(e) => {
                return Err(e);
            },
        };
        let entry = ReconstructedEntry { id, timestamp: ts, vitals, disks, networks, components, ping };
        proof {
            assert(db_of(*conn).logs.to_multiset().contains((id, ts)));
            assert(db_of(*conn).logs.contains((entry@.id, entry@.timestamp)));
            assert(entry_matches(db_of(*conn), entry@));
        }
        out.push(entry);
        i = i + 1;
    }
    proof {
        assert(out@.map_values(|e: ReconstructedEntry| (e.id, e.timestamp)) =~= logs@);
    }
    Ok(out)
}

} // verus!
