use vstd::prelude::*;

use crate::model::DbModel;
use crate::records::{ComponentRecord, DiskRecord, NetworkRecord, PingRecord, SystemVitals};
use crate::StoreError;

verus! {

// The trusted surface over the relational store. The store is a SQLite
// database reached through rusqlite; its six relations are named below as
// sequences of rows, and each wrapper states over those names what the one
// statement its body runs does to them. Everything above this file is
// verified against these contracts.

#[verifier::external_type_specification]
#[verifier::external_body]
pub struct ExConnection(rusqlite::Connection);

#[verifier::external_type_specification]
#[verifier::external_body]
pub struct ExRow<'a>(rusqlite::Row<'a>);

#[verifier::external_type_specification]
#[verifier::external_body]
pub struct ExSqlError(rusqlite::Error);

/// Whether the six relations of the schema exist in the database.
pub uninterp spec fn schema_ready(c: rusqlite::Connection) -> bool;

/// The rows of the log relation: (id, timestamp), in physical order.
pub uninterp spec fn log_rows(c: rusqlite::Connection) -> Seq<(i64, i64)>;

/// The rows of the vitals relation: (owning log id, record), in physical order.
pub uninterp spec fn vitals_rows(c: rusqlite::Connection) -> Seq<(i64, crate::records::VitalsV)>;

/// The rows of the disk relation: (owning log id, record), in physical order.
pub uninterp spec fn disk_rows(c: rusqlite::Connection) -> Seq<(i64, crate::records::DiskV)>;

/// The rows of the network relation: (owning log id, record), in physical order.
pub uninterp spec fn network_rows(c: rusqlite::Connection) -> Seq<(i64, crate::records::NetV)>;

/// The rows of the component relation: (owning log id, record), in physical order.
pub uninterp spec fn component_rows(c: rusqlite::Connection) -> Seq<(i64, crate::records::CompV)>;

/// The rows of the ping relation: (owning log id, record), in physical order.
pub uninterp spec fn ping_rows(c: rusqlite::Connection) -> Seq<(i64, crate::records::PingV)>;

/// The whole store, as one model value.
pub open spec fn db_of(c: rusqlite::Connection) -> DbModel {
    DbModel {
        logs: log_rows(c),
        vitals: vitals_rows(c),
        disks: disk_rows(c),
        networks: network_rows(c),
        components: component_rows(c),
        pings: ping_rows(c),
    }
}

/// Relies on chrono's Local::now, read as seconds since the epoch through
/// DateTime::timestamp. The moment it reports is the clock's business; no
/// caller learns anything of the value.
#[verifier::external_body]
pub(crate) fn now_seconds() -> (r: i64) {
    chrono::Local::now().timestamp()
}

/// Relies on rusqlite's Connection::execute_batch running the six CREATE
/// TABLE IF NOT EXISTS statements: existing tables and rows are left as they
/// are, and on success all six relations exist.
#[verifier::external_body]
pub(crate) fn create_schema(conn: &mut rusqlite::Connection) -> (r: Result<(), StoreError>)
    ensures
        db_of(*final(conn)) == db_of(*old(conn)),
        r is Ok ==> schema_ready(*final(conn)),
        schema_ready(*old(conn)) ==> schema_ready(*final(conn)),
{
    conn.execute_batch(
        "CREATE TABLE IF NOT EXISTS log_info (id INTEGER PRIMARY KEY, timestamp INTEGER);
         CREATE TABLE IF NOT EXISTS system_info (id INTEGER PRIMARY KEY, log_id INTEGER,
            boot_time INTEGER, uptime TEXT, total_memory INTEGER, used_memory INTEGER,
            total_swap INTEGER, used_swap INTEGER, name TEXT, kernel_version TEXT,
            os_version TEXT, host_name TEXT, cpus INTEGER, load_avg_one INTEGER,
            load_avg_five INTEGER, load_avg_fifteen INTEGER);
         CREATE TABLE IF NOT EXISTS disk_info (id INTEGER PRIMARY KEY, log_id INTEGER,
            name TEXT, file_system TEXT, mount_point TEXT, total_space INTEGER,
            available_space INTEGER);
         CREATE TABLE IF NOT EXISTS network_info (id INTEGER PRIMARY KEY, log_id INTEGER,
            interface_name TEXT, total_received INTEGER, total_transmitted INTEGER);
         CREATE TABLE IF NOT EXISTS component_info (id INTEGER PRIMARY KEY, log_id INTEGER,
            temperature INTEGER, max INTEGER, critical INTEGER, label TEXT);
         CREATE TABLE IF NOT EXISTS ping_times (id INTEGER PRIMARY KEY, log_id INTEGER,
            host TEXT, time INTEGER);",
    ).map_err(|e| StoreError { text: e.to_string() })
}

/// Relies on rusqlite's Connection::query_row running one INSERT .. RETURNING
/// on the log relation: on success exactly one row was added, holding the
/// given timestamp and an id that SQLite assigned, distinct from the id of
/// every row already in the relation (the id column is its INTEGER PRIMARY
/// KEY); on failure nothing changed.
#[verifier::external_body]
pub(crate) fn insert_log_row(conn: &mut rusqlite::Connection, ts: i64) -> (r: Result<
    i64,
    StoreError,
>)
    ensures
        schema_ready(*final(conn)) == schema_ready(*old(conn)),
        match r {
            Ok(id) => {
                &&& db_of(*final(conn)) == (DbModel {
                    logs: db_of(*old(conn)).logs.push((id, ts)),
                    ..db_of(*old(conn))
                })
                &&& forall|j: int|
                    0 <= j < db_of(*old(conn)).logs.len() ==> (#[trigger] db_of(
                        *old(conn),
                    ).logs[j]).0 != id
            },
            Err(_) => db_of(*final(conn)) == db_of(*old(conn)),
        },
{
    conn.query_row(
        "INSERT INTO log_info (timestamp) VALUES (?1) RETURNING id",
        (ts,),
        |row| row.get(0),
    ).map_err(|e| StoreError { text: e.to_string() })
}

/// Relies on rusqlite's Connection::execute running one INSERT on the vitals
/// relation: on success exactly the given row was added under the given log
/// id; on failure (the statement or a parameter binding) nothing changed.
#[verifier::external_body]
pub(crate) fn insert_vitals_row(
    conn: &mut rusqlite::Connection,
    id: i64,
    v: &SystemVitals,
) -> (r: Result<(), StoreError>)
    ensures
        schema_ready(*final(conn)) == schema_ready(*old(conn)),
        match r {
            Ok(_) => db_of(*final(conn)) == (DbModel {
                vitals: db_of(*old(conn)).vitals.push((id, v@)),
                ..db_of(*old(conn))
            }),
            Err(_) => db_of(*final(conn)) == db_of(*old(conn)),
        },
{
    conn.execute(
        "INSERT INTO system_info (log_id, boot_time, uptime, total_memory, used_memory,
            total_swap, used_swap, name, kernel_version, os_version, host_name, cpus,
            load_avg_one, load_avg_five, load_avg_fifteen)
         VALUES (?1, ?2, ?3, ?4, ?5, ?6, ?7, ?8, ?9, ?10, ?11, ?12, ?13, ?14, ?15)",
        (
            id, v.boot_time, &v.uptime, v.total_memory, v.used_memory, v.total_swap,
            v.used_swap, &v.name, &v.kernel_version, &v.os_version, &v.host_name, v.cpus,
            v.load_one, v.load_five, v.load_fifteen,
        ),
    ).map(|_| ()).map_err(|e| StoreError { text: e.to_string() })
}

/// Relies on rusqlite's Connection::execute running one INSERT on the disk
/// relation: on success exactly the given row was added under the given log
/// id; on failure (the statement or a parameter binding) nothing changed.
#[verifier::external_body]
pub(crate) fn insert_disk_row(conn: &mut rusqlite::Connection, id: i64, d: &DiskRecord) -> (r:
    Result<(), StoreError>)
    ensures
        schema_ready(*final(conn)) == schema_ready(*old(conn)),
        match r {
            Ok(_) => db_of(*final(conn)) == (DbModel {
                disks: db_of(*old(conn)).disks.push((id, d@)),
                ..db_of(*old(conn))
            }),
            Err(_) => db_of(*final(conn)) == db_of(*old(conn)),
        },
{
    conn.execute(
        "INSERT INTO disk_info (log_id, name, file_system, mount_point, total_space,
            available_space) VALUES (?1, ?2, ?3, ?4, ?5, ?6)",
        (id, &d.name, &d.file_system, &d.mount_point, d.total_space, d.available_space),
    ).map(|_| ()).map_err(|e| StoreError { text: e.to_string() })
}

/// Relies on rusqlite's Connection::execute running one INSERT on the network
/// relation: on success exactly the given row was added under the given log
/// id; on failure (the statement or a parameter binding) nothing changed.
#[verifier::external_body]
pub(crate) fn insert_network_row(
    conn: &mut rusqlite::Connection,
    id: i64,
    n: &NetworkRecord,
) -> (r: Result<(), StoreError>)
    ensures
        schema_ready(*final(conn)) == schema_ready(*old(conn)),
        match r {
            Ok(_) => db_of(*final(conn)) == (DbModel {
                networks: db_of(*old(conn)).networks.push((id, n@)),
                ..db_of(*old(conn))
            }),
            Err(_) => db_of(*final(conn)) == db_of(*old(conn)),
        },
{
    conn.execute(
        "INSERT INTO network_info (log_id, interface_name, total_received, total_transmitted)
         VALUES (?1, ?2, ?3, ?4)",
        (id, &n.interface_name, n.total_received, n.total_transmitted),
    ).map(|_| ()).map_err(|e| StoreError { text: e.to_string() })
}

/// Relies on rusqlite's Connection::execute running one INSERT on the
/// component relation, binding an absent critical threshold as NULL: on
/// success exactly the given row was added under the given log id; on failure
/// nothing changed.
#[verifier::external_body]
pub(crate) fn insert_component_row(
    conn: &mut rusqlite::Connection,
    id: i64,
    c: &ComponentRecord,
) -> (r: Result<(), StoreError>)
    ensures
        schema_ready(*final(conn)) == schema_ready(*old(conn)),
        match r {
            Ok(_) => db_of(*final(conn)) == (DbModel {
                components: db_of(*old(conn)).components.push((id, c@)),
                ..db_of(*old(conn))
            }),
            Err(_) => db_of(*final(conn)) == db_of(*old(conn)),
        },
{
    conn.execute(
        "INSERT INTO component_info (log_id, temperature, max, critical, label)
         VALUES (?1, ?2, ?3, ?4, ?5)",
        (id, c.temperature, c.max, c.critical, &c.label),
    ).map(|_| ()).map_err(|e| StoreError { text: e.to_string() })
}

/// Relies on rusqlite's Connection::execute running one INSERT on the ping
/// relation: on success exactly the given row was added under the given log
/// id; on failure (the statement or a parameter binding) nothing changed.
#[verifier::external_body]
pub(crate) fn insert_ping_row(conn: &mut rusqlite::Connection, id: i64, p: &PingRecord) -> (r:
    Result<(), StoreError>)
    ensures
        schema_ready(*final(conn)) == schema_ready(*old(conn)),
        match r {
            Ok(_) => db_of(*final(conn)) == (DbModel {
                pings: db_of(*old(conn)).pings.push((id, p@)),
                ..db_of(*old(conn))
            }),
            Err(_) => db_of(*final(conn)) == db_of(*old(conn)),
        },
{
    conn.execute(
        "INSERT INTO ping_times (log_id, host, time) VALUES (?1, ?2, ?3)",
        (id, &p.host, p.time_micros),
    ).map(|_| ()).map_err(|e| StoreError { text: e.to_string() })
}

/// Relies on rusqlite's Connection::prepare and Statement::query_map running
/// one SELECT .. ORDER BY id ASC over the log relation: on success the result
/// holds exactly the relation's rows, in strictly ascending id order (the id
/// column is the relation's INTEGER PRIMARY KEY, so ids are distinct).
#[verifier::external_body]
pub(crate) fn read_log_rows(conn: &rusqlite::Connection) -> (r: Result<
    Vec<(i64, i64)>,
    StoreError,
>)
    ensures
        match r {
            Ok(v) => {
                &&& v@.to_multiset() == log_rows(*conn).to_multiset()
                &&& forall|i: int, j: int|
                    0 <= i < j < v@.len() ==> (#[trigger] v@[i]).0 < (#[trigger] v@[j]).0
            },
            Err(_) => true,
        },
{
    let go = || -> rusqlite::Result<Vec<(i64, i64)>> {
        let mut st = conn.prepare("SELECT id, timestamp FROM log_info ORDER BY id ASC")?;
        let rows = st.query_map([], |row| Ok((row.get(0)?, row.get(1)?)))?;
        rows.collect()
    };
    go().map_err(|e| StoreError { text: e.to_string() })
}

/// Relies on rusqlite's Connection::prepare and Statement::query_map running
/// one SELECT over the vitals relation: on success the result holds exactly
/// the rows keyed by the given log id, in an order the store does not
/// promise.
#[verifier::external_body]
pub(crate) fn read_vitals_for(conn: &rusqlite::Connection, id: i64) -> (r: Result<
    Vec<SystemVitals>,
    StoreError,
>)
    ensures
        match r {
            Ok(v) => v@.map_values(|x: SystemVitals| x@).to_multiset() == crate::model::rows_for(
                vitals_rows(*conn),
                id,
            ).to_multiset(),
            Err(_) => true,
        },
{
    let go = || -> rusqlite::Result<Vec<SystemVitals>> {
        let mut st = conn.prepare(
            "SELECT boot_time, uptime, total_memory, used_memory, total_swap, used_swap, name,
             kernel_version, os_version, host_name, cpus, load_avg_one, load_avg_five,
             load_avg_fifteen FROM system_info WHERE log_id = ?1",
        )?;
        let rows = st.query_map([id], |r| vitals_from_row(r))?;
        rows.collect()
    };
    go().map_err(|e| StoreError { text: e.to_string() })
}

/// Relies on rusqlite's Row::get, reading the fourteen vitals columns of one
/// row in the order the vitals SELECT names them. Nothing is assumed of the
/// values; the caller's contract covers them.
#[verifier::external_body]
fn vitals_from_row(r: &rusqlite::Row<'_>) -> (v: Result<SystemVitals, rusqlite::Error>) {
    Ok(SystemVitals {
        boot_time: r.get(0)?, uptime: r.get(1)?, total_memory: r.get(2)?,
        used_memory: r.get(3)?, total_swap: r.get(4)?, used_swap: r.get(5)?,
        name: r.get(6)?, kernel_version: r.get(7)?, os_version: r.get(8)?,
        host_name: r.get(9)?, cpus: r.get(10)?, load_one: r.get(11)?,
        load_five: r.get(12)?, load_fifteen: r.get(13)?,
    })
}

/// Relies on rusqlite's Connection::prepare and Statement::query_map running
/// one SELECT over the disk relation: on success the result holds exactly the
/// rows keyed by the given log id, in an order the store does not promise.
#[verifier::external_body]
pub(crate) fn read_disks_for(conn: &rusqlite::Connection, id: i64) -> (r: Result<
    Vec<DiskRecord>,
    StoreError,
>)
    ensures
        match r {
            Ok(v) => v@.map_values(|x: DiskRecord| x@).to_multiset() == crate::model::rows_for(
                disk_rows(*conn),
                id,
            ).to_multiset(),
            Err(_) => true,
        },
{
    let go = || -> rusqlite::Result<Vec<DiskRecord>> {
        let mut st = conn.prepare(
            "SELECT name, file_system, mount_point, total_space, available_space
             FROM disk_info WHERE log_id = ?1",
        )?;
        let rows = st.query_map([id], |r| Ok(DiskRecord {
            name: r.get(0)?, file_system: r.get(1)?, mount_point: r.get(2)?,
            total_space: r.get(3)?, available_space: r.get(4)?,
        }))?;
        rows.collect()
    };
    go().map_err(|e| StoreError { text: e.to_string() })
}

/// Relies on rusqlite's Connection::prepare and Statement::query_map running
/// one SELECT over the network relation: on success the result holds exactly
/// the rows keyed by the given log id, in an order the store does not
/// promise.
#[verifier::external_body]
pub(crate) fn read_networks_for(conn: &rusqlite::Connection, id: i64) -> (r: Result<
    Vec<NetworkRecord>,
    StoreError,
>)
    ensures
        match r {
            Ok(v) => v@.map_values(|x: NetworkRecord| x@).to_multiset() == crate::model::rows_for(
                network_rows(*conn),
                id,
            ).to_multiset(),
            Err(_) => true,
        },
{
    let go = || -> rusqlite::Result<Vec<NetworkRecord>> {
        let mut st = conn.prepare(
            "SELECT interface_name, total_received, total_transmitted
             FROM network_info WHERE log_id = ?1",
        )?;
        let rows = st.query_map([id], |r| Ok(NetworkRecord {
            interface_name: r.get(0)?, total_received: r.get(1)?, total_transmitted: r.get(2)?,
        }))?;
        rows.collect()
    };
    go().map_err(|e| StoreError { text: e.to_string() })
}

/// Relies on rusqlite's Connection::prepare and Statement::query_map running
/// one SELECT over the component relation, reading a NULL critical threshold
/// back as absent: on success the result holds exactly the rows keyed by the
/// given log id, in an order the store does not promise.
#[verifier::external_body]
pub(crate) fn read_components_for(conn: &rusqlite::Connection, id: i64) -> (r: Result<
    Vec<ComponentRecord>,
    StoreError,
>)
    ensures
        match r {
            Ok(v) => v@.map_values(|x: ComponentRecord| x@).to_multiset()
                == crate::model::rows_for(component_rows(*conn), id).to_multiset(),
            Err(_) => true,
        },
{
    let go = || -> rusqlite::Result<Vec<ComponentRecord>> {
        let mut st = conn.prepare(
            "SELECT temperature, max, critical, label FROM component_info WHERE log_id = ?1",
        )?;
        let rows = st.query_map([id], |r| Ok(ComponentRecord {
            temperature: r.get(0)?, max: r.get(1)?, critical: r.get(2)?, label: r.get(3)?,
        }))?;
        rows.collect()
    };
    go().map_err(|e| StoreError { text: e.to_string() })
}

/// Relies on rusqlite's Connection::query_row running one SELECT .. LIMIT 1
/// over the ping relation: on success the result is absent exactly when no
/// row is keyed by the given log id, and otherwise is one of the rows so
/// keyed.
#[verifier::external_body]
pub(crate) fn read_ping_for(conn: &rusqlite::Connection, id: i64) -> (r: Result<
    Option<PingRecord>,
    StoreError,
>)
    ensures
        match r {
            Ok(p) => match p {
                None => crate::model::rows_for(ping_rows(*conn), id).len() == 0,
                Some(q) => crate::model::rows_for(ping_rows(*conn), id).contains(q@),
            },
            Err(_) => true,
        },
{
    let r = conn.query_row(
        "SELECT host, time FROM ping_times WHERE log_id = ?1 LIMIT 1",
        (id,),
        |row| Ok(PingRecord { host: row.get(0)?, time_micros: row.get(1)? }),
    );
    match r {
        Ok(p) => Ok(Some(p)),
        Err(rusqlite::Error::QueryReturnedNoRows) => Ok(None),
        Err(e) => Err(StoreError { text: e.to_string() }),
    }
}

} // verus!
