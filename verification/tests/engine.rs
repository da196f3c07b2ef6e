use monitr::engine::{append, ensure_schema, list_entries};
use monitr::records::{
    assemble, ComponentRecord, DiskRecord, NetworkRecord, PingRecord, ProbeOutcome, Snapshot,
    SystemVitals,
};

fn vitals(total_memory: u64) -> SystemVitals {
    SystemVitals {
        boot_time: 1700000000,
        uptime: String::from("2d 3h 4m"),
        total_memory,
        used_memory: 8000000000,
        total_swap: 2000000000,
        used_swap: 100000000,
        name: String::from("linux"),
        kernel_version: String::from("6.1.0"),
        os_version: String::from("12"),
        host_name: String::from("box"),
        cpus: 8,
        load_one: 520,
        load_five: 410,
        load_fifteen: 330,
    }
}

fn disk(name: &str, total_space: u64, available_space: u64) -> DiskRecord {
    DiskRecord {
        name: String::from(name),
        file_system: String::from("ext4"),
        mount_point: String::from("/"),
        total_space,
        available_space,
    }
}

fn open_store() -> rusqlite::Connection {
    let mut conn = rusqlite::Connection::open_in_memory().unwrap();
    ensure_schema(&mut conn).unwrap();
    conn
}

#[test]
fn schema_setup_is_idempotent() {
    let mut conn = rusqlite::Connection::open_in_memory().unwrap();
    ensure_schema(&mut conn).unwrap();
    ensure_schema(&mut conn).unwrap();
    ensure_schema(&mut conn).unwrap();
    // The store works exactly as after one setup.
    let s = assemble(vitals(1), vec![], vec![], vec![], ProbeOutcome::NotFound);
    let rep = append(&mut conn, &s).unwrap();
    let entries = list_entries(&conn).unwrap();
    assert_eq!(entries.len(), 1);
    assert_eq!(entries[0].id, rep.log_id);
}

#[test]
fn schema_setup_keeps_stored_rows() {
    let mut conn = open_store();
    let s = assemble(vitals(1), vec![], vec![], vec![], ProbeOutcome::NotFound);
    append(&mut conn, &s).unwrap();
    ensure_schema(&mut conn).unwrap();
    let entries = list_entries(&conn).unwrap();
    assert_eq!(entries.len(), 1);
}

#[test]
fn end_to_end_example() {
    let mut conn = open_store();
    let s = assemble(
        vitals(16000000000),
        vec![disk("disk0", 500000000000, 200000000000)],
        vec![],
        vec![],
        ProbeOutcome::Latency(PingRecord {
            host: String::from("1.1.1.1"),
            time_micros: 12300,
        }),
    );
    let rep = append(&mut conn, &s).unwrap();
    assert!(rep.vitals.is_ok());
    assert_eq!(rep.disks.len(), 1);
    assert!(rep.disks[0].is_ok());
    assert!(rep.ping.as_ref().unwrap().is_ok());

    let entries = list_entries(&conn).unwrap();
    assert_eq!(entries.len(), 1);
    let e = &entries[0];
    assert_eq!(e.id, rep.log_id);
    let v = e.vitals.as_ref().unwrap();
    assert_eq!(v.total_memory, 16000000000);
    assert_eq!(e.disks.len(), 1);
    assert_eq!(e.disks[0].name, "disk0");
    assert_eq!(e.disks[0].total_space, 500000000000);
    assert_eq!(e.disks[0].available_space, 200000000000);
    assert!(e.networks.is_empty());
    assert!(e.components.is_empty());
    let p = e.ping.as_ref().unwrap();
    assert_eq!(p.host, "1.1.1.1");
    assert_eq!(p.time_micros, 12300);
}

#[test]
fn round_trip_preserves_every_field() {
    let mut conn = open_store();
    let s = assemble(
        vitals(32000000000),
        vec![disk("a", 10, 5), disk("b", 20, 6)],
        vec![
            NetworkRecord {
                interface_name: String::from("eth0"),
                total_received: 123456,
                total_transmitted: 654321,
            },
            NetworkRecord {
                interface_name: String::from("lo"),
                total_received: 42,
                total_transmitted: 42,
            },
        ],
        vec![
            ComponentRecord {
                temperature: 45500,
                max: 70000,
                critical: Some(95000),
                label: String::from("cpu"),
            },
            ComponentRecord {
                temperature: -5000,
                max: 10000,
                critical: None,
                label: String::from("freezer"),
            },
        ],
        ProbeOutcome::Latency(PingRecord {
            host: String::from("1.1.1.1"),
            time_micros: 13482,
        }),
    );
    let rep = append(&mut conn, &s).unwrap();
    let entries = list_entries(&conn).unwrap();
    assert_eq!(entries.len(), 1);
    let e = &entries[0];
    assert_eq!(e.id, rep.log_id);
    assert_eq!(e.timestamp, rep.timestamp);
    assert_eq!(e.vitals.as_ref().unwrap(), &s.vitals);
    // The child lists come back as unordered collections.
    assert_eq!(e.disks.len(), 2);
    for d in &s.disks {
        assert!(e.disks.contains(d));
    }
    assert_eq!(e.networks.len(), 2);
    for n in &s.networks {
        assert!(e.networks.contains(n));
    }
    assert_eq!(e.components.len(), 2);
    for c in &s.components {
        assert!(e.components.contains(c));
    }
    match &s.ping {
        ProbeOutcome::Latency(p) => assert_eq!(e.ping.as_ref().unwrap(), p),
        _ => unreachable!(),
    }
}

#[test]
fn absent_threshold_stays_apart_from_zero() {
    let mut conn = open_store();
    let s = assemble(
        vitals(1),
        vec![],
        vec![],
        vec![
            ComponentRecord {
                temperature: 1000,
                max: 2000,
                critical: None,
                label: String::from("no threshold"),
            },
            ComponentRecord {
                temperature: 1000,
                max: 2000,
                critical: Some(0),
                label: String::from("zero threshold"),
            },
        ],
        ProbeOutcome::NotFound,
    );
    append(&mut conn, &s).unwrap();
    let entries = list_entries(&conn).unwrap();
    let comps = &entries[0].components;
    let none = comps.iter().find(|c| c.label == "no threshold").unwrap();
    let zero = comps.iter().find(|c| c.label == "zero threshold").unwrap();
    assert_eq!(none.critical, None);
    assert_eq!(zero.critical, Some(0));
    assert_ne!(none.critical, zero.critical);
}

#[test]
fn failed_probe_leaves_ping_absent() {
    let mut conn = open_store();
    let s = assemble(
        vitals(1),
        vec![disk("a", 1, 1)],
        vec![],
        vec![],
        ProbeOutcome::ProcessFailed(String::from("unreachable")),
    );
    let rep = append(&mut conn, &s).unwrap();
    assert!(rep.ping.is_none());
    let entries = list_entries(&conn).unwrap();
    assert_eq!(entries[0].ping, None);
    assert_eq!(entries[0].disks.len(), 1);
}

#[test]
fn missing_token_leaves_ping_absent() {
    let mut conn = open_store();
    let s = assemble(vitals(1), vec![], vec![], vec![], ProbeOutcome::NotFound);
    let rep = append(&mut conn, &s).unwrap();
    assert!(rep.ping.is_none());
    let entries = list_entries(&conn).unwrap();
    assert_eq!(entries[0].ping, None);
}

#[test]
fn one_bad_child_does_not_lose_the_rest() {
    let mut conn = open_store();
    // A disk whose size cannot be bound as a SQLite integer: its insert
    // fails, the others go through.
    let s = assemble(
        vitals(1),
        vec![disk("bad", u64::MAX, 1), disk("good", 100, 50)],
        vec![NetworkRecord {
            interface_name: String::from("eth0"),
            total_received: 1,
            total_transmitted: 2,
        }],
        vec![ComponentRecord {
            temperature: 100,
            max: 200,
            critical: None,
            label: String::from("cpu"),
        }],
        ProbeOutcome::Latency(PingRecord {
            host: String::from("1.1.1.1"),
            time_micros: 1500,
        }),
    );
    let rep = append(&mut conn, &s).unwrap();
    assert!(rep.disks[0].is_err());
    assert!(rep.disks[1].is_ok());
    assert!(rep.networks[0].is_ok());
    assert!(rep.components[0].is_ok());

    let entries = list_entries(&conn).unwrap();
    assert_eq!(entries.len(), 1);
    let e = &entries[0];
    assert_eq!(e.id, rep.log_id);
    assert_eq!(e.disks.len(), 1);
    assert_eq!(e.disks[0].name, "good");
    assert_eq!(e.networks.len(), 1);
    assert_eq!(e.components.len(), 1);
    assert!(e.ping.is_some());
}

#[test]
fn entries_come_back_in_ascending_id_order() {
    let mut conn = open_store();
    for k in 0..4u64 {
        let s = assemble(vitals(k), vec![], vec![], vec![], ProbeOutcome::NotFound);
        append(&mut conn, &s).unwrap();
    }
    let entries = list_entries(&conn).unwrap();
    assert_eq!(entries.len(), 4);
    for w in entries.windows(2) {
        assert!(w[0].id < w[1].id);
    }
    // Each entry keeps its own vitals.
    for (k, e) in entries.iter().enumerate() {
        assert_eq!(e.vitals.as_ref().unwrap().total_memory, k as u64);
    }
}

#[test]
fn append_without_schema_surfaces_the_error() {
    let mut conn = rusqlite::Connection::open_in_memory().unwrap();
    let s = assemble(vitals(1), vec![], vec![], vec![], ProbeOutcome::NotFound);
    let r = append(&mut conn, &s);
    assert!(r.is_err());
    assert!(!r.err().unwrap().detail().is_empty());
}

#[test]
fn vitals_absence_is_tolerated_on_read() {
    let mut conn = open_store();
    // A root row written by an interrupted cycle, with no children at all.
    conn.execute("INSERT INTO log_info (timestamp) VALUES (1)", [])
        .unwrap();
    let entries = list_entries(&conn).unwrap();
    assert_eq!(entries.len(), 1);
    assert!(entries[0].vitals.is_none());
    assert!(entries[0].disks.is_empty());
    assert!(entries[0].ping.is_none());
}
