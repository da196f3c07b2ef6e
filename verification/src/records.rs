use vstd::prelude::*;

verus! {

// The typed records of one snapshot. Quantities that the host reports as
// fractional values (load averages, temperatures, the probe latency) are
// carried as fixed-point integers in thousandths of their unit, so that
// every field is an exact, comparable value: a load average of 0.52 is 520,
// a latency of 13.482 ms is 13482 microseconds.

/// The singleton vitals of one snapshot: memory, swap, identity strings,
/// CPU count and the three load averages (in thousandths).
#[derive(Clone, Debug, PartialEq)]
pub struct SystemVitals {
    pub boot_time: u64,
    pub uptime: String,
    pub total_memory: u64,
    pub used_memory: u64,
    pub total_swap: u64,
    pub used_swap: u64,
    pub name: String,
    pub kernel_version: String,
    pub os_version: String,
    pub host_name: String,
    pub cpus: u64,
    pub load_one: u64,
    pub load_five: u64,
    pub load_fifteen: u64,
}

/// Mathematical image of `SystemVitals`.
pub ghost struct VitalsV {
    pub boot_time: u64,
    pub uptime: Seq<char>,
    pub total_memory: u64,
    pub used_memory: u64,
    pub total_swap: u64,
    pub used_swap: u64,
    pub name: Seq<char>,
    pub kernel_version: Seq<char>,
    pub os_version: Seq<char>,
    pub host_name: Seq<char>,
    pub cpus: u64,
    pub load_one: u64,
    pub load_five: u64,
    pub load_fifteen: u64,
}

impl View for SystemVitals {
    type V = VitalsV;

    open spec fn view(&self) -> VitalsV {
        VitalsV {
            boot_time: self.boot_time,
            uptime: self.uptime@,
            total_memory: self.total_memory,
            used_memory: self.used_memory,
            total_swap: self.total_swap,
            used_swap: self.used_swap,
            name: self.name@,
            kernel_version: self.kernel_version@,
            os_version: self.os_version@,
            host_name: self.host_name@,
            cpus: self.cpus,
            load_one: self.load_one,
            load_five: self.load_five,
            load_fifteen: self.load_fifteen,
        }
    }
}

/// One mounted volume observed at sample time.
#[derive(Clone, Debug, PartialEq)]
pub struct DiskRecord {
    pub name: String,
    pub file_system: String,
    pub mount_point: String,
    pub total_space: u64,
    pub available_space: u64,
}

/// Mathematical image of `DiskRecord`.
pub ghost struct DiskV {
    pub name: Seq<char>,
    pub file_system: Seq<char>,
    pub mount_point: Seq<char>,
    pub total_space: u64,
    pub available_space: u64,
}

impl View for DiskRecord {
    type V = DiskV;

    open spec fn view(&self) -> DiskV {
        DiskV {
            name: self.name@,
            file_system: self.file_system@,
            mount_point: self.mount_point@,
            total_space: self.total_space,
            available_space: self.available_space,
        }
    }
}

/// One network interface with its cumulative-since-boot counters.
#[derive(Clone, Debug, PartialEq)]
pub struct NetworkRecord {
    pub interface_name: String,
    pub total_received: u64,
    pub total_transmitted: u64,
}

/// Mathematical image of `NetworkRecord`.
pub ghost struct NetV {
    pub interface_name: Seq<char>,
    pub total_received: u64,
    pub total_transmitted: u64,
}

impl View for NetworkRecord {
    type V = NetV;

    open spec fn view(&self) -> NetV {
        NetV {
            interface_name: self.interface_name@,
            total_received: self.total_received,
            total_transmitted: self.total_transmitted,
        }
    }
}

/// One thermal sensor. Temperatures are in thousandths of a degree; a sensor
/// without a critical threshold carries `None`, which the store keeps apart
/// from an explicit threshold of zero.
#[derive(Clone, Debug, PartialEq)]
pub struct ComponentRecord {
    pub temperature: i64,
    pub max: i64,
    pub critical: Option<i64>,
    pub label: String,
}

/// Mathematical image of `ComponentRecord`.
pub ghost struct CompV {
    pub temperature: i64,
    pub max: i64,
    pub critical: Option<i64>,
    pub label: Seq<char>,
}

impl View for ComponentRecord {
    type V = CompV;

    open spec fn view(&self) -> CompV {
        CompV {
            temperature: self.temperature,
            max: self.max,
            critical: self.critical,
            label: self.label@,
        }
    }
}

/// One successful reachability probe: the target and the round trip, in
/// microseconds (thousandths of a millisecond).
#[derive(Clone, Debug, PartialEq)]
pub struct PingRecord {
    pub host: String,
    pub time_micros: u64,
}

/// Mathematical image of `PingRecord`.
pub ghost struct PingV {
    pub host: Seq<char>,
    pub time_micros: u64,
}

impl View for PingRecord {
    type V = PingV;

    open spec fn view(&self) -> PingV {
        PingV { host: self.host@, time_micros: self.time_micros }
    }
}

/// The three distinguishable outcomes of the reachability probe: a latency
/// was measured, the probe ran but its output held no latency token, or the
/// probe process itself failed.
#[derive(Clone, Debug, PartialEq)]
pub enum ProbeOutcome {
    Latency(PingRecord),
    NotFound,
    ProcessFailed(String),
}

/// Mathematical image of `ProbeOutcome`.
pub ghost enum ProbeV {
    Latency(PingV),
    NotFound,
    ProcessFailed(Seq<char>),
}

impl View for ProbeOutcome {
    type V = ProbeV;

    open spec fn view(&self) -> ProbeV {
        match self {
            ProbeOutcome::Latency(p) => ProbeV::Latency(p@),
            ProbeOutcome::NotFound => ProbeV::NotFound,
            ProbeOutcome::ProcessFailed(s) => ProbeV::ProcessFailed(s@),
        }
    }
}

/// One complete, point-in-time bundle of all measured sub-metrics, before
/// persistence.
#[derive(Clone, Debug, PartialEq)]
pub struct Snapshot {
    pub vitals: SystemVitals,
    pub disks: Vec<DiskRecord>,
    pub networks: Vec<NetworkRecord>,
    pub components: Vec<ComponentRecord>,
    pub ping: ProbeOutcome,
}

/// Mathematical image of `Snapshot`.
pub ghost struct SnapshotV {
    pub vitals: VitalsV,
    pub disks: Seq<DiskV>,
    pub networks: Seq<NetV>,
    pub components: Seq<CompV>,
    pub ping: ProbeV,
}

impl View for Snapshot {
    type V = SnapshotV;

    open spec fn view(&self) -> SnapshotV {
        SnapshotV {
            vitals: self.vitals@,
            disks: self.disks@.map_values(|d: DiskRecord| d@),
            networks: self.networks@.map_values(|n: NetworkRecord| n@),
            components: self.components@.map_values(|c: ComponentRecord| c@),
            ping: self.ping@,
        }
    }
}

/// One stored log entry joined back into the shape of the snapshot it came
/// from. The vitals row is expected to exist but its absence is tolerated as
/// `None`; the ping row is read as present or absent, never defaulted.
#[derive(Clone, Debug, PartialEq)]
pub struct ReconstructedEntry {
    pub id: i64,
    pub timestamp: i64,
    pub vitals: Option<SystemVitals>,
    pub disks: Vec<DiskRecord>,
    pub networks: Vec<NetworkRecord>,
    pub components: Vec<ComponentRecord>,
    pub ping: Option<PingRecord>,
}

/// Mathematical image of `ReconstructedEntry`.
pub ghost struct EntryV {
    pub id: i64,
    pub timestamp: i64,
    pub vitals: Option<VitalsV>,
    pub disks: Seq<DiskV>,
    pub networks: Seq<NetV>,
    pub components: Seq<CompV>,
    pub ping: Option<PingV>,
}

impl View for ReconstructedEntry {
    type V = EntryV;

    open spec fn view(&self) -> EntryV {
        EntryV {
            id: self.id,
            timestamp: self.timestamp,
            vitals: match self.vitals {
                Some(v) => Some(v@),
                None => None,
            },
            disks: self.disks@.map_values(|d: DiskRecord| d@),
            networks: self.networks@.map_values(|n: NetworkRecord| n@),
            components: self.components@.map_values(|c: ComponentRecord| c@),
            ping: match self.ping {
                Some(p) => Some(p@),
                None => None,
            },
        }
    }
}

/// Combines the metric source's outputs and the probe outcome into one
/// snapshot, exactly as handed in: the assembler retries nothing and filters
/// nothing, and a failed probe is captured, not escalated.
pub fn assemble(
    vitals: SystemVitals,
    disks: Vec<DiskRecord>,
    networks: Vec<NetworkRecord>,
    components: Vec<ComponentRecord>,
    ping: ProbeOutcome,
) -> (s: Snapshot)
    ensures
        s.vitals == vitals,
        s.disks == disks,
        s.networks == networks,
        s.components == components,
        s.ping == ping,
{
    Snapshot { vitals, disks, networks, components, ping }
}

} // verus!
