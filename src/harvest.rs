use vstd::prelude::*;
use sys_metrics::cpu::{CpuStats, CpuTimes, LoadAvg};
use sys_metrics::disks::IoBlock;
use sys_metrics::memory::Swap;
use sys_metrics::network::IoNet;
use chrono::NaiveDateTime;
use crate::models::Disks;

verus! {

// The host readers' values are carried through a snapshot untouched: the
// agent never looks inside them, so they stay opaque here.

/// `sys_metrics::cpu::CpuStats`, carried as read.
#[verifier::external_type_specification]
#[verifier::external_body]
pub struct ExCpuStats(CpuStats);

/// `sys_metrics::cpu::CpuTimes`, carried as read.
#[verifier::external_type_specification]
#[verifier::external_body]
pub struct ExCpuTimes(CpuTimes);

/// `sys_metrics::cpu::LoadAvg`, carried as read.
#[verifier::external_type_specification]
#[verifier::external_body]
pub struct ExLoadAvg(LoadAvg);

/// `sys_metrics::disks::IoBlock`, carried as read.
#[verifier::external_type_specification]
#[verifier::external_body]
pub struct ExIoBlock(IoBlock);

/// `sys_metrics::memory::Memory`, carried as read.
#[verifier::external_type_specification]
#[verifier::external_body]
pub struct ExMemory(sys_metrics::memory::Memory);

/// `sys_metrics::memory::Swap`, carried as read.
#[verifier::external_type_specification]
#[verifier::external_body]
pub struct ExSwap(Swap);

/// `sys_metrics::network::IoNet`, carried as read.
#[verifier::external_type_specification]
#[verifier::external_body]
pub struct ExIoNet(IoNet);

/// `chrono::NaiveDateTime`: when a snapshot was taken.
#[verifier::external_type_specification]
#[verifier::external_body]
pub struct ExNaiveDateTime(NaiveDateTime);

/// The facts about the host that do not change from one sample to the next.
pub struct HostIdentity {
    pub system: String,
    pub os_version: String,
    pub hostname: String,
}

/// What the host-wide reader returned: the uptime in seconds and the load average.
pub struct HostReading {
    pub uptime: u64,
    pub loadavg: LoadAvg,
}

/// One sample of every metric source; `None` means that the source failed.
pub struct Readings {
    pub host: Option<HostReading>,
    pub cpu_stats: Option<CpuStats>,
    pub cpu_times: Option<CpuTimes>,
    pub disks: Option<Vec<Disks>>,
    pub ioblocks: Option<Vec<IoBlock>>,
    pub memory: Option<sys_metrics::memory::Memory>,
    pub swap: Option<Swap>,
    pub ionets: Option<Vec<IoNet>>,
    /// When the sample was started.
    pub taken_at: NaiveDateTime,
}

/// One snapshot of the host, as it is buffered and shipped.
pub struct Data {
    pub system: String,
    pub os_version: String,
    pub hostname: String,
    pub uptime: i64,
    pub sync_interval: i64,
    pub cpu_stats: Option<CpuStats>,
    pub cpu_times: Option<CpuTimes>,
    pub load_avg: Option<LoadAvg>,
    pub disks: Option<Vec<Disks>>,
    pub ioblocks: Option<Vec<IoBlock>>,
    pub memory: Option<sys_metrics::memory::Memory>,
    pub swap: Option<Swap>,
    pub ionets: Option<Vec<IoNet>>,
    pub created_at: NaiveDateTime,
}

/// The uptime that a snapshot reports: the fresh one, or the last one known
/// when the host-wide reader failed.
pub open spec fn uptime_after(host: Option<HostReading>, last_uptime: i64) -> i64 {
    match host {
        Some(h) => h.uptime as i64,
        None => last_uptime,
    }
}

/// The load average that a snapshot reports: only on a refresh tick, and only
/// when the host-wide reader succeeded.
pub open spec fn load_avg_after(host: Option<HostReading>, refresh: bool) -> Option<LoadAvg> {
    match host {
        Some(h) if refresh => Some(h.loadavg),
        _ => None,
    }
}

/// The snapshot made from the host's identity and one sample of every source.
pub open spec fn snapshot_of(
    identity: HostIdentity,
    last_uptime: i64,
    sync_interval: i64,
    load_avg: bool,
    readings: Readings,
) -> Data {
    Data {
        system: identity.system,
        os_version: identity.os_version,
        hostname: identity.hostname,
        uptime: uptime_after(readings.host, last_uptime),
        sync_interval,
        cpu_stats: readings.cpu_stats,
        cpu_times: readings.cpu_times,
        load_avg: load_avg_after(readings.host, load_avg),
        disks: readings.disks,
        ioblocks: readings.ioblocks,
        memory: readings.memory,
        swap: readings.swap,
        ionets: readings.ionets,
        created_at: readings.taken_at,
    }
}

impl Data {
    /// Builds this tick's snapshot. Each source's field is present exactly when
    /// that source succeeded; a failed source never affects the other fields.
    /// The load average is kept only when `load_avg` asks for a refresh.
    pub fn eat_data(
        identity: &HostIdentity,
        last_uptime: i64,
        sync_interval: i64,
        load_avg: bool,
        readings: Readings,
    ) -> (r: Data)
        ensures
            r == snapshot_of(*identity, last_uptime, sync_interval, load_avg, readings),
    {
        let (uptime, loadavg) = match readings.host {
            Some(h) => (h.uptime as i64, if load_avg {
                Some(h.loadavg)
            } else {
                None
            }),
            None => (last_uptime, None),
        };
        Data {
            system: identity.system.clone(),
            os_version: identity.os_version.clone(),
            hostname: identity.hostname.clone(),
            uptime,
            sync_interval,
            cpu_stats: readings.cpu_stats,
            cpu_times: readings.cpu_times,
            load_avg: loadavg,
            disks: readings.disks,
            ioblocks: readings.ioblocks,
            memory: readings.memory,
            swap: readings.swap,
            ionets: readings.ionets,
            created_at: readings.taken_at,
        }
    }
}

} // verus!
