//! Plain-value model of one metrics snapshot.
//!
//! The metrics provider reads the host; what the panels actually consume is
//! modeled here as plain integers and display-ready strings, so that every
//! computation on a snapshot can be verified.  Fractional readings arrive in
//! their smallest displayed unit: core loads and charge in hundredths of a
//! percent, temperatures in tenths of a degree Celsius.

use vstd::prelude::*;

verus! {

/// Load of one processor core, in hundredths of a percent.
#[derive(Clone, Copy, Debug, PartialEq, Eq, Structural)]
pub struct CpuLoad {
    pub usage_centi: u64,
}

impl CpuLoad {
    /// A core load is a percentage: at most 100.00%.
    pub open spec fn wf(self) -> bool {
        self.usage_centi <= 10_000
    }
}

/// Every core load in range.
pub open spec fn cpus_wf(s: Seq<CpuLoad>) -> bool {
    forall|i: int| 0 <= i < s.len() ==> s[i].wf()
}

/// Aggregate memory of the host, in bytes.
#[derive(Clone, Copy, Debug, PartialEq, Eq, Structural)]
pub struct MemoryLoad {
    pub total_bytes: u64,
    pub used_bytes: u64,
}

impl MemoryLoad {
    /// A host has memory, and no more of it is used than exists; the
    /// usage gauge's fraction then lies in [0, 1].
    pub open spec fn wf(self) -> bool {
        1 <= self.total_bytes && self.used_bytes <= self.total_bytes
    }
}

/// One network interface with its byte counters.
#[derive(Clone, Debug)]
pub struct NetLoad {
    /// Interface name, as the provider reports it.
    pub name: String,
    pub received_bytes: u64,
    pub transmitted_bytes: u64,
}

/// One process.
#[derive(Clone, Debug)]
pub struct ProcLoad {
    pub pid: u64,
    /// Process name, as the provider reports it.
    pub name: String,
    pub memory_bytes: u64,
}

/// One disk.
#[derive(Clone, Debug)]
pub struct DiskLoad {
    /// Device name, rendered by the provider (quotes included).
    pub name: String,
    /// Kind of the device, rendered by the provider.
    pub kind: String,
    pub total_bytes: u64,
    pub available_bytes: u64,
}

impl DiskLoad {
    /// A disk has capacity, and no more of it is free than exists; the
    /// usage gauge's fraction then lies in [0, 1].
    pub open spec fn wf(self) -> bool {
        1 <= self.total_bytes && self.available_bytes <= self.total_bytes
    }
}

/// Every disk in range.
pub open spec fn disks_wf(s: Seq<DiskLoad>) -> bool {
    forall|i: int| 0 <= i < s.len() ==> s[i].wf()
}

/// One temperature sensor, in tenths of a degree Celsius.
#[derive(Clone, Debug)]
pub struct TempLoad {
    /// Sensor label, as the provider reports it.
    pub label: String,
    pub celsius_deci: i64,
}

impl TempLoad {
    /// The reading can be negated without overflow when it is printed
    /// with its sign.
    pub open spec fn wf(self) -> bool {
        self.celsius_deci > i64::MIN
    }
}

/// Every sensor reading in range.
pub open spec fn temps_wf(s: Seq<TempLoad>) -> bool {
    forall|i: int| 0 <= i < s.len() ==> s[i].wf()
}

/// Charging state of a battery, as the provider reports it.
#[derive(Clone, Copy, Debug, PartialEq, Eq, Structural)]
pub enum BatteryState {
    Unknown,
    Charging,
    Discharging,
    Empty,
    Full,
}

impl BatteryState {
    /// The state's display name.
    pub open spec fn name_spec(self) -> Seq<char> {
        match self {
            BatteryState::Unknown => "Unknown"@,
            BatteryState::Charging => "Charging"@,
            BatteryState::Discharging => "Discharging"@,
            BatteryState::Empty => "Empty"@,
            BatteryState::Full => "Full"@,
        }
    }

    /// The state's display name.
    pub fn name(self) -> (s: &'static str)
        ensures
            s@ == self.name_spec(),
    {
        match self {
            BatteryState::Unknown => "Unknown",
            BatteryState::Charging => "Charging",
            BatteryState::Discharging => "Discharging",
            BatteryState::Empty => "Empty",
            BatteryState::Full => "Full",
        }
    }
}

/// One battery: its state and its charge as a fraction of full, in
/// ten-thousandths (so the charge percentage carries two decimals).
#[derive(Clone, Copy, Debug, PartialEq, Eq, Structural)]
pub struct BatteryLoad {
    pub state: BatteryState,
    pub charge_permyriad: u64,
}

impl BatteryLoad {
    /// A charge is a fraction of full: at most 100.00%.
    pub open spec fn wf(self) -> bool {
        self.charge_permyriad <= 10_000
    }
}

/// Every battery charge in range.
pub open spec fn batteries_wf(s: Seq<BatteryLoad>) -> bool {
    forall|i: int| 0 <= i < s.len() ==> s[i].wf()
}

/// A point-in-time read of the host, requested fresh each render cycle.
/// Only the active tab's category is consulted, so a provider may fill the
/// rest with empty lists.
#[derive(Clone, Debug)]
pub struct Snapshot {
    pub cpus: Vec<CpuLoad>,
    pub memory: MemoryLoad,
    pub networks: Vec<NetLoad>,
    pub processes: Vec<ProcLoad>,
    pub disks: Vec<DiskLoad>,
    pub temperatures: Vec<TempLoad>,
    pub batteries: Vec<BatteryLoad>,
}

} // verus!
