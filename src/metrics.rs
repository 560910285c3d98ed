use vstd::prelude::*;

verus! {

/// A percentage as the metric widgets display it.
pub type Percent = u8;

/// Cumulative CPU tick counters of the whole machine.
#[derive(Clone, Copy, Debug, PartialEq, Eq, Structural)]
pub struct CpuTimes {
    pub user: u64,
    pub nice: u64,
    pub system: u64,
    pub idle: u64,
    pub iowait: Option<u64>,
    pub irq: Option<u64>,
    pub softirq: Option<u64>,
    pub steal: Option<u64>,
    pub guest: Option<u64>,
    pub guest_nice: Option<u64>,
}

/// Share of the ticks between two readings spent in each state.
#[derive(Clone, Copy, Debug, PartialEq, Eq, Structural)]
pub struct CPUSample {
    pub idle: Percent,
    pub user: Percent,
    pub system: Percent,
    pub nice: Percent,
    pub guest: Percent,
    pub guest_nice: Percent,
    pub iowait: Percent,
    pub irq: Percent,
    pub softirq: Percent,
    pub steal: Percent,
}

/// Memory counters, in bytes.
#[derive(Clone, Copy, Debug, PartialEq, Eq, Structural)]
pub struct MemInfo {
    pub mem_total: u64,
    pub mem_free: u64,
    pub cached: u64,
}

/// Share of memory in use, cached pages not counted.
#[derive(Clone, Copy, Debug, PartialEq, Eq, Structural)]
pub struct MemorySample {
    pub used: Percent,
}

/// Samples the machine's memory use.
#[derive(Clone, Copy, Debug, PartialEq, Eq, Structural)]
pub struct MemoryUsage {}

/// Samples CPU use as the change since the previous reading.
#[derive(Clone, Copy, Debug, PartialEq, Eq, Structural)]
pub struct CPUUsage {
    pub last_cpu: Option<CpuTimes>,
}

pub open spec fn opt_ticks(v: Option<u64>) -> nat {
    match v {
        Some(t) => t as nat,
        None => 0,
    }
}

/// Sum of all tick counters; a counter the kernel does not report counts 0.
pub open spec fn total_ticks(t: CpuTimes) -> nat {
    t.idle as nat + t.nice as nat + t.system as nat + t.user as nat + opt_ticks(t.guest)
        + opt_ticks(t.guest_nice) + opt_ticks(t.iowait) + opt_ticks(t.irq) + opt_ticks(t.softirq)
        + opt_ticks(t.steal)
}

/// `new - old`, or 0 when the counter went backwards.
pub open spec fn tick_delta(new: nat, old: nat) -> nat {
    if new >= old {
        (new - old) as nat
    } else {
        0
    }
}

/// Percentage of `ticks` that `delta` makes, truncated to a byte as the
/// displayed value is.
pub open spec fn share(delta: nat, ticks: nat) -> u8 {
    (((delta * 100) / ticks) % 256) as u8
}

/// What a CPU reading yields against the previous one. Without both
/// readings, or when no tick passed in between, every share is 0.
pub open spec fn cpu_sample_of(old: Option<CpuTimes>, new: Option<CpuTimes>) -> CPUSample {
    match (old, new) {
        (Some(o), Some(n)) => {
            let ticks = tick_delta(total_ticks(n), total_ticks(o));
            if ticks == 0 {
                zero_cpu_sample()
            } else {
                CPUSample {
                    idle: share(tick_delta(n.idle as nat, o.idle as nat), ticks),
                    user: share(tick_delta(n.user as nat, o.user as nat), ticks),
                    system: share(tick_delta(n.system as nat, o.system as nat), ticks),
                    nice: share(tick_delta(n.nice as nat, o.nice as nat), ticks),
                    guest: share(tick_delta(opt_ticks(n.guest), opt_ticks(o.guest)), ticks),
                    guest_nice: share(
                        tick_delta(opt_ticks(n.guest_nice), opt_ticks(o.guest_nice)),
                        ticks,
                    ),
                    iowait: share(tick_delta(opt_ticks(n.iowait), opt_ticks(o.iowait)), ticks),
                    irq: share(tick_delta(opt_ticks(n.irq), opt_ticks(o.irq)), ticks),
                    softirq: share(tick_delta(opt_ticks(n.softirq), opt_ticks(o.softirq)), ticks),
                    steal: share(tick_delta(opt_ticks(n.steal), opt_ticks(o.steal)), ticks),
                }
            }
        },
        _ => zero_cpu_sample(),
    }
}

pub open spec fn zero_cpu_sample() -> CPUSample {
    CPUSample {
        idle: 0,
        user: 0,
        system: 0,
        nice: 0,
        guest: 0,
        guest_nice: 0,
        iowait: 0,
        irq: 0,
        softirq: 0,
        steal: 0,
    }
}

/// Memory in use as a percentage of the total: free and cached memory do
/// not count. An empty total reads as 0.
pub open spec fn memory_used_percent(info: MemInfo) -> u8 {
    let consumed = tick_delta(
        tick_delta(info.mem_total as nat, info.mem_free as nat),
        info.cached as nat,
    );
    if info.mem_total == 0 {
        0
    } else {
        (((consumed * 100) / (info.mem_total as nat)) % 256) as u8
    }
}

/// Memory use of a reading; a failed reading reads as 0.
pub open spec fn memory_sample_of(reading: Option<MemInfo>) -> u8 {
    match reading {
        Some(info) => memory_used_percent(info),
        None => 0,
    }
}

/// Relies on procfs's `KernelStats::current`, which parses `/proc/stat`;
/// the counters are whatever the kernel reports at the time.
#[verifier::external_body]
fn take_stats() -> (r: Option<CpuTimes>) {
    match <procfs::KernelStats as procfs::CurrentSI>::current() {
        Ok(s) => Some(CpuTimes {
            user: s.total.user,
            nice: s.total.nice,
            system: s.total.system,
            idle: s.total.idle,
            iowait: s.total.iowait,
            irq: s.total.irq,
            softirq: s.total.softirq,
            steal: s.total.steal,
            guest: s.total.guest,
            guest_nice: s.total.guest_nice,
        }),
        Err(_) => None,
    }
}

/// Relies on procfs's `Meminfo::current`, which parses `/proc/meminfo`;
/// the counters are whatever the kernel reports at the time.
#[verifier::external_body]
fn read_meminfo() -> (r: Option<MemInfo>) {
    match <procfs::Meminfo as procfs::Current>::current() {
        Ok(m) => Some(MemInfo { mem_total: m.mem_total, mem_free: m.mem_free, cached: m.cached }),
        Err(_) => None,
    }
}

fn opt_value(v: Option<u64>) -> (r: u128)
    ensures
        r as nat == opt_ticks(v),
{
    match v {
        Some(t) => t as u128,
        None => 0,
    }
}

fn delta(new: u128, old: u128) -> (r: u128)
    ensures
        r as nat == tick_delta(new as nat, old as nat),
{
    if new >= old {
        new - old
    } else {
        0
    }
}

fn share_of(d: u128, ticks: u128) -> (r: u8)
    requires
        ticks > 0,
        d <= 0xffff_ffff_ffff_ffff_ffff,
    ensures
        r == share(d as nat, ticks as nat),
{
    (((d * 100) / ticks) % 256) as u8
}

impl CPUUsage {
    /// Sum of all tick counters of a reading.
    pub fn total_time(t: &CpuTimes) -> (r: u128)
        ensures
            r as nat == total_ticks(*t),
    {
        t.idle as u128 + t.nice as u128 + t.system as u128 + t.user as u128 + opt_value(t.guest)
            + opt_value(t.guest_nice) + opt_value(t.iowait) + opt_value(t.irq) + opt_value(
            t.softirq,
        ) + opt_value(t.steal)
    }

    /// Shares of the ticks between two readings.
    pub fn sample_between(old: &Option<CpuTimes>, new: &Option<CpuTimes>) -> (r: CPUSample)
        ensures
            r == cpu_sample_of(*old, *new),
    {
        match (old, new) {
            (Some(o), Some(n)) => {
                let ticks = delta(Self::total_time(n), Self::total_time(o));
                if ticks == 0 {
                    return CPUSample {
                        idle: 0,
                        user: 0,
                        system: 0,
                        nice: 0,
                        guest: 0,
                        guest_nice: 0,
                        iowait: 0,
                        irq: 0,
                        softirq: 0,
                        steal: 0,
                    };
                }
                CPUSample {
                    idle: share_of(delta(n.idle as u128, o.idle as u128), ticks),
                    user: share_of(delta(n.user as u128, o.user as u128), ticks),
                    system: share_of(delta(n.system as u128, o.system as u128), ticks),
                    nice: share_of(delta(n.nice as u128, o.nice as u128), ticks),
                    guest: share_of(delta(opt_value(n.guest), opt_value(o.guest)), ticks),
                    guest_nice: share_of(
                        delta(opt_value(n.guest_nice), opt_value(o.guest_nice)),
                        ticks,
                    ),
                    iowait: share_of(delta(opt_value(n.iowait), opt_value(o.iowait)), ticks),
                    irq: share_of(delta(opt_value(n.irq), opt_value(o.irq)), ticks),
                    softirq: share_of(delta(opt_value(n.softirq), opt_value(o.softirq)), ticks),
                    steal: share_of(delta(opt_value(n.steal), opt_value(o.steal)), ticks),
                }
            },
            _ => CPUSample {
                idle: 0,
                user: 0,
                system: 0,
                nice: 0,
                guest: 0,
                guest_nice: 0,
                iowait: 0,
                irq: 0,
                softirq: 0,
                steal: 0,
            },
        }
    }

    /// Takes a reading and returns the shares since the previous one; the
    /// new reading replaces the previous one.
    pub fn sample(&mut self) -> (r: CPUSample)
        ensures
            r == cpu_sample_of(old(self).last_cpu, final(self).last_cpu),
    {
        let new_sample = take_stats();
        let measurements = Self::sample_between(&self.last_cpu, &new_sample);
        self.last_cpu = new_sample;
        measurements
    }

    /// A sampler primed with a first reading.
    pub fn default() -> (r: CPUUsage) {
        CPUUsage { last_cpu: take_stats() }
    }
}

impl MemorySample {
    /// Memory use of one set of counters.
    pub fn from_meminfo(info: &MemInfo) -> (r: MemorySample)
        ensures
            r.used == memory_used_percent(*info),
    {
        let consumed = delta(delta(info.mem_total as u128, info.mem_free as u128), info.cached as u128);
        if info.mem_total == 0 {
            MemorySample { used: 0 }
        } else {
            MemorySample { used: (((consumed * 100) / (info.mem_total as u128)) % 256) as u8 }
        }
    }
}

impl MemorySample {
    /// Memory use of a reading of the counters; 0 when the reading failed.
    pub fn from_reading(reading: &Option<MemInfo>) -> (r: MemorySample)
        ensures
            r.used == memory_sample_of(*reading),
    {
        match reading {
            Some(info) => MemorySample::from_meminfo(info),
            None => MemorySample { used: 0 },
        }
    }
}

impl MemoryUsage {
    /// Reads the machine's memory counters and returns the share in use;
    /// 0 when they cannot be read.
    pub fn sample() -> (r: MemorySample)
        ensures
            exists|reading: Option<MemInfo>| r.used == memory_sample_of(reading),
    {
        let reading = read_meminfo();
        MemorySample::from_reading(&reading)
    }
}

} // verus!
