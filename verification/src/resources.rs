//! The agent side of the wire contract: the machine metrics one snapshot
//! holds, assembled and refreshed from a plain reading of the machine. The
//! probing itself (memory, disks, network interfaces) happens outside this
//! crate and arrives here as one `SystemReading` of plain values; fractional
//! quantities (CPU usage, load averages) are in hundredths.

use vstd::prelude::*;

verus! {

/// One sweep over the machine, as plain values: per-disk and per-interface
/// figures not yet aggregated.
pub struct SystemReading {
    pub hostname: String,
    pub total_memory: u64,
    pub used_memory: u64,
    pub used_swap: u64,
    pub total_swap: u64,
    pub cpu_usage: u64,
    pub cpu_load_per_core: Vec<u64>,
    pub disk_names: Vec<String>,
    pub disk_available: Vec<u64>,
    pub disk_total: Vec<u64>,
    pub uptime: u64,
    pub os_version: String,
    pub kernel_version: String,
    pub load_avg_one: u64,
    pub load_avg_five: u64,
    pub load_avg_fifteen: u64,
    pub network_received: Vec<u64>,
    pub network_transmitted: Vec<u64>,
}

/// The metrics the agent serves: the machine reading with disks and network
/// interfaces summed up.
pub struct Resources {
    pub hostname: String,
    pub total_memory: u64,
    pub used_memory: u64,
    pub total_space: u64,
    pub available_space: u64,
    pub used_swap: u64,
    pub total_swap: u64,
    pub cpu_amount: usize,
    pub cpu_usage: u64,
    pub cpu_load_per_core: Vec<u64>,
    pub disk_names: Vec<String>,
    pub disk_available: Vec<u64>,
    pub disk_total: Vec<u64>,
    pub uptime: u64,
    pub os_version: String,
    pub kernel_version: String,
    pub load_avg_one: u64,
    pub load_avg_five: u64,
    pub load_avg_fifteen: u64,
    pub bytes_received: u64,
    pub bytes_transmitted: u64,
}

/// The sum of `s`, stopping at `u64::MAX` instead of wrapping.
pub open spec fn sum_sat(s: Seq<u64>) -> int
    decreases s.len(),
{
    if s.len() == 0 {
        0
    } else {
        vstd::math::min(sum_sat(s.drop_last()) + s.last(), u64::MAX as int)
    }
}

/// Sums a list of counters, saturating at `u64::MAX` so that no machine,
/// however large, can make the agent fail.
pub fn saturating_total(values: &Vec<u64>) -> (total: u64)
    ensures
        total == sum_sat(values@),
{
    let mut total: u64 = 0;
    let n = values.len();
    let mut i: usize = 0;
    while i < n
        invariant
            i <= n,
            n == values@.len(),
            total == sum_sat(values@.take(i as int)),
        decreases n - i,
    {
        let v = values[i];
        total = if total <= u64::MAX - v {
            total + v
        } else {
            u64::MAX
        };
        proof {
            assert(values@.take(i + 1).drop_last() =~= values@.take(i as int));
            assert(values@.take(i + 1).last() == values@[i as int]);
        }
        i = i + 1;
    }
    proof {
        assert(values@.take(n as int) =~= values@);
    }
    total
}

/// Sums up the total and available space over all disks of the system.
pub fn disk_total_usage(disk_total: &Vec<u64>, disk_available: &Vec<u64>) -> (r: (u64, u64))
    ensures
        r.0 == sum_sat(disk_total@),
        r.1 == sum_sat(disk_available@),
{
    (saturating_total(disk_total), saturating_total(disk_available))
}

/// Sums the bytes received over all network interfaces.
pub fn get_total_received(received_per_interface: &Vec<u64>) -> (total: u64)
    ensures
        total == sum_sat(received_per_interface@),
{
    saturating_total(received_per_interface)
}

/// Sums the bytes transmitted over all network interfaces.
pub fn get_total_transmitted(transmitted_per_interface: &Vec<u64>) -> (total: u64)
    ensures
        total == sum_sat(transmitted_per_interface@),
{
    saturating_total(transmitted_per_interface)
}

impl Resources {
    /// Assembles the served metrics from one full reading of the machine.
    pub fn new(reading: SystemReading) -> (r: Resources)
        ensures
            r.hostname == reading.hostname,
            r.total_memory == reading.total_memory,
            r.used_memory == reading.used_memory,
            r.total_space == sum_sat(reading.disk_total@),
            r.available_space == sum_sat(reading.disk_available@),
            r.used_swap == reading.used_swap,
            r.total_swap == reading.total_swap,
            r.cpu_amount == reading.cpu_load_per_core@.len(),
            r.cpu_usage == reading.cpu_usage,
            r.cpu_load_per_core == reading.cpu_load_per_core,
            r.disk_names == reading.disk_names,
            r.disk_available == reading.disk_available,
            r.disk_total == reading.disk_total,
            r.uptime == reading.uptime,
            r.os_version == reading.os_version,
            r.kernel_version == reading.kernel_version,
            r.load_avg_one == reading.load_avg_one,
            r.load_avg_five == reading.load_avg_five,
            r.load_avg_fifteen == reading.load_avg_fifteen,
            r.bytes_received == sum_sat(reading.network_received@),
            r.bytes_transmitted == sum_sat(reading.network_transmitted@),
    {
        let disk_space = disk_total_usage(&reading.disk_total, &reading.disk_available);
        let bytes_received = get_total_received(&reading.network_received);
        let bytes_transmitted = get_total_transmitted(&reading.network_transmitted);
        let cpu_amount = reading.cpu_load_per_core.len();
        Resources {
            hostname: reading.hostname,
            total_memory: reading.total_memory,
            used_memory: reading.used_memory,
            total_space: disk_space.0,
            available_space: disk_space.1,
            used_swap: reading.used_swap,
            total_swap: reading.total_swap,
            cpu_amount,
            cpu_usage: reading.cpu_usage,
            cpu_load_per_core: reading.cpu_load_per_core,
            disk_names: reading.disk_names,
            disk_available: reading.disk_available,
            disk_total: reading.disk_total,
            uptime: reading.uptime,
            os_version: reading.os_version,
            kernel_version: reading.kernel_version,
            load_avg_one: reading.load_avg_one,
            load_avg_five: reading.load_avg_five,
            load_avg_fifteen: reading.load_avg_fifteen,
            bytes_received,
            bytes_transmitted,
        }
    }

    /// Refreshes the fields that move while the agent runs: usage figures,
    /// per-core loads, available disk space, uptime, load averages and the
    /// byte counters. The machine's identity and totals — hostname, total
    /// memory and disk space, swap size, core count, disk names, OS and
    /// kernel versions — keep their values from startup.
    pub fn refresh(&mut self, reading: SystemReading)
        ensures
            final(self).cpu_usage == reading.cpu_usage,
            final(self).used_memory == reading.used_memory,
            final(self).available_space == sum_sat(reading.disk_available@),
            final(self).used_swap == reading.used_swap,
            final(self).cpu_load_per_core == reading.cpu_load_per_core,
            final(self).disk_available == reading.disk_available,
            final(self).uptime == reading.uptime,
            final(self).load_avg_one == reading.load_avg_one,
            final(self).load_avg_five == reading.load_avg_five,
            final(self).load_avg_fifteen == reading.load_avg_fifteen,
            final(self).bytes_received == sum_sat(reading.network_received@),
            final(self).bytes_transmitted == sum_sat(reading.network_transmitted@),
            final(self).hostname == old(self).hostname,
            final(self).total_memory == old(self).total_memory,
            final(self).total_space == old(self).total_space,
            final(self).total_swap == old(self).total_swap,
            final(self).cpu_amount == old(self).cpu_amount,
            final(self).disk_names == old(self).disk_names,
            final(self).disk_total == old(self).disk_total,
            final(self).os_version == old(self).os_version,
            final(self).kernel_version == old(self).kernel_version,
    {
        self.cpu_usage = reading.cpu_usage;
        self.used_memory = reading.used_memory;
        self.available_space = saturating_total(&reading.disk_available);
        self.used_swap = reading.used_swap;
        self.cpu_load_per_core = reading.cpu_load_per_core;
        self.disk_available = reading.disk_available;
        self.uptime = reading.uptime;
        self.load_avg_one = reading.load_avg_one;
        self.load_avg_five = reading.load_avg_five;
        self.load_avg_fifteen = reading.load_avg_fifteen;
        self.bytes_transmitted = saturating_total(&reading.network_transmitted);
        self.bytes_received = saturating_total(&reading.network_received);
    }
}

} // verus!
