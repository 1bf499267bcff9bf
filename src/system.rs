use sysinfo::System;
use tokio::sync::broadcast::Sender;
use vstd::prelude::*;

use crate::bus::{clone_sender, send_packet};
use crate::codec::{encode_numeric, numeric_packet, packet_views, percent, round_div, rounded_ratio, saturate, saturate_u128};
use crate::data_type::DataType;
use crate::lifecycle::{is_running_value, Lifecycle, RunToken};

verus! {

/// Units of CPU usage in one percent.
pub const CPU_UNITS_PER_PERCENT: u128 = 1000000;

/// Milliseconds between two system samples.
pub const SYSTEM_INTERVAL_MS: u64 = 1000;

/// Milliseconds to wait after each system packet.
pub const SYSTEM_PACKET_GAP_MS: u64 = 50;

/// Bytes in one mebibyte.
pub const BYTES_PER_MIB: u128 = 1048576;

#[verifier::external_type_specification]
#[verifier::external_body]
pub struct ExSystem(System);

/// Relies on sysinfo's `System::total_memory`: the RAM size in bytes as of
/// the last refresh.
pub assume_specification[ System::total_memory ](s: &System) -> u64;

/// Relies on sysinfo's `System::used_memory`: the RAM in use in bytes as of
/// the last refresh.
pub assume_specification[ System::used_memory ](s: &System) -> u64;

/// One reading of the host's load.
pub struct SystemSample {
    /// Usage of each CPU core, in millionths of a percent.
    pub cpu_core_millionths: Vec<u32>,
    /// RAM in use, in bytes.
    pub ram_used: u64,
    /// RAM size, in bytes.
    pub ram_total: u64,
    /// Bytes received on each network interface since the last refresh.
    pub net_rx_bytes: Vec<u64>,
    /// Bytes sent on each network interface since the last refresh.
    pub net_tx_bytes: Vec<u64>,
}

/// The sum of a sequence of `u64`.
pub open spec fn sum_u64(s: Seq<u64>) -> int
    decreases s.len(),
{
    if s.len() == 0 {
        0
    } else {
        sum_u64(s.drop_last()) + s.last()
    }
}

/// The sum of a sequence of `u32`.
pub open spec fn sum_u32(s: Seq<u32>) -> int
    decreases s.len(),
{
    if s.len() == 0 {
        0
    } else {
        sum_u32(s.drop_last()) + s.last()
    }
}

/// The CPU usage in percent, averaged over the cores and rounded; 0 with no
/// core.
pub open spec fn spec_cpu_percent(cores: Seq<u32>) -> u64 {
    if cores.len() == 0 {
        0
    } else {
        saturate(round_div(sum_u32(cores), CPU_UNITS_PER_PERCENT as int * cores.len() as int))
    }
}

/// The RAM usage in percent of the total, rounded; 0 when the total is 0.
pub open spec fn spec_ram_percent(used: u64, total: u64) -> u64 {
    if total == 0 {
        0
    } else {
        saturate(round_div(100 * used, total as int))
    }
}

/// Whole mebibytes in the sum of per-interface byte counts.
pub open spec fn spec_mebibytes(bytes: Seq<u64>) -> u64 {
    saturate(sum_u64(bytes) / BYTES_PER_MIB as int)
}

/// The four packets of one system sample, in publishing order.
pub open spec fn system_packets(
    cores: Seq<u32>,
    ram_used: u64,
    ram_total: u64,
    rx: Seq<u64>,
    tx: Seq<u64>,
) -> Seq<Seq<u8>> {
    seq![
        numeric_packet(DataType::CPUUsage, spec_cpu_percent(cores) as int),
        numeric_packet(DataType::RAMUsage, spec_ram_percent(ram_used, ram_total) as int),
        numeric_packet(DataType::NetworkRX, spec_mebibytes(rx) as int),
        numeric_packet(DataType::NetworkTX, spec_mebibytes(tx) as int),
    ]
}

/// Sums per-interface byte counts.
pub fn total_bytes(v: &Vec<u64>) -> (r: u128)
    ensures
        r == sum_u64(v@),
{
    let mut acc: u128 = 0;
    let mut i: usize = 0;
    while i < v.len()
        invariant
            i <= v@.len(),
            acc == sum_u64(v@.take(i as int)),
            acc <= i * (u64::MAX as int),
        decreases v@.len() - i,
    {
        assert(v@.take(i + 1).drop_last() =~= v@.take(i as int));
        let x = v[i];
        assert(acc + x <= (i + 1) * (u64::MAX as int)) by (nonlinear_arith)
            requires
                acc <= i * (u64::MAX as int),
                x <= u64::MAX,
        ;
        assert((i + 1) * (u64::MAX as int) <= 0x1_0000_0000_0000_0000 * (u64::MAX as int))
            by (nonlinear_arith)
            requires
                i < 0x1_0000_0000_0000_0000,
        ;
        acc = acc + x as u128;
        i = i + 1;
    }
    assert(v@.take(i as int) =~= v@);
    acc
}

/// Averages per-core usages given in millionths of a percent into a rounded
/// percentage; 0 with no core.
pub fn cpu_percent(cores: &Vec<u32>) -> (r: u64)
    ensures
        r == spec_cpu_percent(cores@),
{
    let n = cores.len();
    if n == 0 {
        return 0;
    }
    let mut acc: u128 = 0;
    let mut i: usize = 0;
    while i < n
        invariant
            n == cores@.len(),
            i <= n,
            acc == sum_u32(cores@.take(i as int)),
            acc <= i * (u32::MAX as int),
        decreases n - i,
    {
        assert(cores@.take(i + 1).drop_last() =~= cores@.take(i as int));
        let x = cores[i];
        assert(acc + x <= (i + 1) * (u32::MAX as int)) by (nonlinear_arith)
            requires
                acc <= i * (u32::MAX as int),
                x <= u32::MAX,
        ;
        assert((i + 1) * (u32::MAX as int) <= 0x1_0000_0000_0000_0000 * (u32::MAX as int))
            by (nonlinear_arith)
            requires
                i < 0x1_0000_0000_0000_0000,
        ;
        acc = acc + x as u128;
        i = i + 1;
    }
    assert(cores@.take(n as int) =~= cores@);
    assert(acc <= 0x1_0000_0000_0000_0000 * (u32::MAX as int)) by (nonlinear_arith)
        requires
            acc <= n * (u32::MAX as int),
            n < 0x1_0000_0000_0000_0000,
    ;
    let v = rounded_ratio(acc, CPU_UNITS_PER_PERCENT * n as u128);
    saturate_u128(v)
}

/// Whole mebibytes in the sum of per-interface byte counts.
pub fn mebibytes(bytes: &Vec<u64>) -> (r: u64)
    ensures
        r == spec_mebibytes(bytes@),
{
    let v = total_bytes(bytes) / BYTES_PER_MIB;
    saturate_u128(v)
}

/// Reads RAM in use and RAM size, in bytes, from a refreshed `System`.
pub fn read_memory(system: &System) -> (r: (u64, u64)) {
    (system.used_memory(), system.total_memory())
}

/// Publishes CPU, RAM and network usage of the host every cycle.
pub struct SystemProvider {
    host_to_device_sender: Sender<Vec<u8>>,
    lifecycle: Lifecycle,
}

/// The worker of one activation of a [`SystemProvider`].
pub struct SystemWorker {
    sender: Sender<Vec<u8>>,
    token: RunToken,
}

impl SystemProvider {
    /// The handle on the bus this component is bound to.
    pub closed spec fn sender(&self) -> Sender<Vec<u8>> {
        self.host_to_device_sender
    }

    /// A stopped provider publishing on `host_to_device_sender`.
    pub fn new(host_to_device_sender: Sender<Vec<u8>>) -> (r: SystemProvider)
        ensures
            r.sender() == host_to_device_sender,
    {
        SystemProvider { host_to_device_sender, lifecycle: Lifecycle::new() }
    }

    /// Begins an activation; returns the worker to run, or `None` when the
    /// provider is already running.
    pub fn start(&self) -> (r: Option<SystemWorker>)
        ensures
            r matches Some(w) ==> is_running_value(w.activation()),
    {
        match self.lifecycle.start() {
            Some(token) => Some(
                SystemWorker { sender: clone_sender(&self.host_to_device_sender), token },
            ),
            None => None,
        }
    }

    /// Ends the current activation; its worker stops at its next poll.
    pub fn stop(&self) {
        self.lifecycle.stop();
    }

    /// Whether an activation is current.
    pub fn is_running(&self) -> bool {
        self.lifecycle.is_running()
    }
}

impl SystemWorker {
    /// The activation this worker belongs to.
    pub closed spec fn activation(&self) -> u64 {
        self.token.activation()
    }

    /// Whether the activation of this worker is still the current one; once
    /// it is `false` the worker publishes nothing more.
    pub fn is_current(&self) -> bool {
        self.token.is_current()
    }

    /// The packets of one sample, in publishing order: CPU, RAM, received,
    /// sent. All four go out every cycle, changed or not.
    pub fn observe(&self, sample: &SystemSample) -> (r: Vec<Vec<u8>>)
        ensures
            packet_views(r@) == system_packets(
                sample.cpu_core_millionths@,
                sample.ram_used,
                sample.ram_total,
                sample.net_rx_bytes@,
                sample.net_tx_bytes@,
            ),
    {
        let cpu = cpu_percent(&sample.cpu_core_millionths);
        let ram = percent(sample.ram_used, sample.ram_total);
        let rx = mebibytes(&sample.net_rx_bytes);
        let tx = mebibytes(&sample.net_tx_bytes);
        let mut r: Vec<Vec<u8>> = Vec::new();
        r.push(encode_numeric(DataType::CPUUsage, cpu));
        r.push(encode_numeric(DataType::RAMUsage, ram));
        r.push(encode_numeric(DataType::NetworkRX, rx));
        r.push(encode_numeric(DataType::NetworkTX, tx));
        assert(packet_views(r@) =~= system_packets(
            sample.cpu_core_millionths@,
            sample.ram_used,
            sample.ram_total,
            sample.net_rx_bytes@,
            sample.net_tx_bytes@,
        ));
        r
    }

    /// Publishes one packet on the bus; returns whether a subscriber took it.
    pub fn publish(&self, packet: Vec<u8>) -> bool {
        send_packet(&self.sender, packet)
    }
}

} // verus!
