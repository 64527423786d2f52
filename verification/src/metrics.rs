//! Resource usage: what Docker measures of a container, what is made of it for a container and for
//! a project, and how it is shown.

use vstd::prelude::*;
use crate::text;

verus! {

/// CPU counters of a container and of its host.
#[derive(Debug)]
pub struct CpuStats {
    pub total_usage: u64,
    pub percpu_usage: Option<Vec<u64>>,
    pub system_cpu_usage: Option<u64>,
    pub online_cpus: Option<u64>,
}

/// Memory details, by version of the control groups.
#[derive(Debug, Clone, Copy, PartialEq, Eq, Structural)]
pub enum MemoryStatsStats {
    V1 { total_inactive_file: u64 },
    V2 { inactive_file: u64 },
}

/// Memory counters of a container.
#[derive(Debug, Clone, Copy, PartialEq, Eq, Structural)]
pub struct MemoryStats {
    pub usage: Option<u64>,
    pub limit: Option<u64>,
    pub stats: Option<MemoryStatsStats>,
}

/// Bytes that went through a network interface.
#[derive(Debug, Clone, Copy, PartialEq, Eq, Structural)]
pub struct NetworkStats {
    pub rx_bytes: u64,
    pub tx_bytes: u64,
}

/// Bytes that a kind of block operation moved.
#[derive(Debug)]
pub struct BlkioStatsEntry {
    pub op: String,
    pub value: u64,
}

/// A [`BlkioStatsEntry`] as plain values.
#[verifier::ext_equal]
pub struct BlkioModel {
    pub op: Seq<char>,
    pub value: u64,
}

impl View for BlkioStatsEntry {
    type V = BlkioModel;

    open spec fn view(&self) -> BlkioModel {
        BlkioModel { op: self.op@, value: self.value }
    }
}

impl DeepView for BlkioStatsEntry {
    type V = BlkioModel;

    open spec fn deep_view(&self) -> BlkioModel {
        self@
    }
}

/// What Docker measures of a container: two readings of the CPU, and one of all else. The networks
/// stand in no particular order.
#[derive(Debug)]
pub struct Stats {
    pub cpu_stats: CpuStats,
    pub precpu_stats: CpuStats,
    pub memory_stats: MemoryStats,
    pub network: Option<NetworkStats>,
    pub networks: Option<Vec<NetworkStats>>,
    pub io_service_bytes_recursive: Option<Vec<BlkioStatsEntry>>,
    pub pids: Option<u64>,
}

/// How much of the host's CPU time went to a container: `cpu_delta / system_delta` of all CPUs,
/// times `online_cpus` where one CPU is the whole.
#[derive(Debug, Clone, Copy, PartialEq, Eq, Structural)]
pub struct CpuShare {
    pub cpu_delta: u64,
    pub system_delta: u64,
    pub online_cpus: u64,
}

/// How much of the memory limit is in use: `usage / limit`.
#[derive(Debug, Clone, Copy, PartialEq, Eq, Structural)]
pub struct MemoryShare {
    pub usage: u64,
    pub limit: u64,
}

/// What is known of a container's resource usage.
#[derive(Debug, Clone, Copy, PartialEq, Eq, Structural)]
pub struct ContainerMetrics {
    pub cpu_percent: Option<CpuShare>,
    pub memory_usage_bytes: Option<u64>,
    pub memory_limit_bytes: Option<u64>,
    pub memory_percent: Option<MemoryShare>,
    pub network_rx_bytes: u64,
    pub network_tx_bytes: u64,
    pub block_read_bytes: u64,
    pub block_write_bytes: u64,
    pub pids: Option<u64>,
}

/// What is known of a project's resource usage. The CPU share is the sum of those listed.
#[derive(Debug, PartialEq, Eq)]
pub struct ProjectMetrics {
    pub cpu_percent: Option<Vec<CpuShare>>,
    pub memory_usage_bytes: Option<u64>,
    pub memory_limit_bytes: Option<u64>,
    pub memory_percent: Option<MemoryShare>,
    pub network_rx_bytes: u64,
    pub network_tx_bytes: u64,
    pub block_read_bytes: u64,
    pub block_write_bytes: u64,
    pub pids: Option<u64>,
}

/// A [`ProjectMetrics`] as plain values.
#[verifier::ext_equal]
pub struct MetricsModel {
    pub cpu_percent: Option<Seq<CpuShare>>,
    pub memory_usage_bytes: Option<u64>,
    pub memory_limit_bytes: Option<u64>,
    pub memory_percent: Option<MemoryShare>,
    pub network_rx_bytes: u64,
    pub network_tx_bytes: u64,
    pub block_read_bytes: u64,
    pub block_write_bytes: u64,
    pub pids: Option<u64>,
}

impl View for ProjectMetrics {
    type V = MetricsModel;

    open spec fn view(&self) -> MetricsModel {
        MetricsModel {
            cpu_percent: match self.cpu_percent {
                Some(shares) => Some(shares@),
                None => None,
            },
            memory_usage_bytes: self.memory_usage_bytes,
            memory_limit_bytes: self.memory_limit_bytes,
            memory_percent: self.memory_percent,
            network_rx_bytes: self.network_rx_bytes,
            network_tx_bytes: self.network_tx_bytes,
            block_read_bytes: self.block_read_bytes,
            block_write_bytes: self.block_write_bytes,
            pids: self.pids,
        }
    }
}

impl DeepView for ProjectMetrics {
    type V = MetricsModel;

    open spec fn deep_view(&self) -> MetricsModel {
        self@
    }
}

/// The difference of two counters, none where the second is larger.
pub open spec fn risen(after: u64, before: u64) -> u64 {
    if after > before {
        (after - before) as u64
    } else {
        0
    }
}

/// A CPU share, where there are CPUs and time has passed.
pub open spec fn cpu_share(cpu_delta: u64, system_delta: u64, online_cpus: u64) -> Option<CpuShare> {
    if system_delta == 0 || online_cpus == 0 {
        None
    } else {
        Some(CpuShare { cpu_delta, system_delta, online_cpus })
    }
}

/// How many CPUs are online: as reported, else as many as have a counter of their own.
pub open spec fn cpu_count(stats: CpuStats) -> int {
    match stats.online_cpus {
        Some(count) => count as int,
        None => match stats.percpu_usage {
            Some(usage) => usage@.len() as int,
            None => 0,
        },
    }
}

/// The CPU share between two readings, where both hold the host's counter.
pub open spec fn cpu_share_between(now: CpuStats, before: CpuStats) -> Option<CpuShare> {
    match (now.system_cpu_usage, before.system_cpu_usage) {
        (Some(system_now), Some(system_before)) => cpu_share(
            risen(now.total_usage, before.total_usage),
            risen(system_now, system_before),
            cpu_count(now) as u64,
        ),
        _ => None,
    }
}

/// A share of memory, where there is a limit.
pub open spec fn memory_share(usage: u64, limit: u64) -> Option<MemoryShare> {
    if limit == 0 {
        None
    } else {
        Some(MemoryShare { usage, limit })
    }
}

/// A share of memory, where both usage and limit are known.
pub open spec fn known_memory_share(usage: Option<u64>, limit: Option<u64>) -> Option<MemoryShare> {
    match (usage, limit) {
        (Some(usage), Some(limit)) => memory_share(usage, limit),
        _ => None,
    }
}

/// The part of the memory in use that is file cache the kernel can drop.
pub open spec fn cache_bytes(stats: Option<MemoryStatsStats>) -> u64 {
    match stats {
        Some(MemoryStatsStats::V1 { total_inactive_file }) => total_inactive_file,
        Some(MemoryStatsStats::V2 { inactive_file }) => inactive_file,
        None => 0,
    }
}

/// A sum of numbers.
pub open spec fn total(values: Seq<u64>) -> nat
    decreases values.len(),
{
    if values.len() == 0 {
        0
    } else {
        total(values.drop_last()) + values.last() as nat
    }
}

/// A sum of numbers, or the largest number where it is larger than that.
pub open spec fn capped_total(values: Seq<u64>) -> u64 {
    if total(values) <= u64::MAX {
        total(values) as u64
    } else {
        u64::MAX
    }
}

proof fn total_push(values: Seq<u64>, value: u64)
    ensures
        total(values.push(value)) == total(values) + value,
        capped_total(values.push(value)) == (if capped_total(values) + value <= u64::MAX {
            (capped_total(values) + value) as u64
        } else {
            u64::MAX
        }),
{
    assert(values.push(value).drop_last() =~= values);
}

proof fn total_without(values: Seq<u64>, i: int)
    requires
        0 <= i < values.len(),
    ensures
        total(values) == total(values.remove(i)) + values[i],
    decreases values.len(),
{
    if i == values.len() - 1 {
        assert(values.remove(i) =~= values.drop_last());
    } else {
        total_without(values.drop_last(), i);
        assert(values.remove(i).drop_last() =~= values.drop_last().remove(i));
    }
}

/// The received and the sent bytes of the interfaces, each as one sum.
pub open spec fn network_sums(networks: Seq<NetworkStats>) -> (u64, u64) {
    (
        capped_total(networks.map_values(|stats: NetworkStats| stats.rx_bytes)),
        capped_total(networks.map_values(|stats: NetworkStats| stats.tx_bytes)),
    )
}

/// The order in which the interfaces are listed does not matter.
pub proof fn network_sums_ignore_order(a: Seq<NetworkStats>, b: Seq<NetworkStats>)
    requires
        a.to_multiset() == b.to_multiset(),
    ensures
        network_sums(a) == network_sums(b),
{
    network_totals_ignore_order(a, b);
}

proof fn network_totals_ignore_order(a: Seq<NetworkStats>, b: Seq<NetworkStats>)
    requires
        a.to_multiset() == b.to_multiset(),
    ensures
        total(a.map_values(|stats: NetworkStats| stats.rx_bytes)) == total(
            b.map_values(|stats: NetworkStats| stats.rx_bytes),
        ),
        total(a.map_values(|stats: NetworkStats| stats.tx_bytes)) == total(
            b.map_values(|stats: NetworkStats| stats.tx_bytes),
        ),
    decreases a.len(),
{
    broadcast use vstd::seq_lib::group_to_multiset_ensures;

    let rx = |stats: NetworkStats| stats.rx_bytes;
    let tx = |stats: NetworkStats| stats.tx_bytes;
    assert(a.len() == a.to_multiset().len());
    assert(b.len() == b.to_multiset().len());
    if a.len() > 0 {
        let x = a.last();
        assert(a.contains(x));
        assert(a.to_multiset().count(x) > 0);
        assert(b.contains(x));
        let i = choose|i: int| 0 <= i < b.len() && b[i] == x;
        let rest = a.remove(a.len() - 1);
        assert(rest.to_multiset() =~= a.to_multiset().remove(x));
        assert(b.remove(i).to_multiset() =~= b.to_multiset().remove(x));
        network_totals_ignore_order(rest, b.remove(i));
        total_without(a.map_values(rx), a.len() - 1);
        total_without(a.map_values(tx), a.len() - 1);
        total_without(b.map_values(rx), i);
        total_without(b.map_values(tx), i);
        assert(a.map_values(rx).remove(a.len() - 1) =~= rest.map_values(rx));
        assert(a.map_values(tx).remove(a.len() - 1) =~= rest.map_values(tx));
        assert(b.map_values(rx).remove(i) =~= b.remove(i).map_values(rx));
        assert(b.map_values(tx).remove(i) =~= b.remove(i).map_values(tx));
    }
}

/// The received and the sent bytes of a container: of all its interfaces where they are listed, else
/// of the one.
pub open spec fn network_bytes(
    network: Option<NetworkStats>,
    networks: Option<Seq<NetworkStats>>,
) -> (u64, u64) {
    match networks {
        Some(networks) => network_sums(networks),
        None => match network {
            Some(stats) => (stats.rx_bytes, stats.tx_bytes),
            None => (0, 0),
        },
    }
}

/// The bytes that one kind of block operation moved, whatever the case its name is written in.
pub open spec fn moved_bytes(entries: Seq<BlkioModel>, op: Seq<char>) -> Seq<u64>
    decreases entries.len(),
{
    if entries.len() == 0 {
        seq![]
    } else {
        let earlier = moved_bytes(entries.drop_last(), op);
        if text::ascii_lower_text(entries.last().op) == op {
            earlier.push(entries.last().value)
        } else {
            earlier
        }
    }
}

/// The bytes read from and written to block devices.
pub open spec fn block_bytes(entries: Option<Seq<BlkioModel>>) -> (u64, u64) {
    match entries {
        Some(entries) => (
            capped_total(moved_bytes(entries, "read"@)),
            capped_total(moved_bytes(entries, "write"@)),
        ),
        None => (0, 0),
    }
}

/// What a reading says of a container.
pub open spec fn metrics_of_stats(stats: Stats) -> ContainerMetrics {
    let usage = match stats.memory_stats.usage {
        Some(usage) => Some(risen(usage, cache_bytes(stats.memory_stats.stats))),
        None => None,
    };
    let networks = match stats.networks {
        Some(networks) => Some(networks@),
        None => None,
    };
    let (rx, tx) = network_bytes(stats.network, networks);
    let (read, write) = block_bytes(stats.io_service_bytes_recursive.deep_view());
    ContainerMetrics {
        cpu_percent: cpu_share_between(stats.cpu_stats, stats.precpu_stats),
        memory_usage_bytes: usage,
        memory_limit_bytes: stats.memory_stats.limit,
        memory_percent: known_memory_share(usage, stats.memory_stats.limit),
        network_rx_bytes: rx,
        network_tx_bytes: tx,
        block_read_bytes: read,
        block_write_bytes: write,
        pids: stats.pids,
    }
}

/// The CPU share of a container between two readings.
pub fn calculate_cpu_percent(stats: &Stats) -> (share: Option<CpuShare>)
    ensures
        share == cpu_share_between(stats.cpu_stats, stats.precpu_stats),
{
    let cpu_delta = stats.cpu_stats.total_usage.saturating_sub(stats.precpu_stats.total_usage);
    match (stats.cpu_stats.system_cpu_usage, stats.precpu_stats.system_cpu_usage) {
        (Some(now), Some(before)) => {
            let online_cpus: u64 = match stats.cpu_stats.online_cpus {
                Some(count) => count,
                None => match &stats.cpu_stats.percpu_usage {
                    Some(usage) => usage.len() as u64,
                    None => 0,
                },
            };
            calculate_cpu_percent_from_deltas(cpu_delta, now.saturating_sub(before), online_cpus)
        },
        _ => None,
    }
}

/// The CPU share of a container that used `cpu_delta` while the host used `system_delta`.
pub fn calculate_cpu_percent_from_deltas(
    cpu_delta: u64,
    system_delta: u64,
    online_cpus: u64,
) -> (share: Option<CpuShare>)
    ensures
        share == cpu_share(cpu_delta, system_delta, online_cpus),
{
    if system_delta == 0 || online_cpus == 0 {
        return None;
    }
    Some(CpuShare { cpu_delta, system_delta, online_cpus })
}

/// The memory in use, without file cache that the kernel can drop.
pub fn adjusted_memory_usage(usage: u64, stats: Option<MemoryStatsStats>) -> (bytes: u64)
    ensures
        bytes == risen(usage, cache_bytes(stats)),
{
    usage.saturating_sub(memory_cache(stats))
}

fn memory_cache(stats: Option<MemoryStatsStats>) -> (bytes: u64)
    ensures
        bytes == cache_bytes(stats),
{
    match stats {
        Some(MemoryStatsStats::V1 { total_inactive_file }) => total_inactive_file,
        Some(MemoryStatsStats::V2 { inactive_file }) => inactive_file,
        None => 0,
    }
}

/// The share of the memory limit that is in use.
pub fn percent(usage: u64, limit: u64) -> (share: Option<MemoryShare>)
    ensures
        share == memory_share(usage, limit),
{
    if limit == 0 {
        return None;
    }
    Some(MemoryShare { usage, limit })
}

fn known_percent(usage: Option<u64>, limit: Option<u64>) -> (share: Option<MemoryShare>)
    ensures
        share == known_memory_share(usage, limit),
{
    match (usage, limit) {
        (Some(usage), Some(limit)) => percent(usage, limit),
        _ => None,
    }
}

/// The received and the sent bytes of a container.
pub fn network_totals(
    network: Option<NetworkStats>,
    networks: Option<&Vec<NetworkStats>>,
) -> (totals: (u64, u64))
    ensures
        totals == network_bytes(
            network,
            match networks {
                Some(networks) => Some(networks@),
                None => None,
            },
        ),
{
    if let Some(networks) = networks {
        let ghost rx_values = networks@.map_values(|stats: NetworkStats| stats.rx_bytes);
        let ghost tx_values = networks@.map_values(|stats: NetworkStats| stats.tx_bytes);
        let mut rx: u64 = 0;
        let mut tx: u64 = 0;
        for i in 0..networks.len()
            invariant
                rx_values == networks@.map_values(|stats: NetworkStats| stats.rx_bytes),
                tx_values == networks@.map_values(|stats: NetworkStats| stats.tx_bytes),
                rx == capped_total(rx_values.take(i as int)),
                tx == capped_total(tx_values.take(i as int)),
        {
            proof {
                total_push(rx_values.take(i as int), rx_values[i as int]);
                total_push(tx_values.take(i as int), tx_values[i as int]);
                assert(rx_values.take(i + 1) =~= rx_values.take(i as int).push(rx_values[i as int]));
                assert(tx_values.take(i + 1) =~= tx_values.take(i as int).push(tx_values[i as int]));
            }
            rx = rx.saturating_add(networks[i].rx_bytes);
            tx = tx.saturating_add(networks[i].tx_bytes);
        }
        assert(rx_values.take(rx_values.len() as int) =~= rx_values);
        assert(tx_values.take(tx_values.len() as int) =~= tx_values);
        return (rx, tx);
    }
    match network {
        Some(stats) => (stats.rx_bytes, stats.tx_bytes),
        None => (0, 0),
    }
}

/// The bytes read from and written to block devices.
pub fn block_io_totals(entries: Option<&Vec<BlkioStatsEntry>>) -> (totals: (u64, u64))
    ensures
        totals == block_bytes(
            match entries {
                Some(entries) => Some(entries.deep_view()),
                None => None,
            },
        ),
{
    let Some(entries) = entries else {
        return (0, 0);
    };
    let ghost views = entries.deep_view();
    let mut read: u64 = 0;
    let mut write: u64 = 0;
    for i in 0..entries.len()
        invariant
            views == entries.deep_view(),
            read == capped_total(moved_bytes(views.take(i as int), "read"@)),
            write == capped_total(moved_bytes(views.take(i as int), "write"@)),
    {
        let op = text::to_ascii_lower(&entries[i].op);
        let value = entries[i].value;
        proof {
            assert(views.take(i + 1).drop_last() =~= views.take(i as int));
            assert(views.take(i + 1).last() == entries@[i as int]@);
            total_push(moved_bytes(views.take(i as int), "read"@), value);
            total_push(moved_bytes(views.take(i as int), "write"@), value);
        }
        if text::same_text(&op, "read") {
            proof {
                reveal_strlit("read");
                reveal_strlit("write");
                assert("read"@.len() != "write"@.len());
            }
            read = read.saturating_add(value);
        } else if text::same_text(&op, "write") {
            write = write.saturating_add(value);
        }
    }
    assert(views.take(views.len() as int) =~= views);
    (read, write)
}

/// Makes metrics of a reading.
pub fn container_metrics_from_stats(stats: &Stats) -> (metrics: ContainerMetrics)
    ensures
        metrics == metrics_of_stats(*stats),
{
    let memory_usage_bytes = match stats.memory_stats.usage {
        Some(usage) => Some(adjusted_memory_usage(usage, stats.memory_stats.stats)),
        None => None,
    };
    let memory_limit_bytes = stats.memory_stats.limit;
    let memory_percent = known_percent(memory_usage_bytes, memory_limit_bytes);
    let (network_rx_bytes, network_tx_bytes) = network_totals(
        stats.network,
        stats.networks.as_ref(),
    );
    let (block_read_bytes, block_write_bytes) = block_io_totals(
        stats.io_service_bytes_recursive.as_ref(),
    );
    ContainerMetrics {
        cpu_percent: calculate_cpu_percent(stats),
        memory_usage_bytes,
        memory_limit_bytes,
        memory_percent,
        network_rx_bytes,
        network_tx_bytes,
        block_read_bytes,
        block_write_bytes,
        pids: stats.pids,
    }
}

/// The values that are known.
pub open spec fn known_values(values: Seq<Option<u64>>) -> Seq<u64>
    decreases values.len(),
{
    if values.len() == 0 {
        seq![]
    } else {
        let earlier = known_values(values.drop_last());
        match values.last() {
            Some(value) => earlier.push(value),
            None => earlier,
        }
    }
}

/// The sum of the values that are known, where any is.
pub open spec fn sum_of_known(values: Seq<Option<u64>>) -> Option<u64> {
    if exists|i: int| 0 <= i < values.len() && #[trigger] values[i] is Some {
        Some(capped_total(known_values(values)))
    } else {
        None
    }
}

/// The sum of all values, where none is unknown.
pub open spec fn sum_of_all(values: Seq<Option<u64>>) -> Option<u64> {
    if forall|i: int| 0 <= i < values.len() ==> #[trigger] values[i] is Some {
        Some(capped_total(known_values(values)))
    } else {
        None
    }
}

/// The CPU shares that are known.
pub open spec fn known_shares(metrics: Seq<ContainerMetrics>) -> Seq<CpuShare>
    decreases metrics.len(),
{
    if metrics.len() == 0 {
        seq![]
    } else {
        let earlier = known_shares(metrics.drop_last());
        match metrics.last().cpu_percent {
            Some(share) => earlier.push(share),
            None => earlier,
        }
    }
}

/// What the metrics of containers say of their project: sums over the containers. A container that
/// does not tell its memory limit, or its processes, leaves the project's unknown; usage and CPU
/// shares are summed where they are known.
pub open spec fn project_metrics(metrics: Seq<ContainerMetrics>) -> Option<MetricsModel> {
    if metrics.len() == 0 {
        None
    } else {
        let usage = sum_of_known(metrics.map_values(|m: ContainerMetrics| m.memory_usage_bytes));
        let limit = sum_of_all(metrics.map_values(|m: ContainerMetrics| m.memory_limit_bytes));
        Some(
            MetricsModel {
                cpu_percent: if known_shares(metrics).len() > 0 {
                    Some(known_shares(metrics))
                } else {
                    None
                },
                memory_usage_bytes: usage,
                memory_limit_bytes: limit,
                memory_percent: known_memory_share(usage, limit),
                network_rx_bytes: capped_total(
                    metrics.map_values(|m: ContainerMetrics| m.network_rx_bytes),
                ),
                network_tx_bytes: capped_total(
                    metrics.map_values(|m: ContainerMetrics| m.network_tx_bytes),
                ),
                block_read_bytes: capped_total(
                    metrics.map_values(|m: ContainerMetrics| m.block_read_bytes),
                ),
                block_write_bytes: capped_total(
                    metrics.map_values(|m: ContainerMetrics| m.block_write_bytes),
                ),
                pids: sum_of_all(metrics.map_values(|m: ContainerMetrics| m.pids)),
            },
        )
    }
}

/// A column of the metrics of containers with one container more.
proof fn column_push<T>(
    metrics: Seq<ContainerMetrics>,
    next: ContainerMetrics,
    column: spec_fn(ContainerMetrics) -> T,
)
    ensures
        metrics.push(next).map_values(column) == metrics.map_values(column).push(column(next)),
{
    assert(metrics.push(next).map_values(column) =~= metrics.map_values(column).push(column(next)));
}

proof fn known_values_push(values: Seq<Option<u64>>, value: Option<u64>)
    ensures
        known_values(values.push(value)) == (match value {
            Some(value) => known_values(values).push(value),
            None => known_values(values),
        }),
{
    assert(values.push(value).drop_last() =~= values);
}

/// A running sum of values that may be unknown.
#[derive(Debug, Clone, Copy)]
struct RunningSum {
    sum: u64,
    any: bool,
    all: bool,
}

impl RunningSum {
    spec fn sums(self, values: Seq<Option<u64>>) -> bool {
        &&& self.sum == capped_total(known_values(values))
        &&& self.any == exists|i: int| 0 <= i < values.len() && #[trigger] values[i] is Some
        &&& self.all == forall|i: int| 0 <= i < values.len() ==> #[trigger] values[i] is Some
    }

    fn new() -> (sum: RunningSum)
        ensures
            sum.sums(seq![]),
    {
        RunningSum { sum: 0, any: false, all: true }
    }

    fn include_value(&mut self, value: Option<u64>, Ghost(values): Ghost<Seq<Option<u64>>>)
        requires
            old(self).sums(values),
        ensures
            final(self).sums(values.push(value)),
    {
        let ghost longer = values.push(value);
        proof {
            known_values_push(values, value);
            assert(longer[values.len() as int] == value);
            assert forall|i: int| 0 <= i < values.len() implies #[trigger] values[i] == longer[i] by {}
        }
        match value {
            Some(number) => {
                proof {
                    total_push(known_values(values), number);
                }
                self.sum = self.sum.saturating_add(number);
                self.any = true;
                assert(longer[values.len() as int] is Some);
            },
            None => {
                self.all = false;
            },
        }
        proof {
            if exists|i: int| 0 <= i < values.len() && #[trigger] values[i] is Some {
                let i = choose|i: int| 0 <= i < values.len() && #[trigger] values[i] is Some;
                assert(longer[i] is Some);
            }
            if !(forall|i: int| 0 <= i < values.len() ==> #[trigger] values[i] is Some) {
                let i = choose|i: int| 0 <= i < values.len() && !(#[trigger] values[i] is Some);
                assert(!(longer[i] is Some));
            }
        }
    }

    fn if_any(&self) -> (sum: Option<u64>)
        ensures
            forall|values: Seq<Option<u64>>| #[trigger] self.sums(values) ==> sum == sum_of_known(values),
    {
        if self.any {
            Some(self.sum)
        } else {
            None
        }
    }

    fn if_all(&self) -> (sum: Option<u64>)
        ensures
            forall|values: Seq<Option<u64>>| #[trigger] self.sums(values) ==> sum == sum_of_all(values),
    {
        if self.all {
            Some(self.sum)
        } else {
            None
        }
    }
}

fn plus(sum: u64, value: u64, Ghost(values): Ghost<Seq<u64>>) -> (longer: u64)
    requires
        sum == capped_total(values),
    ensures
        longer == capped_total(values.push(value)),
{
    proof {
        total_push(values, value);
    }
    sum.saturating_add(value)
}

/// Sums the metrics of containers up to those of their project.
#[verifier::spinoff_prover]
pub fn sum_metrics(metrics: &Vec<ContainerMetrics>) -> (sums: Option<ProjectMetrics>)
    ensures
        sums.deep_view() == project_metrics(metrics@),
{
    if metrics.len() == 0 {
        return None;
    }
    let ghost usage_of = |m: ContainerMetrics| m.memory_usage_bytes;
    let ghost limit_of = |m: ContainerMetrics| m.memory_limit_bytes;
    let ghost pids_of = |m: ContainerMetrics| m.pids;
    let ghost rx_of = |m: ContainerMetrics| m.network_rx_bytes;
    let ghost tx_of = |m: ContainerMetrics| m.network_tx_bytes;
    let ghost read_of = |m: ContainerMetrics| m.block_read_bytes;
    let ghost write_of = |m: ContainerMetrics| m.block_write_bytes;
    let mut shares: Vec<CpuShare> = Vec::new();
    let mut usage = RunningSum::new();
    let mut limit = RunningSum::new();
    let mut pids = RunningSum::new();
    let mut rx: u64 = 0;
    let mut tx: u64 = 0;
    let mut read: u64 = 0;
    let mut write: u64 = 0;
    assert(metrics@.take(0).map_values(usage_of) =~= seq![]);
    assert(metrics@.take(0).map_values(limit_of) =~= seq![]);
    assert(metrics@.take(0).map_values(pids_of) =~= seq![]);
    for i in 0..metrics.len()
        invariant
            shares@ == known_shares(metrics@.take(i as int)),
            usage.sums(metrics@.take(i as int).map_values(usage_of)),
            limit.sums(metrics@.take(i as int).map_values(limit_of)),
            pids.sums(metrics@.take(i as int).map_values(pids_of)),
            rx == capped_total(metrics@.take(i as int).map_values(rx_of)),
            tx == capped_total(metrics@.take(i as int).map_values(tx_of)),
            read == capped_total(metrics@.take(i as int).map_values(read_of)),
            write == capped_total(metrics@.take(i as int).map_values(write_of)),
            usage_of == (|m: ContainerMetrics| m.memory_usage_bytes),
            limit_of == (|m: ContainerMetrics| m.memory_limit_bytes),
            pids_of == (|m: ContainerMetrics| m.pids),
            rx_of == (|m: ContainerMetrics| m.network_rx_bytes),
            tx_of == (|m: ContainerMetrics| m.network_tx_bytes),
            read_of == (|m: ContainerMetrics| m.block_read_bytes),
            write_of == (|m: ContainerMetrics| m.block_write_bytes),
    {
        let next = metrics[i];
        let ghost seen = metrics@.take(i as int);
        proof {
            assert(metrics@.take(i + 1) =~= seen.push(next));
            assert(seen.push(next).drop_last() =~= seen);
            column_push(seen, next, usage_of);
            column_push(seen, next, limit_of);
            column_push(seen, next, pids_of);
            column_push(seen, next, rx_of);
            column_push(seen, next, tx_of);
            column_push(seen, next, read_of);
            column_push(seen, next, write_of);
        }
        if let Some(share) = next.cpu_percent {
            shares.push(share);
        }
        usage.include_value(next.memory_usage_bytes, Ghost(seen.map_values(usage_of)));
        limit.include_value(next.memory_limit_bytes, Ghost(seen.map_values(limit_of)));
        pids.include_value(next.pids, Ghost(seen.map_values(pids_of)));
        rx = plus(rx, next.network_rx_bytes, Ghost(seen.map_values(rx_of)));
        tx = plus(tx, next.network_tx_bytes, Ghost(seen.map_values(tx_of)));
        read = plus(read, next.block_read_bytes, Ghost(seen.map_values(read_of)));
        write = plus(write, next.block_write_bytes, Ghost(seen.map_values(write_of)));
    }
    assert(metrics@.take(metrics@.len() as int) =~= metrics@);
    let memory_usage_bytes = usage.if_any();
    let memory_limit_bytes = limit.if_all();
    let cpu_percent = if shares.len() > 0 {
        Some(shares)
    } else {
        None
    };
    Some(
        ProjectMetrics {
            cpu_percent,
            memory_usage_bytes,
            memory_limit_bytes,
            memory_percent: known_percent(memory_usage_bytes, memory_limit_bytes),
            network_rx_bytes: rx,
            network_tx_bytes: tx,
            block_read_bytes: read,
            block_write_bytes: write,
            pids: pids.if_all(),
        },
    )
}

/// A quotient rounded to the nearest whole number, to the even one of two that are equally near.
pub open spec fn rounded(n: nat, d: nat) -> nat {
    let quotient = n / d;
    let rest = n % d;
    if 2 * rest > d || (2 * rest == d && quotient % 2 == 1) {
        quotient + 1
    } else {
        quotient
    }
}

/// How far apart the numbers with 53 significant binary digits stand around `n`.
pub open spec fn spacing(n: nat) -> nat
    decreases n,
{
    if n < 0x20_0000_0000_0000 {
        1
    } else {
        2 * spacing(n / 2)
    }
}

/// The number with 53 significant binary digits that is nearest to `n`.
pub open spec fn in_double_precision(n: nat) -> nat {
    rounded(n, spacing(n)) * spacing(n)
}

/// A number of units with one decimal.
pub open spec fn one_decimal(n: nat, unit: nat) -> Seq<char> {
    let tenths = rounded(n * 10, unit);
    text::decimal_text(tenths / 10) + "."@ + text::decimal_text(tenths % 10)
}

/// A number of bytes in the largest binary unit that it fills. It is taken in double precision and
/// written with one decimal, except in bytes.
pub open spec fn bytes_text(bytes: nat) -> Seq<char> {
    let n = in_double_precision(bytes);
    if n >= 0x4000_0000 {
        one_decimal(n, 0x4000_0000) + "GiB"@
    } else if n >= 0x10_0000 {
        one_decimal(n, 0x10_0000) + "MiB"@
    } else if n >= 0x400 {
        one_decimal(n, 0x400) + "KiB"@
    } else {
        text::decimal_text(n) + "B"@
    }
}

fn round_quotient(n: u128, d: u128) -> (q: u128)
    requires
        0 < d <= 0x1_0000_0000_0000_0000,
    ensures
        q == rounded(n as nat, d as nat),
        q <= n / d + 1,
{
    let quotient: u128 = n / d;
    let rest: u128 = n % d;
    assert(quotient <= n) by (nonlinear_arith)
        requires
            quotient == n / d,
            d > 0,
    ;
    if 2 * rest > d {
        assert(quotient < u128::MAX) by (nonlinear_arith)
            requires
                quotient == n / d,
                rest == n % d,
                2 * rest > d,
                d > 0,
        ;
        quotient + 1
    } else if 2 * rest == d && quotient % 2 == 1 {
        assert(quotient < u128::MAX) by (nonlinear_arith)
            requires
                quotient == n / d,
                rest == n % d,
                2 * rest == d,
                d > 0,
        ;
        quotient + 1
    } else {
        quotient
    }
}

fn spacing_of(n: u64) -> (unit: u64)
    ensures
        unit == spacing(n as nat),
        1 <= unit < 0x1000,
        n >= 0x20_0000_0000_0000 ==> unit * 0x10_0000_0000_0000 <= n,
    decreases n,
{
    if n < 0x20_0000_0000_0000 {
        1
    } else {
        2 * spacing_of(n / 2)
    }
}

fn double_precision(bytes: u64) -> (n: u128)
    ensures
        n == in_double_precision(bytes as nat),
        n <= 0x1_0000_0000_0000_1000,
{
    let unit: u128 = spacing_of(bytes) as u128;
    let quotient = round_quotient(bytes as u128, unit);
    assert(quotient * unit <= bytes + unit) by (nonlinear_arith)
        requires
            quotient <= bytes / unit as u64 + 1,
            unit > 0,
            unit < 0x1000,
    ;
    quotient * unit
}

fn write_one_decimal(n: u128, unit: u128) -> (text: String)
    requires
        n <= 0x1_0000_0000_0000_1000,
        0x400 <= unit <= 0x4000_0000,
    ensures
        text@ == one_decimal(n as nat, unit as nat),
{
    let tenths = round_quotient(n * 10, unit);
    assert((n * 10) / (unit as int) <= (n * 10) / 0x400) by (nonlinear_arith)
        requires
            0x400 <= unit,
            n >= 0,
    ;
    text::decimal((tenths / 10) as u64).concat(".").concat(&text::decimal((tenths % 10) as u64))
}

/// Writes a number of bytes.
pub fn format_bytes(bytes: u64) -> (text: String)
    ensures
        text@ == bytes_text(bytes as nat),
{
    let n = double_precision(bytes);
    if n >= 0x4000_0000 {
        write_one_decimal(n, 0x4000_0000).concat("GiB")
    } else if n >= 0x10_0000 {
        write_one_decimal(n, 0x10_0000).concat("MiB")
    } else if n >= 0x400 {
        write_one_decimal(n, 0x400).concat("KiB")
    } else {
        text::decimal(n as u64).concat("B")
    }
}

/// A share as a percentage, where it is known. `percent` is the number with one decimal.
pub open spec fn percent_text(percent: Option<Seq<char>>) -> Seq<char> {
    match percent {
        Some(percent) => percent + "%"@,
        None => "-"@,
    }
}

/// Writes a CPU share. `cpu_percent` is the percentage with one decimal.
pub fn format_cpu(cpu_percent: Option<&str>) -> (text: String)
    ensures
        text@ == percent_text(cpu_percent.deep_view()),
{
    match cpu_percent {
        Some(percent) => percent.to_owned().concat("%"),
        None => "-".to_owned(),
    }
}

/// A memory usage: of a limit where it is known, with the percentage where that is known too.
pub open spec fn memory_text(
    usage: Option<u64>,
    limit: Option<u64>,
    percent: Option<Seq<char>>,
) -> Seq<char> {
    match usage {
        None => "-"@,
        Some(usage) => match (limit, percent) {
            (Some(limit), Some(percent)) => bytes_text(usage as nat) + "/"@ + bytes_text(
                limit as nat,
            ) + " ("@ + percent + "%)"@,
            (Some(limit), None) => bytes_text(usage as nat) + "/"@ + bytes_text(limit as nat),
            (None, _) => bytes_text(usage as nat),
        },
    }
}

/// Writes a memory usage. `memory_percent` is the percentage with one decimal.
pub fn format_memory(
    usage_bytes: Option<u64>,
    limit_bytes: Option<u64>,
    memory_percent: Option<&str>,
) -> (text: String)
    ensures
        text@ == memory_text(usage_bytes, limit_bytes, memory_percent.deep_view()),
{
    let Some(usage) = usage_bytes else {
        return "-".to_owned();
    };
    let usage = format_bytes(usage);
    match (limit_bytes, memory_percent) {
        (Some(limit), Some(percent)) => usage.concat("/").concat(&format_bytes(limit)).concat(
            " (",
        ).concat(percent).concat("%)"),
        (Some(limit), None) => usage.concat("/").concat(&format_bytes(limit)),
        (None, _) => usage,
    }
}

/// Two numbers of bytes: read or received, and written or sent.
pub open spec fn io_text(read_or_rx: u64, write_or_tx: u64) -> Seq<char> {
    bytes_text(read_or_rx as nat) + "/"@ + bytes_text(write_or_tx as nat)
}

/// Writes two numbers of bytes.
pub fn format_io(read_or_rx: u64, write_or_tx: u64) -> (text: String)
    ensures
        text@ == io_text(read_or_rx, write_or_tx),
{
    format_bytes(read_or_rx).concat("/").concat(&format_bytes(write_or_tx))
}

/// A number of processes, where it is known.
pub open spec fn pids_text(pids: Option<u64>) -> Seq<char> {
    match pids {
        Some(pids) => text::decimal_text(pids as nat),
        None => "-"@,
    }
}

/// Writes a number of processes.
pub fn format_pids(pids: Option<u64>) -> (text: String)
    ensures
        text@ == pids_text(pids),
{
    match pids {
        Some(pids) => text::decimal(pids),
        None => "-".to_owned(),
    }
}

/// A share is only told where it can be divided: with CPUs and time to share, or a limit.
pub proof fn shares_can_be_divided(stats: Stats, metrics: Seq<ContainerMetrics>)
    ensures
        metrics_of_stats(stats).cpu_percent matches Some(share) ==> share.system_delta > 0
            && share.online_cpus > 0,
        metrics_of_stats(stats).memory_percent matches Some(share) ==> share.limit > 0,
        project_metrics(metrics) matches Some(sums) ==> (sums.memory_percent matches Some(share)
            ==> share.limit > 0),
{
}

} // verus!
