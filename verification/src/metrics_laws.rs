//! What holds of resource usage, whatever Docker measures.

use vstd::prelude::*;

use crate::metrics::{
    self, BlkioModel, ContainerMetrics, MemoryStatsStats, NetworkStats, Stats,
};
use crate::text;
use crate::text_laws;

verus! {

/// A sum that stops at the largest number.
pub open spec fn capped(sum: int) -> int {
    if sum > u64::MAX {
        u64::MAX as int
    } else {
        sum
    }
}

/// What is received and what is sent are summed apart, each interface into both: with one interface
/// more, its received bytes come to those received, and its sent bytes to those sent.
pub proof fn each_interface_adds_its_traffic(shorter: Stats, longer: Stats, next: NetworkStats)
    requires
        shorter.networks is Some,
        longer.networks is Some,
        longer.networks->0@ == shorter.networks->0@.push(next),
    ensures
        metrics::metrics_of_stats(longer).network_rx_bytes == capped(
            metrics::metrics_of_stats(shorter).network_rx_bytes + next.rx_bytes,
        ),
        metrics::metrics_of_stats(longer).network_tx_bytes == capped(
            metrics::metrics_of_stats(shorter).network_tx_bytes + next.tx_bytes,
        ),
{
    let before = shorter.networks->0@;
    let rx = |stats: NetworkStats| stats.rx_bytes;
    let tx = |stats: NetworkStats| stats.tx_bytes;
    assert(before.push(next).map_values(rx) =~= before.map_values(rx).push(next.rx_bytes));
    assert(before.push(next).map_values(tx) =~= before.map_values(tx).push(next.tx_bytes));
    sum_push(before.map_values(rx), next.rx_bytes);
    sum_push(before.map_values(tx), next.tx_bytes);
}

proof fn sum_push(values: Seq<u64>, value: u64)
    ensures
        metrics::capped_total(values.push(value)) == capped(metrics::capped_total(values) + value),
{
    assert(values.push(value).drop_last() =~= values);
}

/// Where no interfaces are listed there is no traffic, but for that of the one interface where that
/// is reported by itself; listed interfaces count before it.
pub proof fn unlisted_interface_counts_alone(stats: Stats)
    ensures
        ({
            let metrics = metrics::metrics_of_stats(stats);
            &&& stats.networks matches Some(networks) ==> (networks@.len() == 0
                ==> metrics.network_rx_bytes == 0 && metrics.network_tx_bytes == 0)
            &&& stats.networks is None ==> (stats.network matches Some(one)
                ==> metrics.network_rx_bytes == one.rx_bytes && metrics.network_tx_bytes
                == one.tx_bytes)
            &&& stats.networks is None && stats.network is None ==> metrics.network_rx_bytes == 0
                && metrics.network_tx_bytes == 0
            &&& stats.networks matches Some(networks) ==> (networks@.len() == 1
                ==> metrics.network_rx_bytes == networks@[0].rx_bytes && metrics.network_tx_bytes
                == networks@[0].tx_bytes)
        }),
{
    if let Some(networks) = stats.networks {
        let rx = |stats: NetworkStats| stats.rx_bytes;
        let tx = |stats: NetworkStats| stats.tx_bytes;
        let empty: Seq<u64> = seq![];
        assert(metrics::capped_total(empty) == 0);
        if networks@.len() == 0 {
            assert(networks@.map_values(rx) =~= empty);
            assert(networks@.map_values(tx) =~= empty);
        }
        if networks@.len() == 1 {
            assert(networks@.map_values(rx) =~= empty.push(networks@[0].rx_bytes));
            assert(networks@.map_values(tx) =~= empty.push(networks@[0].tx_bytes));
            sum_push(empty, networks@[0].rx_bytes);
            sum_push(empty, networks@[0].tx_bytes);
        }
    }
}

/// What is read and what is written are summed apart: an entry more comes to the bytes read where it
/// is called `read`, to those written where it is called `write`, in capitals or not, and to neither
/// where it is called otherwise. Without entries there are none.
pub proof fn each_block_entry_adds_its_bytes(
    shorter: Stats,
    longer: Stats,
    entries: Seq<BlkioModel>,
    next: BlkioModel,
)
    requires
        shorter.io_service_bytes_recursive.deep_view() == Some(entries),
        longer.io_service_bytes_recursive.deep_view() == Some(entries.push(next)),
    ensures
        ({
            let before = metrics::metrics_of_stats(shorter);
            let after = metrics::metrics_of_stats(longer);
            let op = text::ascii_lower_text(next.op);
            &&& after.block_read_bytes == (if op == "read"@ {
                capped(before.block_read_bytes + next.value)
            } else {
                before.block_read_bytes as int
            })
            &&& after.block_write_bytes == (if op == "write"@ {
                capped(before.block_write_bytes + next.value)
            } else {
                before.block_write_bytes as int
            })
            &&& entries.len() == 0 ==> before.block_read_bytes == 0 && before.block_write_bytes == 0
        }),
{
    assert(entries.push(next).drop_last() =~= entries);
    sum_push(metrics::moved_bytes(entries, "read"@), next.value);
    sum_push(metrics::moved_bytes(entries, "write"@), next.value);
    assert(metrics::capped_total(seq![]) == 0);
}

/// Where Docker reports no block operations, nothing was read or written.
pub proof fn no_block_entries_no_bytes(stats: Stats)
    requires
        stats.io_service_bytes_recursive is None,
    ensures
        metrics::metrics_of_stats(stats).block_read_bytes == 0,
        metrics::metrics_of_stats(stats).block_write_bytes == 0,
{
}

/// The memory in use is what Docker reports less the file cache that the kernel can drop, and never
/// less than nothing. It is known if and only if Docker reports it. The limit is as reported. The
/// share is that usage of that limit, and is told if and only if both are known and there is a limit.
pub proof fn memory_is_told_without_cache(stats: Stats)
    ensures
        ({
            let metrics = metrics::metrics_of_stats(stats);
            let cache = match stats.memory_stats.stats {
                Some(MemoryStatsStats::V1 { total_inactive_file }) => total_inactive_file as int,
                Some(MemoryStatsStats::V2 { inactive_file }) => inactive_file as int,
                None => 0int,
            };
            &&& metrics.memory_usage_bytes is Some <==> stats.memory_stats.usage is Some
            &&& stats.memory_stats.usage matches Some(usage) ==> {
                &&& usage >= cache ==> metrics.memory_usage_bytes->0 == usage - cache
                &&& usage < cache ==> metrics.memory_usage_bytes->0 == 0
            }
            &&& metrics.memory_limit_bytes == stats.memory_stats.limit
            &&& metrics.memory_percent is Some <==> {
                &&& stats.memory_stats.usage is Some
                &&& stats.memory_stats.limit is Some
                &&& stats.memory_stats.limit->0 > 0
            }
            &&& metrics.memory_percent matches Some(share) ==> Some(share.usage)
                == metrics.memory_usage_bytes && Some(share.limit) == metrics.memory_limit_bytes
            &&& metrics.pids == stats.pids
        }),
{
}

/// The CPU share is what the container used between the readings, of what the host used between
/// them. It is told if and only if the host's counter is in both readings and has risen, and the
/// number of CPUs is known and not zero: as reported, else one for each counter of a CPU.
pub proof fn cpu_share_is_between_readings(stats: Stats)
    ensures
        ({
            let share = metrics::metrics_of_stats(stats).cpu_percent;
            let now = stats.cpu_stats;
            let before = stats.precpu_stats;
            let cpus = match (now.online_cpus, now.percpu_usage) {
                (Some(count), _) => count as int,
                (None, Some(usage)) => usage@.len() as int,
                (None, None) => 0int,
            };
            &&& cpus <= u64::MAX ==> (share is Some <==> {
                &&& now.system_cpu_usage is Some
                &&& before.system_cpu_usage is Some
                &&& now.system_cpu_usage->0 > before.system_cpu_usage->0
                &&& cpus > 0
            })
            &&& share matches Some(share) ==> {
                &&& cpus <= u64::MAX ==> share.online_cpus == cpus
                &&& share.system_delta == now.system_cpu_usage->0 - before.system_cpu_usage->0
                &&& now.total_usage >= before.total_usage ==> share.cpu_delta == now.total_usage
                    - before.total_usage
                &&& now.total_usage < before.total_usage ==> share.cpu_delta == 0
            }
        }),
{
}

/// A CPU share holds the three numbers that it is made of, and there is none without time or CPUs.
pub proof fn cpu_shares_keep_their_numbers(cpu_delta: u64, system_delta: u64, online_cpus: u64)
    ensures
        metrics::cpu_share(cpu_delta, system_delta, online_cpus) is Some <==> system_delta > 0
            && online_cpus > 0,
        metrics::cpu_share(cpu_delta, system_delta, online_cpus) matches Some(share)
            ==> share.cpu_delta == cpu_delta && share.system_delta == system_delta
            && share.online_cpus == online_cpus,
{
}

/// A share of memory holds the two numbers that it is made of, and there is none without a limit.
pub proof fn memory_shares_keep_their_numbers(usage: u64, limit: u64)
    ensures
        metrics::memory_share(usage, limit) is Some <==> limit > 0,
        metrics::memory_share(usage, limit) matches Some(share) ==> share.usage == usage
            && share.limit == limit,
{
}

/// File cache that the kernel can drop does not count as memory in use.
pub proof fn cache_is_taken_off(usage: u64, cache: u64)
    ensures
        metrics::risen(usage, metrics::cache_bytes(None)) == usage,
        usage >= cache ==> metrics::risen(
            usage,
            metrics::cache_bytes(Some(MemoryStatsStats::V1 { total_inactive_file: cache })),
        ) == usage - cache,
        usage >= cache ==> metrics::risen(
            usage,
            metrics::cache_bytes(Some(MemoryStatsStats::V2 { inactive_file: cache })),
        ) == usage - cache,
        usage < cache ==> metrics::risen(
            usage,
            metrics::cache_bytes(Some(MemoryStatsStats::V1 { total_inactive_file: cache })),
        ) == 0,
        usage < cache ==> metrics::risen(
            usage,
            metrics::cache_bytes(Some(MemoryStatsStats::V2 { inactive_file: cache })),
        ) == 0,
{
}

/// A project with one container that is measured uses what that container uses. One without any has
/// no metrics.
pub proof fn one_container_is_the_project(metrics: ContainerMetrics)
    ensures
        metrics::project_metrics(seq![]) is None,
        metrics::project_metrics(seq![metrics]) matches Some(sums) && {
            &&& sums.network_rx_bytes == metrics.network_rx_bytes
            &&& sums.network_tx_bytes == metrics.network_tx_bytes
            &&& sums.block_read_bytes == metrics.block_read_bytes
            &&& sums.block_write_bytes == metrics.block_write_bytes
            &&& sums.memory_usage_bytes == metrics.memory_usage_bytes
            &&& sums.memory_limit_bytes == metrics.memory_limit_bytes
            &&& sums.pids == metrics.pids
            &&& metrics.cpu_percent matches Some(share) ==> sums.cpu_percent == Some(seq![share])
            &&& metrics.cpu_percent is None ==> sums.cpu_percent is None
        },
{
    let none: Seq<ContainerMetrics> = seq![];
    let one = seq![metrics];
    assert(one =~= none.push(metrics));
    columns_push(none, metrics);
    assert(none.map_values(|m: ContainerMetrics| m.network_rx_bytes) =~= seq![]);
    assert(none.map_values(|m: ContainerMetrics| m.network_tx_bytes) =~= seq![]);
    assert(none.map_values(|m: ContainerMetrics| m.block_read_bytes) =~= seq![]);
    assert(none.map_values(|m: ContainerMetrics| m.block_write_bytes) =~= seq![]);
    assert(none.map_values(|m: ContainerMetrics| m.memory_usage_bytes) =~= seq![]);
    assert(none.map_values(|m: ContainerMetrics| m.memory_limit_bytes) =~= seq![]);
    assert(none.map_values(|m: ContainerMetrics| m.pids) =~= seq![]);
    let empty: Seq<Option<u64>> = seq![];
    assert(metrics::capped_total(seq![]) == 0);
    assert(metrics::known_values(empty) =~= seq![]);
    known_push(empty, metrics.memory_usage_bytes);
    known_push(empty, metrics.memory_limit_bytes);
    known_push(empty, metrics.pids);
    assert(metrics::known_shares(none) =~= seq![]);
    assert(one.drop_last() =~= none);
    if let Some(share) = metrics.cpu_percent {
        assert(metrics::known_shares(one) =~= seq![share]);
    }
}

proof fn columns_push(metrics: Seq<ContainerMetrics>, next: ContainerMetrics)
    ensures
        ({
            let rx = |m: ContainerMetrics| m.network_rx_bytes;
            let tx = |m: ContainerMetrics| m.network_tx_bytes;
            let read = |m: ContainerMetrics| m.block_read_bytes;
            let write = |m: ContainerMetrics| m.block_write_bytes;
            let usage = |m: ContainerMetrics| m.memory_usage_bytes;
            let limit = |m: ContainerMetrics| m.memory_limit_bytes;
            let pids = |m: ContainerMetrics| m.pids;
            let all = metrics.push(next);
            &&& all.map_values(rx) == metrics.map_values(rx).push(next.network_rx_bytes)
            &&& all.map_values(tx) == metrics.map_values(tx).push(next.network_tx_bytes)
            &&& all.map_values(read) == metrics.map_values(read).push(next.block_read_bytes)
            &&& all.map_values(write) == metrics.map_values(write).push(next.block_write_bytes)
            &&& all.map_values(usage) == metrics.map_values(usage).push(next.memory_usage_bytes)
            &&& all.map_values(limit) == metrics.map_values(limit).push(next.memory_limit_bytes)
            &&& all.map_values(pids) == metrics.map_values(pids).push(next.pids)
            &&& metrics::capped_total(all.map_values(rx)) == capped(
                metrics::capped_total(metrics.map_values(rx)) + next.network_rx_bytes,
            )
            &&& metrics::capped_total(all.map_values(tx)) == capped(
                metrics::capped_total(metrics.map_values(tx)) + next.network_tx_bytes,
            )
            &&& metrics::capped_total(all.map_values(read)) == capped(
                metrics::capped_total(metrics.map_values(read)) + next.block_read_bytes,
            )
            &&& metrics::capped_total(all.map_values(write)) == capped(
                metrics::capped_total(metrics.map_values(write)) + next.block_write_bytes,
            )
        }),
{
    let rx = |m: ContainerMetrics| m.network_rx_bytes;
    let tx = |m: ContainerMetrics| m.network_tx_bytes;
    let read = |m: ContainerMetrics| m.block_read_bytes;
    let write = |m: ContainerMetrics| m.block_write_bytes;
    let usage = |m: ContainerMetrics| m.memory_usage_bytes;
    let limit = |m: ContainerMetrics| m.memory_limit_bytes;
    let pids = |m: ContainerMetrics| m.pids;
    let all = metrics.push(next);
    assert(all.map_values(rx) =~= metrics.map_values(rx).push(next.network_rx_bytes));
    assert(all.map_values(tx) =~= metrics.map_values(tx).push(next.network_tx_bytes));
    assert(all.map_values(read) =~= metrics.map_values(read).push(next.block_read_bytes));
    assert(all.map_values(write) =~= metrics.map_values(write).push(next.block_write_bytes));
    assert(all.map_values(usage) =~= metrics.map_values(usage).push(next.memory_usage_bytes));
    assert(all.map_values(limit) =~= metrics.map_values(limit).push(next.memory_limit_bytes));
    assert(all.map_values(pids) =~= metrics.map_values(pids).push(next.pids));
    sum_push(metrics.map_values(rx), next.network_rx_bytes);
    sum_push(metrics.map_values(tx), next.network_tx_bytes);
    sum_push(metrics.map_values(read), next.block_read_bytes);
    sum_push(metrics.map_values(write), next.block_write_bytes);
}

/// The sum of two numbers that may be unknown, where an unknown one counts for nothing.
pub open spec fn sum_if_known(a: Option<u64>, b: Option<u64>) -> Option<int> {
    match (a, b) {
        (Some(a), Some(b)) => Some(capped(a + b)),
        (Some(a), None) => Some(a as int),
        (None, Some(b)) => Some(b as int),
        (None, None) => None,
    }
}

/// The sum of two numbers that may be unknown, which is unknown if either is.
pub open spec fn sum_unless_unknown(a: Option<u64>, b: Option<u64>) -> Option<int> {
    match (a, b) {
        (Some(a), Some(b)) => Some(capped(a + b)),
        _ => None,
    }
}

proof fn known_push(values: Seq<Option<u64>>, value: Option<u64>)
    ensures
        values.len() > 0 ==> as_int(metrics::sum_of_known(values.push(value))) == sum_if_known(
            metrics::sum_of_known(values),
            value,
        ),
        values.len() > 0 ==> as_int(metrics::sum_of_all(values.push(value))) == sum_unless_unknown(
            metrics::sum_of_all(values),
            value,
        ),
        values.len() == 0 ==> metrics::sum_of_known(values.push(value)) == value
            && metrics::sum_of_all(values.push(value)) == value,
{
    let longer = values.push(value);
    assert(longer.drop_last() =~= values);
    assert(longer[values.len() as int] == value);
    assert forall|i: int| 0 <= i < values.len() implies #[trigger] values[i] == longer[i] by {}
    if let Some(number) = value {
        sum_push(metrics::known_values(values), number);
    }
    assert(metrics::capped_total(seq![]) == 0);
    if values.len() == 0 {
        assert(metrics::known_values(values) =~= seq![]);
    }
    if exists|i: int| 0 <= i < values.len() && #[trigger] values[i] is Some {
        let i = choose|i: int| 0 <= i < values.len() && #[trigger] values[i] is Some;
        assert(longer[i] is Some);
    } else {
        nothing_known(values);
    }
    if !(forall|i: int| 0 <= i < values.len() ==> #[trigger] values[i] is Some) {
        let i = choose|i: int| 0 <= i < values.len() && !(#[trigger] values[i] is Some);
        assert(!(longer[i] is Some));
    }
}

proof fn nothing_known(values: Seq<Option<u64>>)
    requires
        forall|i: int| 0 <= i < values.len() ==> !(#[trigger] values[i] is Some),
    ensures
        metrics::known_values(values) == Seq::<u64>::empty(),
    decreases values.len(),
{
    if values.len() > 0 {
        let rest = values.drop_last();
        assert(values[values.len() - 1] == values.last());
        assert forall|i: int| 0 <= i < rest.len() implies !(#[trigger] rest[i] is Some) by {
            assert(rest[i] == values[i]);
        }
        nothing_known(rest);
    }
}

/// A number that may be unknown, as an integer.
pub open spec fn as_int(value: Option<u64>) -> Option<int> {
    match value {
        Some(value) => Some(value as int),
        None => None,
    }
}

/// One container more adds to each sum of its project what it uses itself, and to no other. Its
/// memory counts where it is known; a limit or a number of processes that is not known leaves the
/// project's unknown. Its CPU share comes to those of the others. The memory share is that of the
/// sums.
pub proof fn each_container_adds_its_usage(
    containers: Seq<ContainerMetrics>,
    next: ContainerMetrics,
)
    requires
        containers.len() > 0,
    ensures
        metrics::project_metrics(containers) is Some,
        metrics::project_metrics(containers.push(next)) is Some,
        ({
            let before = metrics::project_metrics(containers)->0;
            let after = metrics::project_metrics(containers.push(next))->0;
            &&& after.network_rx_bytes == capped(before.network_rx_bytes + next.network_rx_bytes)
            &&& after.network_tx_bytes == capped(before.network_tx_bytes + next.network_tx_bytes)
            &&& after.block_read_bytes == capped(before.block_read_bytes + next.block_read_bytes)
            &&& after.block_write_bytes == capped(before.block_write_bytes + next.block_write_bytes)
            &&& as_int(after.memory_usage_bytes) == sum_if_known(
                before.memory_usage_bytes,
                next.memory_usage_bytes,
            )
            &&& as_int(after.memory_limit_bytes) == sum_unless_unknown(
                before.memory_limit_bytes,
                next.memory_limit_bytes,
            )
            &&& as_int(after.pids) == sum_unless_unknown(before.pids, next.pids)
            &&& next.cpu_percent is None ==> after.cpu_percent == before.cpu_percent
            &&& next.cpu_percent matches Some(share) ==> after.cpu_percent == Some(
                (match before.cpu_percent {
                    Some(shares) => shares,
                    None => seq![],
                }).push(share),
            )
        }),
{
    columns_push(containers, next);
    known_push(
        containers.map_values(|m: ContainerMetrics| m.memory_usage_bytes),
        next.memory_usage_bytes,
    );
    known_push(
        containers.map_values(|m: ContainerMetrics| m.memory_limit_bytes),
        next.memory_limit_bytes,
    );
    known_push(containers.map_values(|m: ContainerMetrics| m.pids), next.pids);
    assert(containers.push(next).drop_last() =~= containers);
    if metrics::known_shares(containers).len() == 0 {
        assert(metrics::known_shares(containers) =~= seq![]);
    }
}

/// The memory share of a project is its usage of its limit, told if and only if both are known and
/// there is a limit.
pub proof fn project_share_is_of_its_sums(containers: Seq<ContainerMetrics>)
    ensures
        metrics::project_metrics(containers) matches Some(sums) ==> {
            &&& sums.memory_percent is Some <==> sums.memory_usage_bytes is Some
                && sums.memory_limit_bytes is Some && sums.memory_limit_bytes->0 > 0
            &&& sums.memory_percent matches Some(share) ==> Some(share.usage)
                == sums.memory_usage_bytes && Some(share.limit) == sums.memory_limit_bytes
        },
{
}

/// The nearest whole number to a quotient is at most half away from it, and even where two are
/// equally near.
pub proof fn rounding_goes_to_the_nearest(n: nat, d: nat)
    requires
        d > 0,
    ensures
        2 * (metrics::rounded(n, d) * d - n) <= d,
        2 * (n - metrics::rounded(n, d) * d) <= d,
        2 * (metrics::rounded(n, d) * d - n) == d || 2 * (n - metrics::rounded(n, d) * d) == d
            ==> metrics::rounded(n, d) % 2 == 0,
{
    let q = n / d;
    let r = n % d;
    assert(n == q * d + r) by (nonlinear_arith)
        requires
            q == n / d,
            r == n % d,
            d > 0,
    ;
    assert((q + 1) * d == q * d + d) by (nonlinear_arith);
}

/// Numbers below 2^53 are taken as they are; larger ones are rounded by less than one part in 2^52.
pub proof fn double_precision_is_near(n: nat)
    ensures
        n < 0x20_0000_0000_0000 ==> metrics::in_double_precision(n) == n,
        n >= 0x20_0000_0000_0000 ==> metrics::spacing(n) * 0x10_0000_0000_0000 <= n
            && 2 * (metrics::in_double_precision(n) - n) <= metrics::spacing(n) && 2 * (n
            - metrics::in_double_precision(n)) <= metrics::spacing(n),
    decreases n,
{
    spacing_is_small(n);
    rounding_goes_to_the_nearest(n, metrics::spacing(n));
    if n < 0x20_0000_0000_0000 {
        assert(metrics::spacing(n) == 1);
        assert(n / 1 == n && n % 1 == 0);
        assert(metrics::in_double_precision(n) == n);
    }
}

proof fn spacing_is_small(n: nat)
    ensures
        metrics::spacing(n) > 0,
        n >= 0x20_0000_0000_0000 ==> metrics::spacing(n) * 0x10_0000_0000_0000 <= n,
    decreases n,
{
    if n >= 0x20_0000_0000_0000 {
        spacing_is_small(n / 2);
        if n / 2 < 0x20_0000_0000_0000 {
            assert(metrics::spacing(n / 2) == 1);
        }
    }
}

/// A number of bytes below 1024 is written in bytes. A larger one is written in KiB, MiB or GiB, the
/// largest of them that it fills, with one decimal: the nearest number of tenths. From 2^53 on it is
/// rounded to double precision first.
pub proof fn bytes_are_written_in_the_largest_unit(bytes: nat)
    ensures
        bytes < 1024 ==> metrics::bytes_text(bytes) == text::decimal_text(bytes) + "B"@,
        1024 <= bytes < 1024 * 1024 ==> written_in(metrics::bytes_text(bytes), bytes, 1024, "KiB"@),
        1024 * 1024 <= bytes < 1024 * 1024 * 1024 ==> written_in(
            metrics::bytes_text(bytes),
            bytes,
            1024 * 1024,
            "MiB"@,
        ),
        1024 * 1024 * 1024 <= bytes ==> written_in(
            metrics::bytes_text(bytes),
            metrics::in_double_precision(bytes),
            1024 * 1024 * 1024,
            "GiB"@,
        ),
{
    double_precision_is_near(bytes);
    if bytes >= 0x20_0000_0000_0000 {
        let n = metrics::in_double_precision(bytes);
        let tenths = metrics::rounded(n * 10, 1024 * 1024 * 1024);
        rounding_goes_to_the_nearest(n * 10, 1024 * 1024 * 1024);
        assert(one_decimal_of(metrics::bytes_text(bytes), tenths, "GiB"@));
    } else if bytes >= 1024 {
        let unit: nat = if bytes < 1024 * 1024 {
            1024
        } else if bytes < 1024 * 1024 * 1024 {
            1024 * 1024
        } else {
            1024 * 1024 * 1024
        };
        let tenths = metrics::rounded(bytes * 10, unit);
        rounding_goes_to_the_nearest(bytes * 10, unit);
        let name = if bytes < 1024 * 1024 {
            "KiB"@
        } else if bytes < 1024 * 1024 * 1024 {
            "MiB"@
        } else {
            "GiB"@
        };
        assert(one_decimal_of(metrics::bytes_text(bytes), tenths, name));
    }
}

/// Whether a text is a number of tenths with one decimal, and a unit.
pub open spec fn one_decimal_of(written: Seq<char>, tenths: nat, unit: Seq<char>) -> bool {
    written == text::decimal_text(tenths / 10) + "."@ + text::decimal_text(tenths % 10) + unit
}

/// Whether a text gives a number of bytes in a unit, to the nearest tenth of it.
pub open spec fn written_in(written: Seq<char>, bytes: nat, unit: nat, name: Seq<char>) -> bool {
    exists|tenths: nat| #[trigger]
        one_decimal_of(written, tenths, name) && 2 * (tenths * unit - bytes * 10) <= unit && 2 * (
        bytes * 10 - tenths * unit) <= unit
}

/// What is not known is written as a dash; a percentage has its sign behind it; of two numbers of
/// bytes what was read or received stands first; a memory usage stands before its limit, where that
/// is known, and its percentage behind both in brackets, where that is known too.
pub proof fn usage_is_written_in_order(
    percent: Seq<char>,
    usage: u64,
    limit: u64,
    any_limit: Option<u64>,
    any_percent: Option<Seq<char>>,
    first: u64,
    second: u64,
    pids: u64,
)
    ensures
        metrics::percent_text(None) == "-"@,
        metrics::percent_text(Some(percent)) == percent + "%"@,
        metrics::memory_text(None, any_limit, any_percent) == "-"@,
        metrics::memory_text(Some(usage), None, any_percent) == metrics::bytes_text(usage as nat),
        metrics::memory_text(Some(usage), Some(limit), None) == metrics::bytes_text(usage as nat)
            + "/"@ + metrics::bytes_text(limit as nat),
        metrics::memory_text(Some(usage), Some(limit), Some(percent)) == metrics::bytes_text(
            usage as nat,
        ) + "/"@ + metrics::bytes_text(limit as nat) + " ("@ + percent + "%)"@,
        metrics::io_text(first, second) == metrics::bytes_text(first as nat) + "/"@
            + metrics::bytes_text(second as nat),
        metrics::pids_text(None) == "-"@,
        text_laws::number_read(metrics::pids_text(Some(pids))) == pids,
        metrics::pids_text(Some(pids)) == text::decimal_text(pids as nat),
{
    text_laws::decimals_read_back(pids as nat);
}

} // verus!
