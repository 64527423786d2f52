//! The state of projects and their resource usage.

use lazydc::docker_api::{
    summarize_project, ContainerStatus, HealthSummary, ProjectState, ProjectSummary,
};
use lazydc::loading::{
    first_name, format_ports, unavailable_statuses, ContainerHealth, ContainerInspectResponse,
    ContainerState, ContainerSummary, DockerRequest, Port, StatusLoader,
};
use lazydc::metrics::{
    adjusted_memory_usage, block_io_totals, calculate_cpu_percent,
    calculate_cpu_percent_from_deltas, container_metrics_from_stats, format_bytes, format_cpu,
    format_io, format_memory, format_pids, network_totals, percent, BlkioStatsEntry,
    ContainerMetrics, CpuShare, CpuStats, MemoryShare, MemoryStats, MemoryStatsStats, NetworkStats,
    Stats,
};
use lazydc::native::NativeString;
use lazydc::project::Project;

fn cpu_percent(share: &CpuShare) -> f64 {
    (share.cpu_delta as f64 / share.system_delta as f64) * share.online_cpus as f64 * 100.0
}

fn memory_percent(share: &MemoryShare) -> f64 {
    (share.usage as f64 / share.limit as f64) * 100.0
}

fn container(id: &str, name: &str, state: &str, health: Option<&str>) -> ContainerStatus {
    ContainerStatus {
        id: id.to_string(),
        name: name.to_string(),
        service: None,
        image: None,
        state: state.to_string(),
        health: health.map(|health| health.to_string()),
        status: None,
        started_at: None,
        ports: vec![],
        metrics: None,
    }
}

fn container_with_metrics(metrics: ContainerMetrics) -> ContainerStatus {
    ContainerStatus {
        id: "1".to_string(),
        name: "app".to_string(),
        service: None,
        image: None,
        state: "running".to_string(),
        health: None,
        status: None,
        started_at: None,
        ports: vec![],
        metrics: Some(metrics),
    }
}

fn network_stats(rx_bytes: u64, tx_bytes: u64) -> NetworkStats {
    NetworkStats { rx_bytes, tx_bytes }
}

fn blkio_entry(op: &str, value: u64) -> BlkioStatsEntry {
    BlkioStatsEntry { op: op.to_string(), value }
}

fn project(name: &str) -> Project {
    let dir = NativeString::from_text("/srv").join_text(name);
    Project {
        name: name.to_string(),
        dir: dir.clone(),
        compose_file: dir.join_text("compose.yaml"),
        env_file: None,
    }
}

#[test]
fn summarizes_partial_project() {
    let containers = vec![
        ContainerStatus {
            id: "1".to_string(),
            name: "a".to_string(),
            service: None,
            image: None,
            state: "running".to_string(),
            health: Some("healthy".to_string()),
            status: None,
            started_at: None,
            ports: vec![],
            metrics: None,
        },
        ContainerStatus {
            id: "2".to_string(),
            name: "b".to_string(),
            service: None,
            image: None,
            state: "exited".to_string(),
            health: None,
            status: None,
            started_at: None,
            ports: vec![],
            metrics: None,
        },
    ];

    let summary = summarize_project(&containers);
    assert!(matches!(summary.state, ProjectState::Partial));
    assert_eq!(summary.running_containers, 1);
    assert_eq!(summary.total_containers, 2);
    assert_eq!(summary.metrics, None);
}

#[test]
fn states_follow_the_containers() {
    let none = summarize_project(&vec![]);
    assert_eq!(none.state, ProjectState::Missing);
    assert_eq!(none.health, HealthSummary::NoHealthcheck);
    assert_eq!(none.running_summary(), "0/0 running");

    let up = summarize_project(&vec![container("1", "a", "running", None)]);
    assert_eq!(up.state, ProjectState::Running);
    assert_eq!(up.running_summary(), "1/1 running");

    let down = summarize_project(&vec![container("1", "a", "exited", None)]);
    assert_eq!(down.state, ProjectState::Stopped);
}

#[test]
fn health_is_the_worst_reported() {
    let of = |healths: &[&str]| {
        let containers: Vec<ContainerStatus> = healths
            .iter()
            .map(|health| container("1", "a", "running", Some(health)))
            .collect();
        summarize_project(&containers).health
    };
    assert_eq!(of(&["healthy", "starting", "unhealthy"]), HealthSummary::Unhealthy);
    assert_eq!(of(&["healthy", "starting"]), HealthSummary::Starting);
    assert_eq!(of(&["healthy", "none"]), HealthSummary::Healthy);
    assert_eq!(of(&["none"]), HealthSummary::NoHealthcheck);
}

#[test]
fn states_and_healths_have_names() {
    let summary = |state, health| ProjectSummary {
        state,
        health,
        running_containers: 3,
        total_containers: 4,
        metrics: None,
    };
    let states = [
        (ProjectState::Running, "running"),
        (ProjectState::Partial, "partial"),
        (ProjectState::Stopped, "stopped"),
        (ProjectState::Missing, "missing"),
        (ProjectState::Error, "error"),
        (ProjectState::Unknown, "unknown"),
    ];
    for (state, label) in states {
        assert_eq!(summary(state, HealthSummary::Unknown).state_label(), label);
    }
    let healths = [
        (HealthSummary::Healthy, "healthy"),
        (HealthSummary::Unhealthy, "unhealthy"),
        (HealthSummary::Starting, "starting"),
        (HealthSummary::NoHealthcheck, "no-healthcheck"),
        (HealthSummary::Unknown, "unknown"),
    ];
    for (health, label) in healths {
        assert_eq!(summary(ProjectState::Unknown, health).health_label(), label);
    }
    let running = summary(ProjectState::Partial, HealthSummary::Unknown).running_summary();
    assert_eq!(running, "3/4 running");
}

#[test]
fn calculates_cpu_percent_from_docker_deltas() {
    let share = calculate_cpu_percent_from_deltas(50, 1_000, 2).unwrap();
    let percent = cpu_percent(&share);
    assert_eq!(percent, 10.0);
}

#[test]
fn cpu_percent_needs_time_and_cpus() {
    assert_eq!(calculate_cpu_percent_from_deltas(50, 0, 2), None);
    assert_eq!(calculate_cpu_percent_from_deltas(50, 1_000, 0), None);
}

fn cpu_stats(total: u64, system: Option<u64>, online: Option<u64>, percpu: usize) -> CpuStats {
    CpuStats {
        total_usage: total,
        percpu_usage: if percpu == 0 { None } else { Some(vec![1; percpu]) },
        system_cpu_usage: system,
        online_cpus: online,
    }
}

fn stats_with_cpu(now: CpuStats, before: CpuStats) -> Stats {
    Stats {
        cpu_stats: now,
        precpu_stats: before,
        memory_stats: MemoryStats { usage: None, limit: None, stats: None },
        network: None,
        networks: None,
        io_service_bytes_recursive: None,
        pids: None,
    }
}

#[test]
fn cpu_percent_is_taken_between_two_readings() {
    let stats = stats_with_cpu(
        cpu_stats(150, Some(3_000), Some(2), 0),
        cpu_stats(100, Some(2_000), None, 0),
    );
    assert_eq!(
        calculate_cpu_percent(&stats),
        Some(CpuShare { cpu_delta: 50, system_delta: 1_000, online_cpus: 2 })
    );

    let counted = stats_with_cpu(
        cpu_stats(90, Some(3_000), None, 4),
        cpu_stats(100, Some(2_000), None, 0),
    );
    assert_eq!(
        calculate_cpu_percent(&counted),
        Some(CpuShare { cpu_delta: 0, system_delta: 1_000, online_cpus: 4 })
    );

    let first = stats_with_cpu(cpu_stats(90, Some(3_000), Some(2), 0), cpu_stats(0, None, None, 0));
    assert_eq!(calculate_cpu_percent(&first), None);
}

#[test]
fn adjusts_cgroup_v1_memory_usage_by_inactive_file_cache() {
    let usage =
        adjusted_memory_usage(1_000, Some(MemoryStatsStats::V1 { total_inactive_file: 250 }));
    assert_eq!(usage, 750);
}

#[test]
fn adjusts_cgroup_v2_memory_usage_by_inactive_file_cache() {
    let usage = adjusted_memory_usage(1_000, Some(MemoryStatsStats::V2 { inactive_file: 125 }));
    assert_eq!(usage, 875);
}

#[test]
fn memory_usage_is_never_negative() {
    let usage = adjusted_memory_usage(100, Some(MemoryStatsStats::V2 { inactive_file: 125 }));
    assert_eq!(usage, 0);
    assert_eq!(adjusted_memory_usage(100, None), 100);
    assert_eq!(percent(1, 0), None);
}

#[test]
fn sums_networks_across_interfaces() {
    let networks = vec![network_stats(10, 20), network_stats(30, 40)];

    assert_eq!(network_totals(None, Some(&networks)), (40, 60));
}

#[test]
fn network_totals_do_not_depend_on_order() {
    let forth = vec![network_stats(1, 2), network_stats(30, 4), network_stats(5, 60)];
    let back = vec![network_stats(5, 60), network_stats(1, 2), network_stats(30, 4)];
    assert_eq!(network_totals(None, Some(&forth)), (36, 66));
    assert_eq!(network_totals(None, Some(&back)), (36, 66));
    assert_eq!(network_totals(Some(network_stats(7, 8)), Some(&forth)), (36, 66));
    assert_eq!(network_totals(Some(network_stats(7, 8)), None), (7, 8));
    assert_eq!(network_totals(None, None), (0, 0));
    let large = vec![network_stats(u64::MAX, 1), network_stats(2, 3)];
    assert_eq!(network_totals(None, Some(&large)), (u64::MAX, 4));
}

#[test]
fn sums_block_read_and_write_bytes() {
    let entries = vec![
        blkio_entry("Read", 10),
        blkio_entry("Write", 20),
        blkio_entry("Read", 30),
        blkio_entry("Sync", 99),
    ];

    assert_eq!(block_io_totals(Some(&entries)), (40, 20));
}

#[test]
fn block_operations_are_named_in_any_case() {
    let entries = vec![
        blkio_entry("READ", 1),
        blkio_entry("wRiTe", u64::MAX),
        blkio_entry("write", 1),
        blkio_entry("reads", 7),
    ];
    assert_eq!(block_io_totals(Some(&entries)), (1, u64::MAX));
    assert_eq!(block_io_totals(None), (0, 0));
}

#[test]
fn aggregates_project_metrics() {
    let containers = vec![
        container_with_metrics(ContainerMetrics {
            cpu_percent: Some(CpuShare { cpu_delta: 50, system_delta: 1_000, online_cpus: 2 }),
            memory_usage_bytes: Some(100),
            memory_limit_bytes: Some(1_000),
            memory_percent: Some(MemoryShare { usage: 100, limit: 1_000 }),
            network_rx_bytes: 1,
            network_tx_bytes: 2,
            block_read_bytes: 3,
            block_write_bytes: 4,
            pids: Some(5),
        }),
        container_with_metrics(ContainerMetrics {
            cpu_percent: Some(CpuShare { cpu_delta: 100, system_delta: 1_000, online_cpus: 2 }),
            memory_usage_bytes: Some(200),
            memory_limit_bytes: Some(1_000),
            memory_percent: Some(MemoryShare { usage: 200, limit: 1_000 }),
            network_rx_bytes: 10,
            network_tx_bytes: 20,
            block_read_bytes: 30,
            block_write_bytes: 40,
            pids: Some(50),
        }),
    ];
    assert_eq!(containers[0].metrics.unwrap().cpu_percent.as_ref().map(cpu_percent), Some(10.0));
    assert_eq!(containers[1].metrics.unwrap().cpu_percent.as_ref().map(cpu_percent), Some(20.0));
    let memory = |index: usize| -> Option<f64> {
        containers[index].metrics.unwrap().memory_percent.as_ref().map(memory_percent)
    };
    assert_eq!(memory(0), Some(10.0));
    assert_eq!(memory(1), Some(20.0));

    let summary = summarize_project(&containers);
    let metrics = summary.metrics.unwrap();
    let cpu: Option<f64> =
        metrics.cpu_percent.as_ref().map(|shares| shares.iter().map(cpu_percent).sum());
    assert_eq!(cpu, Some(30.0));
    assert_eq!(metrics.memory_usage_bytes, Some(300));
    assert_eq!(metrics.memory_limit_bytes, Some(2_000));
    assert_eq!(metrics.memory_percent.as_ref().map(memory_percent), Some(15.0));
    assert_eq!(metrics.network_rx_bytes, 11);
    assert_eq!(metrics.network_tx_bytes, 22);
    assert_eq!(metrics.block_read_bytes, 33);
    assert_eq!(metrics.block_write_bytes, 44);
    assert_eq!(metrics.pids, Some(55));
}

#[test]
fn unknown_limits_leave_the_project_without_one() {
    let known = ContainerMetrics {
        cpu_percent: None,
        memory_usage_bytes: Some(u64::MAX),
        memory_limit_bytes: Some(10),
        memory_percent: None,
        network_rx_bytes: u64::MAX,
        network_tx_bytes: 2,
        block_read_bytes: 3,
        block_write_bytes: 4,
        pids: Some(5),
    };
    let unknown = ContainerMetrics {
        memory_usage_bytes: None,
        memory_limit_bytes: None,
        pids: None,
        ..known
    };
    let containers = vec![
        container_with_metrics(known),
        container("2", "b", "running", None),
        container_with_metrics(unknown),
    ];
    let metrics = summarize_project(&containers).metrics.unwrap();
    assert_eq!(metrics.cpu_percent, None);
    assert_eq!(metrics.memory_usage_bytes, Some(u64::MAX));
    assert_eq!(metrics.memory_limit_bytes, None);
    assert_eq!(metrics.memory_percent, None);
    assert_eq!(metrics.network_rx_bytes, u64::MAX);
    assert_eq!(metrics.network_tx_bytes, 4);
    assert_eq!(metrics.pids, None);
}

#[test]
fn formats_metrics_for_display() {
    assert_eq!(format_cpu(Some(&format!("{:.1}", 12.34))), "12.3%");
    assert_eq!(format_bytes(1_536), "1.5KiB");
    assert_eq!(
        format_memory(Some(1_048_576), Some(2_097_152), Some(&format!("{:.1}", 50.0))),
        "1.0MiB/2.0MiB (50.0%)"
    );
    assert_eq!(format_io(1_024, 2_048), "1.0KiB/2.0KiB");
    assert_eq!(format_pids(Some(42)), "42");
}

#[test]
fn unknown_metrics_are_dashes() {
    assert_eq!(format_cpu(None), "-");
    assert_eq!(format_memory(None, Some(1), Some("1.0")), "-");
    assert_eq!(format_memory(Some(1), None, Some("1.0")), "1B");
    assert_eq!(format_memory(Some(1), Some(1_024), None), "1B/1.0KiB");
    assert_eq!(format_pids(None), "-");
}

/// What floating point makes of a number of bytes.
fn bytes_in_floating_point(bytes: u64) -> String {
    let kib: f64 = 1024.0;
    let mib: f64 = kib * 1024.0;
    let gib: f64 = mib * 1024.0;
    let bytes = bytes as f64;
    if bytes >= gib {
        format!("{:.1}GiB", bytes / gib)
    } else if bytes >= mib {
        format!("{:.1}MiB", bytes / mib)
    } else if bytes >= kib {
        format!("{:.1}KiB", bytes / kib)
    } else {
        format!("{}B", bytes as u64)
    }
}

#[test]
fn bytes_are_written_as_in_floating_point() {
    let mut numbers: Vec<u64> = Vec::new();
    for n in 0..3_000_000u64 {
        numbers.push(n);
    }
    for shift in 0..64u32 {
        let base = 1u64 << shift;
        for step in 0..40u64 {
            numbers.push(base.wrapping_add(step));
            numbers.push(base.wrapping_sub(step));
            numbers.push(base.wrapping_add(base / 20 * step));
            numbers.push(base.wrapping_add(base / 1_000 * step).wrapping_add(step));
        }
    }
    let mut seed: u64 = 0x2545_f491_4f6c_dd1d;
    for _ in 0..500_000 {
        seed ^= seed << 13;
        seed ^= seed >> 7;
        seed ^= seed << 17;
        numbers.push(seed >> (seed % 60));
    }
    numbers.push(u64::MAX);
    for n in numbers {
        assert_eq!(format_bytes(n), bytes_in_floating_point(n), "{n}");
    }
}

#[test]
fn halves_are_rounded_to_even() {
    assert_eq!(format_bytes(1_280), "1.2KiB");
    assert_eq!(format_bytes(1_792), "1.8KiB");
    assert_eq!(format_bytes(1_023), "1023B");
    assert_eq!(format_bytes(1_048_575), "1024.0KiB");
    assert_eq!(format_bytes(u64::MAX), "17179869184.0GiB");
}

#[test]
fn ports_are_written_with_what_is_known() {
    let ports = vec![
        Port { private_port: 80, public_port: Some(8080), typ: Some("tcp".to_string()) },
        Port { private_port: 53, public_port: None, typ: Some("udp".to_string()) },
        Port { private_port: 1, public_port: Some(2), typ: None },
    ];
    assert_eq!(format_ports(&ports), vec!["8080->80/tcp", "53/udp", "unknown"]);
}

fn listed(id: &str, state: Option<&str>) -> ContainerSummary {
    ContainerSummary {
        id: Some(id.to_string()),
        names: Some(vec![format!("/{id}-name"), "other".to_string()]),
        image: Some("image:latest".to_string()),
        labels: Some(vec![
            ("a".to_string(), "b".to_string()),
            ("com.docker.compose.service".to_string(), "web".to_string()),
        ]),
        state: state.map(|state| state.to_string()),
        status: Some("Up 2 hours".to_string()),
        ports: Some(vec![Port {
            private_port: 80,
            public_port: None,
            typ: Some("tcp".to_string()),
        }]),
    }
}

fn inspected(status: &str, health: Option<&str>) -> ContainerInspectResponse {
    ContainerInspectResponse {
        state: Some(ContainerState {
            status: Some(status.to_string()),
            health: health
                .map(|health| ContainerHealth { status: Some(health.to_string()) }),
            started_at: Some("2024-01-01T00:00:00Z".to_string()),
        }),
    }
}

#[test]
fn names_lose_their_leading_slashes() {
    let mut summary = listed("x", None);
    assert_eq!(first_name(&summary), "x-name");
    summary.names = Some(vec!["//a/b".to_string()]);
    assert_eq!(first_name(&summary), "a/b");
    summary.names = Some(vec![]);
    assert_eq!(first_name(&summary), "unknown");
    summary.names = None;
    assert_eq!(first_name(&summary), "unknown");
}

#[test]
fn statuses_are_loaded_project_by_project() {
    let mut loader = StatusLoader::new(vec![project("a"), project("b"), project("c")]);

    match loader.request() {
        Some(DockerRequest::List { label }) => {
            assert_eq!(label, "com.docker.compose.project=a");
        }
        request => panic!("expected a listing, got {request:?}"),
    }
    loader.listed(Some(vec![listed("one", Some("running")), listed("two", None)]));

    match loader.request() {
        Some(DockerRequest::Inspect { id }) => assert_eq!(id, "one"),
        request => panic!("expected an inspection, got {request:?}"),
    }
    loader.inspected(Some(inspected("paused", Some("healthy"))));
    match loader.request() {
        Some(DockerRequest::Measure { id }) => assert_eq!(id, "one"),
        request => panic!("expected a reading, got {request:?}"),
    }
    let mut stats = stats_with_cpu(cpu_stats(0, None, None, 0), cpu_stats(0, None, None, 0));
    stats.pids = Some(9);
    stats.memory_stats = MemoryStats { usage: Some(7), limit: Some(14), stats: None };
    assert_eq!(
        container_metrics_from_stats(&stats).memory_percent,
        Some(MemoryShare { usage: 7, limit: 14 })
    );
    loader.measured(Some(stats));

    match loader.request() {
        Some(DockerRequest::Inspect { id }) => assert_eq!(id, "two"),
        request => panic!("expected an inspection, got {request:?}"),
    }
    loader.inspected(Some(inspected("exited", None)));

    match loader.request() {
        Some(DockerRequest::List { label }) => {
            assert_eq!(label, "com.docker.compose.project=b");
        }
        request => panic!("expected a listing, got {request:?}"),
    }
    loader.listed(None);

    loader.listed(Some(vec![listed("three", None), listed("four", None)]));
    loader.inspected(None);
    assert!(loader.request().is_none());

    let statuses = loader.into_statuses();
    assert_eq!(statuses.len(), 3);

    assert_eq!(statuses[0].project.name, "a");
    assert_eq!(statuses[0].error, None);
    assert_eq!(statuses[0].summary.state, ProjectState::Partial);
    assert_eq!(statuses[0].summary.health, HealthSummary::Healthy);
    let one = &statuses[0].containers[0];
    assert_eq!(one.name, "one-name");
    assert_eq!(one.service, Some("web".to_string()));
    assert_eq!(one.image, Some("image:latest".to_string()));
    assert_eq!(one.state, "running");
    assert_eq!(one.health, Some("healthy".to_string()));
    assert_eq!(one.status, Some("Up 2 hours".to_string()));
    assert_eq!(one.started_at, Some("2024-01-01T00:00:00Z".to_string()));
    assert_eq!(one.ports, vec!["80/tcp"]);
    assert_eq!(one.metrics.unwrap().pids, Some(9));
    let two = &statuses[0].containers[1];
    assert_eq!(two.state, "exited");
    assert_eq!(two.metrics, None);

    assert_eq!(statuses[1].project.name, "b");
    assert_eq!(statuses[1].summary.state, ProjectState::Error);
    assert_eq!(statuses[1].error, Some("failed to list containers for b".to_string()));

    assert_eq!(statuses[2].project.name, "c");
    assert_eq!(statuses[2].summary.health, HealthSummary::Unknown);
    assert_eq!(statuses[2].error, Some("failed to inspect container three".to_string()));
    assert!(statuses[2].containers.is_empty());
}

#[test]
fn projects_without_containers_are_missing() {
    let mut loader = StatusLoader::new(vec![project("a")]);
    loader.listed(Some(vec![]));
    assert!(loader.request().is_none());
    let statuses = loader.into_statuses();
    assert_eq!(statuses[0].summary.state, ProjectState::Missing);
    assert_eq!(statuses[0].error, None);
}

#[test]
fn running_container_without_a_reading_has_no_metrics() {
    let mut loader = StatusLoader::new(vec![project("a")]);
    let mut anonymous = listed("x", Some("running"));
    anonymous.id = None;
    loader.listed(Some(vec![anonymous]));
    match loader.request() {
        Some(DockerRequest::Inspect { id }) => assert_eq!(id, "unknown"),
        request => panic!("expected an inspection, got {request:?}"),
    }
    loader.inspected(Some(ContainerInspectResponse { state: None }));
    loader.measured(None);
    let statuses = loader.into_statuses();
    assert_eq!(statuses[0].containers[0].metrics, None);
    assert_eq!(statuses[0].containers[0].health, None);
    assert_eq!(statuses[0].summary.state, ProjectState::Running);
}

#[test]
fn unreachable_docker_is_reported_for_every_project() {
    let statuses = unavailable_statuses(&vec![project("a"), project("b")], "no socket");
    assert_eq!(statuses.len(), 2);
    assert_eq!(statuses[1].project.name, "b");
    assert_eq!(statuses[1].summary.state, ProjectState::Unknown);
    assert_eq!(statuses[1].summary.health, HealthSummary::Unknown);
    assert_eq!(statuses[1].error, Some("docker api unavailable: no socket".to_string()));
}
