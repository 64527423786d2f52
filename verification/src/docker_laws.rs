//! What holds of the state of projects, whatever Docker reports of their containers.

use vstd::prelude::*;

use crate::docker_api::{
    self, ContainerModel, HealthSummary, ProjectState, SummaryModel,
};
use crate::loading::{
    self, Answers, ContainerInspectResponse, InspectModel, ListedModel, LoaderModel, PortModel,
    RequestModel,
};
use crate::metrics::ContainerMetrics;
use crate::metrics_laws;
use crate::project::ProjectModel;
use crate::text;

verus! {

/// The health of a project is the worst that any of its containers reports: unhealthy if and only if
/// one reports `unhealthy`; starting if and only if none does and one reports `starting`; healthy if
/// and only if neither is reported and one reports `healthy`; and without a health check if and only
/// if none of the three is reported.
pub proof fn health_is_the_worst_reported(containers: Seq<ContainerModel>)
    ensures
        ({
            let health = docker_api::summary_of(containers).health;
            let unhealthy = exists|i: int|
                0 <= i < containers.len() && (#[trigger] containers[i]).health == Some("unhealthy"@);
            let starting = exists|i: int|
                0 <= i < containers.len() && (#[trigger] containers[i]).health == Some("starting"@);
            let healthy = exists|i: int|
                0 <= i < containers.len() && (#[trigger] containers[i]).health == Some("healthy"@);
            &&& health == HealthSummary::Unhealthy <==> unhealthy
            &&& health == HealthSummary::Starting <==> !unhealthy && starting
            &&& health == HealthSummary::Healthy <==> !unhealthy && !starting && healthy
            &&& health == HealthSummary::NoHealthcheck <==> !unhealthy && !starting && !healthy
        }),
{
}

/// A project counts all its containers, and as running those whose state is `running`: one more
/// container is one more in all, and one more running if and only if it is running itself.
pub proof fn each_container_is_counted_once(containers: Seq<ContainerModel>, next: ContainerModel)
    ensures
        ({
            let before = docker_api::summary_of(containers);
            let after = docker_api::summary_of(containers.push(next));
            &&& before.total_containers == containers.len()
            &&& after.total_containers == before.total_containers + 1
            &&& next.state == "running"@ ==> after.running_containers == before.running_containers
                + 1
            &&& next.state != "running"@ ==> after.running_containers == before.running_containers
            &&& containers.len() == 0 ==> before.running_containers == 0
        }),
{
    reveal(Seq::filter);
    assert(containers.push(next).drop_last() =~= containers);
}

/// The state of a project says how many of its containers run: it is missing if and only if it has
/// none, running if and only if it has some and all run, stopped if and only if it has some and none
/// runs, and partial if and only if some run and some do not.
pub proof fn state_says_how_many_run(containers: Seq<ContainerModel>)
    ensures
        ({
            let state = docker_api::summary_of(containers).state;
            let some_run = exists|i: int|
                0 <= i < containers.len() && (#[trigger] containers[i]).state == "running"@;
            let some_rest = exists|i: int|
                0 <= i < containers.len() && (#[trigger] containers[i]).state != "running"@;
            &&& state == ProjectState::Missing <==> containers.len() == 0
            &&& state == ProjectState::Running <==> some_run && !some_rest
            &&& state == ProjectState::Stopped <==> !some_run && some_rest
            &&& state == ProjectState::Partial <==> some_run && some_rest
        }),
{
    docker_api::state_follows_containers(containers);
    let state = docker_api::summary_of(containers).state;
    if containers.len() > 0 {
        let first = containers[0];
        assert(first.state == "running"@ || first.state != "running"@);
        if state == ProjectState::Running {
            assert(containers[0].running());
            assert forall|i: int| 0 <= i < containers.len() implies (
            #[trigger] containers[i]).state == "running"@ by {
                assert(containers[i].running());
            }
        } else {
            let i = choose|i: int| 0 <= i < containers.len() && !(#[trigger] containers[i]).running();
            assert(containers[i].state != "running"@);
        }
        if state == ProjectState::Stopped {
            assert forall|i: int| 0 <= i < containers.len() implies (
            #[trigger] containers[i]).state != "running"@ by {
                assert(!containers[i].running());
            }
        } else {
            let i = choose|i: int| 0 <= i < containers.len() && (#[trigger] containers[i]).running();
            assert(containers[i].state == "running"@);
        }
    }
}

/// What a project uses is what its measured containers use together: a container that is not measured
/// changes nothing, and the first that is measured gives the project what it uses itself.
pub proof fn project_uses_what_containers_use(containers: Seq<ContainerModel>, next: ContainerModel)
    ensures
        ({
            let before = docker_api::summary_of(containers).metrics;
            let after = docker_api::summary_of(containers.push(next)).metrics;
            &&& containers.len() == 0 ==> before is None
            &&& next.metrics is None ==> after == before
            &&& next.metrics is Some ==> after is Some
            &&& next.metrics matches Some(own) ==> before is None ==> {
                &&& after->0.network_rx_bytes == own.network_rx_bytes
                &&& after->0.network_tx_bytes == own.network_tx_bytes
                &&& after->0.block_read_bytes == own.block_read_bytes
                &&& after->0.block_write_bytes == own.block_write_bytes
                &&& after->0.memory_usage_bytes == own.memory_usage_bytes
                &&& after->0.memory_limit_bytes == own.memory_limit_bytes
                &&& after->0.pids == own.pids
                &&& after->0.cpu_percent == (match own.cpu_percent {
                    Some(share) => Some(seq![share]),
                    None => None,
                })
            }
            &&& next.metrics matches Some(own) ==> before matches Some(sums) ==> {
                &&& after->0.network_rx_bytes == metrics_laws::capped(
                    sums.network_rx_bytes + own.network_rx_bytes,
                )
                &&& after->0.network_tx_bytes == metrics_laws::capped(
                    sums.network_tx_bytes + own.network_tx_bytes,
                )
                &&& after->0.block_read_bytes == metrics_laws::capped(
                    sums.block_read_bytes + own.block_read_bytes,
                )
                &&& after->0.block_write_bytes == metrics_laws::capped(
                    sums.block_write_bytes + own.block_write_bytes,
                )
                &&& metrics_laws::as_int(after->0.memory_usage_bytes) == metrics_laws::sum_if_known(
                    sums.memory_usage_bytes,
                    own.memory_usage_bytes,
                )
                &&& metrics_laws::as_int(after->0.memory_limit_bytes)
                    == metrics_laws::sum_unless_unknown(
                    sums.memory_limit_bytes,
                    own.memory_limit_bytes,
                )
                &&& metrics_laws::as_int(after->0.pids) == metrics_laws::sum_unless_unknown(
                    sums.pids,
                    own.pids,
                )
                &&& own.cpu_percent is None ==> after->0.cpu_percent == sums.cpu_percent
                &&& own.cpu_percent matches Some(share) ==> after->0.cpu_percent == Some(
                    (match sums.cpu_percent {
                        Some(shares) => shares,
                        None => seq![],
                    }).push(share),
                )
            }
        }),
{
    assert(containers.push(next).drop_last() =~= containers);
    let known = docker_api::known_metrics(containers);
    if let Some(own) = next.metrics {
        assert(docker_api::known_metrics(containers.push(next)) == known.push(own));
        if known.len() == 0 {
            assert(known.push(own) =~= seq![own]);
            metrics_laws::one_container_is_the_project(own);
        } else {
            metrics_laws::each_container_adds_its_usage(known, own);
        }
    }
}

/// Each state and each health has a name of its own.
pub proof fn states_and_healths_have_names(summary: SummaryModel)
    ensures
        summary.state == ProjectState::Running ==> summary.state_text() == "running"@,
        summary.state == ProjectState::Partial ==> summary.state_text() == "partial"@,
        summary.state == ProjectState::Stopped ==> summary.state_text() == "stopped"@,
        summary.state == ProjectState::Missing ==> summary.state_text() == "missing"@,
        summary.state == ProjectState::Error ==> summary.state_text() == "error"@,
        summary.state == ProjectState::Unknown ==> summary.state_text() == "unknown"@,
        summary.health == HealthSummary::Healthy ==> summary.health_text() == "healthy"@,
        summary.health == HealthSummary::Unhealthy ==> summary.health_text() == "unhealthy"@,
        summary.health == HealthSummary::Starting ==> summary.health_text() == "starting"@,
        summary.health == HealthSummary::NoHealthcheck ==> summary.health_text()
            == "no-healthcheck"@,
        summary.health == HealthSummary::Unknown ==> summary.health_text() == "unknown"@,
        summary.ratio_text() == text::decimal_text(summary.running_containers) + "/"@
            + text::decimal_text(summary.total_containers),
{
}

/// A project that nothing is known of has its name, no containers, the message, and an unknown health.
pub proof fn failures_keep_the_project(
    project: ProjectModel,
    state: ProjectState,
    message: Seq<char>,
)
    ensures
        ({
            let status = loading::failed_status(project, state, message);
            &&& status.project == project
            &&& status.error == Some(message)
            &&& status.containers.len() == 0
            &&& status.summary.state == state
            &&& status.summary.health == HealthSummary::Unknown
            &&& status.summary.running_containers == 0
            &&& status.summary.total_containers == 0
            &&& status.summary.metrics is None
        }),
{
}

/// The name of a container is the first that Docker lists, without the slashes that it begins with
/// and with nothing else taken off.
pub proof fn names_lose_leading_slashes(slashes: Seq<char>, name: Seq<char>)
    requires
        forall|i: int| 0 <= i < slashes.len() ==> #[trigger] slashes[i] == '/',
        name.len() > 0 ==> name[0] != '/',
    ensures
        loading::without_slashes(slashes + name) == name,
    decreases slashes.len(),
{
    if slashes.len() > 0 {
        let rest = slashes.drop_first();
        assert((slashes + name)[0] == slashes[0]);
        assert((slashes + name).drop_first() =~= rest + name);
        assert forall|i: int| 0 <= i < rest.len() implies #[trigger] rest[i] == '/' by {
            assert(rest[i] == slashes[i + 1]);
        }
        names_lose_leading_slashes(rest, name);
    } else {
        assert(slashes + name =~= name);
    }
}

/// A container is shown with what Docker lists of it, and with the health and the time of start that
/// the inspection reports. The listed state counts before the inspected one. What is not reported is
/// `unknown`, or missing.
pub proof fn containers_show_what_docker_says(
    listed: ListedModel,
    inspect: InspectModel,
    measured: Option<ContainerMetrics>,
)
    ensures
        ({
            let shown = listed.status_given(inspect, measured);
            &&& listed.id matches Some(id) ==> shown.id == id
            &&& listed.id is None ==> shown.id == "unknown"@
            &&& listed.names matches Some(names) ==> names.len() > 0 ==> shown.name
                == loading::without_slashes(names[0])
            &&& (listed.names matches Some(names) ==> names.len() == 0) ==> shown.name == "unknown"@
            &&& shown.image == listed.image
            &&& listed.state matches Some(state) ==> shown.state == state
            &&& listed.state is None ==> (inspect.state matches Some(state) ==> shown.state == state)
            &&& listed.state is None && inspect.state is None ==> shown.state == "unknown"@
            &&& shown.health == inspect.health
            &&& shown.status == listed.status
            &&& shown.started_at == inspect.started_at
            &&& shown.metrics == measured
            &&& listed.ports is None ==> shown.ports.len() == 0
            &&& listed.ports matches Some(ports) ==> {
                &&& shown.ports.len() == ports.len()
                &&& forall|i: int|
                    0 <= i < ports.len() ==> #[trigger] shown.ports[i] == ports[i].text()
            }
            &&& listed.labels is None ==> shown.service is None
        }),
{
}

/// An inspection is read from what Docker reports: the status, the health check's status and the time
/// of start, each from its own place.
pub proof fn inspections_are_read_in_place(inspect: ContainerInspectResponse)
    ensures
        inspect.state is None ==> inspect@.state is None && inspect@.health is None
            && inspect@.started_at is None,
        inspect.state matches Some(state) ==> {
            &&& inspect@.state == state.status.deep_view()
            &&& inspect@.started_at == state.started_at.deep_view()
            &&& state.health is None ==> inspect@.health is None
            &&& state.health matches Some(health) ==> inspect@.health == health.status.deep_view()
        },
{
}

/// The service of a container is the value of the label that compose gives it.
pub proof fn service_is_composes_label(
    listed: ListedModel,
    inspect: InspectModel,
    measured: Option<ContainerMetrics>,
    at: int,
)
    requires
        listed.labels is Some,
        forall|i: int|
            0 <= i < listed.labels->0.len() && i < at ==> (#[trigger] listed.labels->0[i]).0
                != "com.docker.compose.service"@,
        at < listed.labels->0.len() ==> 0 <= at && listed.labels->0[at].0
            == "com.docker.compose.service"@,
    ensures
        at < listed.labels->0.len() ==> listed.status_given(inspect, measured).service == Some(
            listed.labels->0[at].1,
        ),
        at >= listed.labels->0.len() ==> listed.status_given(inspect, measured).service is None,
{
    label_is_at(listed.labels->0, "com.docker.compose.service"@, at);
}

proof fn label_is_at(labels: Seq<(Seq<char>, Seq<char>)>, key: Seq<char>, at: int)
    requires
        forall|i: int| 0 <= i < labels.len() && i < at ==> (#[trigger] labels[i]).0 != key,
        at < labels.len() ==> 0 <= at && labels[at].0 == key,
    ensures
        at < labels.len() ==> loading::label_value(labels, key) == Some(labels[at].1),
        at >= labels.len() ==> loading::label_value(labels, key) is None,
    decreases labels.len(),
{
    if labels.len() > 0 && at > 0 {
        assert(labels[0].0 != key);
        let rest = labels.drop_first();
        assert forall|i: int| 0 <= i < rest.len() && i < at - 1 implies (
        #[trigger] rest[i]).0 != key by {
            assert(rest[i] == labels[i + 1]);
        }
        label_is_at(rest, key, at - 1);
    }
}

/// A port is shown with its number in the container and its kind, and with the port of the host that
/// leads to it in front, where there is one.
pub proof fn ports_lead_from_host_to_container(private: u16, public: u16, kind: Seq<char>)
    ensures
        (PortModel { private_port: private, public_port: Some(public), typ: Some(kind) }).text()
            == text::decimal_text(public as nat) + "->"@ + text::decimal_text(private as nat) + "/"@
            + kind,
        (PortModel { private_port: private, public_port: None, typ: Some(kind) }).text()
            == text::decimal_text(private as nat) + "/"@ + kind,
        (PortModel { private_port: private, public_port: Some(public), typ: None }).text()
            == "unknown"@,
        (PortModel { private_port: private, public_port: None, typ: None }).text() == "unknown"@,
{
}

/// A loader asks for the containers of the next project by the label that compose gives them, and of
/// each container for an inspection before a reading, by its id. It asks nothing once nothing is left.
pub proof fn loader_asks_in_order(loader: LoaderModel)
    ensures
        loader.loading is None && loader.waiting.len() > 0 ==> loader.request() == Some(
            RequestModel::List { label: "com.docker.compose.project="@ + loader.waiting[0].name },
        ),
        loader.loading is None && loader.waiting.len() == 0 ==> loader.request() is None,
        loader.loading matches Some(loading) ==> {
            let id = match loading.current.id {
                Some(id) => id,
                None => "unknown"@,
            };
            &&& loading.inspected is None ==> loader.request() == Some(RequestModel::Inspect { id })
            &&& loading.inspected is Some ==> loader.request() == Some(RequestModel::Measure { id })
        },
{
}

/// What becomes of each project when Docker answers: one whose containers cannot be listed has the
/// state `error` and says so; one with a container that cannot be inspected has it too, and names the
/// first such container; every other has all its containers, in the order in which they are listed,
/// and the summary of them, with a reading for each that runs and for no other.
pub proof fn each_project_is_loaded_from_its_answers(
    projects: Seq<ProjectModel>,
    answers: Answers,
    index: int,
)
    requires
        0 <= index < projects.len(),
    ensures
        ({
            let statuses = loading::load_to_end(LoaderModel::start(projects), answers, 0).statuses;
            let status = statuses[index];
            let list = (answers.containers)(index);
            &&& statuses.len() == projects.len()
            &&& status.project == projects[index]
            &&& list is None ==> {
                &&& status.summary.state == ProjectState::Error
                &&& status.summary.health == HealthSummary::Unknown
                &&& status.containers.len() == 0
                &&& status.error == Some("failed to list containers for "@ + projects[index].name)
            }
            &&& list matches Some(list) ==> {
                &&& forall|at: int|
                    0 <= at < list.len() && #[trigger] (answers.inspections)(index, at) is None && (
                    forall|j: int| 0 <= j < at ==> #[trigger] (answers.inspections)(index, j) is Some)
                        ==> {
                        &&& status.summary.state == ProjectState::Error
                        &&& status.summary.health == HealthSummary::Unknown
                        &&& status.containers.len() == 0
                        &&& status.error == Some(
                            "failed to inspect container "@ + (match list[at].id {
                                Some(id) => id,
                                None => "unknown"@,
                            }),
                        )
                    }
                &&& (forall|j: int|
                    0 <= j < list.len() ==> #[trigger] (answers.inspections)(index, j) is Some) ==> {
                    &&& status.error is None
                    &&& status.summary == docker_api::summary_of(status.containers)
                    &&& status.containers.len() == list.len()
                    &&& forall|j: int|
                        0 <= j < list.len() ==> {
                            let inspect = (answers.inspections)(index, j)->0;
                            let state = match (list[j].state, inspect.state) {
                                (Some(state), _) => state,
                                (None, Some(state)) => state,
                                (None, None) => "unknown"@,
                            };
                            #[trigger] status.containers[j] == list[j].status_given(
                                inspect,
                                if state == "running"@ {
                                    (answers.readings)(index, j)
                                } else {
                                    None
                                },
                            )
                        }
                }
            }
        }),
{
    loading::loader_loads_each_project(projects, answers);
    let status = answers.status(projects[index], index);
    if let Some(list) = (answers.containers)(index) {
        assert forall|at: int|
            0 <= at < list.len() && #[trigger] (answers.inspections)(index, at) is None && (forall|
                j: int,
            |
                0 <= j < at ==> #[trigger] (answers.inspections)(index, j) is Some) implies {
            &&& status.summary.state == ProjectState::Error
            &&& status.summary.health == HealthSummary::Unknown
            &&& status.containers.len() == 0
            &&& status.error == Some(
                "failed to inspect container "@ + (match list[at].id {
                    Some(id) => id,
                    None => "unknown"@,
                }),
            )
        } by {
            assert(answers.fails_at(index, list, at));
            let other = choose|other: int| answers.fails_at(index, list, other);
            if other < at {
                assert((answers.inspections)(index, other) is Some);
            }
            if at < other {
                assert((answers.inspections)(index, at) is Some);
            }
        }
    }
}

/// An answer changes only what it is an answer to: whatever Docker says, the statuses that a loader
/// has made stay as they are, and at most one comes to them.
pub proof fn finished_statuses_stay(
    loader: LoaderModel,
    containers: Option<Seq<ListedModel>>,
    inspect: Option<InspectModel>,
    reading: Option<ContainerMetrics>,
)
    ensures
        loader.statuses.is_prefix_of(loader.listed(containers).statuses),
        loader.statuses.is_prefix_of(loader.inspected(inspect).statuses),
        loader.statuses.is_prefix_of(loader.measured(reading).statuses),
        loader.listed(containers).statuses.len() <= loader.statuses.len() + 1,
        loader.inspected(inspect).statuses.len() <= loader.statuses.len() + 1,
        loader.measured(reading).statuses.len() <= loader.statuses.len() + 1,
{
}

} // verus!
