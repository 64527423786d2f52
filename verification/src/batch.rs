//! Batches: which command runs next, what its outcome leads to, and what is reported. The caller
//! runs each command and hands its outcome back.

use vstd::prelude::*;

use crate::compose::{
    self, Action, ActionBatchResult, CommandExit, CommandModel, FailureModel, PreparedCommand,
    ProjectFailure, RemoveOptions,
};
use crate::config::{AppConfig, ConfigModel};
use crate::native::{self, NativeString};
use crate::output::{LineModel, OutputLine};
use crate::project::{Project, ProjectModel};
use crate::text;

verus! {

/// What came of running a command: it ended, or it could not be run to its end.
#[derive(Debug)]
pub enum CommandOutcome {
    Exited(CommandExit),
    Broken(String),
}

/// A [`CommandOutcome`] as plain values.
#[verifier::ext_equal]
pub enum OutcomeModel {
    Exited(CommandExit),
    Broken(Seq<char>),
}

impl View for CommandOutcome {
    type V = OutcomeModel;

    open spec fn view(&self) -> OutcomeModel {
        match self {
            CommandOutcome::Exited(exit) => OutcomeModel::Exited(*exit),
            CommandOutcome::Broken(message) => OutcomeModel::Broken(message@),
        }
    }
}

/// An exit code as it is shown; a command that a signal ended has none.
pub open spec fn exit_text(exit_code: Option<i32>) -> Seq<char> {
    match exit_code {
        Some(code) => text::signed_text(code as int),
        None => "signal"@,
    }
}

/// Writes an exit code.
pub fn exit_code_text(exit_code: Option<i32>) -> (text: String)
    ensures
        text@ == exit_text(exit_code),
{
    match exit_code {
        Some(code) => text::signed_decimal(code),
        None => "signal".to_owned(),
    }
}

impl OutcomeModel {
    /// Why the command counts as failed, if it does.
    pub open spec fn failure(self) -> Option<Seq<char>> {
        match self {
            OutcomeModel::Exited(exit) => if exit.success {
                None
            } else {
                Some("command exited with "@ + exit_text(exit.exit_code))
            },
            OutcomeModel::Broken(message) => Some(message),
        }
    }

    /// How the end of the command is reported.
    pub open spec fn reported(self) -> CommandExit {
        match self {
            OutcomeModel::Exited(exit) => exit,
            OutcomeModel::Broken(_) => CommandExit { success: false, exit_code: None },
        }
    }
}

impl CommandOutcome {
    fn failure_message(&self) -> (message: Option<String>)
        ensures
            message.deep_view() == self@.failure(),
    {
        match self {
            CommandOutcome::Exited(exit) => if exit.success {
                None
            } else {
                Some("command exited with ".to_owned().concat(&exit_code_text(exit.exit_code)))
            },
            CommandOutcome::Broken(message) => Some(message.clone()),
        }
    }

    fn report(&self) -> (exit: CommandExit)
        ensures
            exit == self@.reported(),
    {
        match self {
            CommandOutcome::Exited(exit) => *exit,
            CommandOutcome::Broken(_) => CommandExit { success: false, exit_code: None },
        }
    }
}

/// A project whose commands are running, with those still to come.
#[derive(Debug)]
pub struct RunningProject {
    pub project: Project,
    pub pending: Vec<PreparedCommand>,
}

/// A [`RunningProject`] as plain values.
#[verifier::ext_equal]
pub struct RunningModel {
    pub project: ProjectModel,
    pub pending: Seq<CommandModel>,
}

impl View for RunningProject {
    type V = RunningModel;

    open spec fn view(&self) -> RunningModel {
        RunningModel { project: self.project@, pending: self.pending.deep_view() }
    }
}

impl DeepView for RunningProject {
    type V = RunningModel;

    open spec fn deep_view(&self) -> RunningModel {
        self@
    }
}

/// An action on several projects, one command after the other.
#[derive(Debug)]
pub struct ActionBatch {
    pub config: AppConfig,
    pub action: Action,
    pub waiting: Vec<Project>,
    pub current: Option<RunningProject>,
    pub failures: Vec<ProjectFailure>,
}

/// An [`ActionBatch`] as plain values.
#[verifier::ext_equal]
pub struct BatchModel {
    pub config: ConfigModel,
    pub action: Action,
    pub waiting: Seq<ProjectModel>,
    pub current: Option<RunningModel>,
    pub failures: Seq<FailureModel>,
}

impl View for ActionBatch {
    type V = BatchModel;

    open spec fn view(&self) -> BatchModel {
        BatchModel {
            config: self.config@,
            action: self.action,
            waiting: self.waiting.deep_view(),
            current: self.current.deep_view(),
            failures: self.failures.deep_view(),
        }
    }
}

/// A command to run, and the project it is for.
#[derive(Debug)]
pub struct BatchStep {
    pub project: Project,
    pub command: PreparedCommand,
}

/// A [`BatchStep`] as plain values.
#[verifier::ext_equal]
pub struct StepModel {
    pub project: ProjectModel,
    pub command: CommandModel,
}

impl View for BatchStep {
    type V = StepModel;

    open spec fn view(&self) -> StepModel {
        StepModel { project: self.project@, command: self.command@ }
    }
}

impl DeepView for BatchStep {
    type V = StepModel;

    open spec fn deep_view(&self) -> StepModel {
        self@
    }
}

impl BatchModel {
    /// A batch before its first command.
    pub open spec fn start(
        projects: Seq<ProjectModel>,
        config: ConfigModel,
        action: Action,
    ) -> BatchModel {
        BatchModel { config, action, waiting: projects, current: None, failures: seq![] }
    }

    /// The commands still to come for the project at hand.
    pub open spec fn pending(self) -> Seq<CommandModel> {
        match self.current {
            Some(running) => running.pending,
            None => seq![],
        }
    }

    /// The project whose commands come next, once those of the project at hand are through.
    pub open spec fn begun(self, global_env: bool) -> RunningModel {
        RunningModel {
            project: self.waiting[0],
            pending: compose::action_commands(self.action, self.config, self.waiting[0], global_env),
        }
    }

    /// The next command: of the project at hand while it has any, else of the next project.
    pub open spec fn next_step(self, global_env: bool) -> Option<StepModel> {
        if self.pending().len() > 0 {
            Some(StepModel { project: self.current->0.project, command: self.pending()[0] })
        } else if self.waiting.len() > 0 {
            let running = self.begun(global_env);
            Some(StepModel { project: running.project, command: running.pending[0] })
        } else {
            None
        }
    }

    /// The batch once its next command has been handed out.
    pub open spec fn advanced(self, global_env: bool) -> BatchModel {
        if self.pending().len() > 0 {
            BatchModel { current: Some(self.current->0.less_one()), ..self }
        } else if self.waiting.len() > 0 {
            BatchModel {
                waiting: self.waiting.drop_first(),
                current: Some(self.begun(global_env).less_one()),
                ..self
            }
        } else {
            self
        }
    }

    /// The batch once the command at hand has come to its end. A failure ends its project: the
    /// project's other commands do not run.
    pub open spec fn settled(self, outcome: OutcomeModel) -> BatchModel {
        match outcome.failure() {
            None => self,
            Some(message) => BatchModel {
                current: None,
                failures: self.failures.push(
                    FailureModel { project: self.current->0.project.name, message },
                ),
                ..self
            },
        }
    }
}

impl RunningModel {
    /// The project with its first command handed out.
    pub open spec fn less_one(self) -> RunningModel {
        RunningModel { pending: self.pending.drop_first(), ..self }
    }
}

impl RunningProject {
    fn take_command(&mut self) -> (step: BatchStep)
        requires
            old(self)@.pending.len() > 0,
        ensures
            final(self)@ == old(self)@.less_one(),
            step@ == (StepModel { project: old(self)@.project, command: old(self)@.pending[0] }),
    {
        let ghost before = self@;
        let command = self.pending.remove(0);
        assert(self.pending.deep_view() =~= before.pending.drop_first());
        assert(command@ == before.pending[0]);
        BatchStep { project: self.project.clone(), command }
    }
}

impl ActionBatch {
    /// A batch that will run an action for each project in turn.
    pub fn new(projects: Vec<Project>, config: AppConfig, action: Action) -> (batch: ActionBatch)
        ensures
            batch@ == BatchModel::start(projects.deep_view(), config@, action),
    {
        let batch = ActionBatch {
            config,
            action,
            waiting: projects,
            current: None,
            failures: Vec::new(),
        };
        assert(batch.failures.deep_view() =~= seq![]);
        batch
    }

    /// The next command to run, or nothing once the batch is through. `global_env` says whether the
    /// global env file exists now.
    pub fn next(&mut self, global_env: bool) -> (step: Option<BatchStep>)
        ensures
            step.deep_view() == old(self)@.next_step(global_env),
            final(self)@ == old(self)@.advanced(global_env),
    {
        if let Some(mut running) = self.current.take() {
            if running.pending.len() > 0 {
                let step = running.take_command();
                self.current = Some(running);
                return Some(step);
            }
            self.current = Some(running);
        }
        if self.waiting.len() == 0 {
            return None;
        }
        let ghost before = self@;
        let project = self.waiting.remove(0);
        assert(self.waiting.deep_view() =~= before.waiting.drop_first());
        assert(project@ == before.waiting[0]);
        let pending = self.action.prepare_commands(&self.config, &project, global_env);
        let mut running = RunningProject { project, pending };
        let step = running.take_command();
        self.current = Some(running);
        Some(step)
    }

    /// Takes the outcome of the command that was handed out last. Returns how its end is reported.
    pub fn finished(&mut self, outcome: &CommandOutcome) -> (exit: CommandExit)
        requires
            old(self)@.current is Some,
        ensures
            exit == outcome@.reported(),
            final(self)@ == old(self)@.settled(outcome@),
    {
        if let Some(message) = outcome.failure_message() {
            let ghost before = self@;
            if let Some(running) = self.current.take() {
                self.failures.push(ProjectFailure { project: running.project.name, message });
                assert(self.failures.deep_view() =~= before.failures.push(
                    FailureModel { project: before.current->0.project.name, message: message@ },
                ));
            }
        }
        outcome.report()
    }

    /// What came of the batch.
    pub fn into_result(self) -> (result: ActionBatchResult)
        ensures
            result@ == self@.failures,
    {
        ActionBatchResult { failed_projects: self.failures }
    }
}

/// The first failure among the outcomes of a project's commands.
pub open spec fn first_failure(outcomes: Seq<OutcomeModel>) -> Option<Seq<char>>
    decreases outcomes.len(),
{
    if outcomes.len() == 0 {
        None
    } else {
        match outcomes[0].failure() {
            Some(message) => Some(message),
            None => first_failure(outcomes.drop_first()),
        }
    }
}

/// What the commands of the project at `index` come to, where `outcomes` tells what each command of
/// each project comes to.
pub open spec fn project_outcomes(
    action: Action,
    outcomes: spec_fn(int, int) -> OutcomeModel,
    index: int,
) -> Seq<OutcomeModel> {
    Seq::new(compose::subcommands(action).len(), |command: int| outcomes(index, command))
}

/// The failures of the first `count` projects: for each project its first one, if any.
pub open spec fn first_failures(
    projects: Seq<ProjectModel>,
    action: Action,
    outcomes: spec_fn(int, int) -> OutcomeModel,
    count: int,
) -> Seq<FailureModel>
    decreases count,
{
    if count <= 0 {
        seq![]
    } else {
        let earlier = first_failures(projects, action, outcomes, count - 1);
        match first_failure(project_outcomes(action, outcomes, count - 1)) {
            Some(message) => earlier.push(
                FailureModel { project: projects[count - 1].name, message },
            ),
            None => earlier,
        }
    }
}

/// A batch run to its end: each command that it hands out comes to what `outcomes` tells, and
/// `global_env` tells whether the global env file exists when a project begins. The project that
/// begins next is the one at `project`, the command of the project at hand that comes next is the
/// one at `command`.
pub open spec fn run_to_end(
    batch: BatchModel,
    outcomes: spec_fn(int, int) -> OutcomeModel,
    global_env: spec_fn(int) -> bool,
    project: int,
    command: int,
) -> BatchModel
    decreases batch.waiting.len(), batch.pending().len(),
{
    let advanced = batch.advanced(global_env(project));
    if batch.pending().len() > 0 {
        run_to_end(
            advanced.settled(outcomes(project - 1, command)),
            outcomes,
            global_env,
            project,
            command + 1,
        )
    } else if batch.waiting.len() > 0 {
        run_to_end(
            advanced.settled(outcomes(project, 0)),
            outcomes,
            global_env,
            project + 1,
            1,
        )
    } else {
        batch
    }
}

proof fn first_failure_is_at(outcomes: Seq<OutcomeModel>, at: int)
    requires
        0 <= at <= outcomes.len(),
        forall|j: int| 0 <= j < at ==> (#[trigger] outcomes[j]).failure() is None,
        at < outcomes.len() ==> outcomes[at].failure() is Some,
    ensures
        at < outcomes.len() ==> first_failure(outcomes) == outcomes[at].failure(),
        at == outcomes.len() ==> first_failure(outcomes) is None,
    decreases at,
{
    if at > 0 {
        let rest = outcomes.drop_first();
        assert(outcomes[0].failure() is None);
        assert forall|j: int| 0 <= j < at - 1 implies (#[trigger] rest[j]).failure() is None by {
            assert(rest[j] == outcomes[j + 1]);
        }
        first_failure_is_at(rest, at - 1);
    }
}

proof fn run_reports_first_failures(
    batch: BatchModel,
    projects: Seq<ProjectModel>,
    outcomes: spec_fn(int, int) -> OutcomeModel,
    global_env: spec_fn(int) -> bool,
    project: int,
    command: int,
)
    requires
        0 <= project <= projects.len(),
        batch.waiting == projects.skip(project),
        batch.pending().len() == 0 ==> batch.failures == first_failures(
            projects,
            batch.action,
            outcomes,
            project,
        ),
        batch.pending().len() > 0 ==> {
            &&& project > 0
            &&& batch.current->0.project == projects[project - 1]
            &&& batch.failures == first_failures(projects, batch.action, outcomes, project - 1)
            &&& 0 <= command
            &&& batch.pending().len() + command == compose::subcommands(batch.action).len()
            &&& forall|j: int| 0 <= j < command ==> (#[trigger] outcomes(project - 1, j)).failure() is None
        },
    ensures
        run_to_end(batch, outcomes, global_env, project, command).failures == first_failures(
            projects,
            batch.action,
            outcomes,
            projects.len() as int,
        ),
    decreases batch.waiting.len(), batch.pending().len(),
{
    let advanced = batch.advanced(global_env(project));
    if batch.pending().len() > 0 {
        let all = project_outcomes(batch.action, outcomes, project - 1);
        let outcome = outcomes(project - 1, command);
        let settled = advanced.settled(outcome);
        if outcome.failure() is Some {
            first_failure_is_at(all, command);
        } else if batch.pending().len() == 1 {
            first_failure_is_at(all, command + 1);
        }
        run_reports_first_failures(
            settled,
            projects,
            outcomes,
            global_env,
            project,
            command + 1,
        );
    } else if batch.waiting.len() > 0 {
        let all = project_outcomes(batch.action, outcomes, project);
        let outcome = outcomes(project, 0);
        let settled = advanced.settled(outcome);
        assert(settled.waiting =~= projects.skip(project + 1));
        if outcome.failure() is Some {
            first_failure_is_at(all, 0);
        } else if compose::subcommands(batch.action).len() == 1 {
            first_failure_is_at(all, 1);
        }
        run_reports_first_failures(settled, projects, outcomes, global_env, project + 1, 1);
    }
}

/// Projects of a batch do not touch each other: whatever the commands come to, the batch goes
/// through all projects in order and reports for each project its first failure, if it has one, and
/// nothing else.
pub proof fn batch_reports_first_failures(
    projects: Seq<ProjectModel>,
    config: ConfigModel,
    action: Action,
    outcomes: spec_fn(int, int) -> OutcomeModel,
    global_env: spec_fn(int) -> bool,
)
    ensures
        run_to_end(
            BatchModel::start(projects, config, action),
            outcomes,
            global_env,
            0,
            0,
        ).failures == first_failures(projects, action, outcomes, projects.len() as int),
        first_failures(projects, action, outcomes, projects.len() as int).len() <= projects.len(),
{
    let start = BatchModel::start(projects, config, action);
    assert(projects.skip(0) =~= projects);
    run_reports_first_failures(start, projects, outcomes, global_env, 0, 0);
    failures_bounded(projects, action, outcomes, projects.len() as int);
}

proof fn failures_bounded(
    projects: Seq<ProjectModel>,
    action: Action,
    outcomes: spec_fn(int, int) -> OutcomeModel,
    count: int,
)
    requires
        count >= 0,
    ensures
        first_failures(projects, action, outcomes, count).len() <= count,
    decreases count,
{
    if count > 0 {
        failures_bounded(projects, action, outcomes, count - 1);
    }
}

/// How many commands of a project run: up to the first that fails, and that one.
pub open spec fn commands_run(outcomes: Seq<OutcomeModel>) -> nat
    decreases outcomes.len(),
{
    if outcomes.len() == 0 {
        0
    } else if outcomes[0].failure() is Some {
        1
    } else {
        1 + commands_run(outcomes.drop_first())
    }
}

/// Commands of a project, each as a step.
pub open spec fn steps_of(project: ProjectModel, commands: Seq<CommandModel>) -> Seq<StepModel> {
    commands.map_values(|command: CommandModel| StepModel { project, command })
}

/// The steps of the projects from `project` on: of each project its commands up to the first that
/// fails.
pub open spec fn steps_from(
    projects: Seq<ProjectModel>,
    config: ConfigModel,
    action: Action,
    outcomes: spec_fn(int, int) -> OutcomeModel,
    global_env: spec_fn(int) -> bool,
    project: int,
) -> Seq<StepModel>
    decreases projects.len() - project,
{
    if project < 0 || project >= projects.len() {
        seq![]
    } else {
        let commands = compose::action_commands(
            action,
            config,
            projects[project],
            global_env(project),
        );
        let count = commands_run(project_outcomes(action, outcomes, project));
        steps_of(projects[project], commands.take(count as int)) + steps_from(
            projects,
            config,
            action,
            outcomes,
            global_env,
            project + 1,
        )
    }
}

/// The steps that a batch hands out until its end, where each comes to what `outcomes` tells; the
/// parameters are those of [`run_to_end`].
pub open spec fn steps_to_end(
    batch: BatchModel,
    outcomes: spec_fn(int, int) -> OutcomeModel,
    global_env: spec_fn(int) -> bool,
    project: int,
    command: int,
) -> Seq<StepModel>
    decreases batch.waiting.len(), batch.pending().len(),
{
    let env = global_env(project);
    match batch.next_step(env) {
        None => seq![],
        Some(step) => {
            let advanced = batch.advanced(env);
            if batch.pending().len() > 0 {
                seq![step] + steps_to_end(
                    advanced.settled(outcomes(project - 1, command)),
                    outcomes,
                    global_env,
                    project,
                    command + 1,
                )
            } else {
                seq![step] + steps_to_end(
                    advanced.settled(outcomes(project, 0)),
                    outcomes,
                    global_env,
                    project + 1,
                    1,
                )
            }
        },
    }
}

proof fn commands_run_bounded(outcomes: Seq<OutcomeModel>)
    ensures
        commands_run(outcomes) <= outcomes.len(),
    decreases outcomes.len(),
{
    if outcomes.len() > 0 {
        commands_run_bounded(outcomes.drop_first());
    }
}

proof fn steps_prepend(
    project: ProjectModel,
    commands: Seq<CommandModel>,
    count: nat,
    rest: Seq<StepModel>,
)
    requires
        count < commands.len(),
    ensures
        steps_of(project, commands.take((count + 1) as int)) + rest == seq![
            StepModel { project, command: commands[0] },
        ] + (steps_of(project, commands.drop_first().take(count as int)) + rest),
{
    assert(steps_of(project, commands.take((count + 1) as int)) + rest =~= seq![
        StepModel { project, command: commands[0] },
    ] + (steps_of(project, commands.drop_first().take(count as int)) + rest));
}

proof fn steps_are_in_order(
    batch: BatchModel,
    projects: Seq<ProjectModel>,
    outcomes: spec_fn(int, int) -> OutcomeModel,
    global_env: spec_fn(int) -> bool,
    project: int,
    command: int,
)
    requires
        0 <= project <= projects.len(),
        batch.waiting == projects.skip(project),
        batch.pending().len() > 0 ==> {
            &&& 0 <= command
            &&& batch.pending().len() + command == compose::subcommands(batch.action).len()
            &&& project > 0
            &&& batch.current->0.project == projects[project - 1]
        },
    ensures
        batch.pending().len() == 0 ==> steps_to_end(batch, outcomes, global_env, project, command)
            == steps_from(projects, batch.config, batch.action, outcomes, global_env, project),
        batch.pending().len() > 0 ==> steps_to_end(batch, outcomes, global_env, project, command)
            == steps_of(
            projects[project - 1],
            batch.pending().take(
                commands_run(
                    project_outcomes(batch.action, outcomes, project - 1).skip(command),
                ) as int,
            ),
        ) + steps_from(projects, batch.config, batch.action, outcomes, global_env, project),
    decreases batch.waiting.len(), batch.pending().len(),
{
    let env = global_env(project);
    let advanced = batch.advanced(env);
    if batch.pending().len() > 0 {
        let all = project_outcomes(batch.action, outcomes, project - 1);
        let outcome = outcomes(project - 1, command);
        let settled = advanced.settled(outcome);
        let rest = steps_from(projects, batch.config, batch.action, outcomes, global_env, project);
        let left = all.skip(command);
        assert(left[0] == outcome);
        assert(left.drop_first() =~= all.skip(command + 1));
        steps_are_in_order(settled, projects, outcomes, global_env, project, command + 1);
        if outcome.failure() is Some {
            steps_prepend(projects[project - 1], batch.pending(), 0, rest);
            assert(steps_of(
                projects[project - 1],
                batch.pending().drop_first().take(0),
            ) + rest =~= rest);
        } else {
            let count = commands_run(left.drop_first());
            commands_run_bounded(left.drop_first());
            steps_prepend(projects[project - 1], batch.pending(), count, rest);
            if batch.pending().len() == 1 {
                assert(left.drop_first().len() == 0);
                assert(steps_of(
                    projects[project - 1],
                    batch.pending().drop_first().take(0),
                ) + rest =~= rest);
            }
        }
    } else if batch.waiting.len() > 0 {
        let all = project_outcomes(batch.action, outcomes, project);
        let outcome = outcomes(project, 0);
        let settled = advanced.settled(outcome);
        let commands = batch.begun(env).pending;
        let rest = steps_from(
            projects,
            batch.config,
            batch.action,
            outcomes,
            global_env,
            project + 1,
        );
        assert(settled.waiting =~= projects.skip(project + 1));
        assert(batch.waiting[0] == projects[project]);
        assert(all[0] == outcome);
        assert(all.drop_first() =~= all.skip(1));
        steps_are_in_order(settled, projects, outcomes, global_env, project + 1, 1);
        if outcome.failure() is Some {
            steps_prepend(projects[project], commands, 0, rest);
            assert(steps_of(projects[project], commands.drop_first().take(0)) + rest =~= rest);
        } else {
            let count = commands_run(all.drop_first());
            commands_run_bounded(all.drop_first());
            steps_prepend(projects[project], commands, count, rest);
            if commands.len() == 1 {
                assert(all.drop_first().len() == 0);
                assert(steps_of(projects[project], commands.drop_first().take(0)) + rest =~= rest);
            }
        }
    }
}

/// A batch runs its commands in sequence: project by project in their order, and of each project the
/// commands of the action in their order, up to the first that fails.
pub proof fn batch_runs_in_sequence(
    projects: Seq<ProjectModel>,
    config: ConfigModel,
    action: Action,
    outcomes: spec_fn(int, int) -> OutcomeModel,
    global_env: spec_fn(int) -> bool,
)
    ensures
        steps_to_end(
            BatchModel::start(projects, config, action),
            outcomes,
            global_env,
            0,
            0,
        ) == steps_from(projects, config, action, outcomes, global_env, 0),
{
    assert(projects.skip(0) =~= projects);
    steps_are_in_order(
        BatchModel::start(projects, config, action),
        projects,
        outcomes,
        global_env,
        0,
        0,
    );
}

/// How far a batch that deletes projects has come with the project at hand.
#[derive(Debug, Clone, Copy, PartialEq, Eq, Structural)]
pub enum DeleteStage {
    /// Its containers and volumes are being removed.
    Removing,
    /// They are gone, its directory is not yet.
    Removed,
    /// Its directory is being deleted.
    Deleting,
}

/// Deletes the directories of several projects; where it purges, it first removes the containers
/// and volumes of each.
#[derive(Debug)]
pub struct DeleteBatch {
    pub config: AppConfig,
    pub purge: bool,
    pub waiting: Vec<Project>,
    pub current: Option<(Project, DeleteStage)>,
    pub failures: Vec<ProjectFailure>,
}

/// A [`DeleteBatch`] as plain values.
#[verifier::ext_equal]
pub struct DeleteModel {
    pub config: ConfigModel,
    pub purge: bool,
    pub waiting: Seq<ProjectModel>,
    pub current: Option<(ProjectModel, DeleteStage)>,
    pub failures: Seq<FailureModel>,
}

impl View for DeleteBatch {
    type V = DeleteModel;

    open spec fn view(&self) -> DeleteModel {
        DeleteModel {
            config: self.config@,
            purge: self.purge,
            waiting: self.waiting.deep_view(),
            current: match self.current {
                Some((project, stage)) => Some((project@, stage)),
                None => None,
            },
            failures: self.failures.deep_view(),
        }
    }
}

/// What a batch that deletes projects asks for.
#[derive(Debug)]
pub enum DeleteStep {
    /// Run a command for a project.
    Run(BatchStep),
    /// Delete the directory of a project; `command` says so to the user.
    Delete { project: Project, command: String },
}

/// A [`DeleteStep`] as plain values.
#[verifier::ext_equal]
pub enum DeleteStepModel {
    Run(StepModel),
    Delete { project: ProjectModel, command: Seq<char> },
}

impl View for DeleteStep {
    type V = DeleteStepModel;

    open spec fn view(&self) -> DeleteStepModel {
        match self {
            DeleteStep::Run(step) => DeleteStepModel::Run(step@),
            DeleteStep::Delete { project, command } => DeleteStepModel::Delete {
                project: project@,
                command: command@,
            },
        }
    }
}

impl DeepView for DeleteStep {
    type V = DeleteStepModel;

    open spec fn deep_view(&self) -> DeleteStepModel {
        self@
    }
}

/// What a purge runs before it deletes a project's directory.
pub open spec fn purge_action() -> Action {
    Action::Remove(RemoveOptions { volumes: true, remove_orphans: false, rmi: None })
}

/// How the deletion of a directory is announced.
pub open spec fn deletion_text(dir: Seq<u8>) -> Seq<char> {
    "delete project dir "@ + native::shown_text(dir)
}

/// The step that deletes the directory of a project.
pub open spec fn deletion_step(project: ProjectModel) -> DeleteStepModel {
    DeleteStepModel::Delete { project, command: deletion_text(project.dir) }
}

impl DeleteModel {
    /// A batch before its first step.
    pub open spec fn start(
        projects: Seq<ProjectModel>,
        config: ConfigModel,
        purge: bool,
    ) -> DeleteModel {
        DeleteModel { config, purge, waiting: projects, current: None, failures: seq![] }
    }

    /// The project at hand, where there is one.
    pub open spec fn at_hand(self) -> ProjectModel {
        let (project, _) = self.current->0;
        project
    }

    /// Whether the project at hand has its directory left to delete.
    pub open spec fn removed(self) -> bool {
        self.current matches Some((_, DeleteStage::Removed))
    }

    /// How many steps of the project at hand are certain to come.
    pub open spec fn steps_at_hand(self) -> nat {
        if self.removed() {
            1
        } else {
            0
        }
    }

    /// What the batch asks for next.
    pub open spec fn next_step(self, global_env: bool) -> Option<DeleteStepModel> {
        if self.removed() {
            Some(deletion_step(self.at_hand()))
        } else if self.waiting.len() == 0 {
            None
        } else if self.purge {
            Some(
                DeleteStepModel::Run(
                    StepModel {
                        project: self.waiting[0],
                        command: compose::action_commands(
                            purge_action(),
                            self.config,
                            self.waiting[0],
                            global_env,
                        )[0],
                    },
                ),
            )
        } else {
            Some(deletion_step(self.waiting[0]))
        }
    }

    /// The batch once it has asked for its next step.
    pub open spec fn advanced(self) -> DeleteModel {
        if self.removed() {
            DeleteModel { current: Some((self.at_hand(), DeleteStage::Deleting)), ..self }
        } else if self.waiting.len() == 0 {
            self
        } else {
            DeleteModel {
                waiting: self.waiting.drop_first(),
                current: Some(
                    (
                        self.waiting[0],
                        if self.purge {
                            DeleteStage::Removing
                        } else {
                            DeleteStage::Deleting
                        },
                    ),
                ),
                ..self
            }
        }
    }

    /// The batch once something has failed for the project at hand: it is done with that project.
    pub open spec fn failed(self, message: Seq<char>) -> DeleteModel {
        DeleteModel {
            current: None,
            failures: self.failures.push(
                FailureModel { project: self.at_hand().name, message },
            ),
            ..self
        }
    }

    /// The batch once the removal of containers and volumes has come to its end.
    pub open spec fn removal_settled(self, outcome: OutcomeModel) -> DeleteModel {
        match outcome.failure() {
            None => DeleteModel {
                current: Some((self.at_hand(), DeleteStage::Removed)),
                ..self
            },
            Some(message) => self.failed(message),
        }
    }

    /// The batch once the deletion of a directory has come to its end.
    pub open spec fn deletion_settled(self, result: Result<(), Seq<char>>) -> DeleteModel {
        match result {
            Ok(()) => DeleteModel { current: None, ..self },
            Err(message) => self.failed(message),
        }
    }
}

/// How the end of a deletion is reported: an error line where there is one, and the exit.
#[derive(Debug)]
pub struct DeletionReport {
    pub error: Option<String>,
    pub exit: CommandExit,
}

/// Announces the deletion of a project's directory.
fn deletion_command(dir: &NativeString) -> (command: String)
    ensures
        command@ == deletion_text(dir@),
{
    "delete project dir ".to_owned().concat(&dir.display())
}

impl DeleteBatch {
    /// A batch that will delete each project in turn.
    pub fn new(projects: Vec<Project>, config: AppConfig, purge: bool) -> (batch: DeleteBatch)
        ensures
            batch@ == DeleteModel::start(projects.deep_view(), config@, purge),
    {
        let batch = DeleteBatch {
            config,
            purge,
            waiting: projects,
            current: None,
            failures: Vec::new(),
        };
        assert(batch.failures.deep_view() =~= seq![]);
        batch
    }

    fn deletion(project: &Project) -> (step: DeleteStep)
        ensures
            step@ == deletion_step(project@),
    {
        DeleteStep::Delete { project: project.clone(), command: deletion_command(&project.dir) }
    }

    /// What to do next, or nothing once the batch is through. `global_env` says whether the global
    /// env file exists now.
    pub fn next(&mut self, global_env: bool) -> (step: Option<DeleteStep>)
        ensures
            step.deep_view() == old(self)@.next_step(global_env),
            final(self)@ == old(self)@.advanced(),
    {
        if let Some((project, stage)) = self.current.take() {
            if stage == DeleteStage::Removed {
                let step = Self::deletion(&project);
                self.current = Some((project, DeleteStage::Deleting));
                return Some(step);
            }
            self.current = Some((project, stage));
        }
        if self.waiting.len() == 0 {
            return None;
        }
        let ghost before = self@;
        let project = self.waiting.remove(0);
        assert(self.waiting.deep_view() =~= before.waiting.drop_first());
        assert(project@ == before.waiting[0]);
        if self.purge {
            let action = Action::Remove(
                RemoveOptions { volumes: true, remove_orphans: false, rmi: None },
            );
            let mut commands = action.prepare_commands(&self.config, &project, global_env);
            let ghost wanted = compose::action_commands(purge_action(), self.config@, project@, global_env);
            assert(commands.deep_view().len() == wanted.len() == 1);
            assert(commands.deep_view()[0] == commands@[0]@);
            let command = commands.remove(0);
            let step = DeleteStep::Run(BatchStep { project: project.clone(), command });
            self.current = Some((project, DeleteStage::Removing));
            Some(step)
        } else {
            let step = Self::deletion(&project);
            self.current = Some((project, DeleteStage::Deleting));
            Some(step)
        }
    }

    fn fail(&mut self, message: String)
        requires
            old(self)@.current is Some,
        ensures
            final(self)@ == old(self)@.failed(message@),
    {
        let ghost before = self@;
        if let Some((project, _)) = self.current.take() {
            self.failures.push(ProjectFailure { project: project.name, message });
            assert(self.failures.deep_view() =~= before.failures.push(
                FailureModel { project: before.at_hand().name, message: message@ },
            ));
        }
    }

    /// Takes the outcome of the command that was asked for last. Returns how its end is reported.
    pub fn command_finished(&mut self, outcome: &CommandOutcome) -> (exit: CommandExit)
        requires
            old(self)@.current is Some,
        ensures
            exit == outcome@.reported(),
            final(self)@ == old(self)@.removal_settled(outcome@),
    {
        match outcome.failure_message() {
            None => {
                if let Some((project, _)) = self.current.take() {
                    self.current = Some((project, DeleteStage::Removed));
                }
            },
            Some(message) => self.fail(message),
        }
        outcome.report()
    }

    /// Takes the result of the deletion that was asked for last. Returns how its end is reported.
    pub fn deletion_finished(&mut self, result: Result<(), String>) -> (report: DeletionReport)
        requires
            old(self)@.current is Some,
        ensures
            final(self)@ == old(self)@.deletion_settled(text::outcome_view(result)),
            match result {
                Ok(_) => report.error is None && report.exit == (CommandExit {
                    success: true,
                    exit_code: Some(0),
                }),
                Err(message) => report.error.deep_view() == Some(message@) && report.exit == (
                CommandExit { success: false, exit_code: None }),
            },
    {
        match result {
            Ok(_) => {
                self.current = None;
                DeletionReport {
                    error: None,
                    exit: CommandExit { success: true, exit_code: Some(0) },
                }
            },
            Err(message) => {
                self.fail(message.clone());
                DeletionReport {
                    error: Some(message),
                    exit: CommandExit { success: false, exit_code: None },
                }
            },
        }
    }

    /// What came of the batch.
    pub fn into_result(self) -> (result: ActionBatchResult)
        ensures
            result@ == self@.failures,
    {
        ActionBatchResult { failed_projects: self.failures }
    }
}

/// A purge deletes a project's directory only once its containers and volumes are gone: a batch that
/// purges asks for a deletion only in the stage that a removal without failure leads to, and a
/// failed removal leaves the directory alone.
pub proof fn purge_deletes_only_after_removal(
    batch: DeleteModel,
    global_env: bool,
    outcome: OutcomeModel,
)
    requires
        batch.purge,
    ensures
        batch.next_step(global_env) matches Some(DeleteStepModel::Delete { project, .. })
            ==> batch.removed() && project == batch.at_hand(),
        batch.removal_settled(outcome).removed() <==> outcome.failure() is None,
        !batch.advanced().removed(),
        forall|result: Result<(), Seq<char>>| !(#[trigger] batch.deletion_settled(result)).removed(),
{
}

/// Why a batch fails for a project, if it does: `removal` is what the removal of its containers
/// comes to, which only a purge asks for, `deletion` what the deletion of its directory comes to,
/// which is not asked for after a failed removal.
pub open spec fn deletion_message(
    purge: bool,
    removal: OutcomeModel,
    deletion: Result<(), Seq<char>>,
) -> Option<Seq<char>> {
    if purge && removal.failure() is Some {
        removal.failure()
    } else {
        match deletion {
            Ok(()) => None,
            Err(message) => Some(message),
        }
    }
}

/// The failures of the first `count` projects of a batch that deletes.
pub open spec fn deletion_failures(
    projects: Seq<ProjectModel>,
    purge: bool,
    removals: spec_fn(int) -> OutcomeModel,
    deletions: spec_fn(int) -> Result<(), Seq<char>>,
    count: int,
) -> Seq<FailureModel>
    decreases count,
{
    if count <= 0 {
        seq![]
    } else {
        let earlier = deletion_failures(projects, purge, removals, deletions, count - 1);
        match deletion_message(purge, removals(count - 1), deletions(count - 1)) {
            Some(message) => earlier.push(
                FailureModel { project: projects[count - 1].name, message },
            ),
            None => earlier,
        }
    }
}

/// A batch that deletes run to its end, and the projects whose directories it asks to delete. The
/// project that begins next is the one at `project`.
pub open spec fn delete_to_end(
    batch: DeleteModel,
    removals: spec_fn(int) -> OutcomeModel,
    deletions: spec_fn(int) -> Result<(), Seq<char>>,
    project: int,
) -> (DeleteModel, Seq<ProjectModel>)
    decreases batch.waiting.len(), batch.steps_at_hand(),
{
    let advanced = batch.advanced();
    if batch.removed() {
        let (end, deleted) = delete_to_end(
            advanced.deletion_settled(deletions(project - 1)),
            removals,
            deletions,
            project,
        );
        (end, seq![batch.at_hand()] + deleted)
    } else if batch.waiting.len() == 0 {
        (batch, seq![])
    } else if batch.purge {
        delete_to_end(
            advanced.removal_settled(removals(project)),
            removals,
            deletions,
            project + 1,
        )
    } else {
        let (end, deleted) = delete_to_end(
            advanced.deletion_settled(deletions(project)),
            removals,
            deletions,
            project + 1,
        );
        (end, seq![batch.waiting[0]] + deleted)
    }
}

/// The projects from `project` on whose directories are asked to be deleted: all, or on a purge
/// those whose containers and volumes could be removed.
pub open spec fn deleted_from(
    projects: Seq<ProjectModel>,
    purge: bool,
    removals: spec_fn(int) -> OutcomeModel,
    project: int,
) -> Seq<ProjectModel>
    decreases projects.len() - project,
{
    if project < 0 || project >= projects.len() {
        seq![]
    } else {
        let later = deleted_from(projects, purge, removals, project + 1);
        if purge && removals(project).failure() is Some {
            later
        } else {
            seq![projects[project]] + later
        }
    }
}

proof fn deletion_runs_in_order(
    batch: DeleteModel,
    projects: Seq<ProjectModel>,
    removals: spec_fn(int) -> OutcomeModel,
    deletions: spec_fn(int) -> Result<(), Seq<char>>,
    project: int,
)
    requires
        0 <= project <= projects.len(),
        batch.waiting == projects.skip(project),
        !batch.removed() ==> batch.failures == deletion_failures(
            projects,
            batch.purge,
            removals,
            deletions,
            project,
        ),
        batch.removed() ==> {
            &&& batch.purge
            &&& project > 0
            &&& batch.at_hand() == projects[project - 1]
            &&& removals(project - 1).failure() is None
            &&& batch.failures == deletion_failures(
                projects,
                batch.purge,
                removals,
                deletions,
                project - 1,
            )
        },
    ensures
        ({
            let (end, deleted) = delete_to_end(batch, removals, deletions, project);
            &&& end.failures == deletion_failures(
                projects,
                batch.purge,
                removals,
                deletions,
                projects.len() as int,
            )
            &&& !batch.removed() ==> deleted == deleted_from(
                projects,
                batch.purge,
                removals,
                project,
            )
            &&& batch.removed() ==> deleted == seq![projects[project - 1]] + deleted_from(
                projects,
                batch.purge,
                removals,
                project,
            )
        }),
    decreases batch.waiting.len(), batch.steps_at_hand(),
{
    let advanced = batch.advanced();
    if batch.removed() {
        deletion_runs_in_order(
            advanced.deletion_settled(deletions(project - 1)),
            projects,
            removals,
            deletions,
            project,
        );
    } else if batch.waiting.len() > 0 {
        assert(advanced.waiting =~= projects.skip(project + 1));
        assert(batch.waiting[0] == projects[project]);
        if batch.purge {
            let settled = advanced.removal_settled(removals(project));
            deletion_runs_in_order(settled, projects, removals, deletions, project + 1);
        } else {
            let settled = advanced.deletion_settled(deletions(project));
            deletion_runs_in_order(settled, projects, removals, deletions, project + 1);
        }
    }
}

/// A batch that deletes goes through all projects in order. It asks for the deletion of every
/// project's directory, or on a purge of those whose containers and volumes could be removed, and
/// reports for each project what failed, if anything did.
pub proof fn deletion_batch_covers_all_projects(
    projects: Seq<ProjectModel>,
    config: ConfigModel,
    purge: bool,
    removals: spec_fn(int) -> OutcomeModel,
    deletions: spec_fn(int) -> Result<(), Seq<char>>,
)
    ensures
        ({
            let (end, deleted) = delete_to_end(
                DeleteModel::start(projects, config, purge),
                removals,
                deletions,
                0,
            );
            &&& end.failures == deletion_failures(
                projects,
                purge,
                removals,
                deletions,
                projects.len() as int,
            )
            &&& deleted == deleted_from(projects, purge, removals, 0)
        }),
{
    assert(projects.skip(0) =~= projects);
    deletion_runs_in_order(
        DeleteModel::start(projects, config, purge),
        projects,
        removals,
        deletions,
        0,
    );
}

/// What happens while a command runs.
#[derive(Debug)]
pub enum CommandEvent {
    /// The command has written a line.
    Output(OutputLine),
    /// The command will write no more.
    OutputEnded,
    /// The command has ended, with an exit code where no signal ended it.
    Exited(Option<i32>),
}

/// A [`CommandEvent`] as plain values.
#[verifier::ext_equal]
pub enum CommandEventModel {
    Output(LineModel),
    OutputEnded,
    Exited(Option<i32>),
}

impl View for CommandEvent {
    type V = CommandEventModel;

    open spec fn view(&self) -> CommandEventModel {
        match self {
            CommandEvent::Output(line) => CommandEventModel::Output(line@),
            CommandEvent::OutputEnded => CommandEventModel::OutputEnded,
            CommandEvent::Exited(exit_code) => CommandEventModel::Exited(*exit_code),
        }
    }
}

/// Watches a running command until both its end and the end of its output are known.
#[derive(Debug, Clone, Copy, PartialEq, Eq, Structural)]
pub struct CommandWatch {
    /// The exit code, once the command has ended: none where a signal ended it.
    pub exit: Option<Option<i32>>,
    pub output_over: bool,
}

impl CommandWatch {
    /// A watch on a command that has just begun.
    pub open spec fn start() -> CommandWatch {
        CommandWatch { exit: None, output_over: false }
    }

    /// The watch after an event.
    pub open spec fn after(self, event: CommandEventModel) -> CommandWatch {
        match event {
            CommandEventModel::Output(_) => self,
            CommandEventModel::OutputEnded => CommandWatch { output_over: true, ..self },
            CommandEventModel::Exited(exit_code) => CommandWatch { exit: Some(exit_code), ..self },
        }
    }

    /// Whether nothing more is waited for.
    pub open spec fn over(self) -> bool {
        self.exit is Some && self.output_over
    }

    /// A watch on a command that has just begun.
    pub fn new() -> (watch: CommandWatch)
        ensures
            watch == CommandWatch::start(),
    {
        CommandWatch { exit: None, output_over: false }
    }

    /// Takes an event. Hands on the line that the command has written, if that is what happened.
    pub fn handle(&mut self, event: CommandEvent) -> (line: Option<OutputLine>)
        ensures
            *final(self) == old(self).after(event@),
            line.deep_view() == (match event@ {
                CommandEventModel::Output(line) => Some(line),
                _ => None,
            }),
    {
        match event {
            CommandEvent::Output(line) => Some(line),
            CommandEvent::OutputEnded => {
                self.output_over = true;
                None
            },
            CommandEvent::Exited(exit_code) => {
                self.exit = Some(exit_code);
                None
            },
        }
    }

    /// Whether nothing more is waited for.
    pub fn is_over(&self) -> (over: bool)
        ensures
            over == self.over(),
    {
        self.exit.is_some() && self.output_over
    }

    /// What came of the command. One that a signal ended, or whose end is not known, has failed.
    pub fn result(&self) -> (result: Result<CommandExit, String>)
        ensures
            match self.exit {
                Some(Some(code)) => result == Ok::<CommandExit, String>(
                    CommandExit { success: code == 0, exit_code: Some(code) },
                ),
                _ => result is Err && result->Err_0@ == "process terminated unexpectedly"@,
            },
    {
        match self.exit {
            Some(Some(code)) => Ok(CommandExit { success: code == 0, exit_code: Some(code) }),
            _ => Err("process terminated unexpectedly".to_owned()),
        }
    }
}

/// The watch on a command after some events.
pub open spec fn watched(events: Seq<CommandEventModel>) -> CommandWatch
    decreases events.len(),
{
    if events.len() == 0 {
        CommandWatch::start()
    } else {
        watched(events.drop_last()).after(events.last())
    }
}

/// The lines among some events, in order.
pub open spec fn lines_written(events: Seq<CommandEventModel>) -> Seq<LineModel>
    decreases events.len(),
{
    if events.len() == 0 {
        seq![]
    } else {
        let before = lines_written(events.drop_last());
        match events.last() {
            CommandEventModel::Output(line) => before.push(line),
            _ => before,
        }
    }
}

proof fn watch_knows_both_ends(events: Seq<CommandEventModel>)
    ensures
        watched(events).output_over <==> exists|i: int|
            0 <= i < events.len() && (#[trigger] events[i]) is OutputEnded,
        watched(events).exit is Some <==> exists|i: int|
            0 <= i < events.len() && (#[trigger] events[i]) is Exited,
    decreases events.len(),
{
    if events.len() > 0 {
        let rest = events.drop_last();
        watch_knows_both_ends(rest);
        assert(events[events.len() - 1] == events.last());
        assert forall|i: int| 0 <= i < rest.len() implies #[trigger] rest[i] == events[i] by {}
        if exists|i: int| 0 <= i < rest.len() && (#[trigger] rest[i]) is OutputEnded {
            let i = choose|i: int| 0 <= i < rest.len() && (#[trigger] rest[i]) is OutputEnded;
            assert(events[i] is OutputEnded);
        }
        if exists|i: int| 0 <= i < rest.len() && (#[trigger] rest[i]) is Exited {
            let i = choose|i: int| 0 <= i < rest.len() && (#[trigger] rest[i]) is Exited;
            assert(events[i] is Exited);
        }
        if exists|i: int| 0 <= i < events.len() && (#[trigger] events[i]) is OutputEnded {
            let i = choose|i: int| 0 <= i < events.len() && (#[trigger] events[i]) is OutputEnded;
            if i < rest.len() {
                assert(rest[i] is OutputEnded);
            }
        }
        if exists|i: int| 0 <= i < events.len() && (#[trigger] events[i]) is Exited {
            let i = choose|i: int| 0 <= i < events.len() && (#[trigger] events[i]) is Exited;
            if i < rest.len() {
                assert(rest[i] is Exited);
            }
        }
    }
}

proof fn no_lines_after(events: Seq<CommandEventModel>, seen: int)
    requires
        0 <= seen <= events.len(),
        forall|j: int| seen <= j < events.len() ==> !((#[trigger] events[j]) is Output),
    ensures
        lines_written(events) == lines_written(events.take(seen)),
    decreases events.len(),
{
    if seen < events.len() {
        let rest = events.drop_last();
        assert(!(events[events.len() - 1] is Output));
        assert forall|j: int| seen <= j < rest.len() implies !((#[trigger] rest[j]) is Output) by {
            assert(rest[j] == events[j]);
        }
        no_lines_after(rest, seen);
        assert(rest.take(seen) =~= events.take(seen));
    } else {
        assert(events.take(seen) =~= events);
    }
}

/// No line of a command's output is lost: a watch is not over before every line that the command
/// writes has been handed on, whichever of the two ends comes first.
pub proof fn no_output_is_lost(events: Seq<CommandEventModel>, seen: int)
    requires
        0 <= seen <= events.len(),
        forall|i: int, j: int|
            0 <= i < j < events.len() && (#[trigger] events[i]) is OutputEnded ==> !((
            #[trigger] events[j]) is Output),
        watched(events.take(seen)).over(),
    ensures
        lines_written(events.take(seen)) == lines_written(events),
{
    let taken = events.take(seen);
    watch_knows_both_ends(taken);
    let i = choose|i: int| 0 <= i < taken.len() && (#[trigger] taken[i]) is OutputEnded;
    assert(events[i] is OutputEnded);
    no_lines_after(events, seen);
}

/// A watch is over as soon as the command and its output have ended.
pub proof fn watch_ends_with_command(events: Seq<CommandEventModel>, ended: int, written: int)
    requires
        0 <= ended < events.len(),
        0 <= written < events.len(),
        events[ended] is Exited,
        events[written] is OutputEnded,
    ensures
        watched(events).over(),
{
    watch_knows_both_ends(events);
}

/// The message for a command that could not be started.
pub fn spawn_failure(command: &PreparedCommand) -> (message: String)
    ensures
        message@ == "failed to spawn "@ + command@.display,
{
    "failed to spawn ".to_owned().concat(&command.display)
}

} // verus!
