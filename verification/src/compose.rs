//! What is asked of `docker compose`: the command lines of each action, the order in which a batch
//! of them runs, and what is reported of it.

use vstd::prelude::*;
use vstd::utf8::*;

use crate::cli::RmiMode;
use crate::config::{self, AppConfig, ConfigModel};
use crate::native::NativeString;
use crate::project::{Project, ProjectModel};
use crate::shell::{self, Quotes};
use crate::text;

verus! {

/// Something to do with a project.
#[derive(Debug, Clone, Copy, PartialEq, Eq, Structural)]
pub enum Action {
    Deploy,
    Update,
    Stop,
    Restart,
    Remove(RemoveOptions),
    Logs(LogsOptions),
}

/// What goes away with the containers of a project.
#[derive(Debug, Clone, Copy, PartialEq, Eq, Structural)]
pub struct RemoveOptions {
    pub volumes: bool,
    pub remove_orphans: bool,
    pub rmi: Option<RmiMode>,
}

/// How much of the logs is shown.
#[derive(Debug, Clone, Copy, PartialEq, Eq, Structural)]
pub struct LogsOptions {
    pub follow: bool,
    pub tail: usize,
}

/// A command that is ready to run.
#[derive(Debug)]
pub struct PreparedCommand {
    pub program: NativeString,
    pub args: Vec<NativeString>,
    pub cwd: NativeString,
    pub display: String,
}

/// A [`PreparedCommand`] as plain values.
#[verifier::ext_equal]
pub struct CommandModel {
    pub program: Seq<u8>,
    pub args: Seq<Seq<u8>>,
    pub cwd: Seq<u8>,
    pub display: Seq<char>,
}

impl View for PreparedCommand {
    type V = CommandModel;

    open spec fn view(&self) -> CommandModel {
        CommandModel {
            program: self.program@,
            args: self.args.deep_view(),
            cwd: self.cwd@,
            display: self.display@,
        }
    }
}

impl DeepView for PreparedCommand {
    type V = CommandModel;

    open spec fn deep_view(&self) -> CommandModel {
        self@
    }
}

/// How a command ended.
#[derive(Debug, Clone, Copy, PartialEq, Eq, Structural)]
pub struct CommandExit {
    pub success: bool,
    pub exit_code: Option<i32>,
}

/// A project that a batch failed for, and why.
#[derive(Debug)]
pub struct ProjectFailure {
    pub project: String,
    pub message: String,
}

/// A [`ProjectFailure`] as plain values.
#[verifier::ext_equal]
pub struct FailureModel {
    pub project: Seq<char>,
    pub message: Seq<char>,
}

impl View for ProjectFailure {
    type V = FailureModel;

    open spec fn view(&self) -> FailureModel {
        FailureModel { project: self.project@, message: self.message@ }
    }
}

impl DeepView for ProjectFailure {
    type V = FailureModel;

    open spec fn deep_view(&self) -> FailureModel {
        self@
    }
}

impl Clone for ProjectFailure {
    fn clone(&self) -> (copy: Self)
        ensures
            copy@ == self@,
    {
        ProjectFailure { project: self.project.clone(), message: self.message.clone() }
    }
}

/// What came of a batch: the projects it failed for.
#[derive(Debug)]
pub struct ActionBatchResult {
    pub failed_projects: Vec<ProjectFailure>,
}

impl View for ActionBatchResult {
    type V = Seq<FailureModel>;

    open spec fn view(&self) -> Seq<FailureModel> {
        self.failed_projects.deep_view()
    }
}

impl Default for ActionBatchResult {
    fn default() -> (result: Self)
        ensures
            result@ == Seq::<FailureModel>::empty(),
    {
        let result = ActionBatchResult { failed_projects: Vec::new() };
        assert(result@ =~= Seq::empty());
        result
    }
}

/// The arguments that follow `docker compose ...` for each command of an action, in order.
pub open spec fn subcommands(action: Action) -> Seq<Seq<Seq<char>>> {
    match action {
        Action::Deploy => seq![seq!["up"@, "-d"@]],
        Action::Update => seq![seq!["pull"@], seq!["up"@, "-d"@]],
        Action::Stop => seq![seq!["stop"@]],
        Action::Restart => seq![seq!["restart"@]],
        Action::Remove(options) => seq![
            seq!["down"@] + flag(options.volumes, "-v"@) + flag(
                options.remove_orphans,
                "--remove-orphans"@,
            ) + (match options.rmi {
                Some(mode) => seq!["--rmi"@, mode.text()],
                None => seq![],
            }),
        ],
        Action::Logs(options) => seq![
            seq!["logs"@, "--tail"@, text::decimal_text(options.tail as nat)] + flag(
                options.follow,
                "--follow"@,
            ),
        ],
    }
}

/// A flag, where it is set.
pub open spec fn flag(set: bool, name: Seq<char>) -> Seq<Seq<char>> {
    if set {
        seq![name]
    } else {
        seq![]
    }
}

/// The two arguments that hand an env file to compose.
pub open spec fn env_file_args(path: Seq<u8>) -> Seq<Seq<u8>> {
    seq![encode_utf8("--env-file"@), path]
}

/// The arguments of a compose command. The global env file comes before the project's own, so that
/// the project's settings win.
pub open spec fn compose_args(
    config: ConfigModel,
    project: ProjectModel,
    global_env: bool,
    subcommand: Seq<Seq<char>>,
) -> Seq<Seq<u8>> {
    seq![encode_utf8("compose"@)] + (if global_env {
        env_file_args(config::global_env_file(config.compose_dir))
    } else {
        seq![]
    }) + (match project.env_file {
        Some(path) => env_file_args(path),
        None => seq![],
    }) + seq![
        encode_utf8("--project-name"@),
        encode_utf8(project.name),
        encode_utf8("-f"@),
        project.compose_file,
    ] + subcommand.map_values(|item: Seq<char>| encode_utf8(item))
}

/// A compose command for a project: it runs in the project's directory.
pub open spec fn compose_command(
    config: ConfigModel,
    project: ProjectModel,
    global_env: bool,
    subcommand: Seq<Seq<char>>,
) -> CommandModel {
    let args = compose_args(config, project, global_env, subcommand);
    CommandModel {
        program: config.docker_bin,
        args,
        cwd: project.dir,
        display: shell::command_line(shell::command_words(config.docker_bin, args)),
    }
}

/// The commands of an action for a project, in order.
pub open spec fn action_commands(
    action: Action,
    config: ConfigModel,
    project: ProjectModel,
    global_env: bool,
) -> Seq<CommandModel> {
    subcommands(action).map_values(
        |subcommand: Seq<Seq<char>>| compose_command(config, project, global_env, subcommand),
    )
}

fn push_env_file(args: &mut Vec<NativeString>, path: &NativeString)
    ensures
        final(args).deep_view() == old(args).deep_view() + env_file_args(path@),
{
    args.push(NativeString::from_text("--env-file"));
    args.push(path.clone());
    assert(args.deep_view() =~= old(args).deep_view() + env_file_args(path@));
}

fn build_compose_command(
    config: &AppConfig,
    project: &Project,
    global_env: bool,
    subcommand: &Vec<String>,
) -> (command: PreparedCommand)
    ensures
        command@ == compose_command(config@, project@, global_env, subcommand.deep_view()),
{
    let mut args: Vec<NativeString> = Vec::new();
    args.push(NativeString::from_text("compose"));
    assert(args.deep_view() =~= seq![encode_utf8("compose"@)]);
    if global_env {
        push_env_file(&mut args, &config.env_file());
    }
    if let Some(path) = &project.env_file {
        push_env_file(&mut args, path);
    }
    let ghost start = args.deep_view();
    args.push(NativeString::from_text("--project-name"));
    args.push(NativeString::from_text(&project.name));
    args.push(NativeString::from_text("-f"));
    args.push(project.compose_file.clone());
    let ghost head = args.deep_view();
    assert(head =~= start + seq![
        encode_utf8("--project-name"@),
        encode_utf8(project@.name),
        encode_utf8("-f"@),
        project@.compose_file,
    ]);
    let ghost tail = subcommand.deep_view().map_values(|item: Seq<char>| encode_utf8(item));
    for i in 0..subcommand.len()
        invariant
            tail == subcommand.deep_view().map_values(|item: Seq<char>| encode_utf8(item)),
            args.deep_view() == head + tail.take(i as int),
    {
        let ghost before = args.deep_view();
        args.push(NativeString::from_text(&subcommand[i]));
        assert(subcommand.deep_view()[i as int] == subcommand@[i as int]@);
        assert(args.deep_view() =~= before.push(tail[i as int]));
        assert(args.deep_view() =~= head + tail.take(i + 1));
    }
    assert(args.deep_view() =~= head + tail);
    assert(args.deep_view() =~= compose_args(
        config@,
        project@,
        global_env,
        subcommand.deep_view(),
    ));
    let display = shell::render_command(&config.docker_bin, &args);
    PreparedCommand {
        program: config.docker_bin.clone(),
        args,
        cwd: project.dir.clone(),
        display,
    }
}

fn words_of(first: &str) -> (words: Vec<String>)
    ensures
        words.deep_view() == seq![first@],
{
    let mut words: Vec<String> = Vec::new();
    words.push(first.to_owned());
    assert(words.deep_view() =~= seq![first@]);
    words
}

fn push_word(words: &mut Vec<String>, word: &str)
    ensures
        final(words).deep_view() == old(words).deep_view() + seq![word@],
{
    words.push(word.to_owned());
    assert(words.deep_view() =~= old(words).deep_view() + seq![word@]);
}

impl Action {
    fn subcommand_words(&self) -> (all: Vec<Vec<String>>)
        ensures
            all.deep_view() == subcommands(*self),
    {
        let mut all: Vec<Vec<String>> = Vec::new();
        match self {
            Action::Deploy => {
                let mut up = words_of("up");
                push_word(&mut up, "-d");
                assert(up.deep_view() =~= seq!["up"@, "-d"@]);
                all.push(up);
            },
            Action::Update => {
                all.push(words_of("pull"));
                let mut up = words_of("up");
                push_word(&mut up, "-d");
                assert(up.deep_view() =~= seq!["up"@, "-d"@]);
                all.push(up);
            },
            Action::Stop => {
                all.push(words_of("stop"));
            },
            Action::Restart => {
                all.push(words_of("restart"));
            },
            Action::Remove(options) => {
                let mut down = words_of("down");
                if options.volumes {
                    push_word(&mut down, "-v");
                }
                assert(down.deep_view() =~= seq!["down"@] + flag(options.volumes, "-v"@));
                if options.remove_orphans {
                    push_word(&mut down, "--remove-orphans");
                }
                assert(down.deep_view() =~= seq!["down"@] + flag(options.volumes, "-v"@) + flag(
                    options.remove_orphans,
                    "--remove-orphans"@,
                ));
                if let Some(mode) = options.rmi {
                    push_word(&mut down, "--rmi");
                    push_word(&mut down, &mode.to_string());
                }
                assert(down.deep_view() =~= subcommands(*self)[0]);
                all.push(down);
            },
            Action::Logs(options) => {
                let mut logs = words_of("logs");
                push_word(&mut logs, "--tail");
                push_word(&mut logs, &text::decimal(options.tail as u64));
                if options.follow {
                    push_word(&mut logs, "--follow");
                }
                assert(logs.deep_view() =~= subcommands(*self)[0]);
                all.push(logs);
            },
        }
        assert(all.deep_view() =~= subcommands(*self));
        all
    }

    /// The commands that carry the action out for a project. `global_env` says whether the global
    /// env file exists.
    pub fn prepare_commands(
        &self,
        config: &AppConfig,
        project: &Project,
        global_env: bool,
    ) -> (commands: Vec<PreparedCommand>)
        ensures
            commands.deep_view() == action_commands(*self, config@, project@, global_env),
    {
        let all = self.subcommand_words();
        let ghost wanted = action_commands(*self, config@, project@, global_env);
        let mut commands: Vec<PreparedCommand> = Vec::new();
        for i in 0..all.len()
            invariant
                all.deep_view() == subcommands(*self),
                wanted == action_commands(*self, config@, project@, global_env),
                commands.deep_view() == wanted.take(i as int),
        {
            let command = build_compose_command(config, project, global_env, &all[i]);
            assert(all.deep_view()[i as int] == all@[i as int].deep_view());
            let ghost before = commands.deep_view();
            assert(wanted[i as int] == command@);
            commands.push(command);
            assert(commands.deep_view() =~= before.push(wanted[i as int]));
            assert(commands.deep_view() =~= wanted.take(i + 1));
        }
        assert(wanted.take(wanted.len() as int) =~= wanted);
        commands
    }
}

/// Whether the words of a command are such that none is empty.
pub open spec fn no_empty_word(program: Seq<u8>, args: Seq<Seq<u8>>) -> bool {
    let words = shell::command_words(program, args);
    forall|i: int| 0 <= i < words.len() ==> (#[trigger] words[i]).len() > 0
}

/// A command can be run again by hand: from the line that is displayed, a shell reads the program
/// and the arguments of the command. A command with an empty word is the exception.
pub proof fn displayed_command_can_be_rerun(
    config: ConfigModel,
    project: ProjectModel,
    global_env: bool,
    subcommand: Seq<Seq<char>>,
)
    requires
        no_empty_word(config.docker_bin, compose_args(config, project, global_env, subcommand)),
    ensures
        ({
            let command = compose_command(config, project, global_env, subcommand);
            shell::shell_words(command.display, Quotes::Outside, None) == Some(
                shell::command_words(command.program, command.args),
            )
        }),
{
    shell::command_line_is_read_back(
        shell::command_words(config.docker_bin, compose_args(config, project, global_env, subcommand)),
    );
}

/// Whether the arguments of a command say which project it is for, from position `at` on.
pub open spec fn names_project(args: Seq<Seq<u8>>, project: ProjectModel, at: int) -> bool {
    &&& 0 <= at
    &&& at + 4 <= args.len()
    &&& args.subrange(at, at + 4) == seq![
        encode_utf8("--project-name"@),
        encode_utf8(project.name),
        encode_utf8("-f"@),
        project.compose_file,
    ]
}

/// Whatever an action does to a project goes through `docker compose`, in the project's directory,
/// under the project's name and with its compose file; and every action does something.
pub proof fn commands_go_through_compose(
    action: Action,
    config: ConfigModel,
    project: ProjectModel,
    global_env: bool,
)
    ensures
        action_commands(action, config, project, global_env).len() > 0,
        forall|i: int|
            0 <= i < action_commands(action, config, project, global_env).len() ==> {
                let command = #[trigger] action_commands(action, config, project, global_env)[i];
                &&& command.program == config.docker_bin
                &&& command.cwd == project.dir
                &&& command.args.len() > 0
                &&& command.args[0] == encode_utf8("compose"@)
                &&& exists|at: int| names_project(command.args, project, at)
            },
{
    let commands = action_commands(action, config, project, global_env);
    assert forall|i: int| 0 <= i < commands.len() implies {
        let command = #[trigger] commands[i];
        &&& command.args.len() > 0
        &&& command.args[0] == encode_utf8("compose"@)
        &&& exists|at: int| names_project(command.args, project, at)
    } by {
        let args = commands[i].args;
        let at = 1 + (if global_env {
            2int
        } else {
            0
        }) + (if project.env_file is Some {
            2int
        } else {
            0
        });
        assert(args.subrange(at, at + 4) =~= seq![
            encode_utf8("--project-name"@),
            encode_utf8(project.name),
            encode_utf8("-f"@),
            project.compose_file,
        ]);
        assert(names_project(args, project, at));
    }
}

} // verus!
