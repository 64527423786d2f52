//! What holds of the configuration, of projects and of their choice, whatever is on disk and
//! whatever is asked for.

use vstd::prelude::*;
use vstd::utf8::*;

use crate::cli::{self, Commands, LogsArgs, RemoveArgs, RmiMode, TargetArgs, TargetErrorModel};
use crate::compose::{Action, FailureModel};
use crate::config::{self, ConfigError, FileConfig, FileConfigModel, TomlModel};
use crate::launch;
use crate::native;
use crate::project::{self, CreateOutcome, FoundModel, NameError, ProjectModel};
use crate::report::{self, Task};
use crate::text;

verus! {

/// A project name is accepted if and only if it begins with a lowercase letter or a digit and holds
/// nothing but those, `-` and `_`. A name that is refused is refused for being empty, else for what
/// it begins with, else for what it holds, in these words.
pub proof fn names_follow_composes_rules(name: Seq<char>)
    ensures
        ({
            let starts = name.len() > 0 && ('a' <= name[0] <= 'z' || '0' <= name[0] <= '9');
            let holds = forall|i: int|
                0 <= i < name.len() ==> ({
                    let ch = #[trigger] name[i];
                    'a' <= ch <= 'z' || '0' <= ch <= '9' || ch == '-' || ch == '_'
                });
            let error = project::name_error(name);
            &&& project::valid_project_name(name) <==> starts && holds
            &&& name.len() == 0 ==> error == NameError::Empty
            &&& name.len() > 0 && !starts ==> error == NameError::BadStart
            &&& starts && !holds ==> error == NameError::BadCharacter
        }),
        NameError::Empty.message_text() == "project name cannot be empty"@,
        NameError::BadStart.message_text()
            == "project name must start with a lowercase letter or digit"@,
        NameError::BadCharacter.message_text()
            == "project name can contain only lowercase letters, digits, '-' and '_'"@,
{
    if project::valid_project_name(name) {
        assert forall|i: int| 0 <= i < name.len() implies ({
            let ch = #[trigger] name[i];
            'a' <= ch <= 'z' || '0' <= ch <= '9' || ch == '-' || ch == '_'
        }) by {
            assert(project::name_char(name[i]));
        }
    }
}

/// Whether the compose file name at `index` is there.
pub open spec fn is_there(there: Seq<bool>, index: int) -> bool {
    index < there.len() && there[index]
}

/// Of the compose files in a directory the first of `docker-compose.yaml`, `docker-compose.yml`,
/// `compose.yaml` and `compose.yml` counts; a directory without any has none.
pub proof fn compose_files_are_tried_in_order(dir: Seq<u8>, there: Seq<bool>)
    ensures
        is_there(there, 0) ==> project::compose_file_in(dir, there) == Some(
            native::path_below(dir, encode_utf8("docker-compose.yaml"@)),
        ),
        !is_there(there, 0) && is_there(there, 1) ==> project::compose_file_in(dir, there) == Some(
            native::path_below(dir, encode_utf8("docker-compose.yml"@)),
        ),
        !is_there(there, 0) && !is_there(there, 1) && is_there(there, 2)
            ==> project::compose_file_in(dir, there) == Some(
            native::path_below(dir, encode_utf8("compose.yaml"@)),
        ),
        !is_there(there, 0) && !is_there(there, 1) && !is_there(there, 2) && is_there(there, 3)
            ==> project::compose_file_in(dir, there) == Some(
            native::path_below(dir, encode_utf8("compose.yml"@)),
        ),
        !is_there(there, 0) && !is_there(there, 1) && !is_there(there, 2) && !is_there(there, 3)
            ==> project::compose_file_in(dir, there) is None,
{
    let first = if is_there(there, 0) {
        0int
    } else if is_there(there, 1) {
        1
    } else if is_there(there, 2) {
        2
    } else {
        3
    };
    if is_there(there, first) {
        assert(project::first_compose_name(there, first));
        let found = choose|index: int| project::first_compose_name(there, index);
        if found < first {
            assert(!there[found]);
        }
        if first < found {
            assert(!there[first]);
        }
    }
}

/// An entry of the compose directory is a project if and only if it is a directory and holds a
/// compose file. The project has the entry's name and directory, that compose file, and the `.env`
/// of the directory if and only if there is one.
pub proof fn projects_are_directories_with_compose_files(compose_dir: Seq<u8>, entry: FoundModel)
    ensures
        ({
            let found = project::project_at(compose_dir, entry);
            let dir = native::path_below(compose_dir, entry.name);
            let any = is_there(entry.compose_files, 0) || is_there(entry.compose_files, 1)
                || is_there(entry.compose_files, 2) || is_there(entry.compose_files, 3);
            &&& found is Some <==> entry.is_dir && any
            &&& found matches Some(found) ==> {
                &&& found.name == native::shown_text(entry.name)
                &&& found.dir == dir
                &&& project::compose_file_in(dir, entry.compose_files) == Some(found.compose_file)
                &&& entry.has_env ==> found.env_file == Some(
                    native::path_below(dir, encode_utf8(".env"@)),
                )
                &&& !entry.has_env ==> found.env_file is None
            }
        }),
{
    compose_files_are_tried_in_order(
        native::path_below(compose_dir, entry.name),
        entry.compose_files,
    );
}

/// Discovered projects stand in the order of their names: none stands before another whose name is
/// smaller. There are as many as entries that are projects.
pub proof fn discovery_orders_by_name(
    compose_dir: Seq<u8>,
    entries: Seq<FoundModel>,
    projects: Seq<ProjectModel>,
)
    requires
        project::sorted_version(projects, project::projects_among(compose_dir, entries)),
    ensures
        forall|i: int, j: int|
            0 <= i < j < projects.len() ==> !text::text_less(
                #[trigger] projects[j].name,
                #[trigger] projects[i].name,
            ),
        projects.len() == entries.filter(
            |entry: FoundModel| project::project_at(compose_dir, entry) is Some,
        ).len(),
{
    let among = project::projects_among(compose_dir, entries);
    projects.to_multiset_ensures();
    among.to_multiset_ensures();
    assert(projects.len() == among.len());
    found_are_counted(compose_dir, entries);
}

proof fn found_are_counted(compose_dir: Seq<u8>, entries: Seq<FoundModel>)
    ensures
        project::projects_among(compose_dir, entries).len() == entries.filter(
            |entry: FoundModel| project::project_at(compose_dir, entry) is Some,
        ).len(),
    decreases entries.len(),
{
    reveal(Seq::filter);
    if entries.len() > 0 {
        found_are_counted(compose_dir, entries.drop_last());
    }
}

/// A new project stands right below the compose directory under its name, with
/// `docker-compose.yaml` in it and no env file.
pub proof fn new_projects_stand_below_compose_dir(compose_dir: Seq<u8>, name: Seq<char>)
    ensures
        ({
            let new = project::new_project(compose_dir, name);
            &&& new.name == name
            &&& new.dir == native::path_below(compose_dir, encode_utf8(name))
            &&& new.compose_file == native::path_below(
                new.dir,
                encode_utf8("docker-compose.yaml"@),
            )
            &&& new.env_file is None
        }),
{
}

/// A creation succeeds if and only if everything was created, and gives the project; one that stopped
/// says where.
pub proof fn creations_say_where_they_stopped(
    compose_dir: Seq<u8>,
    project: ProjectModel,
    outcome: CreateOutcome,
)
    ensures
        ({
            let result = project::creation_result(compose_dir, project, outcome);
            let dir = native::shown_text(project.dir);
            let file = native::shown_text(project.compose_file);
            &&& outcome == CreateOutcome::Created ==> result == Ok::<ProjectModel, Seq<char>>(project)
            &&& outcome == CreateOutcome::ComposeDirFailed ==> result == Err::<
                ProjectModel,
                Seq<char>,
            >("failed to create compose dir "@ + native::shown_text(compose_dir))
            &&& outcome == CreateOutcome::AlreadyExists ==> result == Err::<ProjectModel, Seq<char>>(
                "project path already exists: "@ + dir,
            )
            &&& outcome == CreateOutcome::DirFailed ==> result == Err::<ProjectModel, Seq<char>>(
                "failed to create project dir "@ + dir,
            )
            &&& outcome == CreateOutcome::FileFailed ==> result == Err::<ProjectModel, Seq<char>>(
                "failed to create compose file "@ + file,
            )
            &&& outcome == CreateOutcome::WriteFailed ==> result == Err::<ProjectModel, Seq<char>>(
                "failed to write compose file "@ + file,
            )
        }),
{
}

/// A deletion removes a directory if and only if both paths could be resolved and the directory is
/// right below the compose directory, under the project's own name; it then removes that directory.
/// Every refusal says why.
pub proof fn deletions_remove_only_the_projects_directory(
    compose_dir: Seq<u8>,
    project: ProjectModel,
    root: Option<Seq<u8>>,
    dir: Option<Seq<u8>>,
)
    ensures
        ({
            let target = project::deletion_target(compose_dir, project, root, dir);
            let name = encode_utf8(project.name);
            let shown = native::shown_text(project.dir);
            let below = root is Some && dir is Some && exists|entry: Seq<u8>| #[trigger]
                native::is_entry(root->0, dir->0, entry);
            let own = root is Some && dir is Some && name.len() > 0 && !name.contains(0x2f) && dir->0
                == native::path_below(root->0, name);
            &&& target is Ok <==> own
            &&& target matches Ok(removed) ==> removed == dir->0
            &&& root is None ==> target == Err::<Seq<u8>, Seq<char>>(
                "failed to resolve compose dir "@ + native::shown_text(compose_dir),
            )
            &&& root is Some && dir is None ==> target == Err::<Seq<u8>, Seq<char>>(
                "failed to resolve project dir "@ + shown,
            )
            &&& root is Some && dir is Some && !below ==> target == Err::<Seq<u8>, Seq<char>>(
                "refusing to delete project outside compose dir: "@ + shown,
            )
            &&& below && !own ==> target == Err::<Seq<u8>, Seq<char>>(
                "refusing to delete project with mismatched directory name: "@ + shown,
            )
        }),
{
    if root is Some && dir is Some {
        let name = encode_utf8(project.name);
        if native::is_entry(root->0, dir->0, name) {
            assert(project::in_dir(root->0, dir->0));
        }
    }
}

/// Each setting comes from the first source that has it: the command line, which can set the compose
/// directory, then the config file, then the default.
pub proof fn settings_come_from_the_first_source(
    file: FileConfigModel,
    compose_dir_override: Option<Seq<u8>>,
)
    ensures
        ({
            let config = config::effective_config(file, compose_dir_override);
            &&& config.compose_dir == (match (compose_dir_override, file.compose_dir) {
                (Some(dir), _) => dir,
                (None, Some(dir)) => dir,
                (None, None) => encode_utf8("/var/lib/lazydc"@),
            })
            &&& config.docker_bin == (match file.docker_bin {
                Some(bin) => bin,
                None => encode_utf8("docker"@),
            })
            &&& config.refresh_interval_ms == (match file.refresh_interval_ms {
                Some(ms) => ms,
                None => 2_000u64,
            })
            &&& config.default_log_lines == (match file.default_log_lines {
                Some(lines) => lines,
                None => 100usize,
            })
        }),
{
}

/// Whether a value may stand for a path: there is none, or it is a string.
pub open spec fn path_or_none(value: Option<TomlModel>) -> bool {
    value matches Some(value) ==> value is Text
}

/// Whether a value may stand for a number: there is none, or it is an integer from zero to `max`.
pub open spec fn number_or_none(value: Option<TomlModel>, max: int) -> bool {
    value matches Some(value) ==> (value matches TomlModel::Number(Some(number)) && 0 <= number
        <= max)
}

/// Whether what is made of the values of the four keys is what they say: it is refused if and only if
/// a path is no string or a number is no integer that fits; else each value sets its own setting, and
/// a value that is missing sets nothing.
pub open spec fn says(
    settings: Result<FileConfigModel, ConfigError>,
    dir: Option<TomlModel>,
    bin: Option<TomlModel>,
    refresh: Option<TomlModel>,
    lines: Option<TomlModel>,
) -> bool {
    &&& settings is Ok <==> {
        &&& path_or_none(dir)
        &&& path_or_none(bin)
        &&& number_or_none(refresh, u64::MAX as int)
        &&& number_or_none(lines, usize::MAX as int)
    }
    &&& settings matches Err(error) ==> error == ConfigError::BadValue
    &&& settings matches Ok(file) ==> {
        &&& dir is None ==> file.compose_dir is None
        &&& dir matches Some(TomlModel::Text(path)) ==> file.compose_dir == Some(encode_utf8(path))
        &&& bin is None ==> file.docker_bin is None
        &&& bin matches Some(TomlModel::Text(path)) ==> file.docker_bin == Some(encode_utf8(path))
        &&& refresh is None ==> file.refresh_interval_ms is None
        &&& refresh matches Some(TomlModel::Number(Some(number))) ==> file.refresh_interval_ms is Some
            && file.refresh_interval_ms->0 == number
        &&& lines is None ==> file.default_log_lines is None
        &&& lines matches Some(TomlModel::Number(Some(number))) ==> file.default_log_lines is Some
            && file.default_log_lines->0 == number
    }
}

/// A config file sets what its keys say: each of the four keys sets the setting of its name, a key
/// that is missing sets nothing, and other keys are ignored. A file is refused if and only if it is
/// no TOML, or a path is no string, or a number is no integer that fits.
pub proof fn config_keys_set_their_settings(text: Seq<char>)
    ensures
        config::toml_entries(text) is None ==> config::text_settings(text) == Err::<
            FileConfigModel,
            ConfigError,
        >(ConfigError::NotToml),
        config::toml_entries(text) matches Some(entries) ==> says(
            config::text_settings(text),
            entries.get("compose_dir"@),
            entries.get("docker_bin"@),
            entries.get("refresh_interval_ms"@),
            entries.get("default_log_lines"@),
        ),
{
}

/// A list of entries sets what its keys say, each key what its first entry says.
pub proof fn listed_keys_set_their_settings(
    list: Seq<(Seq<char>, TomlModel)>,
    key: Seq<char>,
    at: int,
)
    requires
        forall|i: int| 0 <= i < list.len() && i < at ==> (#[trigger] list[i]).0 != key,
        at < list.len() ==> 0 <= at && list[at].0 == key,
    ensures
        at < list.len() ==> config::entry_value(list, key) == Some(list[at].1),
        at >= list.len() ==> config::entry_value(list, key) is None,
        says(
            config::listed_settings(list),
            config::entry_value(list, "compose_dir"@),
            config::entry_value(list, "docker_bin"@),
            config::entry_value(list, "refresh_interval_ms"@),
            config::entry_value(list, "default_log_lines"@),
        ),
{
    if at < list.len() {
        assert(config::first_entry(list, key, at));
        let found = choose|index: int| config::first_entry(list, key, index);
        if found < at {
            assert(list[found].0 != key);
        }
        if at < found {
            assert(list[at].0 != key);
        }
    } else if exists|index: int| config::first_entry(list, key, index) {
        let found = choose|index: int| config::first_entry(list, key, index);
        assert(list[found].0 != key);
    }
}

/// The config file is the one that is asked for, else `lazydc/config.toml` below the user's
/// configuration directory, else none. The env file that all projects share is `.env.global` in the
/// compose directory.
pub proof fn files_stand_at_known_places(
    asked: Option<Seq<u8>>,
    config_dir: Option<Seq<u8>>,
    compose_dir: Seq<u8>,
)
    ensures
        asked is Some ==> config::chosen_config_path(asked, config_dir) == asked,
        asked is None ==> (config_dir matches Some(dir) ==> config::chosen_config_path(
            asked,
            config_dir,
        ) == Some(
            native::path_below(
                native::path_below(dir, encode_utf8("lazydc"@)),
                encode_utf8("config.toml"@),
            ),
        )),
        asked is None && config_dir is None ==> config::chosen_config_path(asked, config_dir) is None,
        config::global_env_file(compose_dir) == native::path_below(
            compose_dir,
            encode_utf8(".env.global"@),
        ),
{
}

/// Naming projects contradicts asking for all or for a list of them; nothing else does.
pub proof fn names_exclude_all_and_select(args: TargetArgs)
    ensures
        args.projects@.len() > 0 && args.all ==> args.conflicting(),
        args.projects@.len() > 0 && args.select ==> args.conflicting(),
        args.projects@.len() == 0 ==> !args.conflicting(),
        !args.all && !args.select ==> !args.conflicting(),
{
}

/// A command means, of the discovered projects and in their order, those that it names; where it
/// names none and asks for a list, those that are picked from the list; and else all.
pub proof fn commands_mean_the_projects_asked_for(
    discovered: Seq<ProjectModel>,
    named: Seq<Seq<char>>,
    select: bool,
    picked: Seq<Seq<char>>,
)
    ensures
        ({
            let meant = cli::projects_with_names(
                discovered,
                cli::requested_names(discovered, named, select, picked),
            );
            &&& named.len() > 0 ==> meant == discovered.filter(
                |project: ProjectModel| named.contains(project.name),
            )
            &&& named.len() == 0 && select ==> meant == discovered.filter(
                |project: ProjectModel| picked.contains(project.name),
            )
            &&& named.len() == 0 && !select ==> meant == discovered
        }),
{
    if named.len() == 0 && !select {
        assert(named =~= seq![]);
        cli::no_selection_means_all(discovered, picked);
    }
}

/// Whether some discovered project has the name.
pub open spec fn is_discovered(discovered: Seq<ProjectModel>, name: Seq<char>) -> bool {
    exists|k: int| 0 <= k < discovered.len() && (#[trigger] discovered[k]).name == name
}

/// The name that is refused as unknown is the first asked for that no discovered project has.
pub proof fn first_unknown_name_is_refused(
    discovered: Seq<ProjectModel>,
    names: Seq<Seq<char>>,
    index: int,
)
    ensures
        cli::first_unknown(discovered, names, index) <==> {
            &&& 0 <= index < names.len()
            &&& !is_discovered(discovered, names[index])
            &&& forall|j: int| 0 <= j < index ==> is_discovered(discovered, #[trigger] names[j])
        },
{
    assert forall|name: Seq<char>| #[trigger] cli::names_of(discovered).contains(name)
        <==> is_discovered(discovered, name) by {
        known_names_are_discovered(discovered, name);
    }
    if cli::first_unknown(discovered, names, index) {
        known_names_are_discovered(discovered, names[index]);
        assert forall|j: int| 0 <= j < index implies is_discovered(
            discovered,
            #[trigger] names[j],
        ) by {
            known_names_are_discovered(discovered, names[j]);
        }
    } else if 0 <= index < names.len() {
        known_names_are_discovered(discovered, names[index]);
    }
}

/// Every name that a command asks for is checked against the names of the discovered projects.
pub proof fn known_names_are_discovered(discovered: Seq<ProjectModel>, name: Seq<char>)
    ensures
        cli::names_of(discovered).contains(name) <==> is_discovered(discovered, name),
{
    let known = cli::names_of(discovered);
    if known.contains(name) {
        let k = choose|k: int| 0 <= k < known.len() && known[k] == name;
        assert(discovered[k].name == name);
    }
    if is_discovered(discovered, name) {
        let k = choose|k: int| 0 <= k < discovered.len() && (#[trigger] discovered[k]).name == name;
        assert(known[k] == name);
    }
}

/// Every refusal of projects says what is wrong, and which name is unknown.
pub proof fn refused_targets_have_messages(name: Seq<char>)
    ensures
        TargetErrorModel::Conflict.message()
            == "cannot combine explicit projects with --all or --select"@,
        TargetErrorModel::UnknownProject(name).message() == "unknown project: "@ + name,
        TargetErrorModel::NoProjects.message() == "no projects selected"@,
        RmiMode::Local.text() == "local"@,
        RmiMode::All.text() == "all"@,
{
}

/// Each subcommand asks for the action of its name, for the projects that it is given; removing and
/// showing logs take their options as they are given, and as many lines of logs as configured where
/// none are asked for. Without a subcommand the screen is opened.
pub proof fn subcommands_ask_for_their_actions(
    targets: TargetArgs,
    json: bool,
    remove: RemoveArgs,
    logs: LogsArgs,
    log_lines: usize,
)
    ensures
        report::task_of(None, log_lines) == Task::Tui,
        report::task_of(Some(Commands::Tui), log_lines) == Task::Tui,
        report::task_of(Some(Commands::ExampleConfig), log_lines) == Task::ExampleConfig,
        report::task_of(Some(Commands::List { json }), log_lines) == (Task::List { json }),
        report::task_of(Some(Commands::Status { targets, json }), log_lines) == (Task::Status {
            targets,
            json,
        }),
        report::task_of(Some(Commands::Deploy(targets)), log_lines) == (Task::Run {
            targets,
            action: Action::Deploy,
        }),
        report::task_of(Some(Commands::Update(targets)), log_lines) == (Task::Run {
            targets,
            action: Action::Update,
        }),
        report::task_of(Some(Commands::Stop(targets)), log_lines) == (Task::Run {
            targets,
            action: Action::Stop,
        }),
        report::task_of(Some(Commands::Restart(targets)), log_lines) == (Task::Run {
            targets,
            action: Action::Restart,
        }),
        report::task_of(Some(Commands::Remove(remove)), log_lines) matches Task::Run {
            targets: given,
            action: Action::Remove(options),
        } && given == remove.targets && options.volumes == remove.volumes && options.remove_orphans
            == remove.remove_orphans && options.rmi == remove.rmi,
        report::task_of(Some(Commands::Logs(logs)), log_lines) matches Task::Run {
            targets: given,
            action: Action::Logs(options),
        } && given == logs.targets && options.follow == logs.follow && (logs.tail matches Some(tail)
            ==> options.tail == tail) && (logs.tail is None ==> options.tail == log_lines),
{
}

/// A batch has succeeded if and only if it failed for no project. Otherwise the report names every
/// project that it failed for, in order, each with its message in brackets.
pub proof fn failed_projects_are_reported(failures: Seq<FailureModel>, next: FailureModel)
    ensures
        report::batch_verdict(failures) is Ok <==> failures.len() == 0,
        failures.len() == 0 ==> report::batch_verdict(failures.push(next)) == Err::<(), Seq<char>>(
            "one or more projects failed: "@ + (next.project + " ("@ + next.message + ")"@),
        ),
        failures.len() > 0 ==> {
            let before = report::batch_verdict(failures);
            let after = report::batch_verdict(failures.push(next));
            before is Err && after is Err && after->Err_0 == before->Err_0 + ", "@ + (next.project
                + " ("@ + next.message + ")"@)
        },
{
    let shown = |failure: FailureModel| failure.project + " ("@ + failure.message + ")"@;
    let parts = failures.map_values(shown);
    assert(failures.push(next).map_values(shown) =~= parts.push(shown(next)));
    assert(parts.push(shown(next)).drop_last() =~= parts);
    if failures.len() > 0 {
        let start = "one or more projects failed: "@;
        assert(start + (text::joined(parts, ", "@) + ", "@ + shown(next)) =~= start + text::joined(
            parts,
            ", "@,
        ) + ", "@ + shown(next));
    }
}

/// A listed project shows its name in the first twenty columns and its compose file behind them.
pub proof fn listed_projects_show_name_and_file(project: ProjectModel)
    ensures
        ({
            let line = report::project_line(project);
            let width = if project.name.len() < 20 {
                20
            } else {
                project.name.len() as int
            };
            &&& line.take(project.name.len() as int) == project.name
            &&& forall|i: int| project.name.len() <= i <= width ==> #[trigger] line[i] == ' '
            &&& line.skip(width + 1) == native::shown_text(project.compose_file)
        }),
        cli::selection_line(project) == project.name + "  "@ + native::shown_text(
            project.compose_file,
        ),
{
    let line = report::project_line(project);
    let width = if project.name.len() < 20 {
        20
    } else {
        project.name.len() as int
    };
    reveal_strlit(" ");
    assert(line.take(project.name.len() as int) =~= project.name);
    assert(line.skip(width + 1) =~= native::shown_text(project.compose_file));
}

/// The editor is what `VISUAL` says, unless that is missing or blank; then what `EDITOR` says, unless
/// that is; else there is none.
pub proof fn visual_counts_before_editor(visual: Option<Seq<char>>, editor: Option<Seq<char>>)
    ensures
        ({
            let said = |value: Option<Seq<char>>|
                value is Some && exists|i: int|
                    0 <= i < value->0.len() && !launch::is_blank(#[trigger] value->0[i]);
            let choice = launch::editor_choice(visual, editor);
            &&& said(visual) ==> choice == visual
            &&& !said(visual) && said(editor) ==> choice == editor
            &&& !said(visual) && !said(editor) ==> choice is None
        }),
        forall|ch: char| #[trigger]
            launch::is_blank(ch) <==> ({
                let code = ch as int;
                ||| 9 <= code <= 13
                ||| 0x2000 <= code <= 0x200a
                ||| code == 0x20 || code == 0x85 || code == 0xa0 || code == 0x1680 || code == 0x2028
                    || code == 0x2029 || code == 0x202f || code == 0x205f || code == 0x3000
            }),
{
}

/// The editor is run by a shell on the file itself: the path is an argument of its own, whatever it
/// holds. A shell in a container is opened by docker, interactively, in that container.
pub proof fn visits_open_what_is_asked_for(editor: Seq<char>, path: Seq<u8>, id: Seq<char>)
    ensures
        launch::editor_args(editor, path).len() == 4,
        launch::editor_args(editor, path)[0] == encode_utf8("-c"@),
        launch::editor_args(editor, path)[1] == encode_utf8("exec "@ + editor + " \"$1\""@),
        launch::editor_args(editor, path)[2] == encode_utf8("lazydc-editor"@),
        launch::editor_args(editor, path)[3] == path,
        launch::shell_args(id).len() == 6,
        launch::shell_args(id)[0] == "exec"@,
        launch::shell_args(id)[1] == "-it"@,
        launch::shell_args(id)[2] == id,
        launch::shell_args(id)[3] == "sh"@,
        launch::shell_args(id)[4] == "-lc"@,
        launch::shell_args(id)[5] == "command -v bash >/dev/null 2>&1 && exec bash || exec sh"@,
{
}

/// An editor or a shell that ended well is a success, and only that; a failure gives the exit code.
/// A terminal that cannot be taken back is a failure too, beside that of the visit.
pub proof fn visits_succeed_only_when_all_does(
    what: Seq<char>,
    code: i32,
    visit: Result<(), Seq<char>>,
    message: Seq<char>,
)
    ensures
        launch::visit_result(what, true, Some(code)) is Ok,
        launch::visit_result(what, true, None) is Ok,
        launch::visit_result(what, false, Some(code)) == Err::<(), Seq<char>>(
            what + " exited with "@ + text::signed_text(code as int),
        ),
        launch::visit_result(what, false, None) == Err::<(), Seq<char>>(
            what + " exited with "@ + "signal"@,
        ),
        launch::suspension_result(what, visit, true) == visit,
        launch::suspension_result(what, Ok(()), false) == Err::<(), Seq<char>>(
            "failed to restore TUI after "@ + what,
        ),
        launch::suspension_result(what, Err(message), false) == Err::<(), Seq<char>>(
            message + "; additionally "@ + ("failed to restore TUI after "@ + what) + ": "@ + (
            "failed to restore TUI after "@ + what),
        ),
{
}

/// Without a config file and without a directory on the command line, every setting is its default,
/// and the example of a config file says the same.
pub proof fn example_says_the_defaults()
    ensures
        ({
            let config = config::effective_config(FileConfig::unset(), None);
            &&& config.compose_dir == encode_utf8("/var/lib/lazydc"@)
            &&& config.docker_bin == encode_utf8("docker"@)
            &&& config.refresh_interval_ms == 2_000
            &&& config.default_log_lines == 100
        }),
        config::example_text() == "compose_dir = \""@ + "/var/lib/lazydc"@ + "\"\ndocker_bin = \""@
            + "docker"@ + "\"\nrefresh_interval_ms = "@ + "2000"@ + "\ndefault_log_lines = "@
            + "100"@ + "\n"@,
{
    reveal_with_fuel(text::decimal_text, 5);
    reveal_strlit("2000");
    reveal_strlit("100");
    assert(text::decimal_text(2_000) =~= "2000"@);
    assert(text::decimal_text(100) =~= "100"@);
}

/// Arguments that say the same name the same projects in the same order, and ask for the same.
pub proof fn like_arguments_say_the_same(a: TargetArgs, b: TargetArgs)
    ensures
        a.like(b) <==> {
            &&& a.projects.deep_view() == b.projects.deep_view()
            &&& a.all == b.all
            &&& a.select == b.select
        },
{
}

} // verus!
