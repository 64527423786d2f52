//! What holds of every command line that is handed to `docker compose`.

use vstd::prelude::*;
use vstd::utf8::*;

use crate::cli::RmiMode;
use crate::compose::{self, Action, LogsOptions, RemoveOptions};
use crate::config::ConfigModel;
use crate::native;
use crate::project::ProjectModel;
use crate::shell::{self, Quotes};
use crate::text;

verus! {

/// Different texts are different bytes.
pub proof fn texts_differ_as_bytes(a: Seq<char>, b: Seq<char>)
    ensures
        (encode_utf8(a) == encode_utf8(b)) <==> a == b,
{
    encode_utf8_decode_utf8(a);
    encode_utf8_decode_utf8(b);
}

/// How many arguments hand over env files, and what precedes them: `compose`, two for the global
/// env file where there is one, two for the project's own where it has one.
pub open spec fn args_before_name(global_env: bool, project: ProjectModel) -> int {
    1 + (if global_env {
        2int
    } else {
        0
    }) + (if project.env_file is Some {
        2int
    } else {
        0
    })
}

/// Every command of an action begins with `compose`; hands over the global env file whenever that
/// exists, whether or not the project has one of its own, and the project's own after it; then
/// says which project and which compose file it is for. No env file that does not exist is handed
/// over. The command runs the configured program in the project's directory.
pub proof fn commands_hand_over_env_files(
    action: Action,
    config: ConfigModel,
    project: ProjectModel,
    global_env: bool,
    index: int,
)
    requires
        0 <= index < compose::action_commands(action, config, project, global_env).len(),
    ensures
        ({
            let command = compose::action_commands(action, config, project, global_env)[index];
            let args = command.args;
            let at = args_before_name(global_env, project);
            &&& command.program == config.docker_bin
            &&& command.cwd == project.dir
            &&& args.len() >= at + 5
            &&& args[0] == encode_utf8("compose"@)
            &&& global_env ==> args[1] == encode_utf8("--env-file"@) && args[2]
                == native::path_below(config.compose_dir, encode_utf8(".env.global"@))
            &&& project.env_file matches Some(own) ==> args[at - 2] == encode_utf8("--env-file"@)
                && args[at - 1] == own
            &&& args[at] == encode_utf8("--project-name"@)
            &&& args[at + 1] == encode_utf8(project.name)
            &&& args[at + 2] == encode_utf8("-f"@)
            &&& args[at + 3] == project.compose_file
        }),
{
    let subcommand = compose::subcommands(action)[index];
    words_of_actions(action, index);
}

proof fn words_of_actions(action: Action, index: int)
    requires
        0 <= index < compose::subcommands(action).len(),
    ensures
        compose::subcommands(action)[index].len() > 0,
{
}

/// What an action asks of compose, behind the compose file: deploying runs `up -d`, updating `pull`
/// and then `up -d`, stopping `stop`, restarting `restart`, and nothing else.
pub proof fn actions_run_their_subcommands(
    config: ConfigModel,
    project: ProjectModel,
    global_env: bool,
)
    ensures
        ({
            let at = args_before_name(global_env, project) + 4;
            let up = seq![encode_utf8("up"@), encode_utf8("-d"@)];
            let deploy = compose::action_commands(Action::Deploy, config, project, global_env);
            let update = compose::action_commands(Action::Update, config, project, global_env);
            let stop = compose::action_commands(Action::Stop, config, project, global_env);
            let restart = compose::action_commands(Action::Restart, config, project, global_env);
            &&& deploy.len() == 1 && deploy[0].args.skip(at) == up
            &&& update.len() == 2 && update[0].args.skip(at) == seq![encode_utf8("pull"@)]
                && update[1].args.skip(at) == up
            &&& stop.len() == 1 && stop[0].args.skip(at) == seq![encode_utf8("stop"@)]
            &&& restart.len() == 1 && restart[0].args.skip(at) == seq![encode_utf8("restart"@)]
        }),
{
    let at = args_before_name(global_env, project) + 4;
    let up = seq![encode_utf8("up"@), encode_utf8("-d"@)];
    let deploy = compose::action_commands(Action::Deploy, config, project, global_env);
    let update = compose::action_commands(Action::Update, config, project, global_env);
    let stop = compose::action_commands(Action::Stop, config, project, global_env);
    let restart = compose::action_commands(Action::Restart, config, project, global_env);
    assert(deploy[0].args.skip(at) =~= up);
    assert(update[0].args.skip(at) =~= seq![encode_utf8("pull"@)]);
    assert(update[1].args.skip(at) =~= up);
    assert(stop[0].args.skip(at) =~= seq![encode_utf8("stop"@)]);
    assert(restart[0].args.skip(at) =~= seq![encode_utf8("restart"@)]);
}

/// Removing runs `down` once. The volumes go with the containers if and only if that is asked for,
/// and so do the orphans and the images, each by its own option alone; the images are those of the
/// mode that is asked for. Nothing else is handed over.
pub proof fn removal_takes_only_what_is_asked(
    options: RemoveOptions,
    config: ConfigModel,
    project: ProjectModel,
    global_env: bool,
)
    ensures
        ({
            let commands = compose::action_commands(
                Action::Remove(options),
                config,
                project,
                global_env,
            );
            let words = commands[0].args.skip(args_before_name(global_env, project) + 4);
            &&& commands.len() == 1
            &&& words[0] == encode_utf8("down"@)
            &&& words.contains(encode_utf8("-v"@)) <==> options.volumes
            &&& words.contains(encode_utf8("--remove-orphans"@)) <==> options.remove_orphans
            &&& words.contains(encode_utf8("--rmi"@)) <==> options.rmi is Some
            &&& options.rmi matches Some(mode) ==> {
                &&& words[words.len() - 2] == encode_utf8("--rmi"@)
                &&& mode == RmiMode::Local ==> words.last() == encode_utf8("local"@)
                &&& mode == RmiMode::All ==> words.last() == encode_utf8("all"@)
            }
            &&& words.len() == 1 + (if options.volumes {
                1int
            } else {
                0
            }) + (if options.remove_orphans {
                1int
            } else {
                0
            }) + (if options.rmi is Some {
                2int
            } else {
                0
            })
        }),
{
    let commands = compose::action_commands(Action::Remove(options), config, project, global_env);
    let words = commands[0].args.skip(args_before_name(global_env, project) + 4);
    let v = encode_utf8("-v"@);
    let orphans = encode_utf8("--remove-orphans"@);
    let rmi = encode_utf8("--rmi"@);
    reveal_strlit("down");
    reveal_strlit("-v");
    reveal_strlit("--remove-orphans");
    reveal_strlit("--rmi");
    reveal_strlit("local");
    reveal_strlit("all");
    assert("down"@[0] != '-' && "local"@[0] != '-' && "all"@[0] != '-');
    assert("-v"@[0] == '-' && "--rmi"@[0] == '-' && "--remove-orphans"@[0] == '-');
    texts_differ_as_bytes("-v"@, "down"@);
    texts_differ_as_bytes("-v"@, "--remove-orphans"@);
    texts_differ_as_bytes("-v"@, "--rmi"@);
    texts_differ_as_bytes("-v"@, "local"@);
    texts_differ_as_bytes("-v"@, "all"@);
    texts_differ_as_bytes("--remove-orphans"@, "down"@);
    texts_differ_as_bytes("--remove-orphans"@, "--rmi"@);
    texts_differ_as_bytes("--remove-orphans"@, "local"@);
    texts_differ_as_bytes("--remove-orphans"@, "all"@);
    texts_differ_as_bytes("--rmi"@, "down"@);
    texts_differ_as_bytes("--rmi"@, "local"@);
    texts_differ_as_bytes("--rmi"@, "all"@);
    if options.volumes {
        assert(words[1] == v);
    }
    if options.remove_orphans {
        assert(words[if options.volumes {
            2int
        } else {
            1
        }] == orphans);
    }
    if options.rmi is Some {
        assert(words[words.len() - 2] == rmi);
    }
}

/// Showing logs runs `logs` once, for as many of the last lines as asked for, and follows them if
/// and only if that is asked for.
pub proof fn logs_show_the_lines_asked_for(
    options: LogsOptions,
    config: ConfigModel,
    project: ProjectModel,
    global_env: bool,
)
    ensures
        ({
            let commands = compose::action_commands(
                Action::Logs(options),
                config,
                project,
                global_env,
            );
            let words = commands[0].args.skip(args_before_name(global_env, project) + 4);
            let tail = seq![
                encode_utf8("logs"@),
                encode_utf8("--tail"@),
                encode_utf8(text::decimal_text(options.tail as nat)),
            ];
            &&& commands.len() == 1
            &&& options.follow ==> words == tail.push(encode_utf8("--follow"@))
            &&& !options.follow ==> words == tail
        }),
{
    let commands = compose::action_commands(Action::Logs(options), config, project, global_env);
    let words = commands[0].args.skip(args_before_name(global_env, project) + 4);
    let tail = seq![
        encode_utf8("logs"@),
        encode_utf8("--tail"@),
        encode_utf8(text::decimal_text(options.tail as nat)),
    ];
    if options.follow {
        assert(words =~= tail.push(encode_utf8("--follow"@)));
    } else {
        assert(words =~= tail);
    }
}

/// The line that is shown for a command of an action is the command: a shell reads from it the
/// program and all its arguments, in their order. A command with an empty word is the exception.
pub proof fn shown_commands_are_the_commands(
    action: Action,
    config: ConfigModel,
    project: ProjectModel,
    global_env: bool,
    index: int,
)
    requires
        0 <= index < compose::action_commands(action, config, project, global_env).len(),
        native::shown_text(config.docker_bin).len() > 0,
        forall|i: int|
            0 <= i < compose::action_commands(action, config, project, global_env)[index].args.len()
                ==> native::shown_text(
                #[trigger] compose::action_commands(action, config, project, global_env)[index].args[i],
            ).len() > 0,
    ensures
        ({
            let command = compose::action_commands(action, config, project, global_env)[index];
            shell::shell_words(command.display, Quotes::Outside, None) == Some(
                seq![native::shown_text(command.program)] + command.args.map_values(
                    |arg: Seq<u8>| native::shown_text(arg),
                ),
            )
        }),
{
    let command = compose::action_commands(action, config, project, global_env)[index];
    let words = seq![native::shown_text(command.program)] + command.args.map_values(
        |arg: Seq<u8>| native::shown_text(arg),
    );
    assert forall|i: int| 0 <= i < words.len() implies (#[trigger] words[i]).len() > 0 by {
        if i > 0 {
            assert(words[i] == native::shown_text(command.args[i - 1]));
        }
    }
    assert(words =~= shell::command_words(command.program, command.args));
    shell::command_line_is_read_back(words);
}

/// A word stands on a command line as it is if and only if it is made of letters, digits and
/// `/ . _ - =` alone; every other word stands between single quotes.
pub proof fn words_are_quoted_unless_plain(word: Seq<char>)
    ensures
        ({
            let plain = forall|i: int|
                0 <= i < word.len() ==> ({
                    let ch = #[trigger] word[i];
                    ||| 'a' <= ch <= 'z'
                    ||| 'A' <= ch <= 'Z'
                    ||| '0' <= ch <= '9'
                    ||| ch == '/' || ch == '.' || ch == '_' || ch == '-' || ch == '='
                });
            &&& plain ==> shell::escaped(word) == word
            &&& !plain ==> shell::escaped(word).len() >= word.len() + 2 && shell::escaped(word)[0]
                == '\'' && shell::escaped(word).last() == '\''
        }),
{
    if shell::plain_word(word) {
        assert forall|i: int| 0 <= i < word.len() implies ({
            let ch = #[trigger] word[i];
            ||| 'a' <= ch <= 'z'
            ||| 'A' <= ch <= 'Z'
            ||| '0' <= ch <= '9'
            ||| ch == '/' || ch == '.' || ch == '_' || ch == '-' || ch == '='
        }) by {
            assert(shell::plain_char(word[i]));
        }
    } else {
        quoting_adds(word);
    }
}

proof fn quoting_adds(word: Seq<char>)
    ensures
        shell::quoted_chars(word).len() >= word.len(),
    decreases word.len(),
{
    if word.len() > 0 {
        quoting_adds(word.drop_last());
    }
}

} // verus!
