//! The commands of each action, and how batches of them run.

use lazydc::batch::{
    spawn_failure, ActionBatch, CommandEvent, CommandOutcome, CommandWatch, DeleteBatch, DeleteStep,
};
use lazydc::cli::RmiMode;
use lazydc::compose::{
    Action, ActionBatchResult, CommandExit, LogsOptions, PreparedCommand, RemoveOptions,
};
use lazydc::config::AppConfig;
use lazydc::native::NativeString;
use lazydc::output::{CliOutputSink, OutputLine, OutputSink};
use lazydc::project::{create_project, delete_project, CreateOutcome, Project};
use lazydc::shell::{render_command, shell_escape};

fn native(text: &str) -> NativeString {
    NativeString::from_text(text)
}

fn sample_config() -> AppConfig {
    AppConfig {
        compose_dir: native("/srv/cmps"),
        docker_bin: native("docker"),
        refresh_interval_ms: 2000,
        default_log_lines: 50,
    }
}

fn named_project(name: &str) -> Project {
    let dir = native("/srv/cmps").join_text(name);
    Project {
        name: name.to_string(),
        dir: dir.clone(),
        compose_file: dir.join_text("docker-compose.yaml"),
        env_file: Some(dir.join_text(".env")),
    }
}

fn sample_project() -> Project {
    named_project("app")
}

fn args_of(command: &PreparedCommand) -> Vec<String> {
    command.args.iter().map(|arg| arg.display()).collect()
}

fn exited(code: i32) -> CommandOutcome {
    CommandOutcome::Exited(CommandExit { success: code == 0, exit_code: Some(code) })
}

#[test]
fn update_builds_pull_then_up() {
    let commands = Action::Update.prepare_commands(&sample_config(), &sample_project(), false);
    assert_eq!(commands.len(), 2);
    assert!(commands[0].display.contains("pull"));
    assert!(commands[1].display.contains("up -d"));
}

#[test]
fn remove_can_add_rmi_and_volumes() {
    let command = Action::Remove(RemoveOptions {
        volumes: true,
        remove_orphans: true,
        rmi: Some(RmiMode::All),
    })
    .prepare_commands(&sample_config(), &sample_project(), false)
    .pop()
    .unwrap();
    assert!(command.display.contains("down -v --remove-orphans --rmi all"));
}

#[test]
fn compose_command_includes_global_and_project_env_files() {
    let compose_dir = native("/tmp/root").join_text("compose");
    let project_dir = compose_dir.join_text("app");

    let config = AppConfig {
        compose_dir: compose_dir.clone(),
        docker_bin: native("docker"),
        refresh_interval_ms: 2000,
        default_log_lines: 50,
    };
    let project = Project {
        name: "app".to_string(),
        dir: project_dir.clone(),
        compose_file: project_dir.join_text("docker-compose.yaml"),
        env_file: Some(project_dir.join_text(".env")),
    };

    let command = Action::Deploy.prepare_commands(&config, &project, true).pop().unwrap();
    assert!(command.display.contains(&format!(
        "--env-file {}",
        compose_dir.join_text(".env.global").display()
    )));
    assert!(command.display.contains(&format!(
        "--env-file {}",
        project_dir.join_text(".env").display()
    )));
}

#[test]
fn deploy_command_is_exact() {
    let commands = Action::Deploy.prepare_commands(&sample_config(), &sample_project(), true);
    assert_eq!(commands.len(), 1);
    assert_eq!(commands[0].program, native("docker"));
    assert_eq!(commands[0].cwd, native("/srv/cmps/app"));
    assert_eq!(
        args_of(&commands[0]),
        vec![
            "compose",
            "--env-file",
            "/srv/cmps/.env.global",
            "--env-file",
            "/srv/cmps/app/.env",
            "--project-name",
            "app",
            "-f",
            "/srv/cmps/app/docker-compose.yaml",
            "up",
            "-d",
        ]
    );
    assert_eq!(
        commands[0].display,
        "docker compose --env-file /srv/cmps/.env.global --env-file /srv/cmps/app/.env \
         --project-name app -f /srv/cmps/app/docker-compose.yaml up -d"
    );
}

#[test]
fn each_action_has_its_subcommand() {
    let plain = RemoveOptions { volumes: false, remove_orphans: false, rmi: None };
    for (action, tail) in [
        (Action::Stop, "docker-compose.yaml stop"),
        (Action::Restart, "docker-compose.yaml restart"),
        (Action::Remove(plain), "docker-compose.yaml down"),
        (
            Action::Remove(RemoveOptions { rmi: Some(RmiMode::Local), ..plain }),
            "docker-compose.yaml down --rmi local",
        ),
        (
            Action::Logs(LogsOptions { follow: false, tail: 25 }),
            "docker-compose.yaml logs --tail 25",
        ),
        (
            Action::Logs(LogsOptions { follow: true, tail: 0 }),
            "docker-compose.yaml logs --tail 0 --follow",
        ),
    ] {
        let commands = action.prepare_commands(&sample_config(), &sample_project(), false);
        assert_eq!(commands.len(), 1);
        assert!(commands[0].display.ends_with(tail), "{}", commands[0].display);
    }
}

#[test]
fn words_are_quoted_only_where_needed() {
    assert_eq!(shell_escape("a-b_c.d/e=F9"), "a-b_c.d/e=F9");
    assert_eq!(shell_escape("two words"), "'two words'");
    assert_eq!(shell_escape("it's"), "'it'\"'\"'s'");
    assert_eq!(shell_escape("\u{e9}"), "'\u{e9}'");
    assert_eq!(shell_escape(""), "");
}

#[test]
fn bytes_that_are_not_text_are_shown_lossily() {
    let program = NativeString { bytes: vec![b'd', 0xff] };
    let line = render_command(&program, &vec![native("a b")]);
    assert_eq!(line, "'d\u{fffd}' 'a b'");
}

/// Reads words off a command line the way a shell does, as far as quotes and blanks go.
fn read_words(line: &str) -> Vec<String> {
    let mut words: Vec<String> = Vec::new();
    let mut word: Option<String> = None;
    let mut quote: Option<char> = None;
    for ch in line.chars() {
        match (quote, ch) {
            (Some(open), ch) if ch == open => quote = None,
            (Some(_), ch) => word.get_or_insert_with(String::new).push(ch),
            (None, '\'') | (None, '"') => {
                quote = Some(ch);
                word.get_or_insert_with(String::new);
            }
            (None, ' ') => words.extend(word.take()),
            (None, ch) => word.get_or_insert_with(String::new).push(ch),
        }
    }
    words.extend(word);
    words
}

#[test]
fn displayed_commands_are_read_back() {
    let args = vec![native("it's"), native("a 'b' \"c\""), native("plain"), native("$HOME")];
    let line = render_command(&native("/opt/my docker"), &args);
    assert_eq!(
        read_words(&line),
        vec!["/opt/my docker", "it's", "a 'b' \"c\"", "plain", "$HOME"]
    );
}

#[test]
fn batch_goes_through_projects_in_order() {
    let projects = vec![named_project("a"), named_project("b")];
    let mut batch = ActionBatch::new(projects, sample_config(), Action::Update);
    let mut seen: Vec<String> = Vec::new();
    while let Some(step) = batch.next(false) {
        let word = step.command.args.last().unwrap().display();
        seen.push(format!("{} {}", step.project.name, word));
        let exit = batch.finished(&exited(0));
        assert!(exit.success);
    }
    assert_eq!(seen, vec!["a pull", "a -d", "b pull", "b -d"]);
    assert!(batch.into_result().failed_projects.is_empty());
}

#[test]
fn failure_ends_its_project_and_no_other() {
    let projects = vec![named_project("a"), named_project("b"), named_project("c")];
    let mut batch = ActionBatch::new(projects, sample_config(), Action::Update);

    assert_eq!(batch.next(false).unwrap().project.name, "a");
    let exit = batch.finished(&exited(17));
    assert_eq!(exit, CommandExit { success: false, exit_code: Some(17) });

    let step = batch.next(true).unwrap();
    assert_eq!(step.project.name, "b");
    assert!(step.command.display.contains(".env.global"));
    batch.finished(&exited(0));
    assert_eq!(batch.next(false).unwrap().project.name, "b");
    let exit = batch.finished(&CommandOutcome::Broken("process terminated unexpectedly".to_string()));
    assert_eq!(exit, CommandExit { success: false, exit_code: None });

    assert_eq!(batch.next(false).unwrap().project.name, "c");
    batch.finished(&exited(0));
    batch.next(false).unwrap();
    batch.finished(&CommandOutcome::Exited(CommandExit { success: false, exit_code: None }));
    assert!(batch.next(false).is_none());

    let failures = batch.into_result().failed_projects;
    assert_eq!(failures.len(), 3);
    assert_eq!(failures[0].project, "a");
    assert_eq!(failures[0].message, "command exited with 17");
    assert_eq!(failures[1].message, "process terminated unexpectedly");
    assert_eq!(failures[2].message, "command exited with signal");
}

#[test]
fn empty_batch_is_through_at_once() {
    let mut batch = ActionBatch::new(Vec::new(), sample_config(), Action::Deploy);
    assert!(batch.next(true).is_none());
    assert!(ActionBatchResult::default().failed_projects.is_empty());
}

#[derive(Default)]
struct TestSink {
    started: Vec<String>,
    finished: Vec<(String, bool, Option<i32>)>,
    stderr: Vec<String>,
}

impl OutputSink for TestSink {
    fn command_started(&mut self, _project: &Project, command: &str) {
        self.started.push(command.to_string());
    }

    fn command_output(&mut self, line: &str, stderr: bool) {
        if stderr {
            self.stderr.push(line.to_string());
        }
    }

    fn command_finished(&mut self, project: &Project, success: bool, exit_code: Option<i32>) {
        self.finished.push((project.name.clone(), success, exit_code));
    }
}

fn run_deletion(batch: &mut DeleteBatch, sink: &mut TestSink, result: Result<(), String>) {
    match batch.next(false) {
        Some(DeleteStep::Delete { project, command }) => {
            sink.command_started(&project, &command);
            let report = batch.deletion_finished(result);
            if let Some(error) = &report.error {
                sink.command_output(error, true);
            }
            sink.command_finished(&project, report.exit.success, report.exit.exit_code);
        }
        step => panic!("expected a deletion, got {step:?}"),
    }
}

#[test]
fn delete_project_batch_deletes_project_files_without_purge() {
    let compose_dir = native("/srv/cmps");
    let project = create_project(&compose_dir, "app")
        .unwrap()
        .finish(CreateOutcome::Created)
        .unwrap();
    let config = AppConfig {
        compose_dir: compose_dir.clone(),
        docker_bin: native("docker"),
        refresh_interval_ms: 2_000,
        default_log_lines: 100,
    };
    let mut sink = TestSink::default();
    let mut batch = DeleteBatch::new(vec![project.clone()], config, false);

    let target = delete_project(
        &compose_dir,
        &project,
        &Some(compose_dir.clone()),
        &Some(project.dir.clone()),
    );
    run_deletion(&mut batch, &mut sink, target.map(|_| ()));
    assert!(batch.next(false).is_none());

    assert!(batch.into_result().failed_projects.is_empty());
    assert_eq!(
        sink.started,
        vec![format!("delete project dir {}", project.dir.display())]
    );
    assert_eq!(sink.finished, vec![("app".to_string(), true, Some(0))]);
    assert!(sink.stderr.is_empty());
}

#[test]
fn failed_deletion_is_reported() {
    let mut sink = TestSink::default();
    let mut batch = DeleteBatch::new(vec![sample_project()], sample_config(), false);
    run_deletion(&mut batch, &mut sink, Err("no such directory".to_string()));
    assert_eq!(sink.stderr, vec!["no such directory"]);
    assert_eq!(sink.finished, vec![("app".to_string(), false, None)]);
    let failures = batch.into_result().failed_projects;
    assert_eq!(failures.len(), 1);
    assert_eq!(failures[0].project, "app");
    assert_eq!(failures[0].message, "no such directory");
}

#[test]
fn purge_removes_volumes_before_it_deletes() {
    let projects = vec![named_project("a"), named_project("b")];
    let mut batch = DeleteBatch::new(projects, sample_config(), true);

    match batch.next(false) {
        Some(DeleteStep::Run(step)) => {
            assert_eq!(step.project.name, "a");
            assert!(step.command.display.ends_with("down -v"));
        }
        step => panic!("expected a command, got {step:?}"),
    }
    batch.command_finished(&exited(1));

    match batch.next(false) {
        Some(DeleteStep::Run(step)) => assert_eq!(step.project.name, "b"),
        step => panic!("expected a command, got {step:?}"),
    }
    batch.command_finished(&exited(0));
    match batch.next(false) {
        Some(DeleteStep::Delete { project, command }) => {
            assert_eq!(project.name, "b");
            assert_eq!(command, "delete project dir /srv/cmps/b");
        }
        step => panic!("expected a deletion, got {step:?}"),
    }
    batch.deletion_finished(Ok(()));
    assert!(batch.next(false).is_none());

    let failures = batch.into_result().failed_projects;
    assert_eq!(failures.len(), 1);
    assert_eq!(failures[0].project, "a");
    assert_eq!(failures[0].message, "command exited with 1");
}

fn written(text: &str, stderr: bool) -> CommandEvent {
    CommandEvent::Output(OutputLine { text: text.to_string(), stderr })
}

#[test]
fn watch_waits_for_the_end_and_the_output() {
    let mut watch = CommandWatch::new();
    assert!(watch.handle(CommandEvent::OutputEnded).is_none());
    assert!(!watch.is_over());
    assert!(watch.handle(CommandEvent::Exited(Some(0))).is_none());
    assert!(watch.is_over());
    assert_eq!(watch.result(), Ok(CommandExit { success: true, exit_code: Some(0) }));

    let mut failed = CommandWatch::new();
    failed.handle(CommandEvent::Exited(Some(3)));
    failed.handle(CommandEvent::OutputEnded);
    assert!(failed.is_over());
    assert_eq!(failed.result(), Ok(CommandExit { success: false, exit_code: Some(3) }));
}

#[test]
fn output_after_the_end_of_a_command_is_handed_on() {
    let mut killed = CommandWatch::new();
    let first = killed.handle(written("pulling", false)).unwrap();
    assert_eq!((first.text.as_str(), first.stderr), ("pulling", false));
    killed.handle(CommandEvent::Exited(None));
    assert!(!killed.is_over());
    let late = killed.handle(written("killed", true)).unwrap();
    assert_eq!((late.text.as_str(), late.stderr), ("killed", true));
    assert!(!killed.is_over());
    killed.handle(CommandEvent::OutputEnded);
    assert!(killed.is_over());
    assert_eq!(killed.result(), Err("process terminated unexpectedly".to_string()));
}

#[test]
fn command_that_does_not_start_is_named() {
    let command = Action::Stop
        .prepare_commands(&sample_config(), &sample_project(), false)
        .pop()
        .unwrap();
    assert_eq!(spawn_failure(&command), format!("failed to spawn {}", command.display));
}

#[test]
fn reports_for_the_terminal_are_lines() {
    let mut sink = CliOutputSink::default();
    sink.command_started(&sample_project(), "docker compose stop");
    sink.command_output("stopping", false);
    sink.command_output("warning", true);
    sink.command_finished(&sample_project(), true, Some(0));
    sink.command_finished(&sample_project(), false, None);
    sink.command_finished(&sample_project(), false, Some(-9));

    let lines: Vec<(String, bool)> =
        sink.take_lines().into_iter().map(|line| (line.text, line.stderr)).collect();
    assert_eq!(
        lines,
        vec![
            ("\n==> [app] docker compose stop".to_string(), false),
            ("stopping".to_string(), false),
            ("warning".to_string(), true),
            ("-- [app] ok (exit 0)".to_string(), false),
            ("-- [app] failed (exit signal)".to_string(), false),
            ("-- [app] failed (exit -9)".to_string(), false),
        ]
    );
    assert!(sink.take_lines().is_empty());
}
