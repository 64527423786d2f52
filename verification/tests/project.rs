//! Projects: their names, and how they are found, created and deleted.

use lazydc::native::NativeString;
use lazydc::project::{
    create_project, delete_project, deletion_failure, discover_projects, discovery_failure,
    find_compose_file, validate_project_name, CreateOutcome, FoundEntry, NameError, Project,
};

fn native(text: &str) -> NativeString {
    NativeString::from_text(text)
}

fn entry(name: &str, is_dir: bool, compose_files: [bool; 4], has_env: bool) -> FoundEntry {
    FoundEntry { name: native(name), is_dir, compose_files: compose_files.to_vec(), has_env }
}

const NONE: [bool; 4] = [false, false, false, false];
const FIRST: [bool; 4] = [true, false, false, false];

#[test]
fn discovers_only_directories_with_compose_files() {
    let entries = vec![
        entry("app", true, FIRST, false),
        entry("ignored", true, NONE, false),
        entry("file.txt", false, NONE, false),
    ];

    let projects = discover_projects(&native("/srv/compose"), &entries);
    assert_eq!(projects.len(), 1);
    assert_eq!(projects[0].name, "app");
}

#[test]
fn discovered_projects_are_sorted_by_name() {
    let entries = vec![
        entry("prometheus", true, [false, false, true, true], true),
        entry("immich", true, [true, true, true, true], false),
        entry("Jellyfin", true, [false, true, false, true], true),
    ];

    let projects = discover_projects(&native("/srv/compose"), &entries);
    let names: Vec<&str> = projects.iter().map(|project| project.name.as_str()).collect();
    assert_eq!(names, vec!["Jellyfin", "immich", "prometheus"]);
    assert_eq!(projects[0].compose_file, native("/srv/compose/Jellyfin/docker-compose.yml"));
    assert_eq!(projects[0].env_file, Some(native("/srv/compose/Jellyfin/.env")));
    assert_eq!(projects[1].compose_file, native("/srv/compose/immich/docker-compose.yaml"));
    assert_eq!(projects[1].env_file, None);
    assert_eq!(projects[2].compose_file, native("/srv/compose/prometheus/compose.yaml"));
    assert_eq!(projects[2].dir, native("/srv/compose/prometheus"));
}

#[test]
fn entry_names_that_are_not_text_are_shown_lossily() {
    let odd = NativeString { bytes: vec![b'a', 0xff, b'b'] };
    let entries = vec![FoundEntry {
        name: odd,
        is_dir: true,
        compose_files: FIRST.to_vec(),
        has_env: false,
    }];

    let projects = discover_projects(&native("/srv"), &entries);
    assert_eq!(projects[0].name, "a\u{fffd}b");
    assert_eq!(projects[0].dir.bytes, b"/srv/a\xffb".to_vec());
}

#[test]
fn compose_files_are_looked_for_in_order() {
    let dir = native("/srv/app");
    assert_eq!(
        find_compose_file(&dir, &vec![false, false, false, true]),
        Some(native("/srv/app/compose.yml"))
    );
    assert_eq!(
        find_compose_file(&dir, &vec![false, false, true, true]),
        Some(native("/srv/app/compose.yaml"))
    );
    assert_eq!(
        find_compose_file(&dir, &vec![false, true, true, true]),
        Some(native("/srv/app/docker-compose.yml"))
    );
    assert_eq!(find_compose_file(&dir, &vec![false, false, false, false]), None);
}

#[test]
fn validates_compose_project_names() {
    for name in ["app", "app-1", "app_1", "1app"] {
        validate_project_name(name).unwrap();
    }

    for name in [
        "",
        "App",
        "-app",
        "_app",
        "app.name",
        "app/name",
        "app name",
        "\u{5e94}\u{7528}",
    ] {
        assert!(validate_project_name(name).is_err(), "{name} should fail");
    }
}

#[test]
fn bad_names_are_told_apart() {
    assert_eq!(validate_project_name(""), Err(NameError::Empty));
    assert_eq!(validate_project_name("-app"), Err(NameError::BadStart));
    assert_eq!(validate_project_name("app.name"), Err(NameError::BadCharacter));
    assert_eq!(NameError::Empty.message(), "project name cannot be empty");
    assert_eq!(
        NameError::BadStart.message(),
        "project name must start with a lowercase letter or digit"
    );
    assert_eq!(
        NameError::BadCharacter.message(),
        "project name can contain only lowercase letters, digits, '-' and '_'"
    );
}

#[test]
fn creates_project_with_minimal_compose_file() {
    let compose_dir = native("/srv/compose");
    let plan = create_project(&compose_dir, "app").unwrap();
    assert_eq!(plan.contents, "services: {}\n");

    let project = plan.finish(CreateOutcome::Created).unwrap();
    assert_eq!(project.name, "app");
    assert_eq!(project.dir, compose_dir.join_text("app"));
    assert_eq!(project.compose_file, compose_dir.join_text("app/docker-compose.yaml"));
    assert_eq!(project.env_file, None);
}

#[test]
fn created_projects_are_discovered() {
    let compose_dir = native("/srv/compose");
    let project = create_project(&compose_dir, "app")
        .unwrap()
        .finish(CreateOutcome::Created)
        .unwrap();
    let found = discover_projects(&compose_dir, &vec![entry("app", true, FIRST, false)]);
    assert_eq!(found.len(), 1);
    assert_eq!(found[0].name, project.name);
    assert_eq!(found[0].dir, project.dir);
    assert_eq!(found[0].compose_file, project.compose_file);
    assert_eq!(found[0].env_file, project.env_file);
}

#[test]
fn creation_and_deletion_leave_the_projects() {
    let compose_dir = native("/srv/compose");
    let names = |entries: Vec<FoundEntry>| -> Vec<String> {
        discover_projects(&compose_dir, &entries).into_iter().map(|project| project.name).collect()
    };
    let old = || {
        vec![
            entry("web", true, FIRST, true),
            entry("notes", true, NONE, false),
            entry("db", true, [false, false, false, true], false),
        ]
    };
    assert_eq!(names(old()), vec!["db", "web"]);

    let project =
        create_project(&compose_dir, "mail").unwrap().finish(CreateOutcome::Created).unwrap();
    let mut entries = old();
    entries.insert(1, entry("mail", true, FIRST, false));
    assert_eq!(names(entries), vec!["db", "mail", "web"]);

    let target = delete_project(
        &compose_dir,
        &project,
        &Some(compose_dir.clone()),
        &Some(project.dir.clone()),
    )
    .unwrap();
    assert_eq!(target, compose_dir.join_text("mail"));
    let mut entries = old();
    entries.reverse();
    assert_eq!(names(entries), vec!["db", "web"]);
}

#[test]
fn creates_missing_compose_dir() {
    let compose_dir = native("/srv").join_text("compose-root");

    let plan = create_project(&compose_dir, "app").unwrap();

    assert_eq!(plan.compose_dir, compose_dir);
    assert_eq!(plan.project.compose_file, compose_dir.join_text("app/docker-compose.yaml"));
}

#[test]
fn does_not_overwrite_existing_project_path() {
    let plan = create_project(&native("/srv/compose"), "app").unwrap();

    let err = plan.finish(CreateOutcome::AlreadyExists).unwrap_err();

    assert!(err.contains("already exists"));
    assert_eq!(err, "project path already exists: /srv/compose/app");
}

#[test]
fn failed_creations_say_what_failed() {
    for (outcome, message) in [
        (CreateOutcome::ComposeDirFailed, "failed to create compose dir /srv"),
        (CreateOutcome::DirFailed, "failed to create project dir /srv/app"),
        (
            CreateOutcome::FileFailed,
            "failed to create compose file /srv/app/docker-compose.yaml",
        ),
        (
            CreateOutcome::WriteFailed,
            "failed to write compose file /srv/app/docker-compose.yaml",
        ),
    ] {
        let plan = create_project(&native("/srv"), "app").unwrap();
        assert_eq!(plan.finish(outcome).unwrap_err(), message);
    }
    assert_eq!(create_project(&native("/srv"), "App").unwrap_err(), NameError::BadStart);
}

#[test]
fn deletes_project_directory() {
    let compose_dir = native("/srv/compose");
    let project = create_project(&compose_dir, "app")
        .unwrap()
        .finish(CreateOutcome::Created)
        .unwrap();

    let target = delete_project(
        &compose_dir,
        &project,
        &Some(compose_dir.clone()),
        &Some(project.dir.clone()),
    )
    .unwrap();

    assert_eq!(target, native("/srv/compose/app"));
}

#[test]
fn delete_project_rejects_paths_outside_compose_dir() {
    let compose_dir = native("/tmp/compose");
    let project_dir = native("/tmp/outside").join_text("app");
    let project = Project {
        name: "app".to_string(),
        dir: project_dir.clone(),
        compose_file: project_dir.join_text("docker-compose.yaml"),
        env_file: None,
    };

    let err = delete_project(
        &compose_dir,
        &project,
        &Some(compose_dir.clone()),
        &Some(project_dir.clone()),
    )
    .unwrap_err();

    assert!(err.contains("outside compose dir"));
    assert_eq!(err, "refusing to delete project outside compose dir: /tmp/outside/app");
}

#[test]
fn delete_project_follows_links_before_it_decides() {
    let compose_dir = native("/srv/link");
    let project = Project {
        name: "app".to_string(),
        dir: native("/srv/link/app"),
        compose_file: native("/srv/link/app/docker-compose.yaml"),
        env_file: None,
    };
    let root = Some(native("/data/compose"));

    let target = delete_project(&compose_dir, &project, &root, &Some(native("/data/compose/app")));
    assert_eq!(target, Ok(native("/data/compose/app")));

    let renamed = delete_project(&compose_dir, &project, &root, &Some(native("/data/compose/web")));
    assert_eq!(
        renamed,
        Err("refusing to delete project with mismatched directory name: /srv/link/app".to_string())
    );

    let nested = delete_project(&compose_dir, &project, &root, &Some(native("/data/compose/x/app")));
    assert_eq!(
        nested,
        Err("refusing to delete project outside compose dir: /srv/link/app".to_string())
    );

    let itself = delete_project(&compose_dir, &project, &root, &root);
    assert_eq!(
        itself,
        Err("refusing to delete project outside compose dir: /srv/link/app".to_string())
    );

    assert_eq!(
        delete_project(&compose_dir, &project, &None, &None),
        Err("failed to resolve compose dir /srv/link".to_string())
    );
    assert_eq!(
        delete_project(&compose_dir, &project, &root, &None),
        Err("failed to resolve project dir /srv/link/app".to_string())
    );
}

#[test]
fn failures_on_disk_have_messages() {
    assert_eq!(deletion_failure(&native("/srv/app")), "failed to delete project dir /srv/app");
    assert_eq!(discovery_failure(&native("/srv")), "failed to read compose dir /srv");
}

#[test]
fn paths_are_joined_as_the_system_does() {
    assert_eq!(native("/srv").join_text("app"), native("/srv/app"));
    assert_eq!(native("/srv/").join_text("app"), native("/srv/app"));
    assert_eq!(native("").join_text("app"), native("app"));
    assert_eq!(native("/srv").join_text("/etc"), native("/etc"));
    assert_eq!(native("/srv/app").display(), "/srv/app");
}
