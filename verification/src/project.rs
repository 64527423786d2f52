//! Compose projects: how they are named, found, created and deleted.

use vstd::prelude::*;
use vstd::utf8::*;

use crate::names;
use crate::native::{self, NativeString};
use crate::text;

verus! {

/// A directory below the compose directory that holds a compose file.
#[derive(Debug)]
pub struct Project {
    pub name: String,
    pub dir: NativeString,
    pub compose_file: NativeString,
    pub env_file: Option<NativeString>,
}

/// A [`Project`] as plain values.
#[verifier::ext_equal]
pub struct ProjectModel {
    pub name: Seq<char>,
    pub dir: Seq<u8>,
    pub compose_file: Seq<u8>,
    pub env_file: Option<Seq<u8>>,
}

impl View for Project {
    type V = ProjectModel;

    open spec fn view(&self) -> ProjectModel {
        ProjectModel {
            name: self.name@,
            dir: self.dir@,
            compose_file: self.compose_file@,
            env_file: self.env_file.deep_view(),
        }
    }
}

impl DeepView for Project {
    type V = ProjectModel;

    open spec fn deep_view(&self) -> ProjectModel {
        self@
    }
}

impl Clone for Project {
    fn clone(&self) -> (copy: Self)
        ensures
            copy@ == self@,
    {
        Project {
            name: self.name.clone(),
            dir: self.dir.clone(),
            compose_file: self.compose_file.clone(),
            env_file: self.env_file.clone(),
        }
    }
}

/// Why a project name is refused.
#[derive(Debug, Clone, Copy, PartialEq, Eq, Structural)]
pub enum NameError {
    Empty,
    BadStart,
    BadCharacter,
}

/// Whether a project name may begin with the character.
pub open spec fn name_start(ch: char) -> bool {
    'a' <= ch <= 'z' || '0' <= ch <= '9'
}

/// Whether a project name may hold the character.
pub open spec fn name_char(ch: char) -> bool {
    name_start(ch) || ch == '-' || ch == '_'
}

/// Compose's rule for project names: lowercase letters, digits, `-` and `_`, beginning with a
/// lowercase letter or a digit.
pub open spec fn valid_project_name(name: Seq<char>) -> bool {
    &&& name.len() > 0
    &&& name_start(name[0])
    &&& forall|i: int| 0 <= i < name.len() ==> name_char(#[trigger] name[i])
}

/// What is wrong with a name that is not valid.
pub open spec fn name_error(name: Seq<char>) -> NameError {
    if name.len() == 0 {
        NameError::Empty
    } else if !name_start(name[0]) {
        NameError::BadStart
    } else {
        NameError::BadCharacter
    }
}

impl NameError {
    /// The message for the user.
    pub open spec fn message_text(self) -> Seq<char> {
        match self {
            NameError::Empty => "project name cannot be empty"@,
            NameError::BadStart => "project name must start with a lowercase letter or digit"@,
            NameError::BadCharacter =>
                "project name can contain only lowercase letters, digits, '-' and '_'"@,
        }
    }

    /// The message for the user.
    pub fn message(&self) -> (message: &'static str)
        ensures
            message@ == self.message_text(),
    {
        match self {
            NameError::Empty => "project name cannot be empty",
            NameError::BadStart => "project name must start with a lowercase letter or digit",
            NameError::BadCharacter =>
                "project name can contain only lowercase letters, digits, '-' and '_'",
        }
    }
}

fn is_name_start(ch: char) -> (ok: bool)
    ensures
        ok == name_start(ch),
{
    ('a' <= ch && ch <= 'z') || ('0' <= ch && ch <= '9')
}

/// Checks a project name.
pub fn validate_project_name(name: &str) -> (verdict: Result<(), NameError>)
    ensures
        verdict is Ok <==> valid_project_name(name@),
        verdict matches Err(error) ==> error == name_error(name@),
{
    let chars = text::chars_of(name);
    if chars.len() == 0 {
        return Err(NameError::Empty);
    }
    if !is_name_start(chars[0]) {
        return Err(NameError::BadStart);
    }
    for i in 0..chars.len()
        invariant
            chars@ == name@,
            chars@.len() > 0,
            name_start(name@[0]),
            forall|j: int| 0 <= j < i ==> name_char(#[trigger] name@[j]),
    {
        let ch = chars[i];
        if !(is_name_start(ch) || ch == '-' || ch == '_') {
            assert(!name_char(name@[i as int]));
            return Err(NameError::BadCharacter);
        }
    }
    Ok(())
}

/// The number of file names that a compose file may have.
pub const COMPOSE_FILE_COUNT: usize = 4;

/// The file names that a compose file may have, in the order in which they are tried.
pub open spec fn compose_name(index: int) -> Seq<char> {
    if index == 0 {
        "docker-compose.yaml"@
    } else if index == 1 {
        "docker-compose.yml"@
    } else if index == 2 {
        "compose.yaml"@
    } else {
        "compose.yml"@
    }
}

/// One of the file names that a compose file may have.
pub fn compose_file_name(index: usize) -> (name: &'static str)
    requires
        index < COMPOSE_FILE_COUNT,
    ensures
        name@ == compose_name(index as int),
{
    if index == 0 {
        "docker-compose.yaml"
    } else if index == 1 {
        "docker-compose.yml"
    } else if index == 2 {
        "compose.yaml"
    } else {
        "compose.yml"
    }
}

/// Whether the compose file name at `index` is the first that exists.
pub open spec fn first_compose_name(exists_at: Seq<bool>, index: int) -> bool {
    &&& 0 <= index < COMPOSE_FILE_COUNT
    &&& index < exists_at.len()
    &&& exists_at[index]
    &&& forall|j: int| 0 <= j < index ==> !#[trigger] exists_at[j]
}

/// The compose file of a directory, given which of the names exist in it.
pub open spec fn compose_file_in(dir: Seq<u8>, exists_at: Seq<bool>) -> Option<Seq<u8>> {
    if exists|index: int| first_compose_name(exists_at, index) {
        let index = choose|index: int| first_compose_name(exists_at, index);
        Some(native::path_below(dir, encode_utf8(compose_name(index))))
    } else {
        None
    }
}

/// Finds the compose file of a directory, given which of the names exist in it.
pub fn find_compose_file(dir: &NativeString, exists_at: &Vec<bool>) -> (file: Option<NativeString>)
    ensures
        file.deep_view() == compose_file_in(dir@, exists_at@),
{
    let mut index: usize = 0;
    while index < COMPOSE_FILE_COUNT && index < exists_at.len()
        invariant
            forall|j: int| 0 <= j < index ==> !#[trigger] exists_at@[j],
        decreases COMPOSE_FILE_COUNT - index,
    {
        if exists_at[index] {
            assert(first_compose_name(exists_at@, index as int));
            proof {
                let found = choose|i: int| first_compose_name(exists_at@, i);
                if found < index {
                    assert(!exists_at@[found]);
                } else if index < found {
                    assert(!exists_at@[index as int]);
                }
            }
            return Some(dir.join_text(compose_file_name(index)));
        }
        index += 1;
    }
    None
}

/// What is found at one entry of the compose directory.
#[derive(Debug)]
pub struct FoundEntry {
    /// The entry's name.
    pub name: NativeString,
    /// Whether it is a directory.
    pub is_dir: bool,
    /// Which of the compose file names exist in it.
    pub compose_files: Vec<bool>,
    /// Whether `.env` exists in it.
    pub has_env: bool,
}

/// A [`FoundEntry`] as plain values.
#[verifier::ext_equal]
pub struct FoundModel {
    pub name: Seq<u8>,
    pub is_dir: bool,
    pub compose_files: Seq<bool>,
    pub has_env: bool,
}

impl View for FoundEntry {
    type V = FoundModel;

    open spec fn view(&self) -> FoundModel {
        FoundModel {
            name: self.name@,
            is_dir: self.is_dir,
            compose_files: self.compose_files@,
            has_env: self.has_env,
        }
    }
}

impl DeepView for FoundEntry {
    type V = FoundModel;

    open spec fn deep_view(&self) -> FoundModel {
        self@
    }
}

/// The project that an entry of the compose directory is: one that is a directory and holds a
/// compose file.
pub open spec fn project_at(compose_dir: Seq<u8>, entry: FoundModel) -> Option<ProjectModel> {
    let dir = native::path_below(compose_dir, entry.name);
    match compose_file_in(dir, entry.compose_files) {
        Some(compose_file) if entry.is_dir => Some(
            ProjectModel {
                name: native::shown_text(entry.name),
                dir,
                compose_file,
                env_file: if entry.has_env {
                    Some(native::path_below(dir, encode_utf8(".env"@)))
                } else {
                    None
                },
            },
        ),
        _ => None,
    }
}

/// The projects among the entries of the compose directory, in the order of the entries.
pub open spec fn projects_among(compose_dir: Seq<u8>, entries: Seq<FoundModel>) -> Seq<ProjectModel>
    decreases entries.len(),
{
    if entries.len() == 0 {
        seq![]
    } else {
        let before = projects_among(compose_dir, entries.drop_last());
        match project_at(compose_dir, entries.last()) {
            Some(project) => before.push(project),
            None => before,
        }
    }
}

/// The projects that have the given name.
pub open spec fn projects_named(projects: Seq<ProjectModel>, name: Seq<char>) -> Seq<ProjectModel> {
    projects.filter(|project: ProjectModel| project.name == name)
}

/// Whether the projects stand in the order of their names.
pub open spec fn sorted_by_name(projects: Seq<ProjectModel>) -> bool {
    forall|i: int, j: int|
        0 <= i < j < projects.len() ==> !text::text_less(
            #[trigger] projects[j].name,
            #[trigger] projects[i].name,
        )
}

/// Whether `sorted` holds the given projects in the order of their names, and those of one name
/// in the order in which they were given.
pub open spec fn sorted_version(sorted: Seq<ProjectModel>, projects: Seq<ProjectModel>) -> bool {
    &&& sorted_by_name(sorted)
    &&& sorted.to_multiset() == projects.to_multiset()
    &&& forall|name: Seq<char>| #[trigger]
        projects_named(sorted, name) == projects_named(projects, name)
}

proof fn insertion_keeps_order(sorted: Seq<ProjectModel>, at: int, project: ProjectModel)
    requires
        sorted_by_name(sorted),
        0 <= at <= sorted.len(),
        at > 0 ==> !text::text_less(project.name, sorted[at - 1].name),
        forall|j: int| at <= j < sorted.len() ==> text::text_less(project.name, #[trigger] sorted[j].name),
    ensures
        sorted_by_name(sorted.insert(at, project)),
{
    let new = sorted.insert(at, project);
    assert forall|i: int, j: int| 0 <= i < j < new.len() implies !text::text_less(
        #[trigger] new[j].name,
        #[trigger] new[i].name,
    ) by {
        let a = if i < at {
            i
        } else {
            i - 1
        };
        let b = if j < at {
            j
        } else {
            j - 1
        };
        if i == at {
            assert(new[j] == sorted[b]);
            if text::text_less(new[j].name, project.name) {
                text::text_less_transitive(project.name, sorted[b].name, project.name);
            }
        } else if j == at {
            assert(new[i] == sorted[a]);
            if text::text_less(project.name, sorted[a].name) {
                if a < at - 1 {
                    text::text_less_total(sorted[at - 1].name, sorted[a].name);
                    assert(!text::text_less(sorted[at - 1].name, sorted[a].name));
                    if text::text_less(sorted[a].name, sorted[at - 1].name) {
                        text::text_less_transitive(project.name, sorted[a].name, sorted[at - 1].name);
                    }
                }
            }
        } else {
            assert(new[i] == sorted[a]);
            assert(new[j] == sorted[b]);
        }
    }
}

proof fn insertion_keeps_names(
    sorted: Seq<ProjectModel>,
    at: int,
    project: ProjectModel,
    name: Seq<char>,
)
    requires
        0 <= at <= sorted.len(),
        forall|j: int| at <= j < sorted.len() ==> text::text_less(project.name, #[trigger] sorted[j].name),
    ensures
        projects_named(sorted.insert(at, project), name) == projects_named(
            sorted.push(project),
            name,
        ),
{
    let pred = |p: ProjectModel| p.name == name;
    let a = sorted.take(at);
    let b = sorted.skip(at);
    assert(sorted.insert(at, project) =~= a.push(project) + b);
    assert(sorted.push(project) =~= (a + b).push(project));
    Seq::filter_distributes_over_add(a.push(project), b, pred);
    Seq::filter_distributes_over_add(a, b, pred);
    a.lemma_filter_push(project, pred);
    (a + b).lemma_filter_push(project, pred);
    if name == project.name {
        assert forall|i: int| 0 <= i < b.len() implies !pred(#[trigger] b[i]) by {
            assert(b[i] == sorted[at + i]);
            text::text_less_irreflexive(project.name);
        }
        nothing_matches(b, pred);
        assert(a.filter(pred).push(project) + b.filter(pred) =~= (a.filter(pred) + b.filter(pred)).push(
            project,
        ));
    }
}

proof fn nothing_matches(s: Seq<ProjectModel>, pred: spec_fn(ProjectModel) -> bool)
    requires
        forall|i: int| 0 <= i < s.len() ==> !pred(#[trigger] s[i]),
    ensures
        s.filter(pred) == Seq::<ProjectModel>::empty(),
    decreases s.len(),
{
    reveal(Seq::filter);
    if s.len() > 0 {
        nothing_matches(s.drop_last(), pred);
    }
}

fn insert_by_name(sorted: &mut Vec<Project>, project: Project)
    requires
        sorted_by_name(old(sorted).deep_view()),
    ensures
        sorted_by_name(final(sorted).deep_view()),
        final(sorted).deep_view().to_multiset() == old(sorted).deep_view().push(
            project@,
        ).to_multiset(),
        forall|name: Seq<char>| #[trigger]
            projects_named(final(sorted).deep_view(), name) == projects_named(
                old(sorted).deep_view().push(project@),
                name,
            ),
{
    let ghost views = sorted.deep_view();
    let mut at: usize = sorted.len();
    while at > 0 && text::text_before(&project.name, &sorted[at - 1].name)
        invariant
            views == sorted.deep_view(),
            at <= sorted@.len(),
            forall|j: int|
                at <= j < views.len() ==> text::text_less(project@.name, #[trigger] views[j].name),
        decreases at,
    {
        at -= 1;
        assert(views[at as int] == sorted@[at as int]@);
    }
    let ghost model = project@;
    proof {
        if at > 0 {
            assert(views[at - 1] == sorted@[at - 1]@);
        }
        insertion_keeps_order(views, at as int, model);
        assert forall|name: Seq<char>| #[trigger]
            projects_named(views.insert(at as int, model), name) == projects_named(
                views.push(model),
                name,
            ) by {
            insertion_keeps_names(views, at as int, model, name);
        }
        vstd::seq_lib::to_multiset_insert(views, at as int, model);
        vstd::seq_lib::to_multiset_build(views, model);
    }
    sorted.insert(at, project);
    assert(sorted.deep_view() =~= views.insert(at as int, model));
}

/// The projects in the compose directory, in the order of their names.
pub fn discover_projects(compose_dir: &NativeString, entries: &Vec<FoundEntry>) -> (projects: Vec<
    Project,
>)
    ensures
        sorted_version(projects.deep_view(), projects_among(compose_dir@, entries.deep_view())),
{
    let mut projects: Vec<Project> = Vec::new();
    let ghost views = entries.deep_view();
    assert(projects.deep_view() =~= seq![]);
    for i in 0..entries.len()
        invariant
            views == entries.deep_view(),
            sorted_version(
                projects.deep_view(),
                projects_among(compose_dir@, views.take(i as int)),
            ),
    {
        let entry = &entries[i];
        let dir = compose_dir.join(&entry.name);
        assert(views.take(i + 1).drop_last() =~= views.take(i as int));
        assert(views.take(i + 1).last() == entry@);
        let ghost found = projects_among(compose_dir@, views.take(i as int));
        if entry.is_dir {
            if let Some(compose_file) = find_compose_file(&dir, &entry.compose_files) {
                let env_file = if entry.has_env {
                    Some(dir.join_text(".env"))
                } else {
                    None
                };
                let project = Project { name: entry.name.display(), dir, compose_file, env_file };
                let ghost model = project@;
                let ghost sorted = projects.deep_view();
                insert_by_name(&mut projects, project);
                proof {
                    vstd::seq_lib::to_multiset_build(sorted, model);
                    vstd::seq_lib::to_multiset_build(found, model);
                    assert forall|name: Seq<char>| #[trigger]
                        projects_named(projects.deep_view(), name) == projects_named(
                            found.push(model),
                            name,
                        ) by {
                        let pred = |p: ProjectModel| p.name == name;
                        sorted.lemma_filter_push(model, pred);
                        found.lemma_filter_push(model, pred);
                        assert(projects_named(sorted, name) == projects_named(found, name));
                    }
                }
            }
        }
    }
    assert(views.take(views.len() as int) =~= views);
    projects
}

/// The message for a compose directory that could not be read.
pub fn discovery_failure(compose_dir: &NativeString) -> (message: String)
    ensures
        message@ == "failed to read compose dir "@ + native::shown_text(compose_dir@),
{
    "failed to read compose dir ".to_owned().concat(&compose_dir.display())
}

/// What a new project needs on disk: its directory in the compose directory, and in it a compose
/// file with the given contents.
#[derive(Debug)]
pub struct ProjectPlan {
    pub compose_dir: NativeString,
    pub project: Project,
    pub contents: &'static str,
}

/// How far the creation of a project came.
#[derive(Debug, Clone, Copy, PartialEq, Eq, Structural)]
pub enum CreateOutcome {
    Created,
    ComposeDirFailed,
    AlreadyExists,
    DirFailed,
    FileFailed,
    WriteFailed,
}

/// The project that a name stands for before anything but its compose file exists.
pub open spec fn new_project(compose_dir: Seq<u8>, name: Seq<char>) -> ProjectModel {
    let dir = native::path_below(compose_dir, encode_utf8(name));
    ProjectModel {
        name,
        dir,
        compose_file: native::path_below(dir, encode_utf8("docker-compose.yaml"@)),
        env_file: None,
    }
}

/// Plans a new project. The name has to be valid.
pub fn create_project(compose_dir: &NativeString, name: &str) -> (plan: Result<
    ProjectPlan,
    NameError,
>)
    ensures
        plan is Ok <==> valid_project_name(name@),
        plan matches Ok(plan) ==> {
            &&& plan.compose_dir@ == compose_dir@
            &&& plan.project@ == new_project(compose_dir@, name@)
            &&& plan.contents@ == "services: {}\n"@
        },
        plan matches Err(error) ==> error == name_error(name@),
{
    match validate_project_name(name) {
        Err(error) => Err(error),
        Ok(()) => {
            let dir = compose_dir.join_text(name);
            let compose_file = dir.join_text("docker-compose.yaml");
            Ok(
                ProjectPlan {
                    compose_dir: compose_dir.clone(),
                    project: Project { name: name.to_owned(), dir, compose_file, env_file: None },
                    contents: "services: {}\n",
                },
            )
        },
    }
}

/// The answer to a creation that came so far.
pub open spec fn creation_result(
    compose_dir: Seq<u8>,
    project: ProjectModel,
    outcome: CreateOutcome,
) -> Result<ProjectModel, Seq<char>> {
    match outcome {
        CreateOutcome::Created => Ok(project),
        CreateOutcome::ComposeDirFailed => Err(
            "failed to create compose dir "@ + native::shown_text(compose_dir),
        ),
        CreateOutcome::AlreadyExists => Err(
            "project path already exists: "@ + native::shown_text(project.dir),
        ),
        CreateOutcome::DirFailed => Err("failed to create project dir "@ + native::shown_text(project.dir)),
        CreateOutcome::FileFailed => Err(
            "failed to create compose file "@ + native::shown_text(project.compose_file),
        ),
        CreateOutcome::WriteFailed => Err(
            "failed to write compose file "@ + native::shown_text(project.compose_file),
        ),
    }
}

impl ProjectPlan {
    /// The project, or the message that says why there is none.
    pub fn finish(self, outcome: CreateOutcome) -> (result: Result<Project, String>)
        ensures
            text::outcome_view(result) == creation_result(self.compose_dir@, self.project@, outcome),
    {
        match outcome {
            CreateOutcome::Created => Ok(self.project),
            CreateOutcome::ComposeDirFailed => Err(
                "failed to create compose dir ".to_owned().concat(&self.compose_dir.display()),
            ),
            CreateOutcome::AlreadyExists => Err(
                "project path already exists: ".to_owned().concat(&self.project.dir.display()),
            ),
            CreateOutcome::DirFailed => Err(
                "failed to create project dir ".to_owned().concat(&self.project.dir.display()),
            ),
            CreateOutcome::FileFailed => Err(
                "failed to create compose file ".to_owned().concat(
                    &self.project.compose_file.display(),
                ),
            ),
            CreateOutcome::WriteFailed => Err(
                "failed to write compose file ".to_owned().concat(
                    &self.project.compose_file.display(),
                ),
            ),
        }
    }
}

/// Whether a path is an entry of a directory.
pub open spec fn in_dir(dir: Seq<u8>, path: Seq<u8>) -> bool {
    exists|name: Seq<u8>| native::is_entry(dir, path, name)
}

/// The directory that a deletion may remove, or the message that says why it may remove none:
/// `resolved_root` and `resolved_dir` are the absolute paths of the compose directory and of the
/// project's directory, with all links followed, where they could be had.
pub open spec fn deletion_target(
    compose_dir: Seq<u8>,
    project: ProjectModel,
    resolved_root: Option<Seq<u8>>,
    resolved_dir: Option<Seq<u8>>,
) -> Result<Seq<u8>, Seq<char>> {
    match (resolved_root, resolved_dir) {
        (None, _) => Err("failed to resolve compose dir "@ + native::shown_text(compose_dir)),
        (Some(root), None) => Err("failed to resolve project dir "@ + native::shown_text(project.dir)),
        (Some(root), Some(dir)) => if !in_dir(root, dir) {
            Err("refusing to delete project outside compose dir: "@ + native::shown_text(project.dir))
        } else if !native::is_entry(root, dir, encode_utf8(project.name)) {
            Err(
                "refusing to delete project with mismatched directory name: "@ + native::shown_text(
                    project.dir,
                ),
            )
        } else {
            Ok(dir)
        },
    }
}

/// Decides which directory the deletion of a project removes.
pub fn delete_project(
    compose_dir: &NativeString,
    project: &Project,
    resolved_root: &Option<NativeString>,
    resolved_dir: &Option<NativeString>,
) -> (target: Result<NativeString, String>)
    ensures
        text::outcome_view(target) == deletion_target(
            compose_dir@,
            project@,
            resolved_root.deep_view(),
            resolved_dir.deep_view(),
        ),
{
    let Some(root) = resolved_root else {
        return Err("failed to resolve compose dir ".to_owned().concat(&compose_dir.display()));
    };
    let Some(dir) = resolved_dir else {
        return Err("failed to resolve project dir ".to_owned().concat(&project.dir.display()));
    };
    let Some(entry) = dir.entry_name(root) else {
        assert(!in_dir(root@, dir@));
        return Err(
            "refusing to delete project outside compose dir: ".to_owned().concat(
                &project.dir.display(),
            ),
        );
    };
    let name = NativeString::from_text(&project.name);
    proof {
        assert(in_dir(root@, dir@));
        if native::is_entry(root@, dir@, name@) {
            one_entry_name(root@, dir@, name@, entry@);
        }
    }
    if !entry.same(&name) {
        return Err(
            "refusing to delete project with mismatched directory name: ".to_owned().concat(
                &project.dir.display(),
            ),
        );
    }
    Ok(dir.clone())
}

/// The message for a directory that could not be removed.
pub fn deletion_failure(dir: &NativeString) -> (message: String)
    ensures
        message@ == "failed to delete project dir "@ + native::shown_text(dir@),
{
    "failed to delete project dir ".to_owned().concat(&dir.display())
}

/// A path has at most one name as an entry of a directory.
proof fn one_entry_name(dir: Seq<u8>, path: Seq<u8>, a: Seq<u8>, b: Seq<u8>)
    requires
        native::is_entry(dir, path, a),
        native::is_entry(dir, path, b),
    ensures
        a == b,
{
    if a[0] == 0x2f {
        assert(a.contains(a[0]));
    }
    if b[0] == 0x2f {
        assert(b.contains(b[0]));
    }
    let prefix = if dir.len() > 0 && dir.last() != 0x2f {
        dir.push(0x2f)
    } else {
        dir
    };
    assert(path == prefix + a);
    assert(path == prefix + b);
    assert(a =~= path.skip(prefix.len() as int));
    assert(b =~= path.skip(prefix.len() as int));
}

/// A directory that a deletion removes is an entry of the compose directory, under the project's
/// own name.
pub proof fn deletion_stays_in_compose_dir(
    compose_dir: Seq<u8>,
    project: ProjectModel,
    resolved_root: Option<Seq<u8>>,
    resolved_dir: Option<Seq<u8>>,
)
    requires
        deletion_target(compose_dir, project, resolved_root, resolved_dir) is Ok,
    ensures
        resolved_root is Some,
        resolved_dir is Some,
        deletion_target(compose_dir, project, resolved_root, resolved_dir) == Ok::<
            Seq<u8>,
            Seq<char>,
        >(resolved_dir->0),
        native::is_entry(resolved_root->0, resolved_dir->0, encode_utf8(project.name)),
{
}

/// A project with a valid name is created as an entry of the compose directory.
pub proof fn creation_stays_in_compose_dir(compose_dir: Seq<u8>, name: Seq<char>)
    requires
        valid_project_name(name),
    ensures
        native::is_entry(compose_dir, new_project(compose_dir, name).dir, encode_utf8(name)),
{
    assert forall|i: int| 0 <= i < name.len() implies (#[trigger] name[i] as nat) < 128 by {
        assert(name_char(name[i]));
    }
    assert(is_ascii_chars(name));
    is_ascii_chars_encode_utf8(name);
    let bytes = encode_utf8(name);
    assert(bytes =~= Seq::new(name.len(), |i: int| name[i] as u8));
    assert forall|i: int| 0 <= i < bytes.len() implies #[trigger] bytes[i] != 0x2f by {
        assert(name_char(name[i]));
    }
}

/// What was created can be deleted: where the paths are resolved already, the deletion of a
/// project with a valid name removes the directory that its creation made.
pub proof fn created_project_is_deletable(compose_dir: Seq<u8>, name: Seq<char>)
    requires
        valid_project_name(name),
    ensures
        ({
            let project = new_project(compose_dir, name);
            deletion_target(compose_dir, project, Some(compose_dir), Some(project.dir)) == Ok::<
                Seq<u8>,
                Seq<char>,
            >(project.dir)
        }),
{
    creation_stays_in_compose_dir(compose_dir, name);
}

proof fn found_at_entry(compose_dir: Seq<u8>, entries: Seq<FoundModel>, project: ProjectModel)
    ensures
        projects_among(compose_dir, entries).contains(project) <==> exists|k: int|
            0 <= k < entries.len() && project_at(compose_dir, #[trigger] entries[k]) == Some(project),
    decreases entries.len(),
{
    let among = projects_among(compose_dir, entries);
    if entries.len() > 0 {
        let rest = entries.drop_last();
        let earlier = projects_among(compose_dir, rest);
        found_at_entry(compose_dir, rest, project);
        let last = project_at(compose_dir, entries.last());
        assert(entries[entries.len() - 1] == entries.last());
        if among.contains(project) {
            let i = choose|i: int| 0 <= i < among.len() && among[i] == project;
            if i < earlier.len() {
                assert(earlier[i] == project);
                assert(earlier.contains(project));
                let k = choose|k: int|
                    0 <= k < rest.len() && project_at(compose_dir, #[trigger] rest[k]) == Some(
                        project,
                    );
                assert(entries[k] == rest[k]);
            }
        }
        if exists|k: int|
            0 <= k < entries.len() && project_at(compose_dir, #[trigger] entries[k]) == Some(
                project,
            ) {
            let k = choose|k: int|
                0 <= k < entries.len() && project_at(compose_dir, #[trigger] entries[k]) == Some(
                    project,
                );
            if k < rest.len() {
                assert(rest[k] == entries[k]);
                assert(earlier.contains(project));
                let i = choose|i: int| 0 <= i < earlier.len() && earlier[i] == project;
                assert(among[i] == project);
            } else {
                assert(among[among.len() - 1] == project);
            }
        }
    }
}

/// Discovery is not recursive and misses nothing: the discovered projects are exactly those that
/// entries of the compose directory are.
pub proof fn discovered_projects_are_direct_children(
    compose_dir: Seq<u8>,
    entries: Seq<FoundModel>,
    projects: Seq<ProjectModel>,
    project: ProjectModel,
)
    requires
        sorted_version(projects, projects_among(compose_dir, entries)),
    ensures
        projects.contains(project) <==> exists|k: int|
            0 <= k < entries.len() && project_at(compose_dir, #[trigger] entries[k]) == Some(project),
{
    let among = projects_among(compose_dir, entries);
    let named = |other: ProjectModel| other.name == project.name;
    found_at_entry(compose_dir, entries, project);
    assert(projects_named(projects, project.name) == projects_named(among, project.name));
    if projects.contains(project) {
        let i = choose|i: int| 0 <= i < projects.len() && projects[i] == project;
        projects.lemma_filter_contains(named, i);
        among.lemma_filter_contains_rev(named, project);
    }
    if among.contains(project) {
        let i = choose|i: int| 0 <= i < among.len() && among[i] == project;
        among.lemma_filter_contains(named, i);
        projects.lemma_filter_contains_rev(named, project);
    }
}

/// The entry of the compose directory that the creation of a project makes.
pub open spec fn created_entry(name: Seq<char>) -> FoundModel {
    FoundModel {
        name: encode_utf8(name),
        is_dir: true,
        compose_files: seq![true, false, false, false],
        has_env: false,
    }
}

/// A project that has been created is discovered as the same project: its directory is then an entry
/// of the compose directory with the first of the compose files in it.
pub proof fn created_project_is_discovered(compose_dir: Seq<u8>, name: Seq<char>)
    requires
        valid_project_name(name),
    ensures
        project_at(compose_dir, created_entry(name)) == Some(new_project(compose_dir, name)),
{
    native::text_is_shown_unchanged(name);
    let exists_at = seq![true, false, false, false];
    let dir = native::path_below(compose_dir, encode_utf8(name));
    assert(first_compose_name(exists_at, 0));
    let index = choose|index: int| first_compose_name(exists_at, index);
    assert(index == 0);
    assert(compose_file_in(dir, exists_at) == Some(
        native::path_below(dir, encode_utf8("docker-compose.yaml"@)),
    ));
}

/// The entries that are shown under the given name.
pub open spec fn entries_shown(entries: Seq<FoundModel>, name: Seq<char>) -> Seq<FoundModel> {
    entries.filter(|entry: FoundModel| native::shown_text(entry.name) == name)
}

/// Whether two listings of a directory hold the same entries. The order may differ, but for entries
/// that are shown under one name.
pub open spec fn same_entries(a: Seq<FoundModel>, b: Seq<FoundModel>) -> bool {
    forall|name: Seq<char>| #[trigger] entries_shown(a, name) == entries_shown(b, name)
}

/// What is left of a listing when the entry with the given name is gone.
pub open spec fn entries_without(entries: Seq<FoundModel>, name: Seq<u8>) -> Seq<FoundModel> {
    entries.filter(|entry: FoundModel| entry.name != name)
}

/// The projects of one name come from the entries that are shown under it.
proof fn named_come_from_shown(compose_dir: Seq<u8>, entries: Seq<FoundModel>, name: Seq<char>)
    ensures
        projects_named(projects_among(compose_dir, entries), name) == projects_among(
            compose_dir,
            entries_shown(entries, name),
        ),
    decreases entries.len(),
{
    let named = |project: ProjectModel| project.name == name;
    let shown = |entry: FoundModel| native::shown_text(entry.name) == name;
    if entries.len() == 0 {
        reveal(Seq::filter);
    } else {
        let rest = entries.drop_last();
        let last = entries.last();
        named_come_from_shown(compose_dir, rest, name);
        assert(entries =~= rest.push(last));
        rest.lemma_filter_push(last, shown);
        let before = projects_among(compose_dir, rest);
        if let Some(project) = project_at(compose_dir, last) {
            before.lemma_filter_push(project, named);
        }
        if shown(last) {
            assert(rest.filter(shown).push(last).drop_last() =~= rest.filter(shown));
        }
    }
}

/// Projects in the order of their names are known by the projects of each name.
proof fn sorted_lists_agree(a: Seq<ProjectModel>, b: Seq<ProjectModel>)
    requires
        sorted_by_name(a),
        sorted_by_name(b),
        forall|name: Seq<char>| #[trigger] projects_named(a, name) == projects_named(b, name),
    ensures
        a == b,
    decreases a.len(),
{
    if a.len() == 0 {
        if b.len() > 0 {
            last_of_its_name(b);
            assert(projects_named(a, b.last().name) == projects_named(b, b.last().name));
            reveal(Seq::filter);
        }
        assert(a =~= b);
    } else {
        let name = a.last().name;
        last_of_its_name(a);
        assert(projects_named(a, name) == projects_named(b, name));
        named_is_there(b, name);
        last_of_its_name(b);
        let other = b.last().name;
        assert(projects_named(a, other) == projects_named(b, other));
        named_is_there(a, other);
        let i = choose|i: int| 0 <= i < b.len() && b[i].name == name;
        let j = choose|j: int| 0 <= j < a.len() && a[j].name == other;
        if name != other {
            text::text_less_total(name, other);
            assert(!text::text_less(b[b.len() - 1].name, b[i].name));
            assert(!text::text_less(a[a.len() - 1].name, a[j].name));
        }
        let shorter_a = a.drop_last();
        let shorter_b = b.drop_last();
        assert forall|which: Seq<char>| #[trigger]
            projects_named(shorter_a, which) == projects_named(shorter_b, which) by {
            let named = |project: ProjectModel| project.name == which;
            assert(a =~= shorter_a.push(a.last()));
            assert(b =~= shorter_b.push(b.last()));
            shorter_a.lemma_filter_push(a.last(), named);
            shorter_b.lemma_filter_push(b.last(), named);
            assert(projects_named(a, which) == projects_named(b, which));
            if which == name {
                assert(shorter_a.filter(named) =~= a.filter(named).drop_last());
                assert(shorter_b.filter(named) =~= b.filter(named).drop_last());
            }
        }
        sorted_lists_agree(shorter_a, shorter_b);
        assert(a =~= shorter_a.push(a.last()));
        assert(b =~= shorter_b.push(b.last()));
    }
}

proof fn last_of_its_name(projects: Seq<ProjectModel>)
    requires
        projects.len() > 0,
    ensures
        projects_named(projects, projects.last().name).len() > 0,
        projects_named(projects, projects.last().name).last() == projects.last(),
{
    reveal(Seq::filter);
}

proof fn named_is_there(projects: Seq<ProjectModel>, name: Seq<char>)
    requires
        projects_named(projects, name).len() > 0,
    ensures
        exists|i: int| 0 <= i < projects.len() && (#[trigger] projects[i]).name == name,
{
    let named = |project: ProjectModel| project.name == name;
    let found = projects.filter(named);
    projects.lemma_filter_pred(named, 0);
    assert(found.contains(found[0]));
    projects.lemma_filter_contains_rev(named, found[0]);
    let i = choose|i: int| 0 <= i < projects.len() && projects[i] == found[0];
    assert(projects[i].name == name);
}

/// Where a project stands among projects in the order of their names.
proof fn place_among(sorted: Seq<ProjectModel>, project: ProjectModel) -> (at: int)
    ensures
        0 <= at <= sorted.len(),
        at > 0 ==> !text::text_less(project.name, sorted[at - 1].name),
        forall|j: int| at <= j < sorted.len() ==> text::text_less(project.name, #[trigger] sorted[j].name),
    decreases sorted.len(),
{
    if sorted.len() > 0 && text::text_less(project.name, sorted.last().name) {
        let rest = sorted.drop_last();
        let at = place_among(rest, project);
        assert forall|j: int| at <= j < sorted.len() implies text::text_less(
            project.name,
            #[trigger] sorted[j].name,
        ) by {
            if j < rest.len() {
                assert(rest[j] == sorted[j]);
            }
        }
        at
    } else {
        sorted.len() as int
    }
}

/// Listings with the same entries give the same projects.
proof fn same_entries_same_projects(
    compose_dir: Seq<u8>,
    a: Seq<FoundModel>,
    b: Seq<FoundModel>,
    from_a: Seq<ProjectModel>,
    from_b: Seq<ProjectModel>,
)
    requires
        same_entries(a, b),
        sorted_version(from_a, projects_among(compose_dir, a)),
        sorted_version(from_b, projects_among(compose_dir, b)),
    ensures
        from_a == from_b,
{
    assert forall|name: Seq<char>| #[trigger]
        projects_named(from_a, name) == projects_named(from_b, name) by {
        assert(projects_named(from_a, name) == projects_named(projects_among(compose_dir, a), name));
        assert(projects_named(from_b, name) == projects_named(projects_among(compose_dir, b), name));
        named_come_from_shown(compose_dir, a, name);
        named_come_from_shown(compose_dir, b, name);
        assert(entries_shown(a, name) == entries_shown(b, name));
    }
    sorted_lists_agree(from_a, from_b);
}

proof fn filters_commute(
    s: Seq<FoundModel>,
    p: spec_fn(FoundModel) -> bool,
    q: spec_fn(FoundModel) -> bool,
)
    ensures
        s.filter(p).filter(q) == s.filter(q).filter(p),
    decreases s.len(),
{
    if s.len() == 0 {
        reveal(Seq::filter);
    } else {
        let rest = s.drop_last();
        let last = s.last();
        filters_commute(rest, p, q);
        assert(s =~= rest.push(last));
        rest.lemma_filter_push(last, p);
        rest.lemma_filter_push(last, q);
        rest.filter(p).lemma_filter_push(last, q);
        rest.filter(q).lemma_filter_push(last, p);
    }
}

/// The entry that a creation makes is the only one that its deletion takes away.
proof fn deletion_undoes_creation(
    name: Seq<char>,
    entries: Seq<FoundModel>,
    with_project: Seq<FoundModel>,
    without_project: Seq<FoundModel>,
)
    requires
        forall|i: int| 0 <= i < entries.len() ==> (#[trigger] entries[i]).name != encode_utf8(name),
        same_entries(with_project, entries.push(created_entry(name))),
        same_entries(without_project, entries_without(with_project, encode_utf8(name))),
    ensures
        same_entries(without_project, entries),
{
    let bytes = encode_utf8(name);
    let kept = |entry: FoundModel| entry.name != bytes;
    let all = entries.push(created_entry(name));
    names::all_match(entries, kept);
    entries.lemma_filter_push(created_entry(name), kept);
    assert(all.filter(kept) == entries);
    assert forall|which: Seq<char>| #[trigger]
        entries_shown(without_project, which) == entries_shown(entries, which) by {
        let shown = |entry: FoundModel| native::shown_text(entry.name) == which;
        assert(entries_shown(without_project, which) == entries_shown(
            entries_without(with_project, bytes),
            which,
        ));
        assert(entries_shown(with_project, which) == entries_shown(all, which));
        filters_commute(with_project, kept, shown);
        filters_commute(all, kept, shown);
    }
}

/// Creating a project and deleting it again leaves the discovered projects as they were. In between
/// they are the same projects with the created one inserted where its name belongs. The directory
/// may be listed in another order each time, but for entries that are shown under one name.
pub proof fn creation_and_deletion_leave_projects(
    compose_dir: Seq<u8>,
    name: Seq<char>,
    entries: Seq<FoundModel>,
    with_project: Seq<FoundModel>,
    without_project: Seq<FoundModel>,
    before: Seq<ProjectModel>,
    between: Seq<ProjectModel>,
    after: Seq<ProjectModel>,
)
    requires
        valid_project_name(name),
        forall|i: int| 0 <= i < entries.len() ==> (#[trigger] entries[i]).name != encode_utf8(name),
        same_entries(with_project, entries.push(created_entry(name))),
        same_entries(without_project, entries_without(with_project, encode_utf8(name))),
        sorted_version(before, projects_among(compose_dir, entries)),
        sorted_version(between, projects_among(compose_dir, with_project)),
        sorted_version(after, projects_among(compose_dir, without_project)),
    ensures
        exists|at: int|
            0 <= at <= before.len() && between == #[trigger] before.insert(
                at,
                new_project(compose_dir, name),
            ),
        sorted_by_name(between),
        after == before,
{
    let project = new_project(compose_dir, name);
    let entry = created_entry(name);
    created_project_is_discovered(compose_dir, name);
    deletion_undoes_creation(name, entries, with_project, without_project);
    same_entries_same_projects(compose_dir, without_project, entries, after, before);
    let all = entries.push(entry);
    let among = projects_among(compose_dir, entries);
    assert(all.drop_last() =~= entries);
    assert(projects_among(compose_dir, all) == among.push(project));
    let at = place_among(before, project);
    insertion_keeps_order(before, at, project);
    assert forall|which: Seq<char>| #[trigger]
        projects_named(between, which) == projects_named(before.insert(at, project), which) by {
        let named = |other: ProjectModel| other.name == which;
        insertion_keeps_names(before, at, project, which);
        before.lemma_filter_push(project, named);
        among.lemma_filter_push(project, named);
        assert(projects_named(before, which) == projects_named(among, which));
        assert(projects_named(between, which) == projects_named(
            projects_among(compose_dir, with_project),
            which,
        ));
        named_come_from_shown(compose_dir, with_project, which);
        named_come_from_shown(compose_dir, all, which);
        assert(entries_shown(with_project, which) == entries_shown(all, which));
    }
    sorted_lists_agree(between, before.insert(at, project));
}

/// Every entry of the compose directory is looked at once, in the order of the entries: one that is a
/// project adds that project, any other adds nothing.
pub proof fn each_entry_is_looked_at_once(
    compose_dir: Seq<u8>,
    entries: Seq<FoundModel>,
    next: FoundModel,
)
    ensures
        projects_among(compose_dir, seq![]).len() == 0,
        projects_among(compose_dir, entries.push(next)) == projects_among(compose_dir, entries) + (
        match project_at(compose_dir, next) {
            Some(project) => seq![project],
            None => seq![],
        }),
{
    let before = projects_among(compose_dir, entries);
    assert(entries.push(next).drop_last() =~= entries);
    assert(projects_among(compose_dir, entries.push(next)) =~= before + (match project_at(
        compose_dir,
        next,
    ) {
        Some(project) => seq![project],
        None => seq![],
    }));
}

/// Projects that are shown under one name stand in the order in which the directory lists them.
pub proof fn projects_of_one_name_keep_their_order(
    compose_dir: Seq<u8>,
    entries: Seq<FoundModel>,
    projects: Seq<ProjectModel>,
    name: Seq<char>,
)
    requires
        sorted_version(projects, projects_among(compose_dir, entries)),
    ensures
        projects.filter(|project: ProjectModel| project.name == name) == projects_among(
            compose_dir,
            entries.filter(|entry: FoundModel| native::shown_text(entry.name) == name),
        ),
{
    named_come_from_shown(compose_dir, entries, name);
    assert(projects_named(projects, name) == projects_named(
        projects_among(compose_dir, entries),
        name,
    ));
}

} // verus!
