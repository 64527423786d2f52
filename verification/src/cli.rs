//! The command line: what it can ask for, and which projects it means.

use vstd::prelude::*;

use crate::names;
use crate::native::{self, NativeString};
use crate::project::{Project, ProjectModel};
use crate::text;

verus! {

/// The whole command line.
#[derive(Debug)]
pub struct Cli {
    pub compose_dir: Option<NativeString>,
    pub config: Option<NativeString>,
    pub command: Option<Commands>,
}

/// A subcommand.
#[derive(Debug)]
pub enum Commands {
    Tui,
    ExampleConfig,
    List { json: bool },
    Status { targets: TargetArgs, json: bool },
    Deploy(TargetArgs),
    Update(TargetArgs),
    Stop(TargetArgs),
    Restart(TargetArgs),
    Remove(RemoveArgs),
    Logs(LogsArgs),
}

/// Which projects a subcommand means: those named, all, or those picked from a list.
#[derive(Debug)]
pub struct TargetArgs {
    pub projects: Vec<String>,
    pub all: bool,
    pub select: bool,
}

impl TargetArgs {
    /// Whether two sets of arguments say the same.
    pub open spec fn like(self, other: TargetArgs) -> bool {
        &&& self.projects.deep_view() == other.projects.deep_view()
        &&& self.all == other.all
        &&& self.select == other.select
    }
}

impl Clone for TargetArgs {
    fn clone(&self) -> (copy: Self)
        ensures
            copy.like(*self),
    {
        TargetArgs {
            projects: copy_names(&self.projects),
            all: self.all,
            select: self.select,
        }
    }
}

/// The arguments of `remove`.
#[derive(Debug)]
pub struct RemoveArgs {
    pub targets: TargetArgs,
    pub volumes: bool,
    pub remove_orphans: bool,
    pub rmi: Option<RmiMode>,
}

impl Clone for RemoveArgs {
    fn clone(&self) -> (copy: Self)
        ensures
            copy.targets.like(self.targets),
            copy.volumes == self.volumes,
            copy.remove_orphans == self.remove_orphans,
            copy.rmi == self.rmi,
    {
        RemoveArgs {
            targets: self.targets.clone(),
            volumes: self.volumes,
            remove_orphans: self.remove_orphans,
            rmi: self.rmi,
        }
    }
}

/// The arguments of `logs`.
#[derive(Debug)]
pub struct LogsArgs {
    pub targets: TargetArgs,
    pub follow: bool,
    pub tail: Option<usize>,
}

impl Clone for LogsArgs {
    fn clone(&self) -> (copy: Self)
        ensures
            copy.targets.like(self.targets),
            copy.follow == self.follow,
            copy.tail == self.tail,
    {
        LogsArgs { targets: self.targets.clone(), follow: self.follow, tail: self.tail }
    }
}

/// Which images `remove` takes away too.
#[derive(Debug, Clone, Copy, PartialEq, Eq, Structural)]
pub enum RmiMode {
    Local,
    All,
}

impl RmiMode {
    /// The name of the mode, as compose takes it.
    pub open spec fn text(self) -> Seq<char> {
        match self {
            RmiMode::Local => "local"@,
            RmiMode::All => "all"@,
        }
    }

    /// The name of the mode, as compose takes it.
    pub fn to_string(&self) -> (name: String)
        ensures
            name@ == self.text(),
    {
        match self {
            RmiMode::Local => "local".to_owned(),
            RmiMode::All => "all".to_owned(),
        }
    }
}

/// Why the projects that a command means cannot be told.
#[derive(Debug)]
pub enum TargetError {
    /// Projects are named, and `--all` or `--select` is given as well.
    Conflict,
    /// No project has this name.
    UnknownProject(String),
    /// There is nothing to act on.
    NoProjects,
}

/// A [`TargetError`] as plain values.
#[verifier::ext_equal]
pub enum TargetErrorModel {
    Conflict,
    UnknownProject(Seq<char>),
    NoProjects,
}

impl View for TargetError {
    type V = TargetErrorModel;

    open spec fn view(&self) -> TargetErrorModel {
        match self {
            TargetError::Conflict => TargetErrorModel::Conflict,
            TargetError::UnknownProject(name) => TargetErrorModel::UnknownProject(name@),
            TargetError::NoProjects => TargetErrorModel::NoProjects,
        }
    }
}

impl TargetErrorModel {
    /// The message for the user.
    pub open spec fn message(self) -> Seq<char> {
        match self {
            TargetErrorModel::Conflict => "cannot combine explicit projects with --all or --select"@,
            TargetErrorModel::UnknownProject(name) => "unknown project: "@ + name,
            TargetErrorModel::NoProjects => "no projects selected"@,
        }
    }
}

impl TargetError {
    /// The message for the user.
    pub fn message(&self) -> (message: String)
        ensures
            message@ == self@.message(),
    {
        match self {
            TargetError::Conflict =>
                "cannot combine explicit projects with --all or --select".to_owned(),
            TargetError::UnknownProject(name) => "unknown project: ".to_owned().concat(name),
            TargetError::NoProjects => "no projects selected".to_owned(),
        }
    }
}

impl TargetArgs {
    /// Whether projects are named beside `--all` or `--select`.
    pub open spec fn conflicting(self) -> bool {
        self.projects@.len() > 0 && (self.all || self.select)
    }

    /// Checks that the arguments do not contradict each other.
    pub fn validate(&self) -> (verdict: Result<(), TargetError>)
        ensures
            verdict is Ok <==> !self.conflicting(),
            verdict matches Err(error) ==> error == TargetError::Conflict,
    {
        if self.projects.len() > 0 && (self.all || self.select) {
            return Err(TargetError::Conflict);
        }
        Ok(())
    }

    /// Whether the user has to pick projects from a list.
    pub fn needs_selection(&self) -> (needed: bool)
        ensures
            needed == (self.projects@.len() == 0 && self.select),
    {
        self.projects.len() == 0 && self.select
    }
}

/// The names of projects, in their order.
pub open spec fn names_of(projects: Seq<ProjectModel>) -> Seq<Seq<char>> {
    projects.map_values(|project: ProjectModel| project.name)
}

/// The line that stands for a project in the list to pick from.
pub open spec fn selection_line(project: ProjectModel) -> Seq<char> {
    project.name + "  "@ + native::shown_text(project.compose_file)
}

/// The lines of the list to pick from, one for each project.
pub fn selection_items(projects: &Vec<Project>) -> (items: Vec<String>)
    ensures
        items.deep_view() == projects.deep_view().map_values(|p: ProjectModel| selection_line(p)),
{
    let mut items: Vec<String> = Vec::new();
    for i in 0..projects.len()
        invariant
            items@.len() == i,
            forall|j: int| 0 <= j < i ==> #[trigger] items@[j]@ == selection_line(projects@[j]@),
    {
        let project = &projects[i];
        items.push(project.name.clone().concat("  ").concat(&project.compose_file.display()));
    }
    assert(items.deep_view() =~= projects.deep_view().map_values(
        |p: ProjectModel| selection_line(p),
    ));
    items
}

/// The names of the projects that were picked from the list, in the order of the picks.
pub fn select_projects(projects: &Vec<Project>, picks: &Vec<usize>) -> (names: Vec<String>)
    requires
        forall|i: int| 0 <= i < picks@.len() ==> #[trigger] picks@[i] < projects@.len(),
    ensures
        names.deep_view() == picks@.map_values(|pick: usize| projects.deep_view()[pick as int].name),
{
    let mut names: Vec<String> = Vec::new();
    for i in 0..picks.len()
        invariant
            forall|i: int| 0 <= i < picks@.len() ==> #[trigger] picks@[i] < projects@.len(),
            names@.len() == i,
            forall|j: int| 0 <= j < i ==> #[trigger] names@[j]@ == projects@[picks@[j] as int]@.name,
    {
        names.push(projects[picks[i]].name.clone());
    }
    assert(names.deep_view() =~= picks@.map_values(
        |pick: usize| projects.deep_view()[pick as int].name,
    ));
    names
}

/// The names that a command asks for: those it names, or else those picked from the list where it
/// asks for one, or else all.
pub open spec fn requested_names(
    discovered: Seq<ProjectModel>,
    named: Seq<Seq<char>>,
    select: bool,
    picked: Seq<Seq<char>>,
) -> Seq<Seq<char>> {
    if named.len() > 0 {
        named
    } else if select {
        picked
    } else {
        names_of(discovered)
    }
}

/// Whether the name at `index` is the first that no project has.
pub open spec fn first_unknown(
    discovered: Seq<ProjectModel>,
    names: Seq<Seq<char>>,
    index: int,
) -> bool {
    &&& 0 <= index < names.len()
    &&& !names_of(discovered).contains(names[index])
    &&& forall|j: int| 0 <= j < index ==> names_of(discovered).contains(#[trigger] names[j])
}

/// The projects whose names are asked for, in the order in which they were discovered.
pub open spec fn projects_with_names(
    discovered: Seq<ProjectModel>,
    names: Seq<Seq<char>>,
) -> Seq<ProjectModel> {
    discovered.filter(|project: ProjectModel| names.contains(project.name))
}

fn project_names(projects: &Vec<Project>) -> (names: Vec<String>)
    ensures
        names.deep_view() == names_of(projects.deep_view()),
{
    let mut names: Vec<String> = Vec::new();
    for i in 0..projects.len()
        invariant
            names@.len() == i,
            forall|j: int| 0 <= j < i ==> #[trigger] names@[j]@ == projects@[j]@.name,
    {
        names.push(projects[i].name.clone());
    }
    assert(names.deep_view() =~= names_of(projects.deep_view()));
    names
}

fn copy_names(names: &Vec<String>) -> (copy: Vec<String>)
    ensures
        copy.deep_view() == names.deep_view(),
{
    let mut copy: Vec<String> = Vec::new();
    for i in 0..names.len()
        invariant
            copy@.len() == i,
            forall|j: int| 0 <= j < i ==> #[trigger] copy@[j]@ == names@[j]@,
    {
        copy.push(names[i].clone());
    }
    assert(copy.deep_view() =~= names.deep_view());
    copy
}

/// Decides which of the discovered projects a command means. `picked` holds the names picked from
/// the list, where the command asks for one. A name that no project has is an error, the first one
/// in the order of the names.
pub fn resolve_projects(discovered: &Vec<Project>, args: &TargetArgs, picked: &Vec<String>) -> (result:
    Result<Vec<Project>, TargetError>)
    ensures
        ({
            let all = discovered.deep_view();
            let names = requested_names(
                all,
                args.projects.deep_view(),
                args.select,
                picked.deep_view(),
            );
            match result {
                Ok(projects) => {
                    &&& !args.conflicting()
                    &&& forall|i: int|
                        0 <= i < names.len() ==> names_of(all).contains(#[trigger] names[i])
                    &&& projects.deep_view() == projects_with_names(all, names)
                },
                Err(error) => if args.conflicting() {
                    error == TargetError::Conflict
                } else {
                    exists|index: int| #[trigger]
                        first_unknown(all, names, index) && error@
                            == TargetErrorModel::UnknownProject(names[index])
                },
            }
        }),
{
    match args.validate() {
        Err(error) => {
            return Err(error);
        },
        Ok(()) => {},
    }
    let known = project_names(discovered);
    let names = if args.projects.len() > 0 {
        copy_names(&args.projects)
    } else if args.select {
        copy_names(picked)
    } else {
        project_names(discovered)
    };
    let ghost all = discovered.deep_view();
    let ghost asked = names.deep_view();
    for i in 0..names.len()
        invariant
            all == discovered.deep_view(),
            asked == names.deep_view(),
            known.deep_view() == names_of(all),
            !args.conflicting(),
            asked == requested_names(
                all,
                args.projects.deep_view(),
                args.select,
                picked.deep_view(),
            ),
            forall|j: int| 0 <= j < i ==> names_of(all).contains(#[trigger] asked[j]),
    {
        assert(asked[i as int] == names@[i as int]@);
        if !names::has_name(&known, &names[i]) {
            assert(first_unknown(all, asked, i as int));
            return Err(TargetError::UnknownProject(names[i].clone()));
        }
    }
    let mut projects: Vec<Project> = Vec::new();
    assert(projects.deep_view() =~= projects_with_names(all.take(0), asked)) by {
        reveal(Seq::filter);
    }
    for i in 0..discovered.len()
        invariant
            all == discovered.deep_view(),
            asked == names.deep_view(),
            projects.deep_view() == projects_with_names(all.take(i as int), asked),
    {
        let project = &discovered[i];
        proof {
            let pred = |project: ProjectModel| asked.contains(project.name);
            assert(all.take(i + 1) =~= all.take(i as int).push(project@));
            all.take(i as int).lemma_filter_push(project@, pred);
        }
        if names::has_name(&names, &project.name) {
            let ghost before = projects.deep_view();
            projects.push(project.clone());
            assert(projects.deep_view() =~= before.push(project@));
        }
    }
    assert(all.take(all.len() as int) =~= all);
    Ok(projects)
}

/// Where neither projects are named nor a list is asked for, every discovered project is meant.
pub proof fn no_selection_means_all(discovered: Seq<ProjectModel>, picked: Seq<Seq<char>>)
    ensures
        projects_with_names(discovered, requested_names(discovered, seq![], false, picked))
            == discovered,
    decreases discovered.len(),
{
    let names = names_of(discovered);
    let pred = |project: ProjectModel| names.contains(project.name);
    assert forall|i: int| 0 <= i < discovered.len() implies pred(#[trigger] discovered[i]) by {
        assert(names[i] == discovered[i].name);
    }
    names::all_match(discovered, pred);
}

/// A command that names projects means only projects of those names.
pub proof fn only_named_projects(
    discovered: Seq<ProjectModel>,
    named: Seq<Seq<char>>,
    select: bool,
    picked: Seq<Seq<char>>,
    index: int,
)
    requires
        named.len() > 0,
        0 <= index < projects_with_names(
            discovered,
            requested_names(discovered, named, select, picked),
        ).len(),
    ensures
        named.contains(
            projects_with_names(
                discovered,
                requested_names(discovered, named, select, picked),
            )[index].name,
        ),
{
    let pred = |project: ProjectModel| named.contains(project.name);
    discovered.lemma_filter_pred(pred, index);
}

} // verus!
