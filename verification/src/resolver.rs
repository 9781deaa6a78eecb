//! Task discovery: the walk through script directories, task configs and the
//! repositories and directories that configs point to.
//!
//! The walk is a machine. It keeps the work that is left on a stack, names
//! the one outside action it needs next, and takes the outcome back as an
//! event. Tasks land in a map in the order in which they are found; a later
//! task takes the place of an earlier one of the same name.

use vstd::prelude::*;
use crate::entries::{classify_entry, entry_kind, EntryKind, EntryKindView};
use crate::name_map::{put, NameMap};
use crate::task_config::{
    empty_selector, ConfigView, RepoView, ScriptSelector, SelectorView, StandaloneTaskConfig,
    StandaloneTaskConfigRepo,
};
use crate::text::{join, join3, same_text};

verus! {

/// Task names and the paths of their scripts, in the order found.
pub type TaskMap = NameMap<String>;

/// What a `TaskMap` holds.
pub type Tasks = Seq<(Seq<char>, Seq<char>)>;

/// One entry of a listed directory.
#[derive(Debug, PartialEq, Eq)]
pub struct DirEntry {
    pub file_name: String,
    pub path: String,
}

/// What a `DirEntry` holds, as plain values.
pub struct DirEntryView {
    pub file_name: Seq<char>,
    pub path: Seq<char>,
}

impl View for DirEntry {
    type V = DirEntryView;

    open spec fn view(&self) -> DirEntryView {
        DirEntryView { file_name: self.file_name@, path: self.path@ }
    }
}

impl DeepView for DirEntry {
    type V = DirEntryView;

    open spec fn deep_view(&self) -> DirEntryView {
        self@
    }
}

/// Why a walk stopped before its end.
#[derive(Debug, PartialEq, Eq)]
pub enum ResolveError {
    /// An action could not be carried out.
    Io(String),
    /// An event arrived that answers no action of the walk.
    Protocol,
}

/// What a `ResolveError` holds, as plain values.
pub enum ResolveErrorView {
    Io(Seq<char>),
    Protocol,
}

impl View for ResolveError {
    type V = ResolveErrorView;

    open spec fn view(&self) -> ResolveErrorView {
        match self {
            ResolveError::Io(m) => ResolveErrorView::Io(m@),
            ResolveError::Protocol => ResolveErrorView::Protocol,
        }
    }
}

impl DeepView for ResolveError {
    type V = ResolveErrorView;

    open spec fn deep_view(&self) -> ResolveErrorView {
        self@
    }
}

impl Clone for ResolveError {
    fn clone(&self) -> (r: Self)
        ensures
            r@ == self@,
    {
        match self {
            ResolveError::Io(m) => ResolveError::Io(m.clone()),
            ResolveError::Protocol => ResolveError::Protocol,
        }
    }
}

/// A piece of work that is left.
#[derive(Debug, PartialEq, Eq)]
pub enum Job {
    /// List the script directories of `dir`, from the `next` one on.
    Walk { dir: String, next: usize },
    /// Take in the entries of a listed directory, from the `next` one on.
    Entries { entries: Vec<DirEntry>, next: usize },
    /// Ask for trust in a repository, fetch it, and select from the clone.
    Repo { repo: StandaloneTaskConfigRepo, name: String, trusted: bool },
    /// Apply a selector to a directory.
    Select { dir: String, name: String, selector: ScriptSelector },
    /// Look for a single script among its candidate places, from the `next`
    /// one on.
    Probe { dir: String, name: String, script: String, next: usize },
    /// Merge the tasks found below a directory into the tasks around it.
    Merge { filter: Option<Vec<String>>, prefix: Option<String> },
}

/// What a `Job` holds, as plain values.
pub enum JobView {
    Walk { dir: Seq<char>, next: usize },
    Entries { entries: Seq<DirEntryView>, next: usize },
    Repo { repo: RepoView, name: Seq<char>, trusted: bool },
    Select { dir: Seq<char>, name: Seq<char>, selector: SelectorView },
    Probe { dir: Seq<char>, name: Seq<char>, script: Seq<char>, next: usize },
    Merge { filter: Option<Seq<Seq<char>>>, prefix: Option<Seq<char>> },
}

impl View for Job {
    type V = JobView;

    open spec fn view(&self) -> JobView {
        match self {
            Job::Walk { dir, next } => JobView::Walk { dir: dir@, next: *next },
            Job::Entries { entries, next } => JobView::Entries {
                entries: entries.deep_view(),
                next: *next,
            },
            Job::Repo { repo, name, trusted } => JobView::Repo {
                repo: repo@,
                name: name@,
                trusted: *trusted,
            },
            Job::Select { dir, name, selector } => JobView::Select {
                dir: dir@,
                name: name@,
                selector: selector@,
            },
            Job::Probe { dir, name, script, next } => JobView::Probe {
                dir: dir@,
                name: name@,
                script: script@,
                next: *next,
            },
            Job::Merge { filter, prefix } => JobView::Merge {
                filter: filter.deep_view(),
                prefix: prefix.deep_view(),
            },
        }
    }
}

impl DeepView for Job {
    type V = JobView;

    open spec fn deep_view(&self) -> JobView {
        self@
    }
}

/// How the last action ended.
#[derive(Debug, PartialEq, Eq)]
pub enum Event {
    /// Nothing was asked for: go on.
    Resume,
    /// The entries of the directory, or `None` where it does not exist.
    Listed(Option<Vec<DirEntry>>),
    /// The config that the file holds.
    Loaded(StandaloneTaskConfig),
    /// The subject is trusted, or was declined.
    Trust(bool),
    /// The directory of the fetched repository, or why there is none.
    Fetched(Result<String, String>),
    /// The path of the candidate, where it exists.
    Found(Option<String>),
    /// The action could not be carried out.
    Failed(String),
}

/// What an `Event` holds, as plain values.
pub enum EventView {
    Resume,
    Listed(Option<Seq<DirEntryView>>),
    Loaded(ConfigView),
    Trust(bool),
    Fetched(Result<Seq<char>, Seq<char>>),
    Found(Option<Seq<char>>),
    Failed(Seq<char>),
}

impl View for Event {
    type V = EventView;

    open spec fn view(&self) -> EventView {
        match self {
            Event::Resume => EventView::Resume,
            Event::Listed(found) => EventView::Listed(found.deep_view()),
            Event::Loaded(config) => EventView::Loaded(config@),
            Event::Trust(b) => EventView::Trust(*b),
            Event::Fetched(outcome) => EventView::Fetched(
                match outcome {
                    Ok(dir) => Ok(dir@),
                    Err(m) => Err(m@),
                },
            ),
            Event::Found(path) => EventView::Found(path.deep_view()),
            Event::Failed(m) => EventView::Failed(m@),
        }
    }
}

/// What the walk asks to have done next.
#[derive(Debug, PartialEq, Eq)]
pub enum Action {
    /// Nothing: answer with `Resume`, after printing the warning if there is
    /// one.
    Proceed { warning: Option<String> },
    /// List the entries of the directory `sub` of `dir`, if it exists.
    ListDir { dir: String, sub: String },
    /// Read and parse the config file at `path`.
    LoadConfig { path: String },
    /// Ask whether `subject` is trusted.
    AskTrust { subject: String, query: String },
    /// Fetch the repository.
    Fetch { repo: StandaloneTaskConfigRepo },
    /// Tell whether `file` exists in the directory `sub` of `dir`.
    Probe { dir: String, sub: String, file: String },
    /// The walk is over.
    Done,
    /// The walk was given up.
    Failed { error: ResolveError },
}

/// What an `Action` holds, as plain values.
pub enum ActionView {
    Proceed { warning: Option<Seq<char>> },
    ListDir { dir: Seq<char>, sub: Seq<char> },
    LoadConfig { path: Seq<char> },
    AskTrust { subject: Seq<char>, query: Seq<char> },
    Fetch { repo: RepoView },
    Probe { dir: Seq<char>, sub: Seq<char>, file: Seq<char> },
    Done,
    Failed { error: ResolveErrorView },
}

impl View for Action {
    type V = ActionView;

    open spec fn view(&self) -> ActionView {
        match self {
            Action::Proceed { warning } => ActionView::Proceed { warning: warning.deep_view() },
            Action::ListDir { dir, sub } => ActionView::ListDir { dir: dir@, sub: sub@ },
            Action::LoadConfig { path } => ActionView::LoadConfig { path: path@ },
            Action::AskTrust { subject, query } => ActionView::AskTrust {
                subject: subject@,
                query: query@,
            },
            Action::Fetch { repo } => ActionView::Fetch { repo: repo@ },
            Action::Probe { dir, sub, file } => ActionView::Probe {
                dir: dir@,
                sub: sub@,
                file: file@,
            },
            Action::Done => ActionView::Done,
            Action::Failed { error } => ActionView::Failed { error: error@ },
        }
    }
}

/// The conventional directories, in the order in which they are searched.
/// Scripts and configs are looked for in the first four; a single script is
/// looked for in the directory itself as well, last.
pub open spec fn script_dir(i: int) -> Seq<char> {
    if i == 0 {
        "lune"@
    } else if i == 1 {
        ".lune"@
    } else if i == 2 {
        "lunar"@
    } else if i == 3 {
        ".lunar"@
    } else {
        "."@
    }
}

/// The file names under which a single script is looked for: as given, then
/// with `.luau`, then with `.lua`.
pub open spec fn candidate(script: Seq<char>, k: int) -> Seq<char> {
    if k == 0 {
        script
    } else if k == 1 {
        script + ".luau"@
    } else {
        script + ".lua"@
    }
}

/// The question put before a repository is downloaded.
pub open spec fn download_query(url: Seq<char>) -> Seq<char> {
    "Do you want to download "@ + url + " ?"@
}

/// The warning for a repository that was declined.
pub open spec fn untrusted_warning(name: Seq<char>) -> Seq<char> {
    "Skipping tasks from "@ + name + " because it's not trusted.\n"@
}

/// The warning for a repository that could not be fetched.
pub open spec fn fetch_warning(name: Seq<char>, error: Seq<char>) -> Seq<char> {
    "Skipping tasks from "@ + name + " because of error:\n"@ + error
}

/// Whether a task of that name passes the filter: an absent filter lets
/// every name pass.
pub open spec fn passes(filter: Option<Seq<Seq<char>>>, name: Seq<char>) -> bool {
    match filter {
        Some(names) => names.contains(name),
        None => true,
    }
}

/// The prefix that a selector puts before names: none where it has none.
pub open spec fn prefix_text(prefix: Option<Seq<char>>) -> Seq<char> {
    match prefix {
        Some(p) => p,
        None => Seq::empty(),
    }
}

/// `base` after the tasks of `sub` that pass `filter` were stored in it, in
/// their order, each under its name with `prefix` before it.
pub open spec fn merged(
    base: Tasks,
    sub: Tasks,
    filter: Option<Seq<Seq<char>>>,
    prefix: Option<Seq<char>>,
) -> Tasks
    decreases sub.len(),
{
    if sub.len() == 0 {
        base
    } else {
        let before = merged(base, sub.drop_last(), filter, prefix);
        if passes(filter, sub.last().0) {
            put(before, prefix_text(prefix) + sub.last().0, sub.last().1)
        } else {
            before
        }
    }
}

/// A walk: the tasks found at the root, the tasks found so far below each
/// directory that a selector is being applied to (innermost last), the work
/// that is left (next job last), and the error that stopped the walk, if one
/// did.
pub struct Resolver {
    root: TaskMap,
    subs: Vec<TaskMap>,
    jobs: Vec<Job>,
    failure: Option<ResolveError>,
}

/// What a `Resolver` holds, as plain values.
pub struct ResolverView {
    pub root: Tasks,
    pub subs: Seq<Tasks>,
    pub jobs: Seq<JobView>,
    pub failure: Option<ResolveErrorView>,
}

impl View for Resolver {
    type V = ResolverView;

    closed spec fn view(&self) -> ResolverView {
        ResolverView {
            root: self.root@,
            subs: self.subs.deep_view(),
            jobs: self.jobs.deep_view(),
            failure: self.failure.deep_view(),
        }
    }
}

impl ResolverView {
    /// A walk that has found `tasks` and has one job left.
    pub open spec fn start(tasks: Tasks, job: JobView) -> ResolverView {
        ResolverView { root: tasks, subs: Seq::empty(), jobs: seq![job], failure: None }
    }

    /// The tasks that a found task is stored in: those of the innermost
    /// directory under selection, or the root's.
    pub open spec fn top(self) -> Tasks {
        if self.subs.len() > 0 {
            self.subs.last()
        } else {
            self.root
        }
    }

    /// The same walk with `tasks` in place of the tasks that a found task is
    /// stored in.
    pub open spec fn with_top(self, tasks: Tasks) -> ResolverView {
        if self.subs.len() > 0 {
            ResolverView { subs: self.subs.drop_last().push(tasks), ..self }
        } else {
            ResolverView { root: tasks, ..self }
        }
    }

    /// A task was found.
    pub open spec fn insert(self, name: Seq<char>, path: Seq<char>) -> ResolverView {
        self.with_top(put(self.top(), name, path))
    }

    /// The next job is done.
    pub open spec fn pop(self) -> ResolverView {
        ResolverView { jobs: self.jobs.drop_last(), ..self }
    }

    /// There is one more job, to be done first.
    pub open spec fn push(self, job: JobView) -> ResolverView {
        ResolverView { jobs: self.jobs.push(job), ..self }
    }

    /// The next job gives way to another.
    pub open spec fn replace(self, job: JobView) -> ResolverView {
        self.pop().push(job)
    }

    /// Go on, with nothing to report.
    pub open spec fn proceed(self) -> (ResolverView, ActionView) {
        (self, ActionView::Proceed { warning: None })
    }

    /// Go on, after a warning.
    pub open spec fn warn(self, warning: Seq<char>) -> (ResolverView, ActionView) {
        (self, ActionView::Proceed { warning: Some(warning) })
    }

    /// Give the walk up, and the work that is left with it.
    pub open spec fn fail(self, error: ResolveErrorView) -> (ResolverView, ActionView) {
        (
            ResolverView { failure: Some(error), jobs: Seq::empty(), ..self },
            ActionView::Failed { error },
        )
    }

    /// A config was read. Its tasks go by its own name, or by `fallback`
    /// where it has none. A script is a task at once; a repository and a
    /// directory are work to do, the repository first.
    pub open spec fn load(self, config: ConfigView, fallback: Seq<char>) -> ResolverView {
        let name = match config.name {
            Some(n) => n,
            None => fallback,
        };
        let with_script = match config.script {
            Some(path) => self.insert(name, path),
            None => self,
        };
        let with_directory = match config.directory {
            Some(d) => with_script.push(
                JobView::Select {
                    dir: d.path,
                    name,
                    selector: match d.selector {
                        Some(sel) => sel,
                        None => empty_selector(),
                    },
                },
            ),
            None => with_script,
        };
        match config.repo {
            Some(repo) => with_directory.push(JobView::Repo { repo, name, trusted: false }),
            None => with_directory,
        }
    }

    /// The walk through the script directories of `dir`.
    pub open spec fn step_walk(self, dir: Seq<char>, next: usize, e: EventView) -> (
        ResolverView,
        ActionView,
    ) {
        match e {
            EventView::Resume => if next < 4 {
                (self, ActionView::ListDir { dir, sub: script_dir(next as int) })
            } else {
                self.pop().proceed()
            },
            EventView::Listed(found) => if next < 4 {
                let onward = self.replace(JobView::Walk { dir, next: (next + 1) as usize });
                match found {
                    Some(entries) => onward.push(JobView::Entries { entries, next: 0 }).proceed(),
                    None => onward.proceed(),
                }
            } else {
                self.fail(ResolveErrorView::Protocol)
            },
            _ => self.fail(ResolveErrorView::Protocol),
        }
    }

    /// The entries of one directory, in their order: a script is a task, a
    /// config is read and taken in, anything else is passed over.
    pub open spec fn step_entries(self, entries: Seq<DirEntryView>, next: usize, e: EventView) -> (
        ResolverView,
        ActionView,
    ) {
        let onward = self.replace(JobView::Entries { entries, next: (next + 1) as usize });
        match e {
            EventView::Resume => if next < entries.len() {
                match entry_kind(entries[next as int].file_name) {
                    EntryKindView::Script(name) => onward.insert(
                        name,
                        entries[next as int].path,
                    ).proceed(),
                    EntryKindView::Config(_) => (
                        self,
                        ActionView::LoadConfig { path: entries[next as int].path },
                    ),
                    EntryKindView::Other => onward.proceed(),
                }
            } else {
                self.pop().proceed()
            },
            EventView::Loaded(config) => if next < entries.len() {
                match entry_kind(entries[next as int].file_name) {
                    EntryKindView::Config(fallback) => onward.load(config, fallback).proceed(),
                    _ => self.fail(ResolveErrorView::Protocol),
                }
            } else {
                self.fail(ResolveErrorView::Protocol)
            },
            _ => self.fail(ResolveErrorView::Protocol),
        }
    }

    /// A repository: fetched only once trusted. A repository that is
    /// declined, or cannot be fetched, yields a warning and no task; the
    /// walk goes on.
    pub open spec fn step_repo(self, repo: RepoView, name: Seq<char>, trusted: bool, e: EventView)
        -> (ResolverView, ActionView) {
        match e {
            EventView::Resume => if trusted {
                (self, ActionView::Fetch { repo })
            } else {
                (
                    self,
                    ActionView::AskTrust { subject: repo.url, query: download_query(repo.url) },
                )
            },
            EventView::Trust(yes) => if trusted {
                self.fail(ResolveErrorView::Protocol)
            } else if yes {
                (
                    self.replace(JobView::Repo { repo, name, trusted: true }),
                    ActionView::Fetch { repo },
                )
            } else {
                self.pop().warn(untrusted_warning(name))
            },
            EventView::Fetched(outcome) => if trusted {
                match outcome {
                    Ok(dir) => self.replace(
                        JobView::Select {
                            dir,
                            name,
                            selector: match repo.selector {
                                Some(sel) => sel,
                                None => empty_selector(),
                            },
                        },
                    ).proceed(),
                    Err(error) => self.pop().warn(fetch_warning(name, error)),
                }
            } else {
                self.fail(ResolveErrorView::Protocol)
            },
            _ => self.fail(ResolveErrorView::Protocol),
        }
    }

    /// A selector: a single script is looked for; otherwise the directory
    /// is walked with a task map of its own, which is merged afterwards.
    pub open spec fn step_select(
        self,
        dir: Seq<char>,
        name: Seq<char>,
        selector: SelectorView,
        e: EventView,
    ) -> (ResolverView, ActionView) {
        match e {
            EventView::Resume => match selector.script {
                Some(script) => self.replace(
                    JobView::Probe { dir, name, script, next: 0 },
                ).proceed(),
                None => ResolverView {
                    subs: self.subs.push(Seq::empty()),
                    ..self.replace(
                        JobView::Merge { filter: selector.tasks, prefix: selector.prefix },
                    ).push(JobView::Walk { dir, next: 0 })
                }.proceed(),
            },
            _ => self.fail(ResolveErrorView::Protocol),
        }
    }

    /// A single script: each conventional directory in turn, and in each the
    /// three candidate names in turn. The first that exists is the task; if
    /// none does there is no task.
    pub open spec fn step_probe(
        self,
        dir: Seq<char>,
        name: Seq<char>,
        script: Seq<char>,
        next: usize,
        e: EventView,
    ) -> (ResolverView, ActionView) {
        match e {
            EventView::Resume => if next < 15 {
                (
                    self,
                    ActionView::Probe {
                        dir,
                        sub: script_dir(next as int / 3),
                        file: candidate(script, next as int % 3),
                    },
                )
            } else {
                self.pop().proceed()
            },
            EventView::Found(found) => if next < 15 {
                match found {
                    Some(path) => self.pop().insert(name, path).proceed(),
                    None => self.replace(
                        JobView::Probe { dir, name, script, next: (next + 1) as usize },
                    ).proceed(),
                }
            } else {
                self.fail(ResolveErrorView::Protocol)
            },
            _ => self.fail(ResolveErrorView::Protocol),
        }
    }

    /// The end of a selection: the tasks found below the directory leave
    /// the stack and are merged into the tasks around them.
    pub open spec fn step_merge(
        self,
        filter: Option<Seq<Seq<char>>>,
        prefix: Option<Seq<char>>,
        e: EventView,
    ) -> (ResolverView, ActionView) {
        match e {
            EventView::Resume => if self.subs.len() > 0 {
                let around = ResolverView { subs: self.subs.drop_last(), ..self.pop() };
                around.with_top(merged(around.top(), self.subs.last(), filter, prefix)).proceed()
            } else {
                self.fail(ResolveErrorView::Protocol)
            },
            _ => self.fail(ResolveErrorView::Protocol),
        }
    }
}

/// The walk's rule: where an event takes it, and what it asks for next.
///
/// A walk that was given up stays so. A walk with no work left is done. An
/// action that could not be carried out gives the walk up. Otherwise the
/// next job decides.
pub open spec fn resolve_step(s: ResolverView, e: EventView) -> (ResolverView, ActionView) {
    if s.failure is Some {
        (s, ActionView::Failed { error: s.failure.unwrap() })
    } else if s.jobs.len() == 0 {
        (s, ActionView::Done)
    } else if e is Failed {
        s.fail(ResolveErrorView::Io(e->Failed_0))
    } else {
        match s.jobs.last() {
            JobView::Walk { dir, next } => s.step_walk(dir, next, e),
            JobView::Entries { entries, next } => s.step_entries(entries, next, e),
            JobView::Repo { repo, name, trusted } => s.step_repo(repo, name, trusted, e),
            JobView::Select { dir, name, selector } => s.step_select(dir, name, selector, e),
            JobView::Probe { dir, name, script, next } => s.step_probe(dir, name, script, next, e),
            JobView::Merge { filter, prefix } => s.step_merge(filter, prefix, e),
        }
    }
}

/// Pushing a job and then dropping or replacing it.
pub proof fn lemma_job_stack(s: ResolverView, job: JobView, other: JobView)
    ensures
        s.push(job).pop() == s,
        s.push(job).replace(other) == s.push(other),
        s.push(job).jobs.last() == job,
        s.push(job).jobs.len() > 0,
{
    assert(s.jobs.push(job).drop_last() =~= s.jobs);
}

fn script_dir_name(i: usize) -> (r: &'static str)
    ensures
        r@ == script_dir(i as int),
{
    if i == 0 {
        "lune"
    } else if i == 1 {
        ".lune"
    } else if i == 2 {
        "lunar"
    } else if i == 3 {
        ".lunar"
    } else {
        "."
    }
}

fn candidate_name(script: &str, k: usize) -> (r: String)
    ensures
        r@ == candidate(script@, k as int),
{
    if k == 0 {
        script.to_owned()
    } else if k == 1 {
        join(script, ".luau")
    } else {
        join(script, ".lua")
    }
}

fn name_passes(filter: &Option<Vec<String>>, name: &str) -> (r: bool)
    ensures
        r == passes(filter.deep_view(), name@),
{
    match filter {
        None => true,
        Some(names) => {
            let mut i: usize = 0;
            while i < names.len()
                invariant
                    i <= names.len(),
                    filter.deep_view() == Some(names.deep_view()),
                    forall|j: int| 0 <= j < i ==> names.deep_view()[j] != name@,
                decreases names.len() - i,
            {
                if same_text(names[i].as_str(), name) {
                    proof {
                        let shown = names.deep_view();
                        assert(filter.deep_view() == Some(shown));
                        assert(0 <= i < shown.len() && shown[i as int] == name@);
                        assert(shown.contains(name@));
                    }
                    return true;
                }
                i = i + 1;
            }
            false
        },
    }
}

/// Stores in `target` the tasks of `sub` that pass `filter`, each under its
/// name with `prefix` before it.
pub fn merge_tasks(
    target: &mut TaskMap,
    sub: &TaskMap,
    filter: &Option<Vec<String>>,
    prefix: &Option<String>,
)
    ensures
        final(target)@ == merged(old(target)@, sub@, filter.deep_view(), prefix.deep_view()),
{
    let ghost base = target@;
    let n: usize = sub.len();
    let mut i: usize = 0;
    while i < n
        invariant
            i <= n,
            n == sub@.len(),
            target@ == merged(base, sub@.take(i as int), filter.deep_view(), prefix.deep_view()),
        decreases n - i,
    {
        let name = sub.name_at(i);
        let path = sub.value_at(i);
        proof {
            assert(sub@.take(i + 1).drop_last() =~= sub@.take(i as int));
            assert(sub@.take(i + 1).last() == sub@[i as int]);
        }
        if name_passes(filter, name.as_str()) {
            let full = match prefix {
                Some(p) => join(p.as_str(), name.as_str()),
                None => {
                    proof {
                        assert(Seq::<char>::empty() + name@ =~= name@);
                    }
                    name.clone()
                },
            };
            target.insert(full, path.clone());
        }
        i = i + 1;
    }
    proof {
        assert(sub@.take(n as int) =~= sub@);
    }
}

impl Resolver {
    fn begin(tasks: TaskMap, job: Job) -> (r: Resolver)
        ensures
            r@ == ResolverView::start(tasks@, job@),
    {
        let mut jobs: Vec<Job> = Vec::new();
        jobs.push(job);
        let r = Resolver { root: tasks, subs: Vec::new(), jobs, failure: None };
        proof {
            assert(r@.subs =~= Seq::empty());
            assert(r@.jobs =~= seq![job@]);
        }
        r
    }

    /// Whether the walk has ended, by running out of work or by giving up.
    pub fn is_over(&self) -> (r: bool)
        ensures
            r == (self@.failure is Some || self@.jobs.len() == 0),
    {
        self.failure.is_some() || self.jobs.len() == 0
    }

    /// The tasks found at the root so far.
    pub fn tasks(&self) -> (r: &TaskMap)
        ensures
            r@ == self@.root,
    {
        &self.root
    }

    /// Ends the walk and hands out the tasks found at the root.
    pub fn into_tasks(self) -> (r: TaskMap)
        ensures
            r@ == self@.root,
    {
        self.root
    }

    fn push_job(&mut self, job: Job)
        ensures
            final(self)@ == old(self)@.push(job@),
    {
        self.jobs.push(job);
        proof {
            assert(self@.jobs =~= old(self)@.jobs.push(job@));
        }
    }

    fn take_job(&mut self) -> (r: Option<Job>)
        ensures
            match r {
                Some(job) => {
                    &&& old(self)@.jobs.len() > 0
                    &&& old(self)@.jobs.last() == job@
                    &&& final(self)@ == old(self)@.pop()
                    &&& old(self)@ == final(self)@.push(job@)
                },
                None => old(self)@.jobs.len() == 0 && final(self)@ == old(self)@,
            },
    {
        let r = self.jobs.pop();
        proof {
            if r is Some {
                assert(self@.jobs =~= old(self)@.jobs.drop_last());
                assert(old(self)@.jobs =~= self@.jobs.push(r->0@));
            }
        }
        r
    }

    fn add(&mut self, name: String, path: String)
        ensures
            final(self)@ == old(self)@.insert(name@, path@),
    {
        match self.subs.pop() {
            Some(top) => {
                let mut top = top;
                top.insert(name, path);
                self.subs.push(top);
                proof {
                    assert(self@.subs =~= old(self)@.subs.drop_last().push(
                        put(old(self)@.subs.last(), name@, path@),
                    ));
                }
            },
            None => {
                self.root.insert(name, path);
                proof {
                    assert(self@.subs =~= old(self)@.subs);
                }
            },
        }
    }

    fn give_up(&mut self, error: ResolveError) -> (r: Action)
        ensures
            (final(self)@, r@) == old(self)@.fail(error@),
    {
        let shown = error.clone();
        self.failure = Some(error);
        self.jobs = Vec::new();
        proof {
            assert(self@.jobs =~= Seq::empty());
        }
        Action::Failed { error: shown }
    }

    fn load(&mut self, config: StandaloneTaskConfig, fallback: String)
        ensures
            final(self)@ == old(self)@.load(config@, fallback@),
    {
        let name = match config.name {
            Some(n) => n,
            None => fallback,
        };
        match config.script {
            Some(path) => {
                self.add(name.clone(), path);
            },
            None => {},
        }
        match config.directory {
            Some(d) => {
                let selector = match d.selector {
                    Some(sel) => sel,
                    None => ScriptSelector::default(),
                };
                self.push_job(Job::Select { dir: d.path, name: name.clone(), selector });
            },
            None => {},
        }
        match config.repo {
            Some(repo) => {
                self.push_job(Job::Repo { repo, name, trusted: false });
            },
            None => {},
        }
    }

    fn step_walk(&mut self, dir: String, next: usize, event: Event) -> (r: Action)
        ensures
            (final(self)@, r@) == old(self)@.push(JobView::Walk { dir: dir@, next }).step_walk(
                dir@,
                next,
                event@,
            ),
    {
        proof {
            let job = JobView::Walk { dir: dir@, next };
            lemma_job_stack(old(self)@, job, JobView::Walk { dir: dir@, next: (next + 1) as usize });
        }
        match event {
            Event::Resume => {
                if next < 4 {
                    let action = Action::ListDir {
                        dir: dir.clone(),
                        sub: script_dir_name(next).to_owned(),
                    };
                    self.push_job(Job::Walk { dir, next });
                    action
                } else {
                    Action::Proceed { warning: None }
                }
            },
            Event::Listed(found) => {
                if next < 4 {
                    self.push_job(Job::Walk { dir, next: next + 1 });
                    match found {
                        Some(entries) => {
                            self.push_job(Job::Entries { entries, next: 0 });
                        },
                        None => {},
                    }
                    Action::Proceed { warning: None }
                } else {
                    self.give_up(ResolveError::Protocol)
                }
            },
            _ => self.give_up(ResolveError::Protocol),
        }
    }

    fn step_entries(&mut self, entries: Vec<DirEntry>, next: usize, event: Event) -> (r: Action)
        ensures
            (final(self)@, r@) == old(self)@.push(
                JobView::Entries { entries: entries.deep_view(), next },
            ).step_entries(entries.deep_view(), next, event@),
    {
        proof {
            let job = JobView::Entries { entries: entries.deep_view(), next };
            lemma_job_stack(
                old(self)@,
                job,
                JobView::Entries { entries: entries.deep_view(), next: (next + 1) as usize },
            );
        }
        match event {
            Event::Resume => {
                if next < entries.len() {
                    match classify_entry(entries[next].file_name.as_str()) {
                        EntryKind::Script(name) => {
                            let path = entries[next].path.clone();
                            self.push_job(Job::Entries { entries, next: next + 1 });
                            self.add(name, path);
                            Action::Proceed { warning: None }
                        },
                        EntryKind::Config(_) => {
                            let action = Action::LoadConfig { path: entries[next].path.clone() };
                            self.push_job(Job::Entries { entries, next });
                            action
                        },
                        EntryKind::Other => {
                            self.push_job(Job::Entries { entries, next: next + 1 });
                            Action::Proceed { warning: None }
                        },
                    }
                } else {
                    Action::Proceed { warning: None }
                }
            },
            Event::Loaded(config) => {
                if next < entries.len() {
                    match classify_entry(entries[next].file_name.as_str()) {
                        EntryKind::Config(fallback) => {
                            self.push_job(Job::Entries { entries, next: next + 1 });
                            self.load(config, fallback);
                            Action::Proceed { warning: None }
                        },
                        _ => self.give_up(ResolveError::Protocol),
                    }
                } else {
                    self.give_up(ResolveError::Protocol)
                }
            },
            _ => self.give_up(ResolveError::Protocol),
        }
    }

    fn step_repo(
        &mut self,
        repo: StandaloneTaskConfigRepo,
        name: String,
        trusted: bool,
        event: Event,
    ) -> (r: Action)
        ensures
            (final(self)@, r@) == old(self)@.push(
                JobView::Repo { repo: repo@, name: name@, trusted },
            ).step_repo(repo@, name@, trusted, event@),
    {
        proof {
            let job = JobView::Repo { repo: repo@, name: name@, trusted };
            lemma_job_stack(
                old(self)@,
                job,
                JobView::Repo { repo: repo@, name: name@, trusted: true },
            );
            lemma_job_stack(
                old(self)@,
                job,
                JobView::Select {
                    dir: Seq::empty(),
                    name: name@,
                    selector: empty_selector(),
                },
            );
        }
        match event {
            Event::Resume => {
                let action = if trusted {
                    Action::Fetch { repo: repo.clone() }
                } else {
                    Action::AskTrust {
                        subject: repo.url.clone(),
                        query: join3("Do you want to download ", repo.url.as_str(), " ?"),
                    }
                };
                self.push_job(Job::Repo { repo, name, trusted });
                action
            },
            Event::Trust(yes) => {
                if trusted {
                    self.give_up(ResolveError::Protocol)
                } else if yes {
                    let action = Action::Fetch { repo: repo.clone() };
                    self.push_job(Job::Repo { repo, name, trusted: true });
                    action
                } else {
                    Action::Proceed {
                        warning: Some(
                            join3(
                                "Skipping tasks from ",
                                name.as_str(),
                                " because it's not trusted.\n",
                            ),
                        ),
                    }
                }
            },
            Event::Fetched(outcome) => {
                if trusted {
                    match outcome {
                        Ok(dir) => {
                            let selector = match repo.selector {
                                Some(sel) => sel,
                                None => ScriptSelector::default(),
                            };
                            proof {
                                lemma_job_stack(
                                    old(self)@,
                                    JobView::Repo { repo: repo@, name: name@, trusted },
                                    JobView::Select { dir: dir@, name: name@, selector: selector@ },
                                );
                            }
                            self.push_job(Job::Select { dir, name, selector });
                            Action::Proceed { warning: None }
                        },
                        Err(error) => {
                            let mut warning = join3(
                                "Skipping tasks from ",
                                name.as_str(),
                                " because of error:\n",
                            );
                            warning.append(error.as_str());
                            Action::Proceed { warning: Some(warning) }
                        },
                    }
                } else {
                    self.give_up(ResolveError::Protocol)
                }
            },
            _ => self.give_up(ResolveError::Protocol),
        }
    }

    fn step_select(&mut self, dir: String, name: String, selector: ScriptSelector, event: Event)
        -> (r: Action)
        ensures
            (final(self)@, r@) == old(self)@.push(
                JobView::Select { dir: dir@, name: name@, selector: selector@ },
            ).step_select(dir@, name@, selector@, event@),
    {
        let ghost job = JobView::Select { dir: dir@, name: name@, selector: selector@ };
        match event {
            Event::Resume => {
                match selector.script {
                    Some(script) => {
                        proof {
                            lemma_job_stack(
                                old(self)@,
                                job,
                                JobView::Probe { dir: dir@, name: name@, script: script@, next: 0 },
                            );
                        }
                        self.push_job(Job::Probe { dir, name, script, next: 0 });
                        Action::Proceed { warning: None }
                    },
                    None => {
                        proof {
                            lemma_job_stack(
                                old(self)@,
                                job,
                                JobView::Merge {
                                    filter: selector@.tasks,
                                    prefix: selector@.prefix,
                                },
                            );
                        }
                        self.push_job(Job::Merge { filter: selector.tasks, prefix: selector.prefix });
                        self.push_job(Job::Walk { dir, next: 0 });
                        self.subs.push(TaskMap::new());
                        proof {
                            assert(self@.subs =~= old(self)@.subs.push(Seq::empty()));
                        }
                        Action::Proceed { warning: None }
                    },
                }
            },
            _ => self.give_up(ResolveError::Protocol),
        }
    }

    fn step_probe(
        &mut self,
        dir: String,
        name: String,
        script: String,
        next: usize,
        event: Event,
    ) -> (r: Action)
        ensures
            (final(self)@, r@) == old(self)@.push(
                JobView::Probe { dir: dir@, name: name@, script: script@, next },
            ).step_probe(dir@, name@, script@, next, event@),
    {
        proof {
            let job = JobView::Probe { dir: dir@, name: name@, script: script@, next };
            lemma_job_stack(
                old(self)@,
                job,
                JobView::Probe {
                    dir: dir@,
                    name: name@,
                    script: script@,
                    next: (next + 1) as usize,
                },
            );
        }
        match event {
            Event::Resume => {
                if next < 15 {
                    let action = Action::Probe {
                        dir: dir.clone(),
                        sub: script_dir_name(next / 3).to_owned(),
                        file: candidate_name(script.as_str(), next % 3),
                    };
                    self.push_job(Job::Probe { dir, name, script, next });
                    action
                } else {
                    Action::Proceed { warning: None }
                }
            },
            Event::Found(found) => {
                if next < 15 {
                    match found {
                        Some(path) => {
                            self.add(name, path);
                        },
                        None => {
                            self.push_job(Job::Probe { dir, name, script, next: next + 1 });
                        },
                    }
                    Action::Proceed { warning: None }
                } else {
                    self.give_up(ResolveError::Protocol)
                }
            },
            _ => self.give_up(ResolveError::Protocol),
        }
    }

    fn step_merge(&mut self, filter: Option<Vec<String>>, prefix: Option<String>, event: Event)
        -> (r: Action)
        ensures
            (final(self)@, r@) == old(self)@.push(
                JobView::Merge { filter: filter.deep_view(), prefix: prefix.deep_view() },
            ).step_merge(filter.deep_view(), prefix.deep_view(), event@),
    {
        proof {
            let job = JobView::Merge { filter: filter.deep_view(), prefix: prefix.deep_view() };
            lemma_job_stack(old(self)@, job, job);
        }
        match event {
            Event::Resume => {
                match self.subs.pop() {
                    Some(sub) => {
                        let ghost around = ResolverView {
                            subs: old(self)@.subs.drop_last(),
                            ..old(self)@
                        };
                        proof {
                            assert(self@.subs =~= old(self)@.subs.drop_last());
                            assert(self@ == around);
                        }
                        match self.subs.pop() {
                            Some(top) => {
                                let mut top = top;
                                merge_tasks(&mut top, &sub, &filter, &prefix);
                                self.subs.push(top);
                                proof {
                                    assert(self@.subs =~= around.subs.drop_last().push(
                                        merged(
                                            around.top(),
                                            sub@,
                                            filter.deep_view(),
                                            prefix.deep_view(),
                                        ),
                                    ));
                                }
                            },
                            None => {
                                merge_tasks(&mut self.root, &sub, &filter, &prefix);
                                proof {
                                    assert(self@.subs =~= around.subs);
                                }
                            },
                        }
                        Action::Proceed { warning: None }
                    },
                    None => self.give_up(ResolveError::Protocol),
                }
            },
            _ => self.give_up(ResolveError::Protocol),
        }
    }

    /// Takes the outcome of the last action and names the next one.
    pub fn step(&mut self, event: Event) -> (action: Action)
        ensures
            (final(self)@, action@) == resolve_step(old(self)@, event@),
    {
        match &self.failure {
            Some(error) => {
                return Action::Failed { error: error.clone() };
            },
            None => {},
        }
        match event {
            Event::Failed(m) => {
                if self.jobs.len() == 0 {
                    return Action::Done;
                }
                return self.give_up(ResolveError::Io(m));
            },
            _ => {},
        }
        match self.take_job() {
            None => Action::Done,
            Some(job) => match job {
                Job::Walk { dir, next } => self.step_walk(dir, next, event),
                Job::Entries { entries, next } => self.step_entries(entries, next, event),
                Job::Repo { repo, name, trusted } => self.step_repo(repo, name, trusted, event),
                Job::Select { dir, name, selector } => self.step_select(dir, name, selector, event),
                Job::Probe { dir, name, script, next } => self.step_probe(
                    dir,
                    name,
                    script,
                    next,
                    event,
                ),
                Job::Merge { filter, prefix } => self.step_merge(filter, prefix, event),
            },
        }
    }
}

/// Begins the walk through the script directories of `directory`; the tasks
/// found are added to `tasks`.
pub fn get_directory_tasks(directory: &str, tasks: TaskMap) -> (r: Resolver)
    ensures
        r@ == ResolverView::start(tasks@, JobView::Walk { dir: directory@, next: 0 }),
{
    Resolver::begin(tasks, Job::Walk { dir: directory.to_owned(), next: 0 })
}

/// Begins the application of `selector` to `directory`; a single script is
/// added to `tasks` under `name`.
pub fn get_selector_tasks(
    directory: &str,
    name: &str,
    selector: &ScriptSelector,
    tasks: TaskMap,
) -> (r: Resolver)
    ensures
        r@ == ResolverView::start(
            tasks@,
            JobView::Select { dir: directory@, name: name@, selector: selector@ },
        ),
{
    Resolver::begin(
        tasks,
        Job::Select {
            dir: directory.to_owned(),
            name: name.to_owned(),
            selector: selector.clone(),
        },
    )
}

/// Begins the resolution of one config, whose tasks go by `name` where it
/// declares no name of its own.
pub fn get_standalone_config_tasks(config: &StandaloneTaskConfig, name: &str, tasks: TaskMap) -> (r:
    Resolver)
    ensures
        r@ == (ResolverView {
            root: tasks@,
            subs: Seq::empty(),
            jobs: Seq::empty(),
            failure: None,
        }).load(config@, name@),
{
    let mut r = Resolver { root: tasks, subs: Vec::new(), jobs: Vec::new(), failure: None };
    proof {
        assert(r@.subs =~= Seq::empty());
        assert(r@.jobs =~= Seq::empty());
    }
    r.load(config.clone(), name.to_owned());
    r
}

} // verus!
