//! What a script says about itself: the block of metadata in its leading
//! comment, and the tasks that the block declares.
//!
//! One script may declare a tree of tasks. All of them run the same file;
//! each passes the names on the way down to it as leading arguments.

use vstd::prelude::*;
use crate::name_map::{
    distinct_names, lemma_put_distinct, lemma_put_lookup, lookup, put, NameMap,
};
use crate::outside::{
    capture_view, from_utf8_lossy, lossy_text, regex_first_group, regex_group_one,
};
use crate::text::{join, copy_list, copy_option, starts_with};

verus! {

/// The metadata that a script declares for a task, and the tasks below it,
/// in the order declared.
#[derive(Debug, PartialEq, Eq)]
pub struct InlineTaskInfo {
    pub args: Option<String>,
    pub about: Option<String>,
    pub hide: Option<bool>,
    pub tasks: Vec<(String, InlineTaskInfo)>,
}

/// What an `InlineTaskInfo` holds, as plain values.
pub struct InlineView {
    pub args: Option<Seq<char>>,
    pub about: Option<Seq<char>>,
    pub hide: Option<bool>,
    pub tasks: Seq<(Seq<char>, InlineView)>,
}

/// What an `InlineTaskInfo` holds, all the way down.
pub open spec fn inline_view(info: InlineTaskInfo) -> InlineView
    decreases info,
{
    InlineView {
        args: info.args.deep_view(),
        about: info.about.deep_view(),
        hide: info.hide,
        tasks: Seq::new(
            info.tasks@.len(),
            |i: int|
                if 0 <= i < info.tasks@.len() {
                    (info.tasks@[i].0@, inline_view(info.tasks@[i].1))
                } else {
                    arbitrary()
                },
        ),
    }
}

impl View for InlineTaskInfo {
    type V = InlineView;

    open spec fn view(&self) -> InlineView {
        inline_view(*self)
    }
}

impl DeepView for InlineTaskInfo {
    type V = InlineView;

    open spec fn deep_view(&self) -> InlineView {
        self@
    }
}

/// A task as the command line shows and runs it.
#[derive(Debug, PartialEq, Eq)]
pub struct TaskInfo {
    pub args: Option<String>,
    pub about: Option<String>,
    pub path: Option<String>,
    pub subtask_args: Vec<String>,
}

/// What a `TaskInfo` holds, as plain values.
pub struct TaskInfoView {
    pub args: Option<Seq<char>>,
    pub about: Option<Seq<char>>,
    pub path: Option<Seq<char>>,
    pub subtask_args: Seq<Seq<char>>,
}

impl View for TaskInfo {
    type V = TaskInfoView;

    open spec fn view(&self) -> TaskInfoView {
        TaskInfoView {
            args: self.args.deep_view(),
            about: self.about.deep_view(),
            path: self.path.deep_view(),
            subtask_args: self.subtask_args.deep_view(),
        }
    }
}

impl DeepView for TaskInfo {
    type V = TaskInfoView;

    open spec fn deep_view(&self) -> TaskInfoView {
        self@
    }
}

/// The arguments with which the script runtime runs a task: `run`, the path
/// of the script, `--`, the task's own leading arguments, and then what the
/// user added. A task without a script cannot be run.
pub open spec fn run_arguments(task: TaskInfoView, trailing: Seq<Seq<char>>) -> Option<
    Seq<Seq<char>>,
> {
    match task.path {
        Some(path) => Some(seq!["run"@, path, "--"@] + task.subtask_args + trailing),
        None => None,
    }
}

impl TaskInfo {
    /// The arguments for the script runtime, given what the user added.
    pub fn run_arguments(&self, trailing: &Vec<String>) -> (r: Option<Vec<String>>)
        ensures
            r.deep_view() == run_arguments(self@, trailing.deep_view()),
    {
        match &self.path {
            Some(path) => {
                let mut args = crate::text::no_texts();
                crate::text::push_text(&mut args, "run");
                crate::text::push_text(&mut args, path.as_str());
                crate::text::push_text(&mut args, "--");
                proof {
                    assert(args.deep_view() =~= seq!["run"@, path@, "--"@]);
                }
                crate::text::extend_texts(&mut args, &self.subtask_args);
                crate::text::extend_texts(&mut args, trailing);
                Some(args)
            },
            None => None,
        }
    }
}

/// Tasks by name, in the order found.
pub type TaskInfos = NameMap<TaskInfo>;

/// What a `TaskInfos` holds.
pub type Infos = Seq<(Seq<char>, TaskInfoView)>;

/// Why a task cannot be run.
#[derive(Clone, Copy, Debug, PartialEq, Eq, Structural)]
pub enum DispatchError {
    /// There is no task of that name.
    NotFound,
    /// The task has no script.
    NotRunnable,
}

/// What the script runtime is run with for the task `name`.
pub open spec fn invocation(tasks: Infos, name: Seq<char>, trailing: Seq<Seq<char>>) -> Result<
    Seq<Seq<char>>,
    DispatchError,
> {
    match lookup(tasks, name) {
        None => Err(DispatchError::NotFound),
        Some(task) => match run_arguments(task, trailing) {
            Some(arguments) => Ok(arguments),
            None => Err(DispatchError::NotRunnable),
        },
    }
}

/// Finds the task `name` and puts together the arguments that run it.
pub fn resolve_invocation(tasks: &TaskInfos, name: &str, trailing: &Vec<String>) -> (r: Result<
    Vec<String>,
    DispatchError,
>)
    ensures
        match r {
            Ok(arguments) => invocation(tasks@, name@, trailing.deep_view()) == Ok::<
                Seq<Seq<char>>,
                DispatchError,
            >(arguments.deep_view()),
            Err(e) => invocation(tasks@, name@, trailing.deep_view()) == Err::<
                Seq<Seq<char>>,
                DispatchError,
            >(e),
        },
{
    match tasks.get(name) {
        None => Err(DispatchError::NotFound),
        Some(task) => match task.run_arguments(trailing) {
            Some(arguments) => Ok(arguments),
            None => Err(DispatchError::NotRunnable),
        },
    }
}

/// The metadata of a script that declares none.
pub open spec fn no_info() -> InlineView {
    InlineView { args: None, about: None, hide: None, tasks: Seq::empty() }
}

/// Whether a task is kept from the command line.
pub open spec fn hidden(info: InlineView) -> bool {
    info.hide == Some(true)
}

/// `base` after the task `name` and the tasks below it were added: the task
/// itself unless it is hidden, then the tasks below it in their order, each
/// with its own name added to the leading arguments.
pub open spec fn with_inline_task(
    base: Infos,
    name: Seq<char>,
    path: Option<Seq<char>>,
    info: InlineView,
    subtask_args: Seq<Seq<char>>,
) -> Infos
    decreases info, 0nat,
{
    let shown = if hidden(info) {
        base
    } else {
        put(
            base,
            name,
            TaskInfoView { args: info.args, about: info.about, path, subtask_args },
        )
    };
    with_subtasks(shown, path, info.tasks, subtask_args, info.tasks.len())
}

/// `base` after the first `n` of the tasks `below` were added.
pub open spec fn with_subtasks(
    base: Infos,
    path: Option<Seq<char>>,
    below: Seq<(Seq<char>, InlineView)>,
    subtask_args: Seq<Seq<char>>,
    n: nat,
) -> Infos
    decreases below, n,
{
    if n == 0 || n > below.len() {
        base
    } else {
        with_inline_task(
            with_subtasks(base, path, below, subtask_args, (n - 1) as nat),
            below[n - 1].0,
            path,
            below[n - 1].1,
            subtask_args.push(below[n - 1].0),
        )
    }
}

/// Adds the task `name` of the script at `path`, and the tasks that `info`
/// declares below it, to `tasks`.
pub fn add_inline_task(
    tasks: &mut TaskInfos,
    name: &str,
    path: Option<&str>,
    info: &InlineTaskInfo,
    subtask_args: Vec<String>,
)
    ensures
        final(tasks)@ == with_inline_task(
            old(tasks)@,
            name@,
            match path {
                Some(p) => Some(p@),
                None => None,
            },
            info@,
            subtask_args.deep_view(),
        ),
    decreases info,
{
    let ghost shown_path = match path {
        Some(p) => Some(p@),
        None => None,
    };
    let ghost shown_args = subtask_args.deep_view();
    let hide = match info.hide {
        Some(h) => h,
        None => false,
    };
    if !hide {
        let own_path = match path {
            Some(p) => Some(p.to_owned()),
            None => None,
        };
        let own_args = copy_list(&subtask_args);
        proof {
            assert(own_args.deep_view() =~= shown_args);
        }
        tasks.insert(
            name.to_owned(),
            TaskInfo {
                args: copy_option(&info.args),
                about: copy_option(&info.about),
                path: own_path,
                subtask_args: own_args,
            },
        );
    }
    let ghost shown = tasks@;
    let n: usize = info.tasks.len();
    let mut i: usize = 0;
    while i < n
        invariant
            i <= n,
            n == info.tasks@.len(),
            n == info@.tasks.len(),
            subtask_args.deep_view() == shown_args,
            shown_path == match path {
                Some(p) => Some(p@),
                None => None,
            },
            tasks@ == with_subtasks(shown, shown_path, info@.tasks, shown_args, i as nat),
        decreases n - i,
    {
        let below = &info.tasks[i];
        let mut args = copy_list(&subtask_args);
        args.push(below.0.clone());
        proof {
            assert(args.deep_view() =~= shown_args.push(below.0@));
            assert(info@.tasks[i as int] == (below.0@, below.1@));
        }
        add_inline_task(tasks, below.0.as_str(), path, &below.1, args);
        i = i + 1;
    }
}

/// The tasks of all scripts: for each name and path of `tasks`, in their
/// order, the task and the tasks below it that the metadata at the same
/// place of `infos` declares.
pub open spec fn all_infos(
    tasks: Seq<(Seq<char>, Seq<char>)>,
    infos: Seq<InlineView>,
    n: nat,
) -> Infos
    decreases n,
{
    if n == 0 || n > tasks.len() || n > infos.len() {
        Seq::empty()
    } else {
        with_inline_task(
            all_infos(tasks, infos, (n - 1) as nat),
            tasks[n - 1].0,
            Some(tasks[n - 1].1),
            infos[n - 1],
            Seq::empty(),
        )
    }
}

/// Turns scripts and their metadata into the tasks that the command line
/// offers. `infos` holds the metadata of each script of `tasks`, place by
/// place; where the two differ in length there is no result.
pub fn get_task_infos(tasks: &NameMap<String>, infos: &Vec<InlineTaskInfo>) -> (r: Option<
    TaskInfos,
>)
    ensures
        tasks@.len() != infos@.len() ==> r is None,
        tasks@.len() == infos@.len() ==> r is Some && r->0@ == all_infos(
            tasks@,
            infos.deep_view(),
            tasks@.len(),
        ),
{
    let n: usize = tasks.len();
    if infos.len() != n {
        return None;
    }
    let mut found: TaskInfos = NameMap::new();
    let mut i: usize = 0;
    while i < n
        invariant
            i <= n,
            n == tasks@.len(),
            n == infos@.len(),
            found@ == all_infos(tasks@, infos.deep_view(), i as nat),
        decreases n - i,
    {
        let name = tasks.name_at(i);
        let path = tasks.value_at(i);
        add_inline_task(
            &mut found,
            name.as_str(),
            Some(path.as_str()),
            &infos[i],
            crate::text::no_texts(),
        );
        i = i + 1;
    }
    Some(found)
}

/// Matches the metadata block of a script: a long comment opened by
/// `--[=[`, the word `lunar` and the end of the line, and closed by `]=]`,
/// with or without dashes before it. Group 1 is what stands between.
pub open spec fn info_block_pattern() -> Seq<char> {
    r"(?s)--\[=\[[^\S\r\n]*lunar[^\S\n]*\n(.*?)\-*]=\]"@
}

/// What the search for a metadata block came to.
#[derive(Debug, PartialEq, Eq)]
pub enum InfoBlock {
    /// The script has no such block.
    Absent,
    /// The text of the first block.
    Found(String),
    /// The pattern that finds blocks was rejected.
    PatternRejected,
}

/// What an `InfoBlock` holds, as plain values.
pub enum InfoBlockView {
    Absent,
    Found(Seq<char>),
    PatternRejected,
}

impl View for InfoBlock {
    type V = InfoBlockView;

    open spec fn view(&self) -> InfoBlockView {
        match self {
            InfoBlock::Absent => InfoBlockView::Absent,
            InfoBlock::Found(text) => InfoBlockView::Found(text@),
            InfoBlock::PatternRejected => InfoBlockView::PatternRejected,
        }
    }
}

/// The block that a search for group 1 found.
pub open spec fn block_of_capture(capture: Option<Option<Seq<u8>>>) -> InfoBlockView {
    match capture {
        None => InfoBlockView::PatternRejected,
        Some(None) => InfoBlockView::Absent,
        Some(Some(bytes)) => InfoBlockView::Found(lossy_text(bytes)),
    }
}

/// The metadata block of a script with these contents.
pub open spec fn info_block(contents: Seq<u8>) -> InfoBlockView {
    block_of_capture(regex_group_one(info_block_pattern(), contents))
}

/// Reads the block out of what the search found.
pub fn block_from_capture(capture: Option<Option<Vec<u8>>>) -> (r: InfoBlock)
    ensures
        r@ == block_of_capture(capture_view(capture)),
{
    match capture {
        None => InfoBlock::PatternRejected,
        Some(None) => InfoBlock::Absent,
        Some(Some(bytes)) => InfoBlock::Found(from_utf8_lossy(bytes.as_slice())),
    }
}

/// Finds the metadata block in the contents of a script.
pub fn find_info_block(contents: &[u8]) -> (r: InfoBlock)
    ensures
        r@ == info_block(contents@),
{
    block_from_capture(
        regex_first_group(r"(?s)--\[=\[[^\S\r\n]*lunar[^\S\n]*\n(.*?)\-*]=\]", contents),
    )
}

/// The metadata that stands for a block that could not be parsed: nothing
/// but a description that says so.
pub open spec fn parse_failure_info(message: Seq<char>) -> InlineView {
    InlineView {
        args: None,
        about: Some("failed to parse info: "@ + message),
        hide: None,
        tasks: Seq::empty(),
    }
}

/// The metadata of a script, told from its block: none where it has no
/// block, what the block holds where it could be parsed, and a note of the
/// failure where it could not.
pub open spec fn base_script_info(parsed: Option<Result<InlineView, Seq<char>>>) -> InlineView {
    match parsed {
        None => no_info(),
        Some(Ok(info)) => info,
        Some(Err(message)) => parse_failure_info(message),
    }
}

/// The metadata of a script. `parsed` is `None` for a script without a
/// block, and else what parsing the block gave: the metadata, or the
/// parser's message. A block that cannot be parsed is no error.
pub fn get_base_script_info(parsed: Option<Result<InlineTaskInfo, String>>) -> (r: InlineTaskInfo)
    ensures
        r@ == base_script_info(
            match parsed {
                None => None,
                Some(Ok(info)) => Some(Ok(info@)),
                Some(Err(message)) => Some(Err(message@)),
            },
        ),
{
    match parsed {
        None => {
            let r = InlineTaskInfo { args: None, about: None, hide: None, tasks: Vec::new() };
            proof {
                assert(r@.tasks =~= Seq::empty());
            }
            r
        },
        Some(Ok(info)) => info,
        Some(Err(message)) => {
            let r = InlineTaskInfo {
                args: None,
                about: Some(join("failed to parse info: ", message.as_str())),
                hide: None,
                tasks: Vec::new(),
            };
            proof {
                assert(r@.tasks =~= Seq::empty());
            }
            r
        },
    }
}

/// A script without a block has no arguments, no description and no tasks
/// below it, and is not hidden. A script whose block cannot be parsed is not
/// hidden either, and its description begins with the words
/// `failed to parse info:`.
pub proof fn law_scripts_without_usable_metadata(message: Seq<char>)
    ensures
        base_script_info(None) == no_info(),
        !hidden(no_info()),
        !hidden(base_script_info(Some(Err(message)))),
        base_script_info(Some(Err(message))).about is Some,
        starts_with(base_script_info(Some(Err(message))).about.unwrap(), "failed to parse info:"@),
        base_script_info(Some(Err(message))).tasks.len() == 0,
{
    reveal_strlit("failed to parse info: ");
    reveal_strlit("failed to parse info:");
    let about = "failed to parse info: "@ + message;
    assert(about.subrange(0, 21) =~= "failed to parse info:"@);
}

/// `found` is what `before` held under the name, or a task of the script at
/// `path`.
pub open spec fn kept_or_of_script(
    before: Option<TaskInfoView>,
    found: Option<TaskInfoView>,
    path: Option<Seq<char>>,
) -> bool {
    found == before || (found is Some && found.unwrap().path == path)
}

/// All tasks that one script declares run that script: whatever name is
/// looked up after the script's tasks were added holds what it held before
/// or a task with the script's path.
pub proof fn law_declared_tasks_share_the_script(
    base: Infos,
    name: Seq<char>,
    path: Option<Seq<char>>,
    info: InlineView,
    subtask_args: Seq<Seq<char>>,
    wanted: Seq<char>,
)
    requires
        distinct_names(base),
    ensures
        distinct_names(with_inline_task(base, name, path, info, subtask_args)),
        kept_or_of_script(
            lookup(base, wanted),
            lookup(with_inline_task(base, name, path, info, subtask_args), wanted),
            path,
        ),
    decreases info, 0nat,
{
    let task = TaskInfoView { args: info.args, about: info.about, path, subtask_args };
    let shown = if hidden(info) {
        base
    } else {
        put(base, name, task)
    };
    if !hidden(info) {
        lemma_put_distinct(base, name, task);
        lemma_put_lookup(base, name, task, wanted);
    }
    lemma_subtasks_share_the_script(
        shown,
        path,
        info.tasks,
        subtask_args,
        info.tasks.len(),
        wanted,
    );
}

/// The same of the first `n` tasks below a task.
pub proof fn lemma_subtasks_share_the_script(
    base: Infos,
    path: Option<Seq<char>>,
    below: Seq<(Seq<char>, InlineView)>,
    subtask_args: Seq<Seq<char>>,
    n: nat,
    wanted: Seq<char>,
)
    requires
        distinct_names(base),
    ensures
        distinct_names(with_subtasks(base, path, below, subtask_args, n)),
        kept_or_of_script(
            lookup(base, wanted),
            lookup(with_subtasks(base, path, below, subtask_args, n), wanted),
            path,
        ),
    decreases below, n,
{
    if n == 0 || n > below.len() {
    } else {
        let before = with_subtasks(base, path, below, subtask_args, (n - 1) as nat);
        lemma_subtasks_share_the_script(base, path, below, subtask_args, (n - 1) as nat, wanted);
        law_declared_tasks_share_the_script(
            before,
            below[n - 1].0,
            path,
            below[n - 1].1,
            subtask_args.push(below[n - 1].0),
            wanted,
        );
    }
}

/// A task that is not hidden and declares no tasks below it is the one task
/// added, with its metadata, its path and its leading arguments; a hidden
/// one adds nothing.
pub proof fn law_single_task(
    base: Infos,
    name: Seq<char>,
    path: Option<Seq<char>>,
    info: InlineView,
    subtask_args: Seq<Seq<char>>,
)
    requires
        info.tasks.len() == 0,
    ensures
        hidden(info) ==> with_inline_task(base, name, path, info, subtask_args) == base,
        !hidden(info) ==> with_inline_task(base, name, path, info, subtask_args) == put(
            base,
            name,
            TaskInfoView { args: info.args, about: info.about, path, subtask_args },
        ),
{
}

} // verus!
