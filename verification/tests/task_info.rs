use lunar::name_map::NameMap;
use lunar::task_info::{
    add_inline_task, block_from_capture, find_info_block, get_base_script_info, get_task_infos,
    resolve_invocation, DispatchError, InfoBlock, InlineTaskInfo, TaskInfo, TaskInfos,
};

fn info(args: Option<&str>, about: Option<&str>, hide: Option<bool>) -> InlineTaskInfo {
    InlineTaskInfo {
        args: args.map(|a| a.to_string()),
        about: about.map(|a| a.to_string()),
        hide,
        tasks: Vec::new(),
    }
}

fn task(args: Option<&str>, about: Option<&str>, path: Option<&str>, leading: &[&str]) -> TaskInfo {
    TaskInfo {
        args: args.map(|a| a.to_string()),
        about: about.map(|a| a.to_string()),
        path: path.map(|p| p.to_string()),
        subtask_args: leading.iter().map(|s| s.to_string()).collect(),
    }
}

fn names(tasks: &TaskInfos) -> Vec<String> {
    let mut all = Vec::new();
    for i in 0..tasks.len() {
        all.push(tasks.name_at(i).clone());
    }
    all
}

fn found(text: &str) -> InfoBlock {
    InfoBlock::Found(text.to_string())
}

#[test]
fn a_script_without_block_has_default_metadata() {
    let got = get_base_script_info(None);
    assert_eq!(got, info(None, None, None));
    assert_eq!(got.args, None);
    assert_eq!(got.about, None);
    assert_eq!(got.hide, None);
    assert!(got.tasks.is_empty());
}

#[test]
fn a_block_that_cannot_be_parsed_is_noted_in_the_description() {
    let got = get_base_script_info(Some(Err("expected `=`".to_string())));
    assert_eq!(got.about, Some("failed to parse info: expected `=`".to_string()));
    assert!(got.about.as_ref().unwrap().starts_with("failed to parse info:"));
    assert_eq!(got.args, None);
    assert_ne!(got.hide, Some(true));
    assert!(got.tasks.is_empty());
    let empty = get_base_script_info(Some(Err(String::new())));
    assert_eq!(empty.about, Some("failed to parse info: ".to_string()));
}

#[test]
fn a_block_that_was_parsed_is_the_metadata() {
    let mut parsed = info(Some("<file>"), Some("Builds"), Some(false));
    parsed.tasks.push(("sub".to_string(), info(None, None, None)));
    let mut same = info(Some("<file>"), Some("Builds"), Some(false));
    same.tasks.push(("sub".to_string(), info(None, None, None)));
    assert_eq!(get_base_script_info(Some(Ok(parsed))), same);
}

#[test]
fn the_block_is_what_stands_between_marker_and_closing() {
    assert_eq!(
        find_info_block(b"--[=[ lunar\nargs = \"<x>\"\nabout = \"y\"\n--]=]\nprint(1)\n"),
        found("args = \"<x>\"\nabout = \"y\"\n")
    );
    assert_eq!(find_info_block(b"--[=[lunar\n]=]"), found(""));
    assert_eq!(find_info_block(b"--[=[ \t lunar \t\r\nhide = true\n]=]"), found("hide = true\n"));
    assert_eq!(find_info_block(b"-- header\n--[=[ lunar\na\n----]=] tail"), found("a\n"));
    assert_eq!(find_info_block(b"--[=[ lunar\na = 1\r\n--]=]"), found("a = 1\r\n"));
}

#[test]
fn only_the_first_block_counts_and_it_ends_at_the_first_closing() {
    assert_eq!(
        find_info_block(b"--[=[ lunar\nfirst\n]=]\n--[=[ lunar\nsecond\n]=]"),
        found("first\n")
    );
    assert_eq!(find_info_block(b"--[=[ lunar\na ]=] b ]=]"), found("a "));
}

#[test]
fn a_script_without_marker_has_no_block() {
    assert_eq!(find_info_block(b""), InfoBlock::Absent);
    assert_eq!(find_info_block(b"print('lunar')\n"), InfoBlock::Absent);
    assert_eq!(find_info_block(b"--[=[ other\nargs = 1\n]=]"), InfoBlock::Absent);
    assert_eq!(find_info_block(b"--[=[ lunar args\n]=]"), InfoBlock::Absent);
    assert_eq!(find_info_block(b"--[=[\nlunar\n]=]"), InfoBlock::Absent);
    assert_eq!(find_info_block(b"--[[ lunar\n]]"), InfoBlock::Absent);
    assert_eq!(find_info_block(b"--[=[ lunar\nnever closed"), InfoBlock::Absent);
    assert_eq!(find_info_block(b"--[=[ lunar ]=]"), InfoBlock::Absent);
}

#[test]
fn a_block_that_holds_bytes_that_are_no_text_is_not_found() {
    assert_eq!(find_info_block(b"--[=[ lunar\na\xffb\n]=]"), InfoBlock::Absent);
    assert_eq!(find_info_block("--[=[ lunar\nä = 1\n]=]".as_bytes()), found("ä = 1\n"));
    assert_eq!(block_from_capture(Some(Some(b"a\xffb".to_vec()))), found("a\u{fffd}b"));
}

#[test]
fn what_the_search_found_becomes_the_block() {
    assert_eq!(block_from_capture(None), InfoBlock::PatternRejected);
    assert_eq!(block_from_capture(Some(None)), InfoBlock::Absent);
    assert_eq!(block_from_capture(Some(Some(b"x = 1".to_vec()))), found("x = 1"));
    assert_eq!(block_from_capture(Some(Some(Vec::new()))), found(""));
}

#[test]
fn a_task_is_added_with_its_metadata_and_path() {
    let mut tasks: TaskInfos = NameMap::new();
    add_inline_task(
        &mut tasks,
        "build",
        Some("lune/build.luau"),
        &info(Some("<target>"), Some("Builds"), None),
        Vec::new(),
    );
    assert_eq!(names(&tasks), vec!["build"]);
    assert_eq!(
        tasks.get("build"),
        Some(&task(Some("<target>"), Some("Builds"), Some("lune/build.luau"), &[]))
    );
}

#[test]
fn a_task_without_path_is_added_without_one() {
    let mut tasks: TaskInfos = NameMap::new();
    add_inline_task(&mut tasks, "t", None, &info(None, None, Some(false)), vec!["x".to_string()]);
    assert_eq!(tasks.get("t"), Some(&task(None, None, None, &["x"])));
}

#[test]
fn subtasks_share_the_script_and_collect_their_names_as_arguments() {
    let mut deep = info(None, Some("deep"), None);
    deep.tasks.push(("leaf".to_string(), info(Some("[n]"), None, None)));
    let mut root = info(None, Some("root"), None);
    root.tasks.push(("first".to_string(), info(None, Some("one"), None)));
    root.tasks.push(("second".to_string(), deep));
    let mut tasks: TaskInfos = NameMap::new();
    add_inline_task(&mut tasks, "tool", Some("p.luau"), &root, Vec::new());
    assert_eq!(names(&tasks), vec!["tool", "first", "second", "leaf"]);
    assert_eq!(tasks.get("tool"), Some(&task(None, Some("root"), Some("p.luau"), &[])));
    assert_eq!(tasks.get("first"), Some(&task(None, Some("one"), Some("p.luau"), &["first"])));
    assert_eq!(tasks.get("second"), Some(&task(None, Some("deep"), Some("p.luau"), &["second"])));
    assert_eq!(
        tasks.get("leaf"),
        Some(&task(Some("[n]"), None, Some("p.luau"), &["second", "leaf"]))
    );
}

#[test]
fn a_hidden_task_is_left_out_but_its_subtasks_are_not() {
    let mut root = info(Some("a"), Some("hidden root"), Some(true));
    root.tasks.push(("shown".to_string(), info(None, None, None)));
    root.tasks.push(("unseen".to_string(), info(None, None, Some(true))));
    let mut tasks: TaskInfos = NameMap::new();
    add_inline_task(&mut tasks, "tool", Some("p.luau"), &root, Vec::new());
    assert_eq!(names(&tasks), vec!["shown"]);
    assert_eq!(tasks.get("shown"), Some(&task(None, None, Some("p.luau"), &["shown"])));
}

#[test]
fn a_later_task_of_the_same_name_takes_the_place_of_an_earlier_one() {
    let mut root = info(None, Some("outer"), None);
    root.tasks.push(("tool".to_string(), info(None, Some("inner"), None)));
    let mut tasks: TaskInfos = NameMap::new();
    add_inline_task(&mut tasks, "tool", Some("p.luau"), &root, Vec::new());
    assert_eq!(names(&tasks), vec!["tool"]);
    assert_eq!(tasks.get("tool"), Some(&task(None, Some("inner"), Some("p.luau"), &["tool"])));
}

#[test]
fn every_script_yields_its_tasks_in_order() {
    let mut scripts: NameMap<String> = NameMap::new();
    scripts.insert("a".to_string(), "lune/a.luau".to_string());
    scripts.insert("b".to_string(), "lune/b.luau".to_string());
    let mut first = info(None, Some("A"), None);
    first.tasks.push(("sub".to_string(), info(None, None, None)));
    let infos = vec![first, get_base_script_info(None)];
    let tasks = get_task_infos(&scripts, &infos).unwrap();
    assert_eq!(names(&tasks), vec!["a", "sub", "b"]);
    assert_eq!(tasks.get("a"), Some(&task(None, Some("A"), Some("lune/a.luau"), &[])));
    assert_eq!(tasks.get("sub"), Some(&task(None, None, Some("lune/a.luau"), &["sub"])));
    assert_eq!(tasks.get("b"), Some(&task(None, None, Some("lune/b.luau"), &[])));
}

#[test]
fn scripts_and_metadata_must_pair_up() {
    let mut scripts: NameMap<String> = NameMap::new();
    scripts.insert("a".to_string(), "lune/a.luau".to_string());
    assert!(get_task_infos(&scripts, &Vec::new()).is_none());
    assert!(get_task_infos(&scripts, &vec![info(None, None, None), info(None, None, None)])
        .is_none());
    let none: NameMap<String> = NameMap::new();
    assert_eq!(get_task_infos(&none, &Vec::new()).unwrap().len(), 0);
}

#[test]
fn a_script_with_unparsable_metadata_is_still_a_task() {
    let mut scripts: NameMap<String> = NameMap::new();
    scripts.insert("bad".to_string(), "lune/bad.luau".to_string());
    let infos = vec![get_base_script_info(Some(Err("invalid".to_string())))];
    let tasks = get_task_infos(&scripts, &infos).unwrap();
    assert_eq!(
        tasks.get("bad"),
        Some(&task(None, Some("failed to parse info: invalid"), Some("lune/bad.luau"), &[]))
    );
}

#[test]
fn a_task_runs_its_script_with_leading_arguments_first() {
    let t = task(None, None, Some("lune/tool.luau"), &["second", "leaf"]);
    assert_eq!(
        t.run_arguments(&vec!["--flag".to_string(), "value".to_string()]),
        Some(vec![
            "run".to_string(),
            "lune/tool.luau".to_string(),
            "--".to_string(),
            "second".to_string(),
            "leaf".to_string(),
            "--flag".to_string(),
            "value".to_string(),
        ])
    );
    assert_eq!(
        task(None, None, Some("a.luau"), &[]).run_arguments(&Vec::new()),
        Some(vec!["run".to_string(), "a.luau".to_string(), "--".to_string()])
    );
    assert_eq!(task(None, None, None, &["x"]).run_arguments(&Vec::new()), None);
}

#[test]
fn a_task_name_resolves_to_the_arguments_that_run_it() {
    let mut tasks: TaskInfos = NameMap::new();
    tasks.insert("tool".to_string(), task(None, None, Some("lune/tool.luau"), &["sub"]));
    tasks.insert("ghost".to_string(), task(None, None, None, &[]));
    assert_eq!(
        resolve_invocation(&tasks, "tool", &vec!["x".to_string()]),
        Ok(vec![
            "run".to_string(),
            "lune/tool.luau".to_string(),
            "--".to_string(),
            "sub".to_string(),
            "x".to_string(),
        ])
    );
    assert_eq!(resolve_invocation(&tasks, "ghost", &Vec::new()), Err(DispatchError::NotRunnable));
    assert_eq!(resolve_invocation(&tasks, "none", &Vec::new()), Err(DispatchError::NotFound));
    assert_eq!(resolve_invocation(&tasks, "", &Vec::new()), Err(DispatchError::NotFound));
}
