//! What holds of every walk: how a selection filters and renames, that a
//! declined repository leaves no trace, and that work on a directory leaves
//! the tasks around it alone until the merge.

use vstd::prelude::*;
use crate::entries::{entry_kind, EntryKindView};
use crate::name_map::{
    distinct_names, has_name, index_of, lemma_lookup_last, lemma_put_distinct, lemma_put_lookup,
    lookup,
};
use crate::resolver::{
    lemma_job_stack, merged, passes, prefix_text, resolve_step, EventView, JobView, ResolverView,
    Tasks,
};
use crate::task_config::{empty_selector, ConfigView, SelectorView};
use crate::text::starts_with;

verus! {

/// What a selection leaves in the tasks around it. A name holds the path
/// that the selected directory gave, where the name is the prefix followed
/// by the name of a task found there that passes the filter; every other
/// name holds what it held before.
pub proof fn law_selection_filters_and_prefixes(
    base: Tasks,
    sub: Tasks,
    filter: Option<Seq<Seq<char>>>,
    prefix: Option<Seq<char>>,
    name: Seq<char>,
)
    requires
        distinct_names(base),
        distinct_names(sub),
    ensures
        distinct_names(merged(base, sub, filter, prefix)),
        lookup(merged(base, sub, filter, prefix), name) == ({
            let p = prefix_text(prefix);
            let found = name.skip(p.len() as int);
            if starts_with(name, p) && has_name(sub, found) && passes(filter, found) {
                lookup(sub, found)
            } else {
                lookup(base, name)
            }
        }),
    decreases sub.len(),
{
    let p = prefix_text(prefix);
    let found = name.skip(p.len() as int);
    if sub.len() > 0 {
        let init = sub.drop_last();
        let last = sub.last();
        let before = merged(base, init, filter, prefix);
        lemma_lookup_last(sub, found);
        law_selection_filters_and_prefixes(base, init, filter, prefix, name);
        assert((p + last.0).skip(p.len() as int) =~= last.0);
        assert((p + last.0).subrange(0, p.len() as int) =~= p);
        if starts_with(name, p) {
            assert(name =~= p + found);
        }
        if passes(filter, last.0) {
            lemma_put_distinct(before, p + last.0, last.1);
            lemma_put_lookup(before, p + last.0, last.1, name);
        }
        if has_name(init, found) {
            let k = index_of(init, found);
            assert(sub[k].0 == found);
            assert(has_name(sub, found));
        }
        if found == last.0 {
            assert(sub[sub.len() - 1].0 == found);
            assert(has_name(sub, found));
        }
    }
}

/// Declining a repository is as if its config had never named it: no task
/// comes of it, the walk is not given up, and what else the config holds is
/// still to be done. The same holds of a repository that cannot be fetched.
pub proof fn law_declined_repository_yields_no_task(
    s: ResolverView,
    config: ConfigView,
    fallback: Seq<char>,
    error: Seq<char>,
)
    requires
        s.failure is None,
        config.repo is Some,
    ensures
        resolve_step(s.load(config, fallback), EventView::Resume).1 is AskTrust,
        resolve_step(s.load(config, fallback), EventView::Trust(false)).0 == s.load(
            ConfigView { repo: None, ..config },
            fallback,
        ),
        resolve_step(s.load(config, fallback), EventView::Trust(false)).1 is Proceed,
        resolve_step(
            resolve_step(s.load(config, fallback), EventView::Trust(true)).0,
            EventView::Fetched(Err(error)),
        ).0 == s.load(ConfigView { repo: None, ..config }, fallback),
        s.load(ConfigView { repo: None, script: None, directory: None, ..config }, fallback) == s,
{
    let without = s.load(ConfigView { repo: None, ..config }, fallback);
    let with = s.load(config, fallback);
    let name = match config.name {
        Some(n) => n,
        None => fallback,
    };
    let job = JobView::Repo { repo: config.repo.unwrap(), name, trusted: false };
    assert(with == without.push(job));
    lemma_job_stack(without, job, JobView::Repo { repo: config.repo.unwrap(), name, trusted: true });
    let asked = resolve_step(with, EventView::Trust(true)).0;
    assert(asked == without.push(JobView::Repo { repo: config.repo.unwrap(), name, trusted: true }));
    lemma_job_stack(without, JobView::Repo { repo: config.repo.unwrap(), name, trusted: true }, job);
}

/// The number of selections that are under way: the merges that are left.
pub open spec fn pending_merges(jobs: Seq<JobView>) -> nat
    decreases jobs.len(),
{
    if jobs.len() == 0 {
        0
    } else {
        pending_merges(jobs.drop_last()) + if jobs.last() is Merge {
            1nat
        } else {
            0nat
        }
    }
}

/// Every selection under way has its own task map, and there is no other.
/// Nothing is said of a walk that was given up.
pub open spec fn balanced(s: ResolverView) -> bool {
    s.failure is None ==> s.subs.len() == pending_merges(s.jobs)
}

proof fn lemma_pending_push(jobs: Seq<JobView>, job: JobView)
    ensures
        pending_merges(jobs.push(job)) == pending_merges(jobs) + if job is Merge {
            1nat
        } else {
            0nat
        },
{
    assert(jobs.push(job).drop_last() =~= jobs);
}

proof fn lemma_load_keeps_balance(s: ResolverView, config: ConfigView, fallback: Seq<char>)
    requires
        balanced(s),
    ensures
        balanced(s.load(config, fallback)),
        s.load(config, fallback).failure == s.failure,
{
    let name = match config.name {
        Some(n) => n,
        None => fallback,
    };
    let with_script = match config.script {
        Some(path) => s.insert(name, path),
        None => s,
    };
    assert(balanced(with_script));
    match config.directory {
        Some(d) => {
            let job = JobView::Select {
                dir: d.path,
                name,
                selector: match d.selector {
                    Some(sel) => sel,
                    None => empty_selector(),
                },
            };
            lemma_pending_push(with_script.jobs, job);
            match config.repo {
                Some(repo) => {
                    lemma_pending_push(
                        with_script.push(job).jobs,
                        JobView::Repo { repo, name, trusted: false },
                    );
                },
                None => {},
            }
        },
        None => {
            match config.repo {
                Some(repo) => {
                    lemma_pending_push(
                        with_script.jobs,
                        JobView::Repo { repo, name, trusted: false },
                    );
                },
                None => {},
            }
        },
    }
}

/// A walk keeps one task map for each selection under way. It begins so
/// and every event leaves it so; hence, when no work is left, every task
/// found has reached the root's map.
pub proof fn law_walk_is_balanced(s: ResolverView, e: EventView, tasks: Tasks, job: JobView)
    ensures
        !(job is Merge) ==> balanced(ResolverView::start(tasks, job)),
        balanced(s) ==> balanced(resolve_step(s, e).0),
        balanced(s) && s.failure is None && s.jobs.len() == 0 ==> s.subs.len() == 0,
{
    if !(job is Merge) {
        lemma_pending_push(Seq::empty(), job);
        assert(seq![job] =~= Seq::<JobView>::empty().push(job));
    }
    if balanced(s) && s.failure is None && s.jobs.len() > 0 && !(e is Failed) {
        let rest = s.pop();
        let top = s.jobs.last();
        assert(s.jobs =~= rest.jobs.push(top));
        lemma_pending_push(rest.jobs, top);
        match top {
            JobView::Walk { dir, next } => {
                let onward = JobView::Walk { dir, next: (next + 1) as usize };
                lemma_pending_push(rest.jobs, onward);
                match e {
                    EventView::Listed(Some(entries)) => {
                        lemma_pending_push(
                            rest.jobs.push(onward),
                            JobView::Entries { entries, next: 0 },
                        );
                    },
                    _ => {},
                }
            },
            JobView::Entries { entries, next } => {
                let onward = JobView::Entries { entries, next: (next + 1) as usize };
                lemma_pending_push(rest.jobs, onward);
                match e {
                    EventView::Loaded(config) => {
                        if next < entries.len() {
                            match entry_kind(entries[next as int].file_name) {
                                EntryKindView::Config(fallback) => {
                                    assert(balanced(s.replace(onward)));
                                    lemma_load_keeps_balance(s.replace(onward), config, fallback);
                                },
                                _ => {},
                            }
                        }
                    },
                    _ => {},
                }
            },
            JobView::Repo { repo, name, trusted } => {
                lemma_pending_push(rest.jobs, JobView::Repo { repo, name, trusted: true });
                match e {
                    EventView::Fetched(Ok(dir)) => {
                        lemma_pending_push(
                            rest.jobs,
                            JobView::Select {
                                dir,
                                name,
                                selector: match repo.selector {
                                    Some(sel) => sel,
                                    None => empty_selector(),
                                },
                            },
                        );
                    },
                    _ => {},
                }
            },
            JobView::Select { dir, name, selector } => {
                match selector.script {
                    Some(script) => {
                        lemma_pending_push(
                            rest.jobs,
                            JobView::Probe { dir, name, script, next: 0 },
                        );
                    },
                    None => {
                        let merge = JobView::Merge {
                            filter: selector.tasks,
                            prefix: selector.prefix,
                        };
                        lemma_pending_push(rest.jobs, merge);
                        lemma_pending_push(rest.jobs.push(merge), JobView::Walk { dir, next: 0 });
                    },
                }
            },
            JobView::Probe { dir, name, script, next } => {
                lemma_pending_push(
                    rest.jobs,
                    JobView::Probe { dir, name, script, next: (next + 1) as usize },
                );
            },
            JobView::Merge { filter, prefix } => {},
        }
    }
}

/// The walk `s` carried out as part of a larger one: its work lies above
/// the jobs `jobs`, and its tasks, root map first, above the maps `subs` of
/// a walk whose own root holds `root`.
pub open spec fn lifted(s: ResolverView, jobs: Seq<JobView>, subs: Seq<Tasks>, root: Tasks)
    -> ResolverView {
    ResolverView {
        root,
        subs: subs.push(s.root) + s.subs,
        jobs: jobs + s.jobs,
        failure: s.failure,
    }
}

proof fn lemma_lifted_jobs(
    s: ResolverView,
    jobs: Seq<JobView>,
    subs: Seq<Tasks>,
    root: Tasks,
    job: JobView,
)
    ensures
        lifted(s, jobs, subs, root).push(job) == lifted(s.push(job), jobs, subs, root),
        s.jobs.len() > 0 ==> lifted(s, jobs, subs, root).pop() == lifted(s.pop(), jobs, subs, root),
        s.jobs.len() > 0 ==> lifted(s, jobs, subs, root).jobs.last() == s.jobs.last(),
        s.jobs.len() > 0 ==> lifted(s, jobs, subs, root).replace(job) == lifted(
            s.replace(job),
            jobs,
            subs,
            root,
        ),
{
    assert((jobs + s.jobs).push(job) =~= jobs + s.jobs.push(job));
    if s.jobs.len() > 0 {
        assert((jobs + s.jobs).drop_last() =~= jobs + s.jobs.drop_last());
        assert((jobs + s.jobs).drop_last().push(job) =~= jobs + s.jobs.drop_last().push(job));
    }
}

proof fn lemma_lifted_tasks(
    s: ResolverView,
    jobs: Seq<JobView>,
    subs: Seq<Tasks>,
    root: Tasks,
    tasks: Tasks,
)
    ensures
        lifted(s, jobs, subs, root).top() == s.top(),
        lifted(s, jobs, subs, root).with_top(tasks) == lifted(s.with_top(tasks), jobs, subs, root),
{
    let up = lifted(s, jobs, subs, root);
    if s.subs.len() > 0 {
        assert(up.subs.drop_last().push(tasks) =~= subs.push(s.root) + s.subs.drop_last().push(
            tasks,
        ));
    } else {
        assert(up.subs =~= subs.push(s.root));
        assert(up.subs.drop_last().push(tasks) =~= subs.push(tasks) + s.subs);
    }
}

proof fn lemma_lifted_load(
    s: ResolverView,
    jobs: Seq<JobView>,
    subs: Seq<Tasks>,
    root: Tasks,
    config: ConfigView,
    fallback: Seq<char>,
)
    ensures
        lifted(s, jobs, subs, root).load(config, fallback) == lifted(
            s.load(config, fallback),
            jobs,
            subs,
            root,
        ),
{
    let name = match config.name {
        Some(n) => n,
        None => fallback,
    };
    let with_script = match config.script {
        Some(path) => s.insert(name, path),
        None => s,
    };
    match config.script {
        Some(path) => {
            lemma_lifted_tasks(s, jobs, subs, root, crate::name_map::put(s.top(), name, path));
        },
        None => {},
    }
    match config.directory {
        Some(d) => {
            let job = JobView::Select {
                dir: d.path,
                name,
                selector: match d.selector {
                    Some(sel) => sel,
                    None => empty_selector(),
                },
            };
            lemma_lifted_jobs(with_script, jobs, subs, root, job);
            match config.repo {
                Some(repo) => {
                    lemma_lifted_jobs(
                        with_script.push(job),
                        jobs,
                        subs,
                        root,
                        JobView::Repo { repo, name, trusted: false },
                    );
                },
                None => {},
            }
        },
        None => {
            match config.repo {
                Some(repo) => {
                    lemma_lifted_jobs(
                        with_script,
                        jobs,
                        subs,
                        root,
                        JobView::Repo { repo, name, trusted: false },
                    );
                },
                None => {},
            }
        },
    }
}

/// A walk goes the same way at any depth. Carried out above other work, it
/// asks for the same actions as on its own and comes to the same jobs and
/// tasks, with what lies below untouched; and it is given up on the same
/// events. So the tasks that a selection merges are those that a walk of
/// its directory finds on its own.
pub proof fn law_walk_is_the_same_at_any_depth(
    s: ResolverView,
    e: EventView,
    jobs: Seq<JobView>,
    subs: Seq<Tasks>,
    root: Tasks,
)
    requires
        s.failure is None,
        s.jobs.len() > 0,
        balanced(s),
    ensures
        resolve_step(lifted(s, jobs, subs, root), e).1 == resolve_step(s, e).1,
        resolve_step(s, e).0.failure is None ==> resolve_step(lifted(s, jobs, subs, root), e).0
            == lifted(resolve_step(s, e).0, jobs, subs, root),
        resolve_step(lifted(s, jobs, subs, root), e).0.failure == resolve_step(s, e).0.failure,
{
    let up = lifted(s, jobs, subs, root);
    let top = s.jobs.last();
    lemma_lifted_jobs(s, jobs, subs, root, top);
    if !(e is Failed) {
        match top {
            JobView::Walk { dir, next } => {
                let onward = JobView::Walk { dir, next: (next + 1) as usize };
                lemma_lifted_jobs(s, jobs, subs, root, onward);
                match e {
                    EventView::Listed(Some(entries)) => {
                        lemma_lifted_jobs(
                            s.replace(onward),
                            jobs,
                            subs,
                            root,
                            JobView::Entries { entries, next: 0 },
                        );
                    },
                    _ => {},
                }
            },
            JobView::Entries { entries, next } => {
                let onward = JobView::Entries { entries, next: (next + 1) as usize };
                lemma_lifted_jobs(s, jobs, subs, root, onward);
                if next < entries.len() {
                    match entry_kind(entries[next as int].file_name) {
                        EntryKindView::Script(name) => {
                            lemma_lifted_tasks(
                                s.replace(onward),
                                jobs,
                                subs,
                                root,
                                crate::name_map::put(
                                    s.replace(onward).top(),
                                    name,
                                    entries[next as int].path,
                                ),
                            );
                        },
                        EntryKindView::Config(fallback) => {
                            match e {
                                EventView::Loaded(config) => {
                                    lemma_lifted_load(
                                        s.replace(onward),
                                        jobs,
                                        subs,
                                        root,
                                        config,
                                        fallback,
                                    );
                                },
                                _ => {},
                            }
                        },
                        _ => {},
                    }
                }
            },
            JobView::Repo { repo, name, trusted } => {
                lemma_lifted_jobs(
                    s,
                    jobs,
                    subs,
                    root,
                    JobView::Repo { repo, name, trusted: true },
                );
                match e {
                    EventView::Fetched(Ok(dir)) => {
                        lemma_lifted_jobs(
                            s,
                            jobs,
                            subs,
                            root,
                            JobView::Select {
                                dir,
                                name,
                                selector: match repo.selector {
                                    Some(sel) => sel,
                                    None => empty_selector(),
                                },
                            },
                        );
                    },
                    _ => {},
                }
            },
            JobView::Select { dir, name, selector } => {
                match selector.script {
                    Some(script) => {
                        lemma_lifted_jobs(
                            s,
                            jobs,
                            subs,
                            root,
                            JobView::Probe { dir, name, script, next: 0 },
                        );
                    },
                    None => {
                        let merge = JobView::Merge {
                            filter: selector.tasks,
                            prefix: selector.prefix,
                        };
                        lemma_lifted_jobs(s, jobs, subs, root, merge);
                        lemma_lifted_jobs(
                            s.replace(merge),
                            jobs,
                            subs,
                            root,
                            JobView::Walk { dir, next: 0 },
                        );
                        assert(up.subs.push(Seq::empty()) =~= subs.push(s.root) + s.subs.push(
                            Seq::empty(),
                        ));
                    },
                }
            },
            JobView::Probe { dir, name, script, next } => {
                lemma_lifted_jobs(
                    s,
                    jobs,
                    subs,
                    root,
                    JobView::Probe { dir, name, script, next: (next + 1) as usize },
                );
                match e {
                    EventView::Found(Some(path)) => {
                        lemma_lifted_tasks(
                            s.pop(),
                            jobs,
                            subs,
                            root,
                            crate::name_map::put(s.pop().top(), name, path),
                        );
                    },
                    _ => {},
                }
            },
            JobView::Merge { filter, prefix } => {
                match e {
                    EventView::Resume => {
                        assert(s.jobs =~= s.jobs.drop_last().push(top));
                        lemma_pending_push(s.jobs.drop_last(), top);
                        assert(s.subs.len() > 0);
                        let around = ResolverView { subs: s.subs.drop_last(), ..s.pop() };
                        let around_up = ResolverView { subs: up.subs.drop_last(), ..up.pop() };
                        assert(up.subs.drop_last() =~= subs.push(s.root) + s.subs.drop_last());
                        assert(around_up == lifted(around, jobs, subs, root));
                        assert(up.subs.last() == s.subs.last());
                        lemma_lifted_tasks(
                            around,
                            jobs,
                            subs,
                            root,
                            merged(around.top(), s.subs.last(), filter, prefix),
                        );
                    },
                    _ => {},
                }
            },
        }
    }
}

/// Where a walk stands after a sequence of events.
pub open spec fn run(s: ResolverView, events: Seq<EventView>) -> ResolverView
    decreases events.len(),
{
    if events.len() == 0 {
        s
    } else {
        run(resolve_step(s, events[0]).0, events.drop_first())
    }
}

/// The events take the walk to its end and no further: the walk is not
/// given up, every event finds work left, and the last one leaves none.
pub open spec fn runs_to_the_end(s: ResolverView, events: Seq<EventView>) -> bool
    decreases events.len(),
{
    &&& s.failure is None
    &&& if events.len() == 0 {
        s.jobs.len() == 0
    } else {
        s.jobs.len() > 0 && runs_to_the_end(resolve_step(s, events[0]).0, events.drop_first())
    }
}

/// One event takes the walk one step.
pub proof fn lemma_run_one(s: ResolverView, e: EventView)
    ensures
        run(s, seq![e]) == resolve_step(s, e).0,
{
    reveal_with_fuel(run, 2);
    assert(seq![e].drop_first() =~= Seq::<EventView>::empty());
}

/// Events taken one sequence after another are taken as one sequence.
pub proof fn lemma_run_in_parts(s: ResolverView, first: Seq<EventView>, second: Seq<EventView>)
    ensures
        run(s, first + second) == run(run(s, first), second),
    decreases first.len(),
{
    if first.len() == 0 {
        assert(first + second =~= second);
    } else {
        assert((first + second)[0] == first[0]);
        assert((first + second).drop_first() =~= first.drop_first() + second);
        lemma_run_in_parts(resolve_step(s, first[0]).0, first.drop_first(), second);
    }
}

/// A whole walk goes the same way at any depth: the events that take it to
/// its end on its own take it to the same end above other work, and leave
/// that work and its tasks as they were.
pub proof fn law_whole_walk_is_the_same_at_any_depth(
    s: ResolverView,
    events: Seq<EventView>,
    jobs: Seq<JobView>,
    subs: Seq<Tasks>,
    root: Tasks,
)
    requires
        balanced(s),
        runs_to_the_end(s, events),
    ensures
        run(lifted(s, jobs, subs, root), events) == lifted(run(s, events), jobs, subs, root),
        run(s, events).failure is None,
        run(s, events).jobs.len() == 0,
        run(s, events).subs.len() == 0,
    decreases events.len(),
{
    if events.len() == 0 {
        law_walk_is_balanced(s, EventView::Resume, s.root, JobView::Walk { dir: Seq::empty(), next: 0 });
    } else {
        let e = events[0];
        let t = resolve_step(s, e).0;
        law_walk_is_the_same_at_any_depth(s, e, jobs, subs, root);
        law_walk_is_balanced(s, e, s.root, JobView::Walk { dir: Seq::empty(), next: 0 });
        law_whole_walk_is_the_same_at_any_depth(t, events.drop_first(), jobs, subs, root);
    }
}

/// Selecting from a directory is walking it and merging what was found.
/// Let a walk of `dir`, begun with no tasks, come to its end on some events.
/// Then a selection from `dir` without a single script, begun with the tasks
/// `base`, comes to its end on the same events, with one step before them
/// and one after; and its tasks are `base` merged with the tasks of that
/// walk, as the selector's filter and prefix have it.
pub proof fn law_selection_is_a_walk_and_a_merge(
    base: Tasks,
    dir: Seq<char>,
    name: Seq<char>,
    selector: SelectorView,
    events: Seq<EventView>,
)
    requires
        selector.script is None,
        runs_to_the_end(
            ResolverView::start(Seq::empty(), JobView::Walk { dir, next: 0 }),
            events,
        ),
    ensures
        run(
            ResolverView::start(base, JobView::Select { dir, name, selector }),
            seq![EventView::Resume] + events + seq![EventView::Resume],
        ) == (ResolverView {
            root: merged(
                base,
                run(ResolverView::start(Seq::empty(), JobView::Walk { dir, next: 0 }), events).root,
                selector.tasks,
                selector.prefix,
            ),
            subs: Seq::empty(),
            jobs: Seq::empty(),
            failure: None,
        }),
{
    let walk = ResolverView::start(Seq::empty(), JobView::Walk { dir, next: 0 });
    let select = ResolverView::start(base, JobView::Select { dir, name, selector });
    let merge = JobView::Merge { filter: selector.tasks, prefix: selector.prefix };
    let resume = seq![EventView::Resume];
    let begun = resolve_step(select, EventView::Resume).0;
    assert(begun.jobs =~= seq![merge] + walk.jobs);
    assert(begun.subs =~= Seq::<Tasks>::empty().push(walk.root) + walk.subs);
    assert(begun == lifted(walk, seq![merge], Seq::empty(), base));
    law_walk_is_balanced(walk, EventView::Resume, Seq::empty(), JobView::Walk { dir, next: 0 });
    law_whole_walk_is_the_same_at_any_depth(walk, events, seq![merge], Seq::empty(), base);
    let found = run(walk, events);
    let ready = lifted(found, seq![merge], Seq::empty(), base);
    assert(ready.jobs =~= seq![merge]);
    assert(ready.subs =~= seq![found.root]);
    let done = resolve_step(ready, EventView::Resume).0;
    assert(done.jobs =~= Seq::empty());
    assert(done.subs =~= Seq::empty());
    lemma_run_one(select, EventView::Resume);
    lemma_run_one(ready, EventView::Resume);
    lemma_run_in_parts(select, resume, events);
    lemma_run_in_parts(select, resume + events, resume);
}

} // verus!
