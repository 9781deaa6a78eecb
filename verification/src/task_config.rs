//! Declarative task configs: what a `*.lunar.toml` file may hold.

use vstd::prelude::*;
use crate::text::{copy_list, copy_option};

verus! {

/// Which tasks to take from a directory: one script by file name, or the
/// tasks found there, narrowed by a list of names and renamed by a prefix.
#[derive(Debug, PartialEq, Eq)]
pub struct ScriptSelector {
    pub script: Option<String>,
    pub tasks: Option<Vec<String>>,
    pub prefix: Option<String>,
}

/// What a `ScriptSelector` holds, as plain values.
pub struct SelectorView {
    pub script: Option<Seq<char>>,
    pub tasks: Option<Seq<Seq<char>>>,
    pub prefix: Option<Seq<char>>,
}

impl View for ScriptSelector {
    type V = SelectorView;

    open spec fn view(&self) -> SelectorView {
        SelectorView {
            script: self.script.deep_view(),
            tasks: self.tasks.deep_view(),
            prefix: self.prefix.deep_view(),
        }
    }
}

impl DeepView for ScriptSelector {
    type V = SelectorView;

    open spec fn deep_view(&self) -> SelectorView {
        self@
    }
}

/// The selector that names no script, no list and no prefix.
pub open spec fn empty_selector() -> SelectorView {
    SelectorView { script: None, tasks: None, prefix: None }
}

impl Default for ScriptSelector {
    fn default() -> (r: Self)
        ensures
            r@ == empty_selector(),
    {
        ScriptSelector { script: None, tasks: None, prefix: None }
    }
}

impl Clone for ScriptSelector {
    fn clone(&self) -> (r: Self)
        ensures
            r@ == self@,
    {
        let tasks = match &self.tasks {
            Some(list) => Some(copy_list(list)),
            None => None,
        };
        let r = ScriptSelector {
            script: copy_option(&self.script),
            tasks,
            prefix: copy_option(&self.prefix),
        };
        proof {
            if self.tasks is Some {
                assert(r.tasks.deep_view()->0 =~= self.tasks.deep_view()->0);
            }
        }
        r
    }
}

/// A repository to fetch: where it is, which tag or commit, and what to take
/// from it.
#[derive(Debug, PartialEq, Eq)]
pub struct StandaloneTaskConfigRepo {
    pub url: String,
    pub tag: Option<String>,
    pub hash: Option<String>,
    pub selector: Option<ScriptSelector>,
}

/// What a `StandaloneTaskConfigRepo` holds, as plain values.
pub struct RepoView {
    pub url: Seq<char>,
    pub tag: Option<Seq<char>>,
    pub hash: Option<Seq<char>>,
    pub selector: Option<SelectorView>,
}

impl View for StandaloneTaskConfigRepo {
    type V = RepoView;

    open spec fn view(&self) -> RepoView {
        RepoView {
            url: self.url@,
            tag: self.tag.deep_view(),
            hash: self.hash.deep_view(),
            selector: self.selector.deep_view(),
        }
    }
}

impl DeepView for StandaloneTaskConfigRepo {
    type V = RepoView;

    open spec fn deep_view(&self) -> RepoView {
        self@
    }
}

impl Clone for StandaloneTaskConfigRepo {
    fn clone(&self) -> (r: Self)
        ensures
            r@ == self@,
    {
        let selector = match &self.selector {
            Some(s) => Some(s.clone()),
            None => None,
        };
        StandaloneTaskConfigRepo {
            url: self.url.clone(),
            tag: copy_option(&self.tag),
            hash: copy_option(&self.hash),
            selector,
        }
    }
}

/// A local directory to take tasks from.
#[derive(Debug, PartialEq, Eq)]
pub struct StandaloneTaskConfigDirectory {
    pub path: String,
    pub selector: Option<ScriptSelector>,
}

/// What a `StandaloneTaskConfigDirectory` holds, as plain values.
pub struct DirectoryView {
    pub path: Seq<char>,
    pub selector: Option<SelectorView>,
}

impl View for StandaloneTaskConfigDirectory {
    type V = DirectoryView;

    open spec fn view(&self) -> DirectoryView {
        DirectoryView { path: self.path@, selector: self.selector.deep_view() }
    }
}

impl DeepView for StandaloneTaskConfigDirectory {
    type V = DirectoryView;

    open spec fn deep_view(&self) -> DirectoryView {
        self@
    }
}

impl Clone for StandaloneTaskConfigDirectory {
    fn clone(&self) -> (r: Self)
        ensures
            r@ == self@,
    {
        let selector = match &self.selector {
            Some(s) => Some(s.clone()),
            None => None,
        };
        StandaloneTaskConfigDirectory { path: self.path.clone(), selector }
    }
}

/// One config file. Each of `script`, `repo` and `directory` that is present
/// contributes tasks on its own.
#[derive(Debug, PartialEq, Eq)]
pub struct StandaloneTaskConfig {
    pub name: Option<String>,
    pub repo: Option<StandaloneTaskConfigRepo>,
    pub directory: Option<StandaloneTaskConfigDirectory>,
    pub script: Option<String>,
}

/// What a `StandaloneTaskConfig` holds, as plain values.
pub struct ConfigView {
    pub name: Option<Seq<char>>,
    pub repo: Option<RepoView>,
    pub directory: Option<DirectoryView>,
    pub script: Option<Seq<char>>,
}

impl View for StandaloneTaskConfig {
    type V = ConfigView;

    open spec fn view(&self) -> ConfigView {
        ConfigView {
            name: self.name.deep_view(),
            repo: self.repo.deep_view(),
            directory: self.directory.deep_view(),
            script: self.script.deep_view(),
        }
    }
}

impl DeepView for StandaloneTaskConfig {
    type V = ConfigView;

    open spec fn deep_view(&self) -> ConfigView {
        self@
    }
}

impl Clone for StandaloneTaskConfig {
    fn clone(&self) -> (r: Self)
        ensures
            r@ == self@,
    {
        let repo = match &self.repo {
            Some(s) => Some(s.clone()),
            None => None,
        };
        let directory = match &self.directory {
            Some(s) => Some(s.clone()),
            None => None,
        };
        StandaloneTaskConfig {
            name: copy_option(&self.name),
            repo,
            directory,
            script: copy_option(&self.script),
        }
    }
}

} // verus!
