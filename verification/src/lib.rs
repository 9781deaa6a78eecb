//! Task resolution for a script runner: tasks are found in conventional
//! directories and declarative config files, fetched repositories are pinned
//! in a content-addressed cache, and remote content runs only behind a
//! persistent trust record.
//!
//! Nothing in this library touches the disk, the network or the console. The
//! longer procedures are written as machines that name the next outside
//! action and take its outcome back as an event:
//!
//! - `resolver` walks script directories, configs and selectors;
//!   `resolver_laws` holds what is proved of every walk;
//! - `download` fetches one commit of one repository into the cache;
//! - `repo_hash` decides which commit a reference stands for;
//! - `security` keeps the trust record;
//! - `task_info` turns the metadata that scripts declare into tasks;
//! - `entries`, `task_config`, `name_map` and `text` hold what these share;
//! - `outside` holds the calls whose contracts are taken on trust.

pub mod download;
pub mod entries;
pub mod name_map;
pub mod outside;
pub mod repo_hash;
pub mod resolver;
pub mod resolver_laws;
pub mod security;
pub mod task_config;
pub mod task_info;
pub mod text;
