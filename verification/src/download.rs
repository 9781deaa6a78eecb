//! The repository cache: where a pinned clone lives, and the steps that put
//! it there.
//!
//! A clone is made in a temporary directory beside its final place and then
//! renamed, so that two fetchers of one commit cannot disturb each other: the
//! first rename wins, and the other fetcher throws its own clone away.

use std::collections::hash_map::DefaultHasher;
use std::hash::Hasher;
use vstd::prelude::*;
use vstd::bytes::*;
use vstd::std_specs::hash::DefaultHasherAdditionalSpecFns;
use crate::outside::{
    base64_no_pad, base64_text, from_utf8_lossy, hash_text, lossy_text, random_token,
    regex_replace_all, regex_replaced, text_hash_writes,
};
use crate::task_config::StandaloneTaskConfigRepo;
use crate::text::{join, join3, decimal, decimal_text, first_chars};

verus! {

/// What a finished command left behind.
#[derive(Debug, PartialEq, Eq)]
pub struct CommandOutput {
    pub success: bool,
    pub code: Option<i32>,
    pub stdout: Vec<u8>,
    pub stderr: Vec<u8>,
}

/// What a `CommandOutput` holds, as plain values.
pub struct OutputView {
    pub success: bool,
    pub code: Option<i32>,
    pub stdout: Seq<u8>,
    pub stderr: Seq<u8>,
}

impl View for CommandOutput {
    type V = OutputView;

    open spec fn view(&self) -> OutputView {
        OutputView {
            success: self.success,
            code: self.code,
            stdout: self.stdout@,
            stderr: self.stderr@,
        }
    }
}

/// A command that ended without success: its exit code, 1 where it had none,
/// and what it wrote.
#[derive(Debug, PartialEq, Eq)]
pub struct CommandFailure {
    pub code: i32,
    pub stderr: String,
    pub stdout: String,
}

/// What a `CommandFailure` holds, as plain values.
pub struct FailureView {
    pub code: i32,
    pub stderr: Seq<char>,
    pub stdout: Seq<char>,
}

impl View for CommandFailure {
    type V = FailureView;

    open spec fn view(&self) -> FailureView {
        FailureView { code: self.code, stderr: self.stderr@, stdout: self.stdout@ }
    }
}

/// The failure that an unsuccessful command stands for.
pub open spec fn failure_of(out: OutputView) -> FailureView {
    FailureView {
        code: match out.code {
            Some(c) => c,
            None => 1,
        },
        stderr: lossy_text(out.stderr),
        stdout: lossy_text(out.stdout),
    }
}

/// The text of a failure: the exit code, then the error stream, then the
/// output stream.
pub open spec fn failure_message(f: FailureView) -> Seq<char> {
    "Failed with exit code "@ + decimal(f.code as int) + "\n"@ + f.stderr + "\n"@ + f.stdout
}

impl CommandFailure {
    /// The text of the failure.
    pub fn message(&self) -> (r: String)
        ensures
            r@ == failure_message(self@),
    {
        let mut r = join("Failed with exit code ", decimal_text(self.code).as_str());
        r.append("\n");
        r.append(self.stderr.as_str());
        r.append("\n");
        r.append(self.stdout.as_str());
        r
    }
}

/// Tells a command that succeeded from one that did not.
pub trait SuccessOrError: Sized {
    fn success_or_error(self) -> Result<Self, CommandFailure>;
}

impl SuccessOrError for CommandOutput {
    fn success_or_error(self) -> (r: Result<Self, CommandFailure>)
        ensures
            self.success ==> r == Ok::<CommandOutput, CommandFailure>(self),
            !self.success ==> r is Err && r->Err_0@ == failure_of(self@),
    {
        if self.success {
            Ok(self)
        } else {
            let code: i32 = match self.code {
                Some(c) => c,
                None => 1,
            };
            Err(
                CommandFailure {
                    code,
                    stderr: from_utf8_lossy(self.stderr.as_slice()),
                    stdout: from_utf8_lossy(self.stdout.as_slice()),
                },
            )
        }
    }
}

/// A directory of the repository cache: `repos/<repo_dir>/<leaf>` below the
/// local data directory.
#[derive(Debug, PartialEq, Eq)]
pub struct CachePlace {
    pub repo_dir: String,
    pub leaf: String,
}

/// What a `CachePlace` holds, as plain values.
pub struct PlaceView {
    pub repo_dir: Seq<char>,
    pub leaf: Seq<char>,
}

impl View for CachePlace {
    type V = PlaceView;

    open spec fn view(&self) -> PlaceView {
        PlaceView { repo_dir: self.repo_dir@, leaf: self.leaf@ }
    }
}

impl Clone for CachePlace {
    fn clone(&self) -> (r: Self)
        ensures
            r@ == self@,
    {
        CachePlace { repo_dir: self.repo_dir.clone(), leaf: self.leaf.clone() }
    }
}

/// Matches every run of characters that a cache directory name does not keep.
pub open spec fn sanitize_pattern() -> Seq<char> {
    r"[^a-zA-Z0-9_\+\-\(\)]+"@
}

/// The hash that tells repositories apart: the digest that the standard
/// library's default hasher gives of the url. It is the same in every run of
/// one build; another release of the standard library may hash otherwise.
pub open spec fn url_digest(url: Seq<char>) -> u64 {
    DefaultHasher::spec_finish(text_hash_writes(url))
}

/// The name of a repository's cache directory: the url with every run of
/// unkept characters replaced by one underscore, a hyphen, and the base64 of
/// the url's digest. `None` where the pattern was rejected.
pub open spec fn repo_dir_name(url: Seq<char>) -> Option<Seq<char>> {
    match regex_replaced(sanitize_pattern(), url, "_"@) {
        Some(clean) => Some(clean + "-"@ + base64_text(spec_u64_to_le_bytes(url_digest(url)))),
        None => None,
    }
}

/// The first twenty characters of a hash: the name of a pinned directory.
pub open spec fn short_hash(hash: Seq<char>) -> Seq<char> {
    hash.take(if hash.len() < 20 { hash.len() as int } else { 20 })
}

/// The name of the temporary directory that a clone is made in.
pub open spec fn temp_leaf(hash: Seq<char>, token: Seq<u8>) -> Seq<char> {
    short_hash(hash) + ".tmp_"@ + base64_text(token)
}

/// The final place of the clone of `url` at `hash`.
pub open spec fn pinned_place(url: Seq<char>, hash: Seq<char>) -> Option<PlaceView> {
    match repo_dir_name(url) {
        Some(dir) => Some(PlaceView { repo_dir: dir, leaf: short_hash(hash) }),
        None => None,
    }
}

/// The base64 text of the digest of `url`.
pub fn url_digest_text(url: &str) -> (r: String)
    ensures
        r@ == base64_text(spec_u64_to_le_bytes(url_digest(url@))),
{
    let mut hasher = DefaultHasher::new();
    hash_text(url, &mut hasher);
    let digest: u64 = hasher.finish();
    proof {
        assert(hasher@ =~= text_hash_writes(url@));
    }
    let bytes = u64_to_le_bytes(digest);
    base64_no_pad(bytes.as_slice())
}

/// Puts a cache directory's name together: the sanitized url, where there
/// is one, a hyphen, and the digest.
pub fn dir_name_from(clean: Option<String>, digest: &str) -> (r: Option<String>)
    ensures
        crate::text::opt_text(r) == match clean {
            Some(c) => Some(c@ + "-"@ + digest@),
            None => None,
        },
{
    match clean {
        Some(c) => Some(join3(c.as_str(), "-", digest)),
        None => None,
    }
}

/// Puts a temporary directory's name together: the short hash, the mark of
/// a temporary directory, and the text of the random bytes.
pub fn temp_dir_name(short: &str, token: &str) -> (r: String)
    ensures
        r@ == short@ + ".tmp_"@ + token@,
{
    join3(short, ".tmp_", token)
}

/// Computes the name of the cache directory of the repository at `url`.
pub fn repo_cache_dir_name(url: &str) -> (r: Option<String>)
    ensures
        crate::text::opt_text(r) == repo_dir_name(url@),
{
    let clean = regex_replace_all(r"[^a-zA-Z0-9_\+\-\(\)]+", url, "_");
    let digest = url_digest_text(url);
    dir_name_from(clean, digest.as_str())
}

/// Why a fetch gave up.
#[derive(Debug, PartialEq, Eq)]
pub enum FetchError {
    /// The cache directory's name could not be computed.
    Names,
    /// The temporary directory could not be created.
    CreateDir(String),
    /// A command could not be started.
    Spawn(String),
    /// A command ended without success.
    Command(CommandFailure),
    /// The trust prompt could not be shown or read.
    Prompt(String),
    /// The repository has a setup script and it was not trusted.
    SetupNotTrusted,
    /// The clone could not be moved to its final place.
    Rename(String),
    /// An event arrived that answers no action of the fetcher.
    Protocol,
}

/// What a `FetchError` holds, as plain values.
pub enum FetchErrorView {
    Names,
    CreateDir(Seq<char>),
    Spawn(Seq<char>),
    Command(FailureView),
    Prompt(Seq<char>),
    SetupNotTrusted,
    Rename(Seq<char>),
    Protocol,
}

impl View for FetchError {
    type V = FetchErrorView;

    open spec fn view(&self) -> FetchErrorView {
        match self {
            FetchError::Names => FetchErrorView::Names,
            FetchError::CreateDir(m) => FetchErrorView::CreateDir(m@),
            FetchError::Spawn(m) => FetchErrorView::Spawn(m@),
            FetchError::Command(f) => FetchErrorView::Command(f@),
            FetchError::Prompt(m) => FetchErrorView::Prompt(m@),
            FetchError::SetupNotTrusted => FetchErrorView::SetupNotTrusted,
            FetchError::Rename(m) => FetchErrorView::Rename(m@),
            FetchError::Protocol => FetchErrorView::Protocol,
        }
    }
}

/// What the fetcher asks to have done next.
#[derive(Debug, PartialEq, Eq)]
pub enum FetchAction {
    /// Tell whether the pinned directory exists.
    ProbePinned { place: CachePlace },
    /// Create the temporary directory and those above it.
    CreateTemp { place: CachePlace },
    /// Run a program in the temporary directory and collect what it writes.
    Run { program: String, args: Vec<String>, place: CachePlace },
    /// Tell whether `file` exists in the temporary directory.
    ProbeSetup { place: CachePlace, file: String },
    /// Ask whether `subject` is trusted.
    AskTrust { subject: String, query: String },
    /// Rename the temporary directory to the pinned one.
    Rename { from: CachePlace, to: CachePlace },
    /// Remove the temporary directory and all in it.
    RemoveTemp { place: CachePlace },
    /// The fetch is over.
    Done { outcome: Result<CachePlace, FetchError> },
}

/// What a `FetchAction` holds, as plain values.
pub enum FetchActionView {
    ProbePinned { place: PlaceView },
    CreateTemp { place: PlaceView },
    Run { program: Seq<char>, args: Seq<Seq<char>>, place: PlaceView },
    ProbeSetup { place: PlaceView, file: Seq<char> },
    AskTrust { subject: Seq<char>, query: Seq<char> },
    Rename { from: PlaceView, to: PlaceView },
    RemoveTemp { place: PlaceView },
    Done { outcome: Result<PlaceView, FetchErrorView> },
}

impl View for FetchAction {
    type V = FetchActionView;

    open spec fn view(&self) -> FetchActionView {
        match self {
            FetchAction::ProbePinned { place } => FetchActionView::ProbePinned { place: place@ },
            FetchAction::CreateTemp { place } => FetchActionView::CreateTemp { place: place@ },
            FetchAction::Run { program, args, place } => FetchActionView::Run {
                program: program@,
                args: args.deep_view(),
                place: place@,
            },
            FetchAction::ProbeSetup { place, file } => FetchActionView::ProbeSetup {
                place: place@,
                file: file@,
            },
            FetchAction::AskTrust { subject, query } => FetchActionView::AskTrust {
                subject: subject@,
                query: query@,
            },
            FetchAction::Rename { from, to } => FetchActionView::Rename { from: from@, to: to@ },
            FetchAction::RemoveTemp { place } => FetchActionView::RemoveTemp { place: place@ },
            FetchAction::Done { outcome } => FetchActionView::Done {
                outcome: match outcome {
                    Ok(place) => Ok(place@),
                    Err(e) => Err(e@),
                },
            },
        }
    }
}

/// How the last action ended.
#[derive(Debug, PartialEq, Eq)]
pub enum FetchEvent {
    /// The pinned directory is there, or is not.
    Exists(bool),
    /// The temporary directory was created.
    Created,
    /// The program ran and ended.
    Ran(CommandOutput),
    /// The setup script is there, with its path as text, or is not.
    Setup(Option<String>),
    /// The subject is trusted, or was declined.
    Trust(bool),
    /// The rename took place.
    Renamed,
    /// The rename found the pinned directory already there.
    Taken,
    /// The temporary directory was removed.
    Removed,
    /// The action could not be carried out.
    Failed(String),
}

/// What a `FetchEvent` holds, as plain values.
pub enum FetchEventView {
    Exists(bool),
    Created,
    Ran(OutputView),
    Setup(Option<Seq<char>>),
    Trust(bool),
    Renamed,
    Taken,
    Removed,
    Failed(Seq<char>),
}

impl View for FetchEvent {
    type V = FetchEventView;

    open spec fn view(&self) -> FetchEventView {
        match self {
            FetchEvent::Exists(b) => FetchEventView::Exists(*b),
            FetchEvent::Created => FetchEventView::Created,
            FetchEvent::Ran(out) => FetchEventView::Ran(out@),
            FetchEvent::Setup(p) => FetchEventView::Setup(p.deep_view()),
            FetchEvent::Trust(b) => FetchEventView::Trust(*b),
            FetchEvent::Renamed => FetchEventView::Renamed,
            FetchEvent::Taken => FetchEventView::Taken,
            FetchEvent::Removed => FetchEventView::Removed,
            FetchEvent::Failed(m) => FetchEventView::Failed(m@),
        }
    }
}

/// The action that a fetcher is waiting on.
#[derive(Clone, Copy, Debug, PartialEq, Eq, Structural)]
pub enum FetchStage {
    Probing,
    Creating,
    Init,
    AddingRemote,
    Fetching,
    Resetting,
    ProbingSetup,
    AskingTrust,
    RunningSetup,
    Renaming,
    Discarding,
    Finished,
}

/// One fetch of one commit of one repository.
pub struct Fetcher {
    url: String,
    hash: String,
    pinned: CachePlace,
    temp: CachePlace,
    setup: String,
    stage: FetchStage,
}

/// What a `Fetcher` holds, as plain values.
pub struct FetcherView {
    pub url: Seq<char>,
    pub hash: Seq<char>,
    pub pinned: PlaceView,
    pub temp: PlaceView,
    pub setup: Seq<char>,
    pub stage: FetchStage,
}

impl View for Fetcher {
    type V = FetcherView;

    closed spec fn view(&self) -> FetcherView {
        FetcherView {
            url: self.url@,
            hash: self.hash@,
            pinned: self.pinned@,
            temp: self.temp@,
            setup: self.setup@,
            stage: self.stage,
        }
    }
}

impl FetcherView {
    /// The same fetch, waiting on another action.
    pub open spec fn at(self, stage: FetchStage) -> FetcherView {
        FetcherView { stage, ..self }
    }

    /// The end of the fetch.
    pub open spec fn end(self, outcome: Result<PlaceView, FetchErrorView>) -> (
        FetcherView,
        FetchActionView,
    ) {
        (self.at(FetchStage::Finished), FetchActionView::Done { outcome })
    }

    /// A run of git in the temporary directory.
    pub open spec fn git(self, stage: FetchStage, args: Seq<Seq<char>>) -> (
        FetcherView,
        FetchActionView,
    ) {
        (self.at(stage), FetchActionView::Run { program: "git"@, args, place: self.temp })
    }

    /// The rename that ends a clone.
    pub open spec fn rename(self) -> (FetcherView, FetchActionView) {
        (
            self.at(FetchStage::Renaming),
            FetchActionView::Rename { from: self.temp, to: self.pinned },
        )
    }

    /// What follows a command that succeeded.
    pub open spec fn after_command(self) -> (FetcherView, FetchActionView) {
        match self.stage {
            FetchStage::Init => self.git(
                FetchStage::AddingRemote,
                seq!["remote"@, "add"@, "origin"@, self.url],
            ),
            FetchStage::AddingRemote => self.git(
                FetchStage::Fetching,
                seq!["fetch"@, "--depth"@, "1"@, "origin"@, self.hash],
            ),
            FetchStage::Fetching => self.git(
                FetchStage::Resetting,
                seq!["reset"@, "--hard"@, "FETCH_HEAD"@],
            ),
            FetchStage::Resetting => (
                self.at(FetchStage::ProbingSetup),
                FetchActionView::ProbeSetup { place: self.temp, file: "lunar-setup.luau"@ },
            ),
            _ => self.rename(),
        }
    }
}

/// The trust subject of a repository's setup script.
pub open spec fn setup_subject(url: Seq<char>) -> Seq<char> {
    "lunar-setup for "@ + url
}

/// The question put before a setup script runs.
pub open spec fn setup_query(url: Seq<char>, path: Seq<char>) -> Seq<char> {
    "Do you want to run the setup script for "@ + url
        + " ? It may make changes to your system!\nTemporary file location: "@ + path
}

/// A fetcher that has asked nothing yet but whether the pinned directory
/// exists; `token` holds the bytes that make its temporary directory's name
/// its own. It is meant for a url whose cache directory has a name.
pub open spec fn fetcher_at_start(url: Seq<char>, hash: Seq<char>, token: Seq<u8>) -> FetcherView {
    let repo_dir = repo_dir_name(url).unwrap();
    FetcherView {
        url,
        hash,
        pinned: PlaceView { repo_dir, leaf: short_hash(hash) },
        temp: PlaceView { repo_dir, leaf: temp_leaf(hash, token) },
        setup: Seq::empty(),
        stage: FetchStage::Probing,
    }
}

/// `s` is a fetcher at its start, for some sixteen bytes.
pub open spec fn started(s: FetcherView, url: Seq<char>, hash: Seq<char>) -> bool {
    exists|token: Seq<u8>| token.len() == 16 && s == #[trigger] fetcher_at_start(url, hash, token)
}

/// The fetcher's rule: where an event takes it, and what it asks for next.
///
/// A pinned directory that exists ends the fetch at once. Otherwise the
/// temporary directory is created, git initialises it, adds the remote,
/// fetches the one commit at depth 1 and resets to it; a setup script, where
/// the clone has one, runs only if trusted; and the rename ends the fetch,
/// also where another fetcher was faster, in which case the temporary
/// directory is removed first. Whatever else goes wrong ends the fetch with
/// the error.
pub open spec fn fetch_step(s: FetcherView, e: FetchEventView) -> (FetcherView, FetchActionView) {
    match s.stage {
        FetchStage::Probing => match e {
            FetchEventView::Exists(true) => s.end(Ok(s.pinned)),
            FetchEventView::Exists(false) => (
                s.at(FetchStage::Creating),
                FetchActionView::CreateTemp { place: s.temp },
            ),
            _ => s.end(Err(FetchErrorView::Protocol)),
        },
        FetchStage::Creating => match e {
            FetchEventView::Created => s.git(FetchStage::Init, seq!["init"@]),
            FetchEventView::Failed(m) => s.end(Err(FetchErrorView::CreateDir(m))),
            _ => s.end(Err(FetchErrorView::Protocol)),
        },
        FetchStage::Init
        | FetchStage::AddingRemote
        | FetchStage::Fetching
        | FetchStage::Resetting
        | FetchStage::RunningSetup => match e {
            FetchEventView::Ran(out) => if out.success {
                s.after_command()
            } else {
                s.end(Err(FetchErrorView::Command(failure_of(out))))
            },
            FetchEventView::Failed(m) => s.end(Err(FetchErrorView::Spawn(m))),
            _ => s.end(Err(FetchErrorView::Protocol)),
        },
        FetchStage::ProbingSetup => match e {
            FetchEventView::Setup(None) => s.rename(),
            FetchEventView::Setup(Some(path)) => (
                FetcherView { setup: path, ..s }.at(FetchStage::AskingTrust),
                FetchActionView::AskTrust {
                    subject: setup_subject(s.url),
                    query: setup_query(s.url, path),
                },
            ),
            _ => s.end(Err(FetchErrorView::Protocol)),
        },
        FetchStage::AskingTrust => match e {
            FetchEventView::Trust(true) => (
                s.at(FetchStage::RunningSetup),
                FetchActionView::Run {
                    program: "lune"@,
                    args: seq!["run"@, s.setup],
                    place: s.temp,
                },
            ),
            FetchEventView::Trust(false) => s.end(Err(FetchErrorView::SetupNotTrusted)),
            FetchEventView::Failed(m) => s.end(Err(FetchErrorView::Prompt(m))),
            _ => s.end(Err(FetchErrorView::Protocol)),
        },
        FetchStage::Renaming => match e {
            FetchEventView::Renamed => s.end(Ok(s.pinned)),
            FetchEventView::Taken => (
                s.at(FetchStage::Discarding),
                FetchActionView::RemoveTemp { place: s.temp },
            ),
            FetchEventView::Failed(m) => s.end(Err(FetchErrorView::Rename(m))),
            _ => s.end(Err(FetchErrorView::Protocol)),
        },
        FetchStage::Discarding => match e {
            FetchEventView::Removed => s.end(Ok(s.pinned)),
            FetchEventView::Failed(_) => s.end(Ok(s.pinned)),
            _ => s.end(Err(FetchErrorView::Protocol)),
        },
        FetchStage::Finished => s.end(Err(FetchErrorView::Protocol)),
    }
}

impl Fetcher {
    /// Whether the fetch is over.
    pub fn is_finished(&self) -> (r: bool)
        ensures
            r == (self@.stage == FetchStage::Finished),
    {
        self.stage == FetchStage::Finished
    }

    fn end(&mut self, outcome: Result<CachePlace, FetchError>) -> (r: FetchAction)
        ensures
            (final(self)@, r@) == old(self)@.end(
                match outcome {
                    Ok(place) => Ok(place@),
                    Err(e) => Err(e@),
                },
            ),
    {
        self.stage = FetchStage::Finished;
        FetchAction::Done { outcome }
    }

    fn git(&mut self, stage: FetchStage, args: Vec<String>) -> (r: FetchAction)
        ensures
            (final(self)@, r@) == old(self)@.git(stage, args.deep_view()),
    {
        self.stage = stage;
        FetchAction::Run { program: "git".to_owned(), args, place: self.temp.clone() }
    }

    fn rename(&mut self) -> (r: FetchAction)
        ensures
            (final(self)@, r@) == old(self)@.rename(),
    {
        self.stage = FetchStage::Renaming;
        FetchAction::Rename { from: self.temp.clone(), to: self.pinned.clone() }
    }

    fn after_command(&mut self) -> (r: FetchAction)
        ensures
            (final(self)@, r@) == old(self)@.after_command(),
    {
        let mut args = crate::text::no_texts();
        match self.stage {
            FetchStage::Init => {
                crate::text::push_text(&mut args, "remote");
                crate::text::push_text(&mut args, "add");
                crate::text::push_text(&mut args, "origin");
                crate::text::push_text(&mut args, self.url.as_str());
                assert(args.deep_view() =~= seq!["remote"@, "add"@, "origin"@, self.url@]);
                self.git(FetchStage::AddingRemote, args)
            },
            FetchStage::AddingRemote => {
                crate::text::push_text(&mut args, "fetch");
                crate::text::push_text(&mut args, "--depth");
                crate::text::push_text(&mut args, "1");
                crate::text::push_text(&mut args, "origin");
                crate::text::push_text(&mut args, self.hash.as_str());
                assert(args.deep_view() =~= seq![
                    "fetch"@,
                    "--depth"@,
                    "1"@,
                    "origin"@,
                    self.hash@,
                ]);
                self.git(FetchStage::Fetching, args)
            },
            FetchStage::Fetching => {
                crate::text::push_text(&mut args, "reset");
                crate::text::push_text(&mut args, "--hard");
                crate::text::push_text(&mut args, "FETCH_HEAD");
                assert(args.deep_view() =~= seq!["reset"@, "--hard"@, "FETCH_HEAD"@]);
                self.git(FetchStage::Resetting, args)
            },
            FetchStage::Resetting => {
                self.stage = FetchStage::ProbingSetup;
                FetchAction::ProbeSetup {
                    place: self.temp.clone(),
                    file: "lunar-setup.luau".to_owned(),
                }
            },
            _ => self.rename(),
        }
    }

    /// Takes the outcome of the last action and names the next one.
    pub fn step(&mut self, event: FetchEvent) -> (action: FetchAction)
        ensures
            (final(self)@, action@) == fetch_step(old(self)@, event@),
    {
        match self.stage {
            FetchStage::Probing => match event {
                FetchEvent::Exists(true) => {
                    let place = self.pinned.clone();
                    self.end(Ok(place))
                },
                FetchEvent::Exists(false) => {
                    self.stage = FetchStage::Creating;
                    FetchAction::CreateTemp { place: self.temp.clone() }
                },
                _ => self.end(Err(FetchError::Protocol)),
            },
            FetchStage::Creating => match event {
                FetchEvent::Created => {
                    let mut args = crate::text::no_texts();
                    crate::text::push_text(&mut args, "init");
                    assert(args.deep_view() =~= seq!["init"@]);
                    self.git(FetchStage::Init, args)
                },
                FetchEvent::Failed(m) => self.end(Err(FetchError::CreateDir(m))),
                _ => self.end(Err(FetchError::Protocol)),
            },
            FetchStage::Init
            | FetchStage::AddingRemote
            | FetchStage::Fetching
            | FetchStage::Resetting
            | FetchStage::RunningSetup => match event {
                FetchEvent::Ran(out) => match out.success_or_error() {
                    Ok(_) => self.after_command(),
                    Err(failure) => self.end(Err(FetchError::Command(failure))),
                },
                FetchEvent::Failed(m) => self.end(Err(FetchError::Spawn(m))),
                _ => self.end(Err(FetchError::Protocol)),
            },
            FetchStage::ProbingSetup => match event {
                FetchEvent::Setup(None) => self.rename(),
                FetchEvent::Setup(Some(path)) => {
                    let subject = join("lunar-setup for ", self.url.as_str());
                    let mut query = join(
                        "Do you want to run the setup script for ",
                        self.url.as_str(),
                    );
                    query.append(
                        " ? It may make changes to your system!\nTemporary file location: ",
                    );
                    query.append(path.as_str());
                    self.setup = path;
                    self.stage = FetchStage::AskingTrust;
                    FetchAction::AskTrust { subject, query }
                },
                _ => self.end(Err(FetchError::Protocol)),
            },
            FetchStage::AskingTrust => match event {
                FetchEvent::Trust(true) => {
                    let mut args = crate::text::no_texts();
                    crate::text::push_text(&mut args, "run");
                    crate::text::push_text(&mut args, self.setup.as_str());
                    assert(args.deep_view() =~= seq!["run"@, self.setup@]);
                    self.stage = FetchStage::RunningSetup;
                    FetchAction::Run {
                        program: "lune".to_owned(),
                        args,
                        place: self.temp.clone(),
                    }
                },
                FetchEvent::Trust(false) => self.end(Err(FetchError::SetupNotTrusted)),
                FetchEvent::Failed(m) => self.end(Err(FetchError::Prompt(m))),
                _ => self.end(Err(FetchError::Protocol)),
            },
            FetchStage::Renaming => match event {
                FetchEvent::Renamed => {
                    let place = self.pinned.clone();
                    self.end(Ok(place))
                },
                FetchEvent::Taken => {
                    self.stage = FetchStage::Discarding;
                    FetchAction::RemoveTemp { place: self.temp.clone() }
                },
                FetchEvent::Failed(m) => self.end(Err(FetchError::Rename(m))),
                _ => self.end(Err(FetchError::Protocol)),
            },
            FetchStage::Discarding => match event {
                FetchEvent::Removed => {
                    let place = self.pinned.clone();
                    self.end(Ok(place))
                },
                FetchEvent::Failed(_) => {
                    let place = self.pinned.clone();
                    self.end(Ok(place))
                },
                _ => self.end(Err(FetchError::Protocol)),
            },
            FetchStage::Finished => self.end(Err(FetchError::Protocol)),
        }
    }
}

/// Begins the fetch of `info`'s repository at the commit `hash`: the fetcher,
/// and its first question, whether the pinned directory exists. Where the
/// directory's name cannot be computed the fetch is over before it began.
///
/// The temporary directory's name ends in sixteen random bytes, so that no
/// two fetchers share one.
pub fn fetch_repo(info: &StandaloneTaskConfigRepo, hash: &str) -> (r: (Fetcher, FetchAction))
    ensures
        repo_dir_name(info@.url) is Some ==> started(r.0@, info@.url, hash@) && r.1@ == (
        FetchActionView::ProbePinned { place: r.0@.pinned }),
        repo_dir_name(info@.url) is None ==> r.0@.stage == FetchStage::Finished && r.1@ == (
        FetchActionView::Done { outcome: Err(FetchErrorView::Names) }),
{
    let short = first_chars(hash, 20);
    match repo_cache_dir_name(info.url.as_str()) {
        Some(dir) => {
            let ghost dir_text = dir@;
            let token = random_token();
            let tail = base64_no_pad(token.as_slice());
            let temp_name = temp_dir_name(short.as_str(), tail.as_str());
            let pinned = CachePlace { repo_dir: dir.clone(), leaf: short };
            let temp = CachePlace { repo_dir: dir, leaf: temp_name };
            let action = FetchAction::ProbePinned { place: pinned.clone() };
            let fetcher = Fetcher {
                url: info.url.clone(),
                hash: hash.to_owned(),
                pinned,
                temp,
                setup: String::new(),
                stage: FetchStage::Probing,
            };
            proof {
                assert(repo_dir_name(info@.url) == Some(dir_text));
                assert(fetcher@ == fetcher_at_start(info@.url, hash@, token@));
            }
            (fetcher, action)
        },
        None => {
            let empty = CachePlace { repo_dir: String::new(), leaf: String::new() };
            let fetcher = Fetcher {
                url: info.url.clone(),
                hash: hash.to_owned(),
                pinned: empty.clone(),
                temp: empty,
                setup: String::new(),
                stage: FetchStage::Finished,
            };
            let action = FetchAction::Done { outcome: Err(FetchError::Names) };
            (fetcher, action)
        },
    }
}

/// Fetching a commit that is already pinned: every fetcher of one url and
/// hash looks for the same pinned directory, whatever its own random bytes,
/// and that directory depends on the url and the hash alone. A fetcher that
/// is told the directory exists ends at once and reports it, without asking
/// for a directory, a command or a rename; so does a fetch whose rename took
/// place.
pub proof fn law_pinned_commit_is_not_fetched_again(
    url: Seq<char>,
    hash: Seq<char>,
    first: Seq<u8>,
    second: Seq<u8>,
)
    requires
        repo_dir_name(url) is Some,
    ensures
        pinned_place(url, hash) == Some(fetcher_at_start(url, hash, first).pinned),
        fetcher_at_start(url, hash, second).pinned == fetcher_at_start(url, hash, first).pinned,
        fetch_step(
            fetcher_at_start(url, hash, first).at(FetchStage::Renaming),
            FetchEventView::Renamed,
        ).1 == (FetchActionView::Done { outcome: Ok(pinned_place(url, hash).unwrap()) }),
        fetch_step(fetcher_at_start(url, hash, second), FetchEventView::Exists(true)) == (
            fetcher_at_start(url, hash, second).at(FetchStage::Finished),
            FetchActionView::Done { outcome: Ok(pinned_place(url, hash).unwrap()) },
        ),
{
}

/// `s` is some point of a fetch of `url` at `hash`: it carries both, and its
/// pinned directory is the one that they determine.
pub open spec fn fetching(s: FetcherView, url: Seq<char>, hash: Seq<char>) -> bool {
    &&& s.url == url
    &&& s.hash == hash
    &&& pinned_place(url, hash) == Some(s.pinned)
    &&& s.temp.repo_dir == s.pinned.repo_dir
}

/// A fetch stays the fetch of its url and hash: it is one at its start, and
/// no event changes what it fetches or where to.
pub proof fn law_fetch_keeps_its_places(
    s: FetcherView,
    e: FetchEventView,
    url: Seq<char>,
    hash: Seq<char>,
)
    ensures
        repo_dir_name(url) is Some && started(s, url, hash) ==> fetching(s, url, hash),
        fetching(s, url, hash) ==> fetching(fetch_step(s, e).0, url, hash) && fetch_step(
            s,
            e,
        ).0.temp == s.temp,
{
}

/// Two fetchers that race for one commit: the one whose rename took place
/// and the one that found the pinned directory already there report the same
/// directory. The one that lost is first told to remove its own temporary
/// directory, and reports the pinned directory whether or not the removal
/// succeeded.
pub proof fn law_lost_race_yields_the_winners_directory(
    winner: FetcherView,
    loser: FetcherView,
    url: Seq<char>,
    hash: Seq<char>,
    removal: FetchEventView,
)
    requires
        fetching(winner, url, hash),
        fetching(loser, url, hash),
        winner.stage == FetchStage::Renaming,
        loser.stage == FetchStage::Renaming,
        removal is Removed || removal is Failed,
    ensures
        fetch_step(winner, FetchEventView::Renamed).1 == (FetchActionView::Done {
            outcome: Ok(pinned_place(url, hash).unwrap()),
        }),
        fetch_step(loser, FetchEventView::Taken) == (
            loser.at(FetchStage::Discarding),
            FetchActionView::RemoveTemp { place: loser.temp },
        ),
        fetch_step(loser.at(FetchStage::Discarding), removal) == (
            loser.at(FetchStage::Finished),
            FetchActionView::Done { outcome: Ok(pinned_place(url, hash).unwrap()) },
        ),
{
}

/// What goes wrong ends the fetch with an error: a directory that cannot
/// be created, a command that cannot be started or ends without success, a
/// setup script that is declined or whose question cannot be put, a rename
/// that fails for another reason than a rival's clone. Only the removal of
/// a clone that lost the race may fail.
pub proof fn law_failures_end_the_fetch(s: FetcherView, out: OutputView, message: Seq<char>)
    ensures
        s.stage != FetchStage::Discarding ==> fetch_step(s, FetchEventView::Failed(message)).1
            is Done && fetch_step(s, FetchEventView::Failed(message)).1->outcome is Err,
        !out.success ==> fetch_step(s, FetchEventView::Ran(out)).1 is Done && fetch_step(
            s,
            FetchEventView::Ran(out),
        ).1->outcome is Err,
        !out.success && (s.stage == FetchStage::Init || s.stage == FetchStage::AddingRemote
            || s.stage == FetchStage::Fetching || s.stage == FetchStage::Resetting || s.stage
            == FetchStage::RunningSetup) ==> fetch_step(s, FetchEventView::Ran(out)).1 == (
        FetchActionView::Done { outcome: Err(FetchErrorView::Command(failure_of(out))) }),
        s.stage == FetchStage::AskingTrust ==> fetch_step(s, FetchEventView::Trust(false)).1 == (
        FetchActionView::Done { outcome: Err(FetchErrorView::SetupNotTrusted) }),
        fetch_step(s, FetchEventView::Failed(message)).0.stage == FetchStage::Finished,
{
}

/// A command that a fetcher runs in its temporary directory.
pub open spec fn runs(s: FetcherView, program: Seq<char>, args: Seq<Seq<char>>) -> FetchActionView {
    FetchActionView::Run { program, args, place: s.temp }
}

/// The clone of a commit that is not pinned yet, step by step, each step
/// taken once the one before succeeded: create the temporary directory;
/// there, initialise a repository, add the url as the remote `origin`, fetch
/// the one commit at depth 1, and reset hard to what was fetched; look for a
/// setup script; and, there being none, rename the directory to its pinned
/// place and report that place.
pub proof fn law_clone_runs_its_steps_in_order(s: FetcherView, out: OutputView)
    requires
        s.stage == FetchStage::Probing,
        out.success,
    ensures
        ({
            let ran = FetchEventView::Ran(out);
            let (s1, a1) = fetch_step(s, FetchEventView::Exists(false));
            let (s2, a2) = fetch_step(s1, FetchEventView::Created);
            let (s3, a3) = fetch_step(s2, ran);
            let (s4, a4) = fetch_step(s3, ran);
            let (s5, a5) = fetch_step(s4, ran);
            let (s6, a6) = fetch_step(s5, ran);
            let (s7, a7) = fetch_step(s6, FetchEventView::Setup(None));
            let (s8, a8) = fetch_step(s7, FetchEventView::Renamed);
            &&& a1 == FetchActionView::CreateTemp { place: s.temp }
            &&& a2 == runs(s, "git"@, seq!["init"@])
            &&& a3 == runs(s, "git"@, seq!["remote"@, "add"@, "origin"@, s.url])
            &&& a4 == runs(s, "git"@, seq!["fetch"@, "--depth"@, "1"@, "origin"@, s.hash])
            &&& a5 == runs(s, "git"@, seq!["reset"@, "--hard"@, "FETCH_HEAD"@])
            &&& a6 == FetchActionView::ProbeSetup { place: s.temp, file: "lunar-setup.luau"@ }
            &&& a7 == FetchActionView::Rename { from: s.temp, to: s.pinned }
            &&& a8 == FetchActionView::Done { outcome: Ok(s.pinned) }
            &&& s8 == s.at(FetchStage::Finished)
        }),
{
}

/// A clone with a setup script: the script is asked about under a subject of
/// its own, which names the url, and runs in the temporary directory before
/// the rename, if and only if it is trusted.
pub proof fn law_setup_script_runs_only_when_trusted(
    s: FetcherView,
    path: Seq<char>,
    out: OutputView,
)
    requires
        s.stage == FetchStage::ProbingSetup,
        out.success,
    ensures
        ({
            let (s1, a1) = fetch_step(s, FetchEventView::Setup(Some(path)));
            let (s2, a2) = fetch_step(s1, FetchEventView::Trust(true));
            let (s3, a3) = fetch_step(s2, FetchEventView::Ran(out));
            &&& a1 == FetchActionView::AskTrust {
                subject: setup_subject(s.url),
                query: setup_query(s.url, path),
            }
            &&& setup_subject(s.url) != s.url
            &&& a2 == runs(s, "lune"@, seq!["run"@, path])
            &&& a3 == FetchActionView::Rename { from: s.temp, to: s.pinned }
            &&& fetch_step(s1, FetchEventView::Trust(false)).1 == FetchActionView::Done {
                outcome: Err(FetchErrorView::SetupNotTrusted),
            }
        }),
{
    reveal_strlit("lunar-setup for ");
    assert(setup_subject(s.url).len() == s.url.len() + 16);
}

} // verus!
