//! Which commit a repository reference stands for.
//!
//! A reference that names a commit hash is taken at its word, once the hash
//! is well formed. Any other reference is looked up at the remote, and the
//! answer is remembered under the reference's tag and url, so that the last
//! answer can stand in when the remote cannot be reached.

use vstd::prelude::*;
use crate::download::{failure_of, CommandFailure, CommandOutput, FailureView, OutputView, SuccessOrError};
use crate::name_map::{lookup, put, NameMap};
use crate::outside::{capture_view, regex_first_group, regex_group_one};
use crate::task_config::{RepoView, StandaloneTaskConfigRepo};
use crate::text::{ascii_chars, ascii_text, join3, opt_text, push_text};

verus! {

/// A digit or one of the letters `a` to `f`.
pub open spec fn is_lower_hex(c: char) -> bool {
    ('0' <= c && c <= '9') || ('a' <= c && c <= 'f')
}

/// A full commit hash: forty lowercase hexadecimal characters.
pub open spec fn full_hash(s: Seq<char>) -> bool {
    s.len() == 40 && forall|i: int| 0 <= i < s.len() ==> is_lower_hex(#[trigger] s[i])
}

/// The tag that a reference asks for: `HEAD` where it names none.
pub open spec fn tag_or_head(info: RepoView) -> Seq<char> {
    match info.tag {
        Some(tag) => tag,
        None => "HEAD"@,
    }
}

/// The key under which a reference's commit is remembered.
pub open spec fn cache_key(info: RepoView) -> Seq<char> {
    tag_or_head(info) + " on "@ + info.url
}

/// Tells whether `s` is a full commit hash.
pub fn is_full_hash(s: &str) -> (r: bool)
    ensures
        r == full_hash(s@),
{
    if s.unicode_len() != 40 {
        return false;
    }
    let mut i: usize = 0;
    while i < 40
        invariant
            i <= 40,
            s@.len() == 40,
            forall|j: int| 0 <= j < i ==> is_lower_hex(#[trigger] s@[j]),
        decreases 40 - i,
    {
        let c = s.get_char(i);
        if !((c >= '0' && c <= '9') || (c >= 'a' && c <= 'f')) {
            assert(!is_lower_hex(s@[i as int]));
            return false;
        }
        i = i + 1;
    }
    true
}

fn tag_text(info: &StandaloneTaskConfigRepo) -> (r: &str)
    ensures
        r@ == tag_or_head(info@),
{
    match &info.tag {
        Some(tag) => tag.as_str(),
        None => "HEAD",
    }
}

/// The key under which `info`'s commit is remembered.
pub fn repo_key(info: &StandaloneTaskConfigRepo) -> (r: String)
    ensures
        r@ == cache_key(info@),
{
    join3(tag_text(info), " on ", info.url.as_str())
}

/// The commits that earlier lookups found, by reference key.
pub struct RepoHashCache {
    pub repos: NameMap<String>,
}

impl View for RepoHashCache {
    type V = Seq<(Seq<char>, Seq<char>)>;

    open spec fn view(&self) -> Seq<(Seq<char>, Seq<char>)> {
        self.repos@
    }
}

impl Default for RepoHashCache {
    fn default() -> (r: Self)
        ensures
            r@ == Seq::<(Seq<char>, Seq<char>)>::empty(),
    {
        RepoHashCache { repos: NameMap::new() }
    }
}

/// The commit remembered for `info`, if there is one.
pub fn fetch_repo_hash_cached(info: &StandaloneTaskConfigRepo, cache: &RepoHashCache) -> (r: Option<
    String,
>)
    ensures
        opt_text(r) == lookup(cache@, cache_key(info@)),
{
    let key = repo_key(info);
    match cache.repos.get(key.as_str()) {
        Some(hash) => Some(hash.clone()),
        None => None,
    }
}

/// Remembers `hash` as the commit of `info`, in place of what was remembered
/// before.
pub fn add_one_to_hash_cache(info: &StandaloneTaskConfigRepo, hash: &str, cache: &mut RepoHashCache)
    ensures
        final(cache)@ == put(old(cache)@, cache_key(info@), hash@),
{
    let key = repo_key(info);
    cache.repos.insert(key, hash.to_owned());
}

/// Why the remote gave no commit.
#[derive(Debug, PartialEq, Eq)]
pub enum OnlineError {
    /// The reference names a hash that is not a full commit hash.
    InvalidHash(String),
    /// The lookup could not be started.
    Spawn(String),
    /// The lookup ended without success.
    Command(CommandFailure),
    /// The lookup's output names no commit.
    NoResults { url: String, tag: String },
    /// The pattern that reads the lookup's output was rejected.
    Pattern,
}

/// What an `OnlineError` holds, as plain values.
pub enum OnlineErrorView {
    InvalidHash(Seq<char>),
    Spawn(Seq<char>),
    Command(FailureView),
    NoResults { url: Seq<char>, tag: Seq<char> },
    Pattern,
}

impl View for OnlineError {
    type V = OnlineErrorView;

    open spec fn view(&self) -> OnlineErrorView {
        match self {
            OnlineError::InvalidHash(h) => OnlineErrorView::InvalidHash(h@),
            OnlineError::Spawn(m) => OnlineErrorView::Spawn(m@),
            OnlineError::Command(f) => OnlineErrorView::Command(f@),
            OnlineError::NoResults { url, tag } => OnlineErrorView::NoResults {
                url: url@,
                tag: tag@,
            },
            OnlineError::Pattern => OnlineErrorView::Pattern,
        }
    }
}

/// Why a reference could not be resolved.
#[derive(Debug, PartialEq, Eq)]
pub enum HashError {
    /// The reference names a hash that is not a full commit hash.
    InvalidHash(String),
    /// The remote gave no commit, for the reason held, and none is
    /// remembered.
    Unavailable(OnlineError),
}

/// What a `HashError` holds, as plain values.
pub enum HashErrorView {
    InvalidHash(Seq<char>),
    Unavailable(OnlineErrorView),
}

impl View for HashError {
    type V = HashErrorView;

    open spec fn view(&self) -> HashErrorView {
        match self {
            HashError::InvalidHash(h) => HashErrorView::InvalidHash(h@),
            HashError::Unavailable(e) => HashErrorView::Unavailable(e@),
        }
    }
}

/// The text of an invalid-hash error.
pub open spec fn invalid_hash_message(hash: Seq<char>) -> Seq<char> {
    "Invalid hash: "@ + hash + "; expected full 40-character hash"@
}

/// The text of an error of the remote lookup.
pub open spec fn online_message(e: OnlineErrorView) -> Seq<char> {
    match e {
        OnlineErrorView::InvalidHash(h) => invalid_hash_message(h),
        OnlineErrorView::Spawn(m) => m,
        OnlineErrorView::Command(f) => crate::download::failure_message(f),
        OnlineErrorView::NoResults { url, tag } =>
            "Failed to fetch repo hash online;\nno results for 'git ls-remote "@ + url + " "@ + tag
                + "'"@,
        OnlineErrorView::Pattern => "Failed to fetch repo hash online (pattern rejected)"@,
    }
}

/// The text of a resolution error.
pub open spec fn hash_message(e: HashErrorView) -> Seq<char> {
    match e {
        HashErrorView::InvalidHash(h) => invalid_hash_message(h),
        HashErrorView::Unavailable(_) => "Could not fetch hash online or from local cache"@,
    }
}

impl OnlineError {
    /// The text of the error.
    pub fn message(&self) -> (r: String)
        ensures
            r@ == online_message(self@),
    {
        match self {
            OnlineError::InvalidHash(h) => join3(
                "Invalid hash: ",
                h.as_str(),
                "; expected full 40-character hash",
            ),
            OnlineError::Spawn(m) => m.clone(),
            OnlineError::Command(f) => f.message(),
            OnlineError::NoResults { url, tag } => {
                let mut r = join3(
                    "Failed to fetch repo hash online;\nno results for 'git ls-remote ",
                    url.as_str(),
                    " ",
                );
                r.append(tag.as_str());
                r.append("'");
                r
            },
            OnlineError::Pattern => "Failed to fetch repo hash online (pattern rejected)".to_owned(),
        }
    }
}

impl HashError {
    /// The text of the error.
    pub fn message(&self) -> (r: String)
        ensures
            r@ == hash_message(self@),
    {
        match self {
            HashError::InvalidHash(h) => join3(
                "Invalid hash: ",
                h.as_str(),
                "; expected full 40-character hash",
            ),
            HashError::Unavailable(_) => "Could not fetch hash online or from local cache".to_owned(),
        }
    }
}

/// What a reference's own hash settles: nothing where it names none, the
/// hash where it names a full one, an error where it names anything else.
pub open spec fn explicit_hash(info: RepoView) -> Option<Result<Seq<char>, Seq<char>>> {
    match info.hash {
        Some(h) => Some(
            if full_hash(h) {
                Ok(h)
            } else {
                Err(h)
            },
        ),
        None => None,
    }
}

/// How a reference is resolved.
#[derive(Debug, PartialEq, Eq)]
pub enum HashPlan {
    /// The reference settles it: nothing is looked up, at the remote or in
    /// the cache.
    Known(Result<String, HashError>),
    /// Run the program with these arguments, and read the cache.
    Lookup { program: String, args: Vec<String> },
}

/// What a `HashPlan` holds, as plain values.
pub enum HashPlanView {
    Known(Result<Seq<char>, HashErrorView>),
    Lookup { program: Seq<char>, args: Seq<Seq<char>> },
}

impl View for HashPlan {
    type V = HashPlanView;

    open spec fn view(&self) -> HashPlanView {
        match self {
            HashPlan::Known(r) => HashPlanView::Known(
                match r {
                    Ok(h) => Ok(h@),
                    Err(e) => Err(e@),
                },
            ),
            HashPlan::Lookup { program, args } => HashPlanView::Lookup {
                program: program@,
                args: args.deep_view(),
            },
        }
    }
}

/// The plan for a reference: its own hash where it names one, else a lookup
/// of its tag at its url.
pub open spec fn hash_plan(info: RepoView) -> HashPlanView {
    match explicit_hash(info) {
        Some(Ok(h)) => HashPlanView::Known(Ok(h)),
        Some(Err(h)) => HashPlanView::Known(Err(HashErrorView::InvalidHash(h))),
        None => HashPlanView::Lookup {
            program: "git"@,
            args: seq!["ls-remote"@, info.url, tag_or_head(info)],
        },
    }
}

/// Decides how `info` is resolved.
pub fn fetch_repo_hash_plan(info: &StandaloneTaskConfigRepo) -> (r: HashPlan)
    ensures
        r@ == hash_plan(info@),
{
    match &info.hash {
        Some(h) => {
            if is_full_hash(h.as_str()) {
                HashPlan::Known(Ok(h.clone()))
            } else {
                HashPlan::Known(Err(HashError::InvalidHash(h.clone())))
            }
        },
        None => {
            let mut args = crate::text::no_texts();
            push_text(&mut args, "ls-remote");
            push_text(&mut args, info.url.as_str());
            push_text(&mut args, tag_text(info));
            assert(args.deep_view() =~= seq!["ls-remote"@, info@.url, tag_or_head(info@)]);
            HashPlan::Lookup { program: "git".to_owned(), args }
        },
    }
}

/// Matches a listing of one line that begins, after any whitespace, with a
/// full commit hash.
pub open spec fn hash_line_pattern() -> Seq<char> {
    r"^\s*([a-f0-9]{40}).*\s*$"@
}

/// The byte of a digit or of one of the letters `a` to `f`.
pub open spec fn is_hex_byte(b: u8) -> bool {
    (48 <= b && b <= 57) || (97 <= b && b <= 102)
}

/// Forty bytes of lowercase hexadecimal.
pub open spec fn hex_bytes(bytes: Seq<u8>) -> bool {
    bytes.len() == 40 && forall|i: int| 0 <= i < bytes.len() ==> is_hex_byte(#[trigger] bytes[i])
}

/// What the search of a listing says. A capture that is no full hash is
/// taken for no result.
pub open spec fn hash_of_capture(info: RepoView, capture: Option<Option<Seq<u8>>>) -> Result<
    Seq<char>,
    OnlineErrorView,
> {
    match capture {
        None => Err(OnlineErrorView::Pattern),
        Some(None) => Err(OnlineErrorView::NoResults { url: info.url, tag: tag_or_head(info) }),
        Some(Some(bytes)) => if hex_bytes(bytes) {
            Ok(ascii_chars(bytes))
        } else {
            Err(OnlineErrorView::NoResults { url: info.url, tag: tag_or_head(info) })
        },
    }
}

/// The commit that a listing names.
pub open spec fn listed_hash(info: RepoView, stdout: Seq<u8>) -> Result<Seq<char>, OnlineErrorView> {
    hash_of_capture(info, regex_group_one(hash_line_pattern(), stdout))
}

/// What the remote says of a reference that names no hash of its own.
pub open spec fn online_hash(info: RepoView, run: Result<OutputView, Seq<char>>) -> Result<
    Seq<char>,
    OnlineErrorView,
> {
    match explicit_hash(info) {
        Some(Ok(h)) => Ok(h),
        Some(Err(h)) => Err(OnlineErrorView::InvalidHash(h)),
        None => match run {
            Err(m) => Err(OnlineErrorView::Spawn(m)),
            Ok(out) => if out.success {
                listed_hash(info, out.stdout)
            } else {
                Err(OnlineErrorView::Command(failure_of(out)))
            },
        },
    }
}

/// The views of a result of texts.
pub open spec fn online_view(r: Result<String, OnlineError>) -> Result<Seq<char>, OnlineErrorView> {
    match r {
        Ok(h) => Ok(h@),
        Err(e) => Err(e@),
    }
}

fn no_results(info: &StandaloneTaskConfigRepo) -> (r: OnlineError)
    ensures
        r@ == (OnlineErrorView::NoResults { url: info@.url, tag: tag_or_head(info@) }),
{
    OnlineError::NoResults { url: info.url.clone(), tag: tag_text(info).to_owned() }
}

fn all_hex(bytes: &Vec<u8>) -> (r: bool)
    ensures
        r == hex_bytes(bytes@),
{
    if bytes.len() != 40 {
        return false;
    }
    let mut i: usize = 0;
    while i < 40
        invariant
            i <= 40,
            bytes@.len() == 40,
            forall|j: int| 0 <= j < i ==> is_hex_byte(#[trigger] bytes@[j]),
        decreases 40 - i,
    {
        let b: u8 = bytes[i];
        if !((b >= 48 && b <= 57) || (b >= 97 && b <= 102)) {
            assert(!is_hex_byte(bytes@[i as int]));
            return false;
        }
        i = i + 1;
    }
    true
}

/// Forty hexadecimal bytes read as text are a full hash.
pub proof fn lemma_hex_bytes_are_a_full_hash(bytes: Seq<u8>)
    requires
        hex_bytes(bytes),
    ensures
        full_hash(ascii_chars(bytes)),
{
    let chars = ascii_chars(bytes);
    assert forall|i: int| 0 <= i < chars.len() implies is_lower_hex(#[trigger] chars[i]) by {
        assert(is_hex_byte(bytes[i]));
    }
}

/// Reads the commit out of what the search of a listing found.
pub fn hash_from_capture(info: &StandaloneTaskConfigRepo, capture: Option<Option<Vec<u8>>>) -> (r:
    Result<String, OnlineError>)
    ensures
        online_view(r) == hash_of_capture(info@, capture_view(capture)),
        r is Ok ==> full_hash(r->Ok_0@),
{
    match capture {
        None => Err(OnlineError::Pattern),
        Some(None) => Err(no_results(info)),
        Some(Some(bytes)) => {
            if all_hex(&bytes) {
                proof {
                    lemma_hex_bytes_are_a_full_hash(bytes@);
                }
                Ok(ascii_text(bytes.as_slice()))
            } else {
                Err(no_results(info))
            }
        },
    }
}

/// What the remote says of `info`, given how the lookup ended: `Err` where
/// it could not be started. A reference that names a hash of its own is
/// answered from that hash, whatever the lookup was.
pub fn fetch_repo_hash_online(info: &StandaloneTaskConfigRepo, run: Result<CommandOutput, String>)
    -> (r: Result<String, OnlineError>)
    ensures
        online_view(r) == online_hash(
            info@,
            match run {
                Ok(out) => Ok(out@),
                Err(m) => Err(m@),
            },
        ),
        r is Ok ==> full_hash(r->Ok_0@),
{
    match &info.hash {
        Some(h) => {
            if is_full_hash(h.as_str()) {
                Ok(h.clone())
            } else {
                Err(OnlineError::InvalidHash(h.clone()))
            }
        },
        None => match run {
            Err(m) => Err(OnlineError::Spawn(m)),
            Ok(out) => match out.success_or_error() {
                Err(failure) => Err(OnlineError::Command(failure)),
                Ok(out) => {
                    let capture = regex_first_group(
                        r"^\s*([a-f0-9]{40}).*\s*$",
                        out.stdout.as_slice(),
                    );
                    hash_from_capture(info, capture)
                },
            },
        },
    }
}

/// The outcome of a resolution and the cache after it.
///
/// A reference with a hash of its own is settled by it and leaves the cache
/// alone. Otherwise the remote's answer is the outcome, and is remembered
/// unless it is what was remembered already; where the remote gave none,
/// the remembered commit is the outcome; where there is none either, the
/// resolution fails with the remote's error.
pub open spec fn resolved_hash(
    info: RepoView,
    online: Result<Seq<char>, OnlineErrorView>,
    cache: Seq<(Seq<char>, Seq<char>)>,
) -> (Result<Seq<char>, HashErrorView>, Seq<(Seq<char>, Seq<char>)>) {
    match explicit_hash(info) {
        Some(Ok(h)) => (Ok(h), cache),
        Some(Err(h)) => (Err(HashErrorView::InvalidHash(h)), cache),
        None => match online {
            Ok(h) => (
                Ok(h),
                if lookup(cache, cache_key(info)) == Some(h) {
                    cache
                } else {
                    put(cache, cache_key(info), h)
                },
            ),
            Err(e) => match lookup(cache, cache_key(info)) {
                Some(h) => (Ok(h), cache),
                None => (Err(HashErrorView::Unavailable(e)), cache),
            },
        },
    }
}

/// The views of a resolution's outcome.
pub open spec fn hash_view(r: Result<String, HashError>) -> Result<Seq<char>, HashErrorView> {
    match r {
        Ok(h) => Ok(h@),
        Err(e) => Err(e@),
    }
}

/// Resolves `info` from the remote's answer and the cache, and brings the
/// cache up to date. The flag tells whether the cache changed and has to be
/// written back.
pub fn fetch_repo_hash(
    info: &StandaloneTaskConfigRepo,
    online: Result<String, OnlineError>,
    cache: &mut RepoHashCache,
) -> (r: (Result<String, HashError>, bool))
    ensures
        (hash_view(r.0), final(cache)@) == resolved_hash(info@, online_view(online), old(cache)@),
        r.1 == (explicit_hash(info@) is None && online is Ok && lookup(
            old(cache)@,
            cache_key(info@),
        ) != Some(online->Ok_0@)),
        !r.1 ==> final(cache)@ == old(cache)@,
{
    match &info.hash {
        Some(h) => {
            if is_full_hash(h.as_str()) {
                (Ok(h.clone()), false)
            } else {
                (Err(HashError::InvalidHash(h.clone())), false)
            }
        },
        None => {
            let cached = fetch_repo_hash_cached(info, cache);
            match online {
                Ok(hash) => {
                    let known = match &cached {
                        Some(c) => *c == hash,
                        None => false,
                    };
                    if !known {
                        add_one_to_hash_cache(info, hash.as_str(), cache);
                    }
                    (Ok(hash), !known)
                },
                Err(e) => match cached {
                    Some(c) => (Ok(c), false),
                    None => (Err(HashError::Unavailable(e)), false),
                },
            }
        },
    }
}

/// A reference that names a full hash resolves to that hash and no other,
/// with nothing looked up and the cache as it was; one that names any other
/// hash fails. Neither the remote's answer nor the cache has a say.
pub proof fn law_explicit_hash_settles_the_commit(
    info: RepoView,
    online: Result<Seq<char>, OnlineErrorView>,
    cache: Seq<(Seq<char>, Seq<char>)>,
)
    requires
        info.hash is Some,
    ensures
        hash_plan(info) is Known,
        full_hash(info.hash.unwrap()) ==> hash_plan(info) == HashPlanView::Known(
            Ok(info.hash.unwrap()),
        ) && resolved_hash(info, online, cache) == (
            Ok::<Seq<char>, HashErrorView>(info.hash.unwrap()),
            cache,
        ),
        !full_hash(info.hash.unwrap()) ==> hash_plan(info)->Known_0 is Err && resolved_hash(
            info,
            online,
            cache,
        ).0 is Err && resolved_hash(info, online, cache).1 == cache,
{
}

/// A reference without a hash of its own: the remote's answer wins and is
/// what the cache holds afterwards; without an answer the remembered commit
/// stands in, and the cache stays as it was; without either the resolution
/// fails.
pub proof fn law_online_answer_wins_and_cache_stands_in(
    info: RepoView,
    online: Result<Seq<char>, OnlineErrorView>,
    cache: Seq<(Seq<char>, Seq<char>)>,
)
    requires
        info.hash is None,
        crate::name_map::distinct_names(cache),
    ensures
        online is Ok ==> resolved_hash(info, online, cache).0 == Ok::<Seq<char>, HashErrorView>(
            online->Ok_0,
        ) && lookup(resolved_hash(info, online, cache).1, cache_key(info)) == Some(online->Ok_0),
        online is Err ==> resolved_hash(info, online, cache).1 == cache,
        online is Err && lookup(cache, cache_key(info)) is Some ==> resolved_hash(
            info,
            online,
            cache,
        ).0 == Ok::<Seq<char>, HashErrorView>(lookup(cache, cache_key(info)).unwrap()),
        online is Err && lookup(cache, cache_key(info)) is None ==> resolved_hash(
            info,
            online,
            cache,
        ).0 is Err,
{
    if online is Ok {
        crate::name_map::lemma_put_lookup(cache, cache_key(info), online->Ok_0, cache_key(info));
    }
}

} // verus!
