use lunar::download::{CommandFailure, CommandOutput};
use lunar::name_map::NameMap;
use lunar::repo_hash::{
    add_one_to_hash_cache, fetch_repo_hash, fetch_repo_hash_cached, fetch_repo_hash_online,
    fetch_repo_hash_plan, hash_from_capture, is_full_hash, repo_key, HashError, HashPlan,
    OnlineError, RepoHashCache,
};
use lunar::task_config::StandaloneTaskConfigRepo;

const HASH_A: &str = "0123456789abcdef0123456789abcdef01234567";
const HASH_B: &str = "89abcdef0123456789abcdef0123456789abcdef";
const URL: &str = "https://example.com/tools.git";

fn reference(tag: Option<&str>, hash: Option<&str>) -> StandaloneTaskConfigRepo {
    StandaloneTaskConfigRepo {
        url: URL.to_string(),
        tag: tag.map(|t| t.to_string()),
        hash: hash.map(|h| h.to_string()),
        selector: None,
    }
}

fn cache_with(entries: &[(&str, &str)]) -> RepoHashCache {
    let mut repos = NameMap::new();
    for (key, hash) in entries {
        repos.insert(key.to_string(), hash.to_string());
    }
    RepoHashCache { repos }
}

fn cache_entries(cache: &RepoHashCache) -> Vec<(String, String)> {
    let mut all = Vec::new();
    for i in 0..cache.repos.len() {
        all.push((cache.repos.name_at(i).clone(), cache.repos.value_at(i).clone()));
    }
    all
}

fn listing(stdout: &str) -> Result<CommandOutput, String> {
    Ok(CommandOutput {
        success: true,
        code: Some(0),
        stdout: stdout.as_bytes().to_vec(),
        stderr: Vec::new(),
    })
}

fn no_results(tag: &str) -> OnlineError {
    OnlineError::NoResults { url: URL.to_string(), tag: tag.to_string() }
}

#[test]
fn full_hash_is_forty_lowercase_hex_characters() {
    assert!(is_full_hash(HASH_A));
    assert!(is_full_hash(HASH_B));
    assert!(!is_full_hash("0123456789abcdef0123456789abcdef0123456"));
    assert!(!is_full_hash("0123456789abcdef0123456789abcdef012345678"));
    assert!(!is_full_hash("0123456789ABCDEF0123456789abcdef01234567"));
    assert!(!is_full_hash(" 0123456789abcdef0123456789abcdef0123456"));
    assert!(!is_full_hash("0123456789abcdef0123456789abcdef0123456g"));
    assert!(!is_full_hash("0123456789abcdef0123456789abcdef0123456é"));
    assert!(!is_full_hash(""));
}

#[test]
fn the_cache_key_is_the_tag_and_the_url() {
    assert_eq!(repo_key(&reference(None, None)), "HEAD on https://example.com/tools.git");
    assert_eq!(repo_key(&reference(Some("v1.2"), None)), "v1.2 on https://example.com/tools.git");
    assert_eq!(
        repo_key(&reference(Some("v1.2"), Some(HASH_A))),
        "v1.2 on https://example.com/tools.git"
    );
}

#[test]
fn an_explicit_full_hash_is_planned_without_any_lookup() {
    assert_eq!(
        fetch_repo_hash_plan(&reference(None, Some(HASH_A))),
        HashPlan::Known(Ok(HASH_A.to_string()))
    );
    assert_eq!(
        fetch_repo_hash_plan(&reference(Some("v1"), Some(HASH_B))),
        HashPlan::Known(Ok(HASH_B.to_string()))
    );
}

#[test]
fn an_explicit_hash_that_is_not_full_always_fails() {
    let short = "0123456789abcdef";
    assert_eq!(
        fetch_repo_hash_plan(&reference(None, Some(short))),
        HashPlan::Known(Err(HashError::InvalidHash(short.to_string())))
    );
    let padded = format!("  {}", HASH_A);
    assert_eq!(
        fetch_repo_hash_plan(&reference(None, Some(&padded))),
        HashPlan::Known(Err(HashError::InvalidHash(padded.clone())))
    );
    let trailing = format!("{} refs/heads/main", HASH_A);
    assert_eq!(
        fetch_repo_hash_plan(&reference(None, Some(&trailing))),
        HashPlan::Known(Err(HashError::InvalidHash(trailing.clone())))
    );
    let mut cache = cache_with(&[("HEAD on https://example.com/tools.git", HASH_B)]);
    let outcome = fetch_repo_hash(&reference(None, Some(short)), Ok(HASH_A.to_string()), &mut cache);
    assert_eq!(outcome, (Err(HashError::InvalidHash(short.to_string())), false));
    assert_eq!(
        cache_entries(&cache),
        vec![("HEAD on https://example.com/tools.git".to_string(), HASH_B.to_string())]
    );
}

#[test]
fn an_explicit_full_hash_overrides_remote_and_cache() {
    let mut cache = cache_with(&[("HEAD on https://example.com/tools.git", HASH_B)]);
    let outcome = fetch_repo_hash(
        &reference(None, Some(HASH_A)),
        Err(OnlineError::Spawn("no git".to_string())),
        &mut cache,
    );
    assert_eq!(outcome, (Ok(HASH_A.to_string()), false));
    assert_eq!(
        cache_entries(&cache),
        vec![("HEAD on https://example.com/tools.git".to_string(), HASH_B.to_string())]
    );
    assert_eq!(
        fetch_repo_hash_online(&reference(None, Some(HASH_A)), Err("no git".to_string())),
        Ok(HASH_A.to_string())
    );
}

#[test]
fn a_reference_without_hash_is_looked_up_at_the_remote() {
    assert_eq!(
        fetch_repo_hash_plan(&reference(None, None)),
        HashPlan::Lookup {
            program: "git".to_string(),
            args: vec!["ls-remote".to_string(), URL.to_string(), "HEAD".to_string()]
        }
    );
    assert_eq!(
        fetch_repo_hash_plan(&reference(Some("v2"), None)),
        HashPlan::Lookup {
            program: "git".to_string(),
            args: vec!["ls-remote".to_string(), URL.to_string(), "v2".to_string()]
        }
    );
}

#[test]
fn the_online_answer_wins_and_is_remembered() {
    let mut cache = cache_with(&[
        ("v1 on https://example.com/tools.git", HASH_B),
        ("HEAD on https://example.com/tools.git", HASH_B),
    ]);
    let outcome = fetch_repo_hash(&reference(None, None), Ok(HASH_A.to_string()), &mut cache);
    assert_eq!(outcome, (Ok(HASH_A.to_string()), true));
    assert_eq!(
        cache_entries(&cache),
        vec![
            ("v1 on https://example.com/tools.git".to_string(), HASH_B.to_string()),
            ("HEAD on https://example.com/tools.git".to_string(), HASH_A.to_string()),
        ]
    );
    assert_eq!(fetch_repo_hash_cached(&reference(None, None), &cache), Some(HASH_A.to_string()));
}

#[test]
fn an_online_answer_is_remembered_in_an_empty_cache() {
    let mut cache = RepoHashCache::default();
    let outcome = fetch_repo_hash(&reference(Some("v3"), None), Ok(HASH_A.to_string()), &mut cache);
    assert_eq!(outcome, (Ok(HASH_A.to_string()), true));
    assert_eq!(
        cache_entries(&cache),
        vec![("v3 on https://example.com/tools.git".to_string(), HASH_A.to_string())]
    );
}

#[test]
fn an_online_answer_that_is_already_remembered_changes_nothing() {
    let mut cache = cache_with(&[("HEAD on https://example.com/tools.git", HASH_A)]);
    let outcome = fetch_repo_hash(&reference(None, None), Ok(HASH_A.to_string()), &mut cache);
    assert_eq!(outcome, (Ok(HASH_A.to_string()), false));
    assert_eq!(
        cache_entries(&cache),
        vec![("HEAD on https://example.com/tools.git".to_string(), HASH_A.to_string())]
    );
}

#[test]
fn the_cache_stands_in_when_the_remote_fails() {
    let mut cache = cache_with(&[("HEAD on https://example.com/tools.git", HASH_B)]);
    let outcome = fetch_repo_hash(&reference(None, None), Err(no_results("HEAD")), &mut cache);
    assert_eq!(outcome, (Ok(HASH_B.to_string()), false));
    assert_eq!(
        cache_entries(&cache),
        vec![("HEAD on https://example.com/tools.git".to_string(), HASH_B.to_string())]
    );
}

#[test]
fn resolution_fails_when_remote_and_cache_both_fail() {
    let mut cache = cache_with(&[("v1 on https://example.com/tools.git", HASH_B)]);
    let outcome = fetch_repo_hash(&reference(None, None), Err(no_results("HEAD")), &mut cache);
    assert_eq!(outcome, (Err(HashError::Unavailable(no_results("HEAD"))), false));
    assert_eq!(cache.repos.len(), 1);
}

#[test]
fn the_cache_is_read_and_written_by_key() {
    let mut cache = RepoHashCache::default();
    assert_eq!(fetch_repo_hash_cached(&reference(None, None), &cache), None);
    add_one_to_hash_cache(&reference(None, None), HASH_A, &mut cache);
    add_one_to_hash_cache(&reference(Some("v1"), None), HASH_B, &mut cache);
    assert_eq!(fetch_repo_hash_cached(&reference(None, None), &cache), Some(HASH_A.to_string()));
    assert_eq!(
        fetch_repo_hash_cached(&reference(Some("v1"), None), &cache),
        Some(HASH_B.to_string())
    );
    assert_eq!(fetch_repo_hash_cached(&reference(Some("v2"), None), &cache), None);
    add_one_to_hash_cache(&reference(None, None), HASH_B, &mut cache);
    assert_eq!(fetch_repo_hash_cached(&reference(None, None), &cache), Some(HASH_B.to_string()));
    assert_eq!(cache.repos.len(), 2);
}

#[test]
fn a_listing_of_one_line_names_the_commit() {
    let stdout = format!("{}\tHEAD\n", HASH_A);
    assert_eq!(
        fetch_repo_hash_online(&reference(None, None), listing(&stdout)),
        Ok(HASH_A.to_string())
    );
    let indented = format!("  \n {}\trefs/tags/v1\r\n\n", HASH_B);
    assert_eq!(
        fetch_repo_hash_online(&reference(Some("v1"), None), listing(&indented)),
        Ok(HASH_B.to_string())
    );
    assert_eq!(
        fetch_repo_hash_online(&reference(None, None), listing(HASH_A)),
        Ok(HASH_A.to_string())
    );
}

#[test]
fn a_listing_without_a_commit_gives_no_results() {
    assert_eq!(fetch_repo_hash_online(&reference(None, None), listing("")), Err(no_results("HEAD")));
    assert_eq!(
        fetch_repo_hash_online(&reference(Some("v9"), None), listing("fatal: nothing\n")),
        Err(no_results("v9"))
    );
    let short = format!("{}\tHEAD\n", &HASH_A[..39]);
    assert_eq!(
        fetch_repo_hash_online(&reference(None, None), listing(&short)),
        Err(no_results("HEAD"))
    );
    let two_lines = format!("{}\trefs/heads/v1\n{}\trefs/tags/v1\n", HASH_A, HASH_B);
    assert_eq!(
        fetch_repo_hash_online(&reference(Some("v1"), None), listing(&two_lines)),
        Err(no_results("v1"))
    );
}

#[test]
fn a_failed_lookup_reports_the_command() {
    let out = CommandOutput {
        success: false,
        code: Some(128),
        stdout: b"partial".to_vec(),
        stderr: b"fatal: repository not found".to_vec(),
    };
    let failure = CommandFailure {
        code: 128,
        stderr: "fatal: repository not found".to_string(),
        stdout: "partial".to_string(),
    };
    assert_eq!(
        fetch_repo_hash_online(&reference(None, None), Ok(out)),
        Err(OnlineError::Command(failure))
    );
    assert_eq!(
        fetch_repo_hash_online(&reference(None, None), Err("git: not found".to_string())),
        Err(OnlineError::Spawn("git: not found".to_string()))
    );
}

#[test]
fn what_the_search_found_is_checked_again() {
    let info = reference(None, None);
    assert_eq!(hash_from_capture(&info, None), Err(OnlineError::Pattern));
    assert_eq!(hash_from_capture(&info, Some(None)), Err(no_results("HEAD")));
    assert_eq!(
        hash_from_capture(&info, Some(Some(HASH_A.as_bytes().to_vec()))),
        Ok(HASH_A.to_string())
    );
    assert_eq!(
        hash_from_capture(&info, Some(Some(HASH_A.to_uppercase().into_bytes()))),
        Err(no_results("HEAD"))
    );
    assert_eq!(hash_from_capture(&info, Some(Some(b"abc".to_vec()))), Err(no_results("HEAD")));
    assert_eq!(hash_from_capture(&info, Some(Some(vec![0xff; 40]))), Err(no_results("HEAD")));
}

#[test]
fn resolution_errors_have_their_texts() {
    assert_eq!(
        HashError::InvalidHash("abc".to_string()).message(),
        "Invalid hash: abc; expected full 40-character hash"
    );
    assert_eq!(
        OnlineError::InvalidHash("abc".to_string()).message(),
        "Invalid hash: abc; expected full 40-character hash"
    );
    assert_eq!(
        HashError::Unavailable(no_results("HEAD")).message(),
        "Could not fetch hash online or from local cache"
    );
    assert_eq!(
        no_results("v1").message(),
        "Failed to fetch repo hash online;\nno results for 'git ls-remote https://example.com/tools.git v1'"
    );
    assert_eq!(OnlineError::Spawn("no git".to_string()).message(), "no git");
    let failure =
        CommandFailure { code: 2, stderr: "bad".to_string(), stdout: "out".to_string() };
    assert_eq!(OnlineError::Command(failure).message(), "Failed with exit code 2\nbad\nout");
}

#[test]
fn an_explicit_hash_that_is_not_full_is_refused_by_the_online_lookup_too() {
    assert_eq!(
        fetch_repo_hash_online(&reference(None, Some("HEAD")), listing("")),
        Err(OnlineError::InvalidHash("HEAD".to_string()))
    );
    let upper = HASH_A.to_uppercase();
    assert_eq!(
        fetch_repo_hash_online(&reference(None, Some(&upper)), Err("unused".to_string())),
        Err(OnlineError::InvalidHash(upper.clone()))
    );
}
