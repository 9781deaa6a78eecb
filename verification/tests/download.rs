use base64::Engine;
use lunar::download::{
    dir_name_from, fetch_repo, repo_cache_dir_name, temp_dir_name, url_digest_text, CachePlace,
    CommandFailure, CommandOutput, FetchAction, FetchError, FetchEvent, Fetcher, SuccessOrError,
};
use lunar::task_config::StandaloneTaskConfigRepo;
use std::hash::{Hash, Hasher};

const HASH: &str = "0123456789abcdef0123456789abcdef01234567";
const SHORT: &str = "0123456789abcdef0123";
const URL: &str = "https://example.com/tools.git";

fn reference(url: &str) -> StandaloneTaskConfigRepo {
    StandaloneTaskConfigRepo { url: url.to_string(), tag: None, hash: None, selector: None }
}

fn digest_text(url: &str) -> String {
    let mut hasher = std::collections::hash_map::DefaultHasher::new();
    url.hash(&mut hasher);
    base64::prelude::BASE64_STANDARD_NO_PAD.encode(hasher.finish().to_le_bytes())
}

fn repo_dir(url: &str, clean: &str) -> String {
    format!("{}-{}", clean, digest_text(url))
}

fn pinned() -> CachePlace {
    CachePlace { repo_dir: repo_dir(URL, "https_example_com_tools_git"), leaf: SHORT.to_string() }
}

fn ok_run() -> FetchEvent {
    FetchEvent::Ran(CommandOutput {
        success: true,
        code: Some(0),
        stdout: Vec::new(),
        stderr: Vec::new(),
    })
}

fn failed_run(code: Option<i32>) -> FetchEvent {
    FetchEvent::Ran(CommandOutput {
        success: false,
        code,
        stdout: b"some output".to_vec(),
        stderr: b"some error".to_vec(),
    })
}

fn texts(all: &[&str]) -> Vec<String> {
    all.iter().map(|s| s.to_string()).collect()
}

fn begin() -> (Fetcher, CachePlace) {
    let (mut fetcher, action) = fetch_repo(&reference(URL), HASH);
    assert_eq!(action, FetchAction::ProbePinned { place: pinned() });
    let temp = match fetcher.step(FetchEvent::Exists(false)) {
        FetchAction::CreateTemp { place } => place,
        other => panic!("unexpected action {:?}", other),
    };
    (fetcher, temp)
}

fn clone_until_setup_probe() -> (Fetcher, CachePlace) {
    let (mut fetcher, temp) = begin();
    assert_eq!(
        fetcher.step(FetchEvent::Created),
        FetchAction::Run { program: "git".to_string(), args: texts(&["init"]), place: temp.clone() }
    );
    assert_eq!(
        fetcher.step(ok_run()),
        FetchAction::Run {
            program: "git".to_string(),
            args: texts(&["remote", "add", "origin", URL]),
            place: temp.clone()
        }
    );
    assert_eq!(
        fetcher.step(ok_run()),
        FetchAction::Run {
            program: "git".to_string(),
            args: texts(&["fetch", "--depth", "1", "origin", HASH]),
            place: temp.clone()
        }
    );
    assert_eq!(
        fetcher.step(ok_run()),
        FetchAction::Run {
            program: "git".to_string(),
            args: texts(&["reset", "--hard", "FETCH_HEAD"]),
            place: temp.clone()
        }
    );
    assert_eq!(
        fetcher.step(ok_run()),
        FetchAction::ProbeSetup { place: temp.clone(), file: "lunar-setup.luau".to_string() }
    );
    (fetcher, temp)
}

#[test]
fn a_command_that_succeeded_is_handed_back() {
    let out = CommandOutput {
        success: true,
        code: Some(0),
        stdout: b"out".to_vec(),
        stderr: b"err".to_vec(),
    };
    let same = CommandOutput {
        success: true,
        code: Some(0),
        stdout: b"out".to_vec(),
        stderr: b"err".to_vec(),
    };
    assert_eq!(out.success_or_error(), Ok(same));
}

#[test]
fn a_command_that_failed_becomes_an_error_with_code_and_streams() {
    let out = CommandOutput {
        success: false,
        code: Some(128),
        stdout: b"out".to_vec(),
        stderr: b"err".to_vec(),
    };
    let failure = out.success_or_error().unwrap_err();
    assert_eq!(
        failure,
        CommandFailure { code: 128, stderr: "err".to_string(), stdout: "out".to_string() }
    );
    assert_eq!(failure.message(), "Failed with exit code 128\nerr\nout");
}

#[test]
fn a_command_without_exit_code_counts_as_code_one() {
    let out = CommandOutput { success: false, code: None, stdout: Vec::new(), stderr: Vec::new() };
    let failure = out.success_or_error().unwrap_err();
    assert_eq!(failure.code, 1);
    assert_eq!(failure.message(), "Failed with exit code 1\n\n");
}

#[test]
fn streams_that_are_not_utf8_are_read_lossily() {
    let out = CommandOutput {
        success: false,
        code: Some(-3),
        stdout: vec![b'a', 0xff, b'b'],
        stderr: "grüß".as_bytes().to_vec(),
    };
    let failure = out.success_or_error().unwrap_err();
    assert_eq!(failure.stdout, "a\u{fffd}b");
    assert_eq!(failure.stderr, "grüß");
    assert_eq!(failure.message(), "Failed with exit code -3\ngrüß\na\u{fffd}b");
}

#[test]
fn the_cache_directory_is_named_by_sanitized_url_and_digest() {
    assert_eq!(
        repo_cache_dir_name(URL),
        Some(repo_dir(URL, "https_example_com_tools_git"))
    );
    assert_eq!(
        repo_cache_dir_name("git@host:me/my-repo_(v2)+x"),
        Some(repo_dir("git@host:me/my-repo_(v2)+x", "git_host_me_my-repo_(v2)+x"))
    );
    assert_eq!(repo_cache_dir_name(""), Some(repo_dir("", "")));
    assert_eq!(repo_cache_dir_name("a  b"), Some(repo_dir("a  b", "a_b")));
}

#[test]
fn directory_names_are_put_together_from_their_parts() {
    assert_eq!(dir_name_from(Some("a_b".to_string()), "xyz"), Some("a_b-xyz".to_string()));
    assert_eq!(dir_name_from(Some(String::new()), ""), Some("-".to_string()));
    assert_eq!(dir_name_from(None, "xyz"), None);
    assert_eq!(temp_dir_name("0123", "AbC"), "0123.tmp_AbC");
    assert_eq!(url_digest_text(URL), digest_text(URL));
    assert_eq!(url_digest_text(""), digest_text(""));
}

#[test]
fn urls_that_differ_only_in_case_get_different_directories() {
    let lower = repo_cache_dir_name("https://example.com/tools").unwrap();
    let upper = repo_cache_dir_name("https://example.com/Tools").unwrap();
    assert_ne!(lower, upper);
    assert_eq!(digest_text(URL).len(), 11);
}

#[test]
fn a_pinned_directory_that_exists_ends_the_fetch_at_once() {
    let (mut fetcher, action) = fetch_repo(&reference(URL), HASH);
    assert_eq!(action, FetchAction::ProbePinned { place: pinned() });
    assert!(!fetcher.is_finished());
    assert_eq!(fetcher.step(FetchEvent::Exists(true)), FetchAction::Done { outcome: Ok(pinned()) });
    assert!(fetcher.is_finished());
}

#[test]
fn fetching_twice_yields_the_same_directory_and_no_second_clone() {
    let (mut first, temp) = clone_until_setup_probe();
    assert_eq!(
        first.step(FetchEvent::Setup(None)),
        FetchAction::Rename { from: temp, to: pinned() }
    );
    assert_eq!(first.step(FetchEvent::Renamed), FetchAction::Done { outcome: Ok(pinned()) });
    let (mut second, action) = fetch_repo(&reference(URL), HASH);
    assert_eq!(action, FetchAction::ProbePinned { place: pinned() });
    assert_eq!(second.step(FetchEvent::Exists(true)), FetchAction::Done { outcome: Ok(pinned()) });
}

#[test]
fn the_temporary_directory_is_a_sibling_with_a_random_suffix() {
    let (_, temp_a) = begin();
    let (_, temp_b) = begin();
    assert_eq!(temp_a.repo_dir, pinned().repo_dir);
    assert_eq!(temp_b.repo_dir, pinned().repo_dir);
    assert!(temp_a.leaf.starts_with("0123456789abcdef0123.tmp_"));
    assert_eq!(temp_a.leaf.chars().count(), 20 + 5 + 22);
    assert_eq!(temp_b.leaf.chars().count(), 20 + 5 + 22);
    assert_ne!(temp_a.leaf, temp_b.leaf);
}

#[test]
fn a_short_hash_names_the_pinned_directory_as_it_is() {
    let (_, action) = fetch_repo(&reference(URL), "abc");
    assert_eq!(
        action,
        FetchAction::ProbePinned {
            place: CachePlace { repo_dir: pinned().repo_dir, leaf: "abc".to_string() }
        }
    );
}

#[test]
fn a_clone_without_setup_script_is_renamed_into_place() {
    let (mut fetcher, temp) = clone_until_setup_probe();
    assert_eq!(
        fetcher.step(FetchEvent::Setup(None)),
        FetchAction::Rename { from: temp, to: pinned() }
    );
    assert_eq!(fetcher.step(FetchEvent::Renamed), FetchAction::Done { outcome: Ok(pinned()) });
    assert!(fetcher.is_finished());
    assert_eq!(
        fetcher.step(FetchEvent::Renamed),
        FetchAction::Done { outcome: Err(FetchError::Protocol) }
    );
}

#[test]
fn a_setup_script_runs_only_when_trusted() {
    let (mut fetcher, temp) = clone_until_setup_probe();
    assert_eq!(
        fetcher.step(FetchEvent::Setup(Some("/cache/tmp/lunar-setup.luau".to_string()))),
        FetchAction::AskTrust {
            subject: "lunar-setup for https://example.com/tools.git".to_string(),
            query: "Do you want to run the setup script for https://example.com/tools.git ? It may make changes to your system!\nTemporary file location: /cache/tmp/lunar-setup.luau".to_string(),
        }
    );
    assert_eq!(
        fetcher.step(FetchEvent::Trust(true)),
        FetchAction::Run {
            program: "lune".to_string(),
            args: texts(&["run", "/cache/tmp/lunar-setup.luau"]),
            place: temp.clone()
        }
    );
    assert_eq!(fetcher.step(ok_run()), FetchAction::Rename { from: temp, to: pinned() });
    assert_eq!(fetcher.step(FetchEvent::Renamed), FetchAction::Done { outcome: Ok(pinned()) });
}

#[test]
fn a_setup_script_that_is_declined_fails_the_fetch() {
    let (mut fetcher, _) = clone_until_setup_probe();
    fetcher.step(FetchEvent::Setup(Some("/x/lunar-setup.luau".to_string())));
    assert_eq!(
        fetcher.step(FetchEvent::Trust(false)),
        FetchAction::Done { outcome: Err(FetchError::SetupNotTrusted) }
    );
    assert!(fetcher.is_finished());
}

#[test]
fn a_setup_script_that_fails_fails_the_fetch() {
    let (mut fetcher, _) = clone_until_setup_probe();
    fetcher.step(FetchEvent::Setup(Some("/x/lunar-setup.luau".to_string())));
    fetcher.step(FetchEvent::Trust(true));
    assert_eq!(
        fetcher.step(failed_run(Some(3))),
        FetchAction::Done {
            outcome: Err(FetchError::Command(CommandFailure {
                code: 3,
                stderr: "some error".to_string(),
                stdout: "some output".to_string(),
            }))
        }
    );
}

#[test]
fn a_prompt_that_cannot_be_read_fails_the_fetch() {
    let (mut fetcher, _) = clone_until_setup_probe();
    fetcher.step(FetchEvent::Setup(Some("/x/lunar-setup.luau".to_string())));
    assert_eq!(
        fetcher.step(FetchEvent::Failed("stdin closed".to_string())),
        FetchAction::Done { outcome: Err(FetchError::Prompt("stdin closed".to_string())) }
    );
}

#[test]
fn a_lost_race_discards_the_own_clone_and_reports_the_winners() {
    let (mut winner, winner_temp) = clone_until_setup_probe();
    let (mut loser, loser_temp) = clone_until_setup_probe();
    assert_ne!(winner_temp, loser_temp);
    winner.step(FetchEvent::Setup(None));
    loser.step(FetchEvent::Setup(None));
    assert_eq!(winner.step(FetchEvent::Renamed), FetchAction::Done { outcome: Ok(pinned()) });
    assert_eq!(
        loser.step(FetchEvent::Taken),
        FetchAction::RemoveTemp { place: loser_temp }
    );
    assert_eq!(loser.step(FetchEvent::Removed), FetchAction::Done { outcome: Ok(pinned()) });
}

#[test]
fn a_clone_that_cannot_be_discarded_still_reports_the_winners() {
    let (mut loser, loser_temp) = clone_until_setup_probe();
    loser.step(FetchEvent::Setup(None));
    assert_eq!(loser.step(FetchEvent::Taken), FetchAction::RemoveTemp { place: loser_temp });
    assert_eq!(
        loser.step(FetchEvent::Failed("directory not empty".to_string())),
        FetchAction::Done { outcome: Ok(pinned()) }
    );
}

#[test]
fn a_rename_that_fails_otherwise_fails_the_fetch() {
    let (mut fetcher, _) = clone_until_setup_probe();
    fetcher.step(FetchEvent::Setup(None));
    assert_eq!(
        fetcher.step(FetchEvent::Failed("permission denied".to_string())),
        FetchAction::Done { outcome: Err(FetchError::Rename("permission denied".to_string())) }
    );
}

#[test]
fn a_temporary_directory_that_cannot_be_created_fails_the_fetch() {
    let (mut fetcher, _) = begin();
    assert_eq!(
        fetcher.step(FetchEvent::Failed("read-only file system".to_string())),
        FetchAction::Done {
            outcome: Err(FetchError::CreateDir("read-only file system".to_string()))
        }
    );
}

#[test]
fn a_git_step_that_fails_fails_the_fetch_with_code_and_streams() {
    let (mut fetcher, _) = begin();
    fetcher.step(FetchEvent::Created);
    fetcher.step(ok_run());
    assert_eq!(
        fetcher.step(failed_run(None)),
        FetchAction::Done {
            outcome: Err(FetchError::Command(CommandFailure {
                code: 1,
                stderr: "some error".to_string(),
                stdout: "some output".to_string(),
            }))
        }
    );
    assert!(fetcher.is_finished());
}

#[test]
fn a_command_that_cannot_be_started_fails_the_fetch() {
    let (mut fetcher, _) = begin();
    fetcher.step(FetchEvent::Created);
    assert_eq!(
        fetcher.step(FetchEvent::Failed("git: not found".to_string())),
        FetchAction::Done { outcome: Err(FetchError::Spawn("git: not found".to_string())) }
    );
}

#[test]
fn an_event_that_answers_nothing_fails_the_fetch() {
    let (mut fetcher, _) = fetch_repo(&reference(URL), HASH);
    assert_eq!(
        fetcher.step(FetchEvent::Renamed),
        FetchAction::Done { outcome: Err(FetchError::Protocol) }
    );
    let (mut fetcher, _) = begin();
    assert_eq!(
        fetcher.step(FetchEvent::Exists(true)),
        FetchAction::Done { outcome: Err(FetchError::Protocol) }
    );
    let (mut fetcher, _) = clone_until_setup_probe();
    assert_eq!(
        fetcher.step(ok_run()),
        FetchAction::Done { outcome: Err(FetchError::Protocol) }
    );
}
