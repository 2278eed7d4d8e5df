//! Sessions running behind real pseudoterminals: creation, echo
//! round-trips, geometry, isolation and teardown.

use std::time::{Duration, Instant};

use pty_registry::{blocking_read_chunk, PtyError, PtyRegistry};

/// Polls the session's output until it contains `expected` or `budget`
/// has passed, and returns everything read.
fn read_until_contains(r: &PtyRegistry, id: &str, expected: &[u8], budget: Duration) -> Vec<u8> {
    let deadline = Instant::now() + budget;
    let mut collected: Vec<u8> = Vec::new();
    while Instant::now() < deadline {
        let reader = r.session_reader(id).expect("session must exist");
        match blocking_read_chunk(&reader) {
            Ok(chunk) => {
                if chunk.is_empty() {
                    break;
                }
                collected.extend_from_slice(&chunk);
            }
            Err(_) => break,
        }
        if collected
            .windows(expected.len().max(1))
            .any(|w| w == expected)
        {
            break;
        }
    }
    collected
}

fn contains(haystack: &[u8], needle: &[u8]) -> bool {
    haystack.windows(needle.len().max(1)).any(|w| w == needle)
}

#[test]
fn scenario_default_shell_echoes_hi() {
    let mut r = PtyRegistry::new();
    r.create_session("s1".to_string(), "/tmp".to_string(), None)
        .expect("creating a session with the default shell");
    r.write_to_session("s1", b"echo hi\n")
        .expect("writing to a live session");
    let output = read_until_contains(&r, "s1", b"hi", Duration::from_secs(2));
    assert!(contains(&output, b"hi"));
    r.kill_session("s1").expect("kill always succeeds");
    assert!(!r.session_exists("s1"));
}

#[test]
fn roundtrip_written_bytes_come_back() {
    let mut r = PtyRegistry::new();
    r.create_session(
        "echo".to_string(),
        "/tmp".to_string(),
        Some("/bin/cat".to_string()),
    )
    .expect("creating a session running cat");
    r.write_to_session("echo", b"roundtrip-marker\n")
        .expect("writing to a live session");
    let output = read_until_contains(&r, "echo", b"roundtrip-marker", Duration::from_secs(2));
    assert!(contains(&output, b"roundtrip-marker"));
    r.kill_session("echo").unwrap();
}

#[test]
fn geometry_starts_at_initial_size_and_follows_resize() {
    let mut r = PtyRegistry::new();
    r.create_session(
        "geo".to_string(),
        "/tmp".to_string(),
        Some("/bin/cat".to_string()),
    )
    .unwrap();
    assert_eq!(r.session_dims("geo"), Some((80, 24)));
    r.resize_session("geo", 120, 40).expect("resizing a live session");
    assert_eq!(r.session_dims("geo"), Some((120, 40)));
    r.kill_session("geo").unwrap();
    assert_eq!(r.session_dims("geo"), None);
}

#[test]
fn killing_one_session_leaves_the_other_functional() {
    let mut r = PtyRegistry::new();
    r.create_session("a".to_string(), "/tmp".to_string(), Some("/bin/cat".to_string()))
        .unwrap();
    r.create_session("b".to_string(), "/tmp".to_string(), Some("/bin/cat".to_string()))
        .unwrap();
    r.kill_session("a").unwrap();
    assert!(!r.session_exists("a"));
    assert!(r.session_exists("b"));
    r.write_to_session("b", b"still-alive\n").expect("b still writable");
    let output = read_until_contains(&r, "b", b"still-alive", Duration::from_secs(2));
    assert!(contains(&output, b"still-alive"));
    r.resize_session("b", 100, 30).expect("b still resizable");
    assert_eq!(r.session_dims("b"), Some((100, 30)));
    assert!(matches!(
        r.write_to_session("a", b"gone"),
        Err(PtyError::NotFound(_))
    ));
    r.kill_session("b").unwrap();
}

#[test]
fn kill_twice_succeeds_both_times() {
    let mut r = PtyRegistry::new();
    r.create_session("k".to_string(), "/tmp".to_string(), Some("/bin/cat".to_string()))
        .unwrap();
    assert!(r.kill_session("k").is_ok());
    assert!(r.kill_session("k").is_ok());
    assert!(!r.session_exists("k"));
}

#[test]
fn info_reports_cwd_and_resolved_command() {
    let mut r = PtyRegistry::new();
    r.create_session("i".to_string(), "/tmp".to_string(), Some("/bin/cat".to_string()))
        .unwrap();
    let (cwd, command) = r.get_session_info("i").expect("metadata must be registered");
    assert_eq!(cwd.as_str(), "/tmp");
    assert_eq!(command.as_deref(), Some("/bin/cat"));
    r.kill_session("i").unwrap();
    assert!(r.get_session_info("i").is_none());
}

#[test]
fn creating_with_a_used_id_replaces_the_entries() {
    let mut r = PtyRegistry::new();
    r.create_session("dup".to_string(), "/tmp".to_string(), Some("/bin/cat".to_string()))
        .unwrap();
    r.create_session("dup".to_string(), "/".to_string(), Some("/bin/sh".to_string()))
        .unwrap();
    let (cwd, command) = r.get_session_info("dup").unwrap();
    assert_eq!(cwd.as_str(), "/");
    assert_eq!(command.as_deref(), Some("/bin/sh"));
    assert_eq!(r.list_sessions().len(), 1);
    r.kill_session("dup").unwrap();
}

#[test]
fn list_names_every_live_session_once() {
    let mut r = PtyRegistry::new();
    r.create_session("one".to_string(), "/tmp".to_string(), Some("/bin/cat".to_string()))
        .unwrap();
    r.create_session("two".to_string(), "/tmp".to_string(), Some("/bin/cat".to_string()))
        .unwrap();
    let mut ids = r.list_sessions();
    ids.sort();
    assert_eq!(ids, vec!["one".to_string(), "two".to_string()]);
    r.shutdown_all();
    assert!(r.list_sessions().is_empty());
    assert!(!r.session_exists("one"));
    assert!(!r.session_exists("two"));
}

#[test]
fn spawning_a_missing_shell_reports_spawn_failure() {
    let mut r = PtyRegistry::new();
    let res = r.create_session(
        "bad".to_string(),
        "/tmp".to_string(),
        Some("/no/such/shell".to_string()),
    );
    assert!(matches!(res, Err(PtyError::SpawnFailure(_))));
    assert!(!r.session_exists("bad"));
}
