//! Operations addressed to ids that were never created, on an empty
//! registry: the lookups report the id as unknown, and the best-effort
//! operations succeed.

use pty_registry::{PtyError, PtyRegistry};

#[test]
fn write_unknown_id_not_found() {
    let mut r = PtyRegistry::new();
    let res = r.write_to_session("ghost", b"data");
    assert!(matches!(res, Err(PtyError::NotFound(_))));
}

#[test]
fn read_unknown_id_not_found() {
    let r = PtyRegistry::new();
    let res = r.session_reader("ghost");
    assert!(matches!(res, Err(PtyError::NotFound(_))));
}

#[test]
fn resize_unknown_id_not_found() {
    let mut r = PtyRegistry::new();
    let res = r.resize_session("ghost", 120, 40);
    assert!(matches!(res, Err(PtyError::NotFound(_))));
}

#[test]
fn kill_unknown_id_succeeds() {
    let mut r = PtyRegistry::new();
    assert!(r.kill_session("ghost").is_ok());
}

#[test]
fn kill_twice_unknown_id_succeeds_both_times() {
    let mut r = PtyRegistry::new();
    assert!(r.kill_session("ghost").is_ok());
    assert!(r.kill_session("ghost").is_ok());
    assert!(!r.session_exists("ghost"));
}

#[test]
fn exists_unknown_id_false() {
    let r = PtyRegistry::new();
    assert!(!r.session_exists("ghost"));
}

#[test]
fn list_of_empty_registry_is_empty() {
    let r = PtyRegistry::new();
    assert!(r.list_sessions().is_empty());
}

#[test]
fn info_unknown_id_none() {
    let r = PtyRegistry::new();
    assert!(r.get_session_info("ghost").is_none());
}

#[test]
fn dims_unknown_id_none() {
    let r = PtyRegistry::new();
    assert!(r.session_dims("ghost").is_none());
}

#[test]
fn not_found_error_names_the_id() {
    let mut r = PtyRegistry::new();
    match r.write_to_session("ghost", b"data") {
        Err(e) => assert_eq!(e.detail().as_str(), "ghost"),
        Ok(()) => panic!("write to an unknown id must fail"),
    }
}
