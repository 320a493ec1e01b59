use zirco_runner::models::JobResult;
use zirco_runner::store::{ResultStore, RESULT_TTL_MS};

fn res(out: &str, code: i32) -> JobResult {
    JobResult::new(out.to_string(), String::new(), code)
}

#[test]
fn stored_result_visible_before_ttl() {
    let mut s = ResultStore::new();
    s.put(7, res("a", 0), 1_000);
    let got = s.get(7, 1_000 + RESULT_TTL_MS - 1).unwrap();
    assert_eq!(got.stdout, "a");
    assert_eq!(got.exit_code, 0);
    assert!(s.get(8, 1_000).is_none());
}

#[test]
fn stored_result_gone_after_ttl() {
    let mut s = ResultStore::new();
    s.put(7, res("a", 0), 1_000);
    assert_eq!(RESULT_TTL_MS, 300_000);
    assert!(s.get(7, 1_000 + RESULT_TTL_MS).is_none());
    s.evict_if_expired(7, 1_000 + RESULT_TTL_MS);
    assert!(s.get(7, 1_000).is_none());
}

#[test]
fn eviction_before_deadline_keeps_entry() {
    let mut s = ResultStore::new();
    s.put(3, res("b", 1), 0);
    s.evict_if_expired(3, 10);
    assert_eq!(s.get(3, 10).unwrap().stdout, "b");
}

#[test]
fn removal_is_idempotent() {
    let mut s = ResultStore::new();
    s.put(1, res("x", 0), 0);
    s.put(2, res("y", 0), 0);
    s.remove(1);
    s.remove(1);
    s.remove(99);
    assert!(s.get(1, 0).is_none());
    assert_eq!(s.get(2, 0).unwrap().stdout, "y");
}

#[test]
fn deadline_saturates() {
    let mut s = ResultStore::new();
    s.put(1, res("x", 0), u64::MAX - 5);
    assert!(s.get(1, u64::MAX - 1).is_some());
}
