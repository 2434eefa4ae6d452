//! Tests for the task identifiers and directory entries.

use async_core::dir_entry::DirEntry;
use async_core::task::{TaskId, TASK_ID_LIMIT};

#[test]
fn task_ids_carry_their_counter_value() {
    let first = TaskId::generate(1);
    let second = TaskId::generate(2);
    assert_eq!(first.value(), 1);
    assert_eq!(second.value(), 2);
    assert_ne!(first, second);
    assert_eq!(first, TaskId(1));
}

#[test]
fn task_id_limit_reserves_half_the_range() {
    assert_eq!(TASK_ID_LIMIT, u64::MAX / 2);
    let last = TaskId::generate(TASK_ID_LIMIT);
    assert_eq!(last.value(), TASK_ID_LIMIT);
}

#[test]
fn dir_entry_returns_its_full_path() {
    let entry = DirEntry::new(String::from("./logs/today.txt"));
    assert_eq!(entry.path(), "./logs/today.txt");
    // `path` hands out a copy; the entry still holds the path.
    let again = entry.path();
    assert_eq!(again, "./logs/today.txt");
}
