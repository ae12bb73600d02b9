use navitag::toast::{Manager, Status, Toast, DEFAULT_DURATION_MS};
use std::time::Instant;

fn lasting(title: &str, duration_ms: u64) -> Toast {
    Toast {
        title: title.to_string(),
        body: String::new(),
        status: Status::Info,
        created_at: Instant::now(),
        duration_ms,
    }
}

fn titles(manager: &Manager) -> Vec<String> {
    manager.toasts().iter().map(|t| t.title.clone()).collect()
}

#[test]
fn new_toast_lasts_five_seconds() {
    let toast = Toast::new(Status::Success, "Saved", "File metadata updated successfully");
    assert_eq!(toast.status, Status::Success);
    assert_eq!(toast.title, "Saved");
    assert_eq!(toast.body, "File metadata updated successfully");
    assert_eq!(toast.duration_ms, 5000);
    assert_eq!(DEFAULT_DURATION_MS, 5000);
    assert!(!toast.expired());
}

#[test]
fn toast_expires_once_its_time_is_up() {
    let toast = Toast::new(Status::Error, "t", "b");
    assert!(!toast.expired_after(0));
    assert!(!toast.expired_after(4999));
    assert!(toast.expired_after(5000));
    assert!(toast.expired_after(5001));
    assert!(toast.expired_after(u128::MAX));
}

#[test]
fn toast_without_duration_is_expired_at_once() {
    let toast = lasting("gone", 0);
    assert!(toast.expired());
    assert!(toast.expired_after(0));
}

#[test]
fn new_manager_is_empty() {
    assert!(Manager::new().toasts().is_empty());
    assert!(Manager::default().toasts().is_empty());
}

#[test]
fn manager_adds_behind_the_others() {
    let mut manager = Manager::new();
    manager.add(lasting("first", 5000));
    manager.add(lasting("second", 5000));
    manager.add(lasting("third", 5000));
    assert_eq!(titles(&manager), vec!["first", "second", "third"]);
}

#[test]
fn manager_update_drops_expired_toasts() {
    let mut manager = Manager::new();
    manager.add(lasting("stays", 60_000));
    manager.add(lasting("goes", 0));
    manager.add(lasting("stays too", 60_000));
    manager.add(lasting("goes too", 0));
    manager.update();
    assert_eq!(titles(&manager), vec!["stays", "stays too"]);
    manager.update();
    assert_eq!(titles(&manager), vec!["stays", "stays too"]);
}

#[test]
fn manager_sweep_goes_by_the_readings() {
    let mut manager = Manager::new();
    manager.add(lasting("a", 100));
    manager.add(lasting("b", 100));
    manager.add(lasting("c", 100));
    manager.add(lasting("d", 100));
    manager.sweep(&vec![99, 100, 0, 101]);
    assert_eq!(titles(&manager), vec!["a", "c"]);
}

#[test]
fn manager_sweep_keeps_toasts_without_a_reading() {
    let mut manager = Manager::new();
    manager.add(lasting("a", 0));
    manager.add(lasting("b", 0));
    manager.add(lasting("c", 0));
    manager.sweep(&vec![5]);
    assert_eq!(titles(&manager), vec!["b", "c"]);
    manager.sweep(&vec![]);
    assert_eq!(titles(&manager), vec!["b", "c"]);
    manager.sweep(&vec![0, 0, 0, 0]);
    assert!(titles(&manager).is_empty());
}

#[test]
fn toast_is_created_at_the_moment_given() {
    let at = Instant::now();
    let toast = Toast::new_at(Status::Info, "t", "b", at);
    assert_eq!(toast.created_at, at);
    assert_eq!(toast.status, Status::Info);
    assert_eq!(toast.title, "t");
    assert_eq!(toast.body, "b");
    assert_eq!(toast.duration_ms, 5000);
    let before = Instant::now();
    let now = Toast::new(Status::Info, "t", "b");
    assert!(before <= now.created_at && now.created_at <= Instant::now());
}
