use restarter::policy::{check_history, push_history, update_history};

#[test]
fn push_appends_expiry() {
    let h = push_history(vec![5], 60, 100);
    assert_eq!(h, vec![5, 160]);
}

#[test]
fn push_hour_window() {
    let h = push_history(Vec::new(), 3600, 1000);
    assert_eq!(h, vec![4600]);
}

#[test]
fn prune_removes_expired_inclusive() {
    let h = update_history(vec![10, 20, 30, 40], 20);
    assert_eq!(h, vec![30, 40]);
}

#[test]
fn prune_keeps_duplicates() {
    let h = update_history(vec![70, 70, 5, 70], 60);
    assert_eq!(h, vec![70, 70, 70]);
    let h = update_history(vec![70, 70], 70);
    assert!(h.is_empty());
}

#[test]
fn prune_empty_history() {
    assert!(update_history(Vec::new(), 0).is_empty());
}

#[test]
fn prune_twice_same_as_once() {
    let once = update_history(vec![1, 50, 99, 100, 101, 3], 99);
    let twice = update_history(once.clone(), 99);
    assert_eq!(once, vec![100, 101]);
    assert_eq!(twice, once);
}

#[test]
fn allowed_boundary() {
    assert!(check_history(&vec![1, 2], 3));
    assert!(!check_history(&vec![1, 2, 3], 3));
    assert!(!check_history(&vec![1, 2, 3, 4], 3));
    assert!(check_history(&Vec::new(), 1));
    assert!(!check_history(&Vec::new(), 0));
    assert!(check_history(&vec![9; 254], 255));
    assert!(!check_history(&vec![9; 255], 255));
}

#[test]
fn entry_lifetime() {
    // recorded at t = 100 with a window of 60: expiry 160
    let h = push_history(Vec::new(), 60, 100);
    assert!(h.contains(&160));
    assert!(update_history(h.clone(), 100).contains(&160));
    assert!(update_history(h.clone(), 159).contains(&160));
    assert!(!update_history(h.clone(), 160).contains(&160));
    assert!(!update_history(h, 1000).contains(&160));
}

#[test]
fn second_crash_within_window_counts_two() {
    let h = update_history(push_history(Vec::new(), 60, 0), 0);
    let h = update_history(push_history(h, 60, 30), 30);
    assert_eq!(h.len(), 2);
}
