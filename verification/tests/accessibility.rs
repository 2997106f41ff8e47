use launcher::accessibility::{find_window_index, resolve_window_scan, Error, Store};

#[test]
fn find_skips_unreadable_entries() {
    let ids = vec![None, Some(9), Some(42), Some(42)];
    assert_eq!(find_window_index(&ids, 42), Ok(2));
    assert_eq!(find_window_index(&ids, 9), Ok(1));
}

#[test]
fn find_reports_missing_window() {
    let ids = vec![None, Some(9)];
    assert_eq!(find_window_index(&ids, 42), Err(Error::WindowNotFound(42)));
    assert_eq!(find_window_index(&Vec::new(), 42), Err(Error::WindowNotFound(42)));
}

#[test]
fn scan_needs_application_element() {
    let ids = vec![Some(42)];
    let r = resolve_window_scan(false, Some(&ids), 42);
    assert_eq!(r, Err(Error::CouldNotGetWindowArray));
}

#[test]
fn scan_needs_window_array() {
    let r = resolve_window_scan(true, None, 42);
    assert_eq!(r, Err(Error::CouldNotGetWindowsAccessibility));
}

#[test]
fn scan_finds_window() {
    let ids = vec![None, Some(42)];
    assert_eq!(resolve_window_scan(true, Some(&ids), 42), Ok(1));
    assert_eq!(resolve_window_scan(true, Some(&ids), 7), Err(Error::WindowNotFound(7)));
}

#[test]
fn store_starts_empty() {
    let store: Store<u64> = Store::default();
    assert!(!store.contains_window(5));
    assert_eq!(store.cached_window(5), Err(Error::WindowNotFound(5)));
}

#[test]
fn store_returns_admitted_handle() {
    let mut store: Store<u64> = Store::default();
    store.admit_window(5, 10);
    assert!(store.contains_window(5));
    assert_eq!(store.cached_window(5), Ok(&10));
    assert!(!store.contains_window(6));
}

#[test]
fn store_keeps_first_handle() {
    // Admitting again under the same window id leaves the cache alone: the
    // handle resolved first is the one handed out ever after.
    let mut store: Store<u64> = Store::default();
    store.admit_window(5, 10);
    store.admit_window(5, 11);
    assert_eq!(store.cached_window(5), Ok(&10));
}

#[test]
fn store_keeps_ids_apart() {
    let mut store: Store<u64> = Store::default();
    store.admit_window(5, 10);
    store.admit_window(6, 20);
    assert_eq!(store.cached_window(5), Ok(&10));
    assert_eq!(store.cached_window(6), Ok(&20));
}
