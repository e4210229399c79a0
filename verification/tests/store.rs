use mailshell::pending::PendingFiles;

#[test]
fn append_then_drain_is_lossless_and_ordered() {
    let mut store = PendingFiles::new();
    store.append("/tmp/p1.msg".to_string());
    store.append("/tmp/p2.eml".to_string());
    store.append("/tmp/p3.msg".to_string());
    assert_eq!(store.len(), 3);
    let drained = store.drain();
    assert_eq!(
        drained,
        vec![
            "/tmp/p1.msg".to_string(),
            "/tmp/p2.eml".to_string(),
            "/tmp/p3.msg".to_string(),
        ]
    );
    let second = store.drain();
    assert_eq!(second, Vec::<String>::new());
}

#[test]
fn drain_of_new_store_is_empty() {
    let mut store = PendingFiles::new();
    assert_eq!(store.len(), 0);
    assert_eq!(store.drain(), Vec::<String>::new());
}

#[test]
fn appends_during_interleaved_drains_are_not_replayed() {
    let mut store = PendingFiles::new();
    store.append("/tmp/a.msg".to_string());
    assert_eq!(store.drain(), vec!["/tmp/a.msg".to_string()]);
    store.append("/tmp/b.eml".to_string());
    assert_eq!(store.drain(), vec!["/tmp/b.eml".to_string()]);
    assert_eq!(store.drain(), Vec::<String>::new());
}
