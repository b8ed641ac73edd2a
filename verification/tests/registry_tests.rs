use spotipi::error::ErrorKind;
use spotipi::registry::{default_backends, find, BackendDescriptor};

#[test]
fn resolve_known_but_not_compiled_is_unavailable() {
    let table = default_backends(false, true, true);
    let r = find(&table, Some("avahi"));
    match r {
        Err(e) => assert_eq!(e.kind, ErrorKind::Unavailable),
        Ok(_) => panic!("expected an error"),
    }
}

#[test]
fn resolve_unknown_name_is_not_found() {
    let table = default_backends(true, true, true);
    let r = find(&table, Some("bogus"));
    match r {
        Err(e) => assert_eq!(e.kind, ErrorKind::NotFound),
        Ok(_) => panic!("expected an error"),
    }
}

#[test]
fn resolve_default_takes_first_compiled_in_declared_order() {
    let table = default_backends(false, true, true);
    let r = find(&table, None);
    assert_eq!(r.ok(), Some(1));

    let all = default_backends(true, true, true);
    assert_eq!(find(&all, None).ok(), Some(0));

    let last = default_backends(false, false, true);
    assert_eq!(find(&last, None).ok(), Some(2));
}

#[test]
fn resolve_explicit_name_wins() {
    let table = default_backends(true, true, true);
    assert_eq!(find(&table, Some("libmdns")).ok(), Some(2));
    assert_eq!(find(&table, Some("dns-sd")).ok(), Some(1));
}

#[test]
fn resolve_nothing_compiled_is_unavailable() {
    let table = default_backends(false, false, false);
    match find(&table, None) {
        Err(e) => assert_eq!(e.kind, ErrorKind::Unavailable),
        Ok(_) => panic!("expected an error"),
    }
}

#[test]
fn resolve_first_matching_entry_decides() {
    let mut table: Vec<BackendDescriptor> = Vec::new();
    table.push(BackendDescriptor { id: "dup".to_owned(), available: false });
    table.push(BackendDescriptor { id: "dup".to_owned(), available: true });
    // the first entry with the name decides, even though a later one is available
    match find(&table, Some("dup")) {
        Err(e) => assert_eq!(e.kind, ErrorKind::Unavailable),
        Ok(_) => panic!("expected an error"),
    }
}

#[test]
fn resolve_over_empty_table() {
    let table: Vec<BackendDescriptor> = Vec::new();
    match find(&table, None) {
        Err(e) => assert_eq!(e.kind, ErrorKind::Unavailable),
        Ok(_) => panic!("expected an error"),
    }
    match find(&table, Some("avahi")) {
        Err(e) => assert_eq!(e.kind, ErrorKind::NotFound),
        Ok(_) => panic!("expected an error"),
    }
}
