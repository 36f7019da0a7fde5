use chatsapp::registry::Registry;
use chatsapp::room::RoomError;

#[test]
fn lookup_on_empty_registry() {
    let reg = Registry::new();
    assert_eq!(reg.lookup("lobby"), None);
}

#[test]
fn create_then_lookup() {
    let mut reg = Registry::new();
    assert!(reg.create("lobby".to_owned(), 7).is_ok());
    assert_eq!(reg.lookup("lobby"), Some(7));
    assert_eq!(reg.lookup("other"), None);
}

#[test]
fn create_same_name_twice_fails_and_changes_nothing() {
    let mut reg = Registry::new();
    assert!(reg.create("lobby".to_owned(), 7).is_ok());
    let second = reg.create("lobby".to_owned(), 8);
    assert_eq!(second, Err(RoomError::RoomNameTaken));
    // the failed attempt left the first registration in place
    assert_eq!(reg.lookup("lobby"), Some(7));
}

#[test]
fn distinct_names_coexist() {
    let mut reg = Registry::new();
    assert!(reg.create("red".to_owned(), 1).is_ok());
    assert!(reg.create("blue".to_owned(), 2).is_ok());
    assert_eq!(reg.lookup("red"), Some(1));
    assert_eq!(reg.lookup("blue"), Some(2));
}
