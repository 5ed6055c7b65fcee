use user_repository::clock::Timestamp;
use user_repository::error::StorageFault;
use user_repository::table::UserTable;
use user_repository::user::model::{User, UserMessage};

fn row(id: u128, email: &str) -> User {
    let payload = UserMessage { email: email.to_string(), password: "secret".to_string() };
    User::new(payload, id, Timestamp { secs: 1_700_000_000, nanos: 0 })
}

fn ids(table: &UserTable) -> Vec<u128> {
    table.load().iter().map(|user| user.id).collect()
}

#[test]
fn new_table_is_empty() {
    let table = UserTable::new();
    assert_eq!(table.len(), 0);
    assert!(table.load().is_empty());
}

#[test]
fn insert_appends_and_returns_the_row() {
    let mut table = UserTable::new();
    let stored = table.insert(row(1, "a@x.com")).unwrap();
    assert_eq!(stored, row(1, "a@x.com"));
    assert_eq!(table.len(), 1);
    table.insert(row(2, "b@x.com")).unwrap();
    table.insert(row(0, "c@x.com")).unwrap();
    assert_eq!(ids(&table), vec![1, 2, 0]);
}

#[test]
fn insert_refuses_a_taken_identifier() {
    let mut table = UserTable::new();
    table.insert(row(1, "a@x.com")).unwrap();
    assert_eq!(table.insert(row(1, "b@x.com")), Err(StorageFault::Constraint));
    assert_eq!(table.len(), 1);
    assert_eq!(table.select(1).unwrap().email, "a@x.com");
}

#[test]
fn select_finds_each_row_by_identifier() {
    let mut table = UserTable::new();
    table.insert(row(1, "a@x.com")).unwrap();
    table.insert(row(2, "b@x.com")).unwrap();
    table.insert(row(3, "c@x.com")).unwrap();
    assert_eq!(table.select(1), Ok(row(1, "a@x.com")));
    assert_eq!(table.select(2), Ok(row(2, "b@x.com")));
    assert_eq!(table.select(3), Ok(row(3, "c@x.com")));
}

#[test]
fn select_of_a_missing_identifier_has_no_rows() {
    let mut table = UserTable::new();
    assert_eq!(table.select(1), Err(StorageFault::NoRows));
    table.insert(row(1, "a@x.com")).unwrap();
    assert_eq!(table.select(2), Err(StorageFault::NoRows));
}

#[test]
fn select_does_not_change_the_table() {
    let mut table = UserTable::new();
    table.insert(row(1, "a@x.com")).unwrap();
    table.select(1).unwrap();
    assert_eq!(table.load(), vec![row(1, "a@x.com")]);
}

#[test]
fn replace_overwrites_in_place() {
    let mut table = UserTable::new();
    table.insert(row(1, "a@x.com")).unwrap();
    table.insert(row(2, "b@x.com")).unwrap();
    table.insert(row(3, "c@x.com")).unwrap();
    let stored = table.replace(row(2, "z@x.com")).unwrap();
    assert_eq!(stored, row(2, "z@x.com"));
    assert_eq!(table.load(), vec![row(1, "a@x.com"), row(2, "z@x.com"), row(3, "c@x.com")]);
}

#[test]
fn replace_of_a_missing_identifier_has_no_rows() {
    let mut table = UserTable::new();
    table.insert(row(1, "a@x.com")).unwrap();
    assert_eq!(table.replace(row(2, "b@x.com")), Err(StorageFault::NoRows));
    assert_eq!(table.load(), vec![row(1, "a@x.com")]);
}

#[test]
fn remove_takes_one_row_and_keeps_the_order() {
    let mut table = UserTable::new();
    table.insert(row(1, "a@x.com")).unwrap();
    table.insert(row(2, "b@x.com")).unwrap();
    table.insert(row(3, "c@x.com")).unwrap();
    assert_eq!(table.remove(2), 1);
    assert_eq!(table.load(), vec![row(1, "a@x.com"), row(3, "c@x.com")]);
    assert_eq!(table.remove(1), 1);
    assert_eq!(table.remove(3), 1);
    assert_eq!(table.len(), 0);
}

#[test]
fn remove_of_a_missing_identifier_takes_nothing() {
    let mut table = UserTable::new();
    assert_eq!(table.remove(1), 0);
    table.insert(row(1, "a@x.com")).unwrap();
    assert_eq!(table.remove(2), 0);
    assert_eq!(table.load(), vec![row(1, "a@x.com")]);
}

#[test]
fn removed_identifier_can_be_inserted_again() {
    let mut table = UserTable::new();
    table.insert(row(1, "a@x.com")).unwrap();
    assert_eq!(table.remove(1), 1);
    assert_eq!(table.insert(row(1, "b@x.com")), Ok(row(1, "b@x.com")));
    assert_eq!(table.len(), 1);
}

#[test]
fn largest_identifier_is_a_key_like_any_other() {
    let mut table = UserTable::new();
    table.insert(row(u128::MAX, "a@x.com")).unwrap();
    assert_eq!(table.select(u128::MAX).unwrap().id, u128::MAX);
    assert_eq!(table.select(u128::MAX - 1), Err(StorageFault::NoRows));
}
