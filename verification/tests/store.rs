use gitru::error::StoreError;
use gitru::identity::GitUser;
use gitru::store::add_user;
use gitru::store::create_connection;
use gitru::store::list_users;
use gitru::store::remove_user;
use gitru::store::select_user;
use gitru::store::status;

fn user(name: &str, email: &str) -> GitUser {
    GitUser { name: name.to_string(), email: email.to_string() }
}

#[test]
fn a_new_store_is_empty_and_has_no_selection() {
    let store = create_connection(":memory:").unwrap();
    assert_eq!(list_users(&store), Vec::<GitUser>::new());
    assert_eq!(status(&store), Err(StoreError::NoSelection));
}

#[test]
fn add_then_list_holds_the_identity_once() {
    let mut store = create_connection(":memory:").unwrap();
    assert_eq!(add_user(&mut store, "ann", "ann@example.org"), Ok(user("ann", "ann@example.org")));
    assert_eq!(list_users(&store), vec![user("ann", "ann@example.org")]);
}

#[test]
fn identities_are_listed_in_the_order_of_their_addition() {
    let mut store = create_connection(":memory:").unwrap();
    add_user(&mut store, "zoe", "zoe@example.org").unwrap();
    add_user(&mut store, "ann", "ann@example.org").unwrap();
    add_user(&mut store, "max", "max@example.org").unwrap();
    remove_user(&mut store, "ann").unwrap();
    add_user(&mut store, "ann", "ann@example.com").unwrap();
    assert_eq!(
        list_users(&store),
        vec![
            user("zoe", "zoe@example.org"),
            user("max", "max@example.org"),
            user("ann", "ann@example.com"),
        ]
    );
}

#[test]
fn listing_twice_gives_the_same_sequence() {
    let mut store = create_connection(":memory:").unwrap();
    add_user(&mut store, "ann", "ann@example.org").unwrap();
    add_user(&mut store, "bob", "bob@example.org").unwrap();
    let first = list_users(&store);
    let second = list_users(&store);
    assert_eq!(first, second);
    assert_eq!(first.len(), 2);
}

#[test]
fn identities_survive_reopening_the_storage() {
    let path = "file:gitru_reopen?mode=memory&cache=shared";
    let keeper = rusqlite::Connection::open(path).unwrap();
    {
        let mut store = create_connection(path).unwrap();
        add_user(&mut store, "ann", "ann@example.org").unwrap();
        add_user(&mut store, "bob", "bob@example.org").unwrap();
        select_user(&mut store, "bob").unwrap();
    }
    let store = create_connection(path).unwrap();
    assert_eq!(
        list_users(&store),
        vec![user("ann", "ann@example.org"), user("bob", "bob@example.org")]
    );
    assert_eq!(status(&store), Ok(user("bob", "bob@example.org")));
    drop(keeper);
}

#[test]
fn a_removal_survives_reopening_the_storage() {
    let path = "file:gitru_reopen_removed?mode=memory&cache=shared";
    let keeper = rusqlite::Connection::open(path).unwrap();
    {
        let mut store = create_connection(path).unwrap();
        add_user(&mut store, "ann", "ann@example.org").unwrap();
        add_user(&mut store, "bob", "bob@example.org").unwrap();
        select_user(&mut store, "ann").unwrap();
        assert_eq!(remove_user(&mut store, "ann"), Ok(true));
    }
    let store = create_connection(path).unwrap();
    assert_eq!(list_users(&store), vec![user("bob", "bob@example.org")]);
    assert_eq!(status(&store), Err(StoreError::NoSelection));
    drop(keeper);
}

#[test]
fn an_empty_name_or_email_is_an_invalid_argument() {
    let mut store = create_connection(":memory:").unwrap();
    assert_eq!(add_user(&mut store, "", "x@x"), Err(StoreError::InvalidArgument));
    assert_eq!(add_user(&mut store, "a", ""), Err(StoreError::InvalidArgument));
    assert_eq!(add_user(&mut store, "", ""), Err(StoreError::InvalidArgument));
    assert_eq!(list_users(&store), Vec::<GitUser>::new());
}

#[test]
fn a_second_add_of_a_name_is_refused() {
    let mut store = create_connection(":memory:").unwrap();
    add_user(&mut store, "a", "x@x").unwrap();
    assert_eq!(add_user(&mut store, "a", "y@y"), Err(StoreError::DuplicateName("a".to_string())));
    assert_eq!(list_users(&store), vec![user("a", "x@x")]);
}

#[test]
fn remove_empties_the_store_and_fails_the_second_time() {
    let mut store = create_connection(":memory:").unwrap();
    add_user(&mut store, "a", "x@x").unwrap();
    assert_eq!(remove_user(&mut store, "a"), Ok(false));
    assert_eq!(list_users(&store), Vec::<GitUser>::new());
    assert_eq!(remove_user(&mut store, "a"), Err(StoreError::NotFound("a".to_string())));
}

#[test]
fn selection_lifecycle() {
    let mut store = create_connection(":memory:").unwrap();
    add_user(&mut store, "a", "x@x").unwrap();
    assert_eq!(select_user(&mut store, "a"), Ok(user("a", "x@x")));
    assert_eq!(status(&store), Ok(user("a", "x@x")));
    assert_eq!(remove_user(&mut store, "a"), Ok(true));
    assert_eq!(status(&store), Err(StoreError::NoSelection));
}

#[test]
fn selecting_an_unknown_name_fails_and_keeps_the_selection() {
    let mut store = create_connection(":memory:").unwrap();
    add_user(&mut store, "a", "x@x").unwrap();
    select_user(&mut store, "a").unwrap();
    assert_eq!(select_user(&mut store, "b"), Err(StoreError::NotFound("b".to_string())));
    assert_eq!(status(&store), Ok(user("a", "x@x")));
}

#[test]
fn selecting_again_replaces_the_selection() {
    let mut store = create_connection(":memory:").unwrap();
    add_user(&mut store, "a", "x@x").unwrap();
    add_user(&mut store, "b", "y@y").unwrap();
    select_user(&mut store, "a").unwrap();
    assert_eq!(select_user(&mut store, "b"), Ok(user("b", "y@y")));
    assert_eq!(status(&store), Ok(user("b", "y@y")));
    assert_eq!(select_user(&mut store, "b"), Ok(user("b", "y@y")));
    assert_eq!(status(&store), Ok(user("b", "y@y")));
}

#[test]
fn removing_another_identity_keeps_the_selection() {
    let mut store = create_connection(":memory:").unwrap();
    add_user(&mut store, "a", "x@x").unwrap();
    add_user(&mut store, "b", "y@y").unwrap();
    select_user(&mut store, "b").unwrap();
    assert_eq!(remove_user(&mut store, "a"), Ok(false));
    assert_eq!(status(&store), Ok(user("b", "y@y")));
    assert_eq!(list_users(&store), vec![user("b", "y@y")]);
}

#[test]
fn a_selection_of_a_missing_name_is_reported_as_dangling() {
    let path = "file:gitru_dangling?mode=memory&cache=shared";
    let outside = rusqlite::Connection::open(path).unwrap();
    drop(create_connection(path).unwrap());
    outside.execute("INSERT INTO selected_user (id, name) VALUES (1, 'ghost')", ()).unwrap();
    let store = create_connection(path).unwrap();
    assert_eq!(status(&store), Err(StoreError::DanglingSelection("ghost".to_string())));
    assert_eq!(list_users(&store), Vec::<GitUser>::new());
}

#[test]
fn a_dangling_selection_is_replaced_by_a_new_selection() {
    let path = "file:gitru_dangling_replaced?mode=memory&cache=shared";
    let outside = rusqlite::Connection::open(path).unwrap();
    drop(create_connection(path).unwrap());
    outside.execute("INSERT INTO selected_user (id, name) VALUES (1, 'ghost')", ()).unwrap();
    let mut store = create_connection(path).unwrap();
    add_user(&mut store, "a", "x@x").unwrap();
    assert_eq!(status(&store), Err(StoreError::DanglingSelection("ghost".to_string())));
    select_user(&mut store, "a").unwrap();
    assert_eq!(status(&store), Ok(user("a", "x@x")));
}

#[test]
fn a_storage_that_cannot_be_opened_is_unavailable() {
    let got = create_connection("/nonexistent-directory-of-gitru/deeper/gitru.db");
    assert!(matches!(got, Err(StoreError::StorageUnavailable(_))));
}

#[test]
fn stored_rows_that_break_the_rules_make_the_storage_unavailable() {
    let path = "file:gitru_broken_rows?mode=memory&cache=shared";
    let outside = rusqlite::Connection::open(path).unwrap();
    drop(create_connection(path).unwrap());
    outside.execute("INSERT INTO users (name, email) VALUES ('ann', '')", ()).unwrap();
    let got = create_connection(path);
    assert!(matches!(got, Err(StoreError::StorageUnavailable(_))));
}

#[test]
fn a_row_that_vanished_from_the_storage_fails_the_removal() {
    let path = "file:gitru_vanished_row?mode=memory&cache=shared";
    let outside = rusqlite::Connection::open(path).unwrap();
    let mut store = create_connection(path).unwrap();
    add_user(&mut store, "a", "x@x").unwrap();
    outside.execute("DELETE FROM users", ()).unwrap();
    assert!(matches!(remove_user(&mut store, "a"), Err(StoreError::StorageUnavailable(_))));
    assert_eq!(list_users(&store), vec![user("a", "x@x")]);
}

#[test]
fn a_path_with_a_nul_character_is_unavailable() {
    assert!(matches!(create_connection("gitru\0.db"), Err(StoreError::StorageUnavailable(_))));
    assert!(matches!(create_connection("\0"), Err(StoreError::StorageUnavailable(_))));
}
