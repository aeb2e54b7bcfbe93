use gitru::changes::Change;
use gitru::error::StoreError;
use gitru::identity::GitUser;
use gitru::rules::current;
use gitru::rules::plan_add;
use gitru::rules::plan_remove;
use gitru::rules::plan_select;
use gitru::rules::settle;
use gitru::tables::Tables;

fn user(name: &str, email: &str) -> GitUser {
    GitUser { name: name.to_string(), email: email.to_string() }
}

fn sample() -> Tables {
    Tables::from_rows(vec![user("a", "x@x"), user("b", "y@y")], Some("b".to_string())).unwrap()
}

#[test]
fn plan_add_answers_the_identity_and_its_insertion() {
    let tables = sample();
    assert_eq!(
        plan_add(&tables, "c", "z@z"),
        Ok((user("c", "z@z"), vec![Change::InsertUser(user("c", "z@z"))]))
    );
}

#[test]
fn plan_add_refuses_empty_fields_before_taken_names() {
    let tables = sample();
    assert_eq!(plan_add(&tables, "a", ""), Err(StoreError::InvalidArgument));
    assert_eq!(plan_add(&tables, "", "z@z"), Err(StoreError::InvalidArgument));
    assert_eq!(plan_add(&tables, "a", "z@z"), Err(StoreError::DuplicateName("a".to_string())));
}

#[test]
fn plan_remove_clears_the_selection_before_it_deletes_the_selected() {
    let tables = sample();
    assert_eq!(
        plan_remove(&tables, "b"),
        Ok((true, vec![Change::ClearSelection, Change::DeleteUser("b".to_string())]))
    );
    assert_eq!(plan_remove(&tables, "a"), Ok((false, vec![Change::DeleteUser("a".to_string())])));
    assert_eq!(plan_remove(&tables, "c"), Err(StoreError::NotFound("c".to_string())));
}

#[test]
fn plan_select_answers_the_identity_and_its_selection() {
    let tables = sample();
    assert_eq!(
        plan_select(&tables, "a"),
        Ok((user("a", "x@x"), vec![Change::SetSelection("a".to_string())]))
    );
    assert_eq!(plan_select(&tables, "c"), Err(StoreError::NotFound("c".to_string())));
}

#[test]
fn current_tells_selected_missing_and_dangling_apart() {
    assert_eq!(current(&sample()), Ok(user("b", "y@y")));
    assert_eq!(current(&Tables::new()), Err(StoreError::NoSelection));
    let dangling = Tables::from_rows(vec![user("a", "x@x")], Some("gone".to_string())).unwrap();
    assert_eq!(current(&dangling), Err(StoreError::DanglingSelection("gone".to_string())));
}

#[test]
fn settle_follows_the_changes_that_were_written() {
    let mut tables = sample();
    let (cleared, changes) = plan_remove(&tables, "b").unwrap();
    assert_eq!(settle(&mut tables, &changes, cleared, Ok(())), Ok(true));
    assert_eq!(tables.list_identities(), vec![user("a", "x@x")]);
    assert_eq!(current(&tables), Err(StoreError::NoSelection));
}

#[test]
fn settle_leaves_the_tables_alone_when_the_storage_failed() {
    let mut tables = sample();
    let (added, changes) = plan_add(&tables, "c", "z@z").unwrap();
    let failure = StoreError::StorageUnavailable("disk full".to_string());
    assert_eq!(
        settle(&mut tables, &changes, added, Err(failure)),
        Err(StoreError::StorageUnavailable("disk full".to_string()))
    );
    assert_eq!(tables.list_identities(), vec![user("a", "x@x"), user("b", "y@y")]);
    assert_eq!(current(&tables), Ok(user("b", "y@y")));
}
