use gitru::changes::Change;
use gitru::identity::GitUser;

fn user(name: &str, email: &str) -> GitUser {
    GitUser { name: name.to_string(), email: email.to_string() }
}

#[test]
fn each_change_has_its_statement() {
    assert_eq!(
        Change::InsertUser(user("a", "x@x")).statement(),
        "INSERT INTO users (name, email) VALUES (?1, ?2)"
    );
    assert_eq!(Change::DeleteUser("a".to_string()).statement(), "DELETE FROM users WHERE name = ?1");
    assert_eq!(
        Change::SetSelection("a".to_string()).statement(),
        "INSERT OR REPLACE INTO selected_user (id, name) VALUES (1, ?1)"
    );
    assert_eq!(Change::ClearSelection.statement(), "DELETE FROM selected_user WHERE id = 1");
}

#[test]
fn each_change_has_its_parameters() {
    assert_eq!(
        Change::InsertUser(user("a", "x@x")).parameters(),
        vec!["a".to_string(), "x@x".to_string()]
    );
    assert_eq!(Change::DeleteUser("a".to_string()).parameters(), vec!["a".to_string()]);
    assert_eq!(Change::SetSelection("b".to_string()).parameters(), vec!["b".to_string()]);
    assert_eq!(Change::ClearSelection.parameters(), Vec::<String>::new());
}

#[test]
fn a_change_is_written_by_the_rows_it_stands_for() {
    let insert = Change::InsertUser(user("a", "x@x"));
    assert!(insert.wrote(1));
    assert!(!insert.wrote(0));
    assert!(!insert.wrote(2));
    let delete = Change::DeleteUser("a".to_string());
    assert!(delete.wrote(1));
    assert!(!delete.wrote(0));
    let select = Change::SetSelection("a".to_string());
    assert!(select.wrote(1));
    assert!(!select.wrote(0));
    assert!(Change::ClearSelection.wrote(0));
    assert!(Change::ClearSelection.wrote(1));
    assert!(!Change::ClearSelection.wrote(2));
}
