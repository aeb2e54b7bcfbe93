use gitru::error::quote;
use gitru::error::StoreError;
use gitru::error::SyncHalf;
use gitru::identity::GitUser;

#[test]
fn an_identity_is_shown_as_name_and_bracketed_email() {
    let user = GitUser { name: "Ann Lee".to_string(), email: "ann@example.org".to_string() };
    assert_eq!(user.to_string(), "Ann Lee <ann@example.org>");
    assert_eq!(user.clone(), user);
}

#[test]
fn quote_puts_the_name_between_single_quotes() {
    assert_eq!(quote("User ", "a b", " not found."), "User 'a b' not found.");
    assert_eq!(quote("", "", ""), "''");
}

#[test]
fn each_failure_has_its_message() {
    assert_eq!(StoreError::InvalidArgument.message(), "Name and email must not be empty.");
    assert_eq!(StoreError::DuplicateName("a".to_string()).message(), "User 'a' already exists.");
    assert_eq!(StoreError::NotFound("a".to_string()).message(), "User 'a' not found.");
    assert_eq!(StoreError::NoSelection.message(), "No user currently selected.");
    assert_eq!(
        StoreError::DanglingSelection("a".to_string()).message(),
        "Error: Selected user 'a' not found in users table."
    );
    assert_eq!(
        StoreError::StorageUnavailable("disk full".to_string()).message(),
        "Storage unavailable: disk full"
    );
    assert_eq!(
        StoreError::SyncFailed(SyncHalf::Name).message(),
        "Git config update failed for user.name."
    );
    assert_eq!(
        StoreError::SyncFailed(SyncHalf::Email).message(),
        "Git config update failed for user.email."
    );
}
