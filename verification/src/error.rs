use vstd::prelude::*;
use vstd::string::StringExecFns;

verus! {

/// Which of the two configuration keys an invocation of the external tool sets.
#[derive(Clone, Copy, Debug, PartialEq, Eq, Structural)]
pub enum SyncHalf {
    /// The user-name key.
    Name,
    /// The user-email key.
    Email,
}

/// The mathematical value of an error: the variant and the offending name.
pub enum ErrorView {
    InvalidArgument,
    DuplicateName(Seq<char>),
    NotFound(Seq<char>),
    NoSelection,
    DanglingSelection(Seq<char>),
    StorageUnavailable(Seq<char>),
    SyncFailed(SyncHalf),
}

/// Every way in which an operation of the store can fail.
#[derive(Debug, PartialEq, Eq)]
pub enum StoreError {
    /// A name or an email was empty.
    InvalidArgument,
    /// An identity with this name is already stored.
    DuplicateName(String),
    /// No identity with this name is stored.
    NotFound(String),
    /// No identity is selected.
    NoSelection,
    /// The selection names an identity that is not stored.
    DanglingSelection(String),
    /// The storage could not be opened, read or written; the text is the
    /// reason that the storage layer gave.
    StorageUnavailable(String),
    /// The external configuration could not be updated; the half is the
    /// invocation that failed.
    SyncFailed(SyncHalf),
}

impl View for StoreError {
    type V = ErrorView;

    open spec fn view(&self) -> ErrorView {
        match *self {
            StoreError::InvalidArgument => ErrorView::InvalidArgument,
            StoreError::DuplicateName(name) => ErrorView::DuplicateName(name@),
            StoreError::NotFound(name) => ErrorView::NotFound(name@),
            StoreError::NoSelection => ErrorView::NoSelection,
            StoreError::DanglingSelection(name) => ErrorView::DanglingSelection(name@),
            StoreError::StorageUnavailable(reason) => ErrorView::StorageUnavailable(reason@),
            StoreError::SyncFailed(half) => ErrorView::SyncFailed(half),
        }
    }
}

/// `before`, then `name` between single quotes, then `after`.
pub open spec fn quoted(before: Seq<char>, name: Seq<char>, after: Seq<char>) -> Seq<char> {
    before + "'"@ + name + "'"@ + after
}

/// The line that tells a user of the failure `error`.
pub open spec fn message_of(error: ErrorView) -> Seq<char> {
    match error {
        ErrorView::InvalidArgument => "Name and email must not be empty."@,
        ErrorView::DuplicateName(name) => quoted("User "@, name, " already exists."@),
        ErrorView::NotFound(name) => quoted("User "@, name, " not found."@),
        ErrorView::NoSelection => "No user currently selected."@,
        ErrorView::DanglingSelection(name) => quoted(
            "Error: Selected user "@,
            name,
            " not found in users table."@,
        ),
        ErrorView::StorageUnavailable(reason) => "Storage unavailable: "@ + reason,
        ErrorView::SyncFailed(SyncHalf::Name) => "Git config update failed for user.name."@,
        ErrorView::SyncFailed(SyncHalf::Email) => "Git config update failed for user.email."@,
    }
}

/// Builds `before`, then `name` between single quotes, then `after`.
pub fn quote(before: &str, name: &str, after: &str) -> (text: String)
    ensures
        text@ == quoted(before@, name@, after@),
{
    before.to_owned().concat("'").concat(name).concat("'").concat(after)
}

impl StoreError {
    /// The line that tells a user of this failure.
    pub fn message(&self) -> (text: String)
        ensures
            text@ == message_of(self@),
    {
        match self {
            StoreError::InvalidArgument => "Name and email must not be empty.".to_owned(),
            StoreError::DuplicateName(name) => quote("User ", name.as_str(), " already exists."),
            StoreError::NotFound(name) => quote("User ", name.as_str(), " not found."),
            StoreError::NoSelection => "No user currently selected.".to_owned(),
            StoreError::DanglingSelection(name) => quote(
                "Error: Selected user ",
                name.as_str(),
                " not found in users table.",
            ),
            StoreError::StorageUnavailable(reason) => "Storage unavailable: ".to_owned().concat(
                reason.as_str(),
            ),
            StoreError::SyncFailed(SyncHalf::Name) => "Git config update failed for user.name.".to_owned(),
            StoreError::SyncFailed(SyncHalf::Email) => "Git config update failed for user.email.".to_owned(),
        }
    }
}

} // verus!
