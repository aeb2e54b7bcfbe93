use crate::identity::GitUser;
use crate::identity::IdentityView;
use crate::model::StoreView;
use vstd::prelude::*;

verus! {

/// The mathematical value of a change.
pub enum ChangeView {
    InsertUser(IdentityView),
    DeleteUser(Seq<char>),
    SetSelection(Seq<char>),
    ClearSelection,
}

/// One write to the storage: a row that comes or goes.
#[derive(Debug, PartialEq, Eq)]
pub enum Change {
    /// Store this identity after the others.
    InsertUser(GitUser),
    /// Delete the identity of this name.
    DeleteUser(String),
    /// Make this name the selection, whatever was selected before.
    SetSelection(String),
    /// Select nothing.
    ClearSelection,
}

impl View for Change {
    type V = ChangeView;

    open spec fn view(&self) -> ChangeView {
        match *self {
            Change::InsertUser(user) => ChangeView::InsertUser(user@),
            Change::DeleteUser(name) => ChangeView::DeleteUser(name@),
            Change::SetSelection(name) => ChangeView::SetSelection(name@),
            Change::ClearSelection => ChangeView::ClearSelection,
        }
    }
}

/// The views of a list of changes, in the same order.
pub open spec fn changes_view(changes: Seq<Change>) -> Seq<ChangeView> {
    Seq::new(changes.len(), |i: int| changes[i]@)
}

/// The views of a list of texts, in the same order.
pub open spec fn texts_of(texts: Seq<String>) -> Seq<Seq<char>> {
    Seq::new(texts.len(), |i: int| texts[i]@)
}

impl StoreView {
    /// Whether `change` can be made to this store: an identity that comes has
    /// a name and an email and a name that is free, one that goes is there.
    pub open spec fn admits(self, change: ChangeView) -> bool {
        match change {
            ChangeView::InsertUser(user) => user.name.len() > 0 && user.email.len() > 0
                && !self.holds(user.name),
            ChangeView::DeleteUser(name) => self.holds(name),
            ChangeView::SetSelection(_) => true,
            ChangeView::ClearSelection => true,
        }
    }

    /// The store after `change`; the store itself where it does not admit the
    /// change.
    pub open spec fn applied(self, change: ChangeView) -> StoreView {
        if !self.admits(change) {
            self
        } else {
            match change {
                ChangeView::InsertUser(user) => self.with_identity(user),
                ChangeView::DeleteUser(name) => StoreView {
                    users: self.users.remove(self.position(name)),
                    selected: self.selected,
                },
                ChangeView::SetSelection(name) => self.with_selection(name),
                ChangeView::ClearSelection => self.without_selection(),
            }
        }
    }

    /// Whether the store admits each of `changes` in turn.
    pub open spec fn admits_all(self, changes: Seq<ChangeView>) -> bool
        decreases changes.len(),
    {
        changes.len() == 0 || (self.admits(changes[0]) && self.applied(changes[0]).admits_all(
            changes.drop_first(),
        ))
    }

    /// The store after each of `changes` in turn.
    pub open spec fn replayed(self, changes: Seq<ChangeView>) -> StoreView
        decreases changes.len(),
    {
        if changes.len() == 0 {
            self
        } else {
            self.applied(changes[0]).replayed(changes.drop_first())
        }
    }
}

/// The statement that writes `change`, with `?1` and `?2` for its parameters.
pub open spec fn statement_of(change: ChangeView) -> Seq<char> {
    match change {
        ChangeView::InsertUser(_) => "INSERT INTO users (name, email) VALUES (?1, ?2)"@,
        ChangeView::DeleteUser(_) => "DELETE FROM users WHERE name = ?1"@,
        ChangeView::SetSelection(_) =>
            "INSERT OR REPLACE INTO selected_user (id, name) VALUES (1, ?1)"@,
        ChangeView::ClearSelection => "DELETE FROM selected_user WHERE id = 1"@,
    }
}

/// The parameters of the statement that writes `change`, in their order.
pub open spec fn parameters_of(change: ChangeView) -> Seq<Seq<char>> {
    match change {
        ChangeView::InsertUser(user) => seq![user.name, user.email],
        ChangeView::DeleteUser(name) => seq![name],
        ChangeView::SetSelection(name) => seq![name],
        ChangeView::ClearSelection => seq![],
    }
}

/// Whether a statement that changed `rows` rows has written `change`: the row
/// of an identity or of a new selection must have come or gone, and clearing
/// the selection removes at most the one row there is.
pub open spec fn took_effect(change: ChangeView, rows: nat) -> bool {
    match change {
        ChangeView::ClearSelection => rows <= 1,
        _ => rows == 1,
    }
}

impl Change {
    /// The statement that writes this change.
    pub fn statement(&self) -> (text: &'static str)
        ensures
            text@ == statement_of(self@),
    {
        match self {
            Change::InsertUser(_) => "INSERT INTO users (name, email) VALUES (?1, ?2)",
            Change::DeleteUser(_) => "DELETE FROM users WHERE name = ?1",
            Change::SetSelection(_) =>
                "INSERT OR REPLACE INTO selected_user (id, name) VALUES (1, ?1)",
            Change::ClearSelection => "DELETE FROM selected_user WHERE id = 1",
        }
    }

    /// The parameters of that statement, in their order.
    pub fn parameters(&self) -> (params: Vec<String>)
        ensures
            texts_of(params@) == parameters_of(self@),
    {
        let mut params: Vec<String> = Vec::new();
        match self {
            Change::InsertUser(user) => {
                params.push(user.name.clone());
                params.push(user.email.clone());
            },
            Change::DeleteUser(name) => {
                params.push(name.clone());
            },
            Change::SetSelection(name) => {
                params.push(name.clone());
            },
            Change::ClearSelection => {},
        }
        params
    }

    /// Whether a statement that changed `rows` rows has written this change.
    pub fn wrote(&self, rows: usize) -> (done: bool)
        ensures
            done == took_effect(self@, rows as nat),
    {
        match self {
            Change::ClearSelection => rows <= 1,
            _ => rows == 1,
        }
    }
}

} // verus!
