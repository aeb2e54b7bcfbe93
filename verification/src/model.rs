use crate::error::ErrorView;
use crate::identity::IdentityView;
use vstd::prelude::*;

verus! {

/// The mathematical value of the store: the identities in insertion order and
/// the name that is selected, if any.
pub struct StoreView {
    pub users: Seq<IdentityView>,
    pub selected: Option<Seq<char>>,
}

/// Whether `users` can be the identities of a store: no two of them share a
/// name, and no name or email is empty.
pub open spec fn valid_identities(users: Seq<IdentityView>) -> bool {
    &&& forall|i: int|
        0 <= i < users.len() ==> (#[trigger] users[i]).name.len() > 0 && users[i].email.len() > 0
    &&& forall|i: int, j: int|
        0 <= i < j < users.len() ==> (#[trigger] users[i]).name != (#[trigger] users[j]).name
}

impl StoreView {
    /// The identities are valid. The selection is free: it may name an
    /// identity that is not stored.
    pub open spec fn wf(self) -> bool {
        valid_identities(self.users)
    }

    /// Whether an identity called `name` is stored.
    pub open spec fn holds(self, name: Seq<char>) -> bool {
        exists|i: int| 0 <= i < self.users.len() && (#[trigger] self.users[i]).name == name
    }

    /// The place of the identity called `name`, where one is stored.
    pub open spec fn position(self, name: Seq<char>) -> int {
        choose|i: int| 0 <= i < self.users.len() && (#[trigger] self.users[i]).name == name
    }

    /// The identity called `name`, where one is stored.
    pub open spec fn identity(self, name: Seq<char>) -> IdentityView {
        self.users[self.position(name)]
    }

    /// The store with no identity and no selection.
    pub open spec fn empty() -> StoreView {
        StoreView { users: Seq::empty(), selected: None }
    }

    /// The store with `identity` added after the others.
    pub open spec fn with_identity(self, identity: IdentityView) -> StoreView {
        StoreView { users: self.users.push(identity), selected: self.selected }
    }

    /// The store without the identity called `name`; a selection of that name
    /// is cleared with it.
    pub open spec fn without_identity(self, name: Seq<char>) -> StoreView {
        StoreView {
            users: self.users.remove(self.position(name)),
            selected: if self.selected == Some(name) {
                None
            } else {
                self.selected
            },
        }
    }

    /// The store with `name` selected.
    pub open spec fn with_selection(self, name: Seq<char>) -> StoreView {
        StoreView { users: self.users, selected: Some(name) }
    }

    /// The store with nothing selected.
    pub open spec fn without_selection(self) -> StoreView {
        StoreView { users: self.users, selected: None }
    }
}

/// What adding the identity `name`, `email` is refused with, where it is.
pub open spec fn add_refusal(pre: StoreView, name: Seq<char>, email: Seq<char>) -> ErrorView {
    if name.len() == 0 || email.len() == 0 {
        ErrorView::InvalidArgument
    } else {
        ErrorView::DuplicateName(name)
    }
}

/// What adding `name` with `email` answers on the store `pre`.
pub open spec fn add_outcome(pre: StoreView, name: Seq<char>, email: Seq<char>) -> Result<
    IdentityView,
    ErrorView,
> {
    if name.len() == 0 || email.len() == 0 {
        Err(ErrorView::InvalidArgument)
    } else if pre.holds(name) {
        Err(ErrorView::DuplicateName(name))
    } else {
        Ok(IdentityView { name, email })
    }
}

/// The store that adding `name` with `email` leaves behind.
pub open spec fn after_add(pre: StoreView, name: Seq<char>, email: Seq<char>) -> StoreView {
    if add_outcome(pre, name, email) is Ok {
        pre.with_identity(IdentityView { name, email })
    } else {
        pre
    }
}

/// What removing `name` answers on the store `pre`: on success, whether the
/// selection was cleared with the identity.
pub open spec fn remove_outcome(pre: StoreView, name: Seq<char>) -> Result<bool, ErrorView> {
    if pre.holds(name) {
        Ok(pre.selected == Some(name))
    } else {
        Err(ErrorView::NotFound(name))
    }
}

/// The store that removing `name` leaves behind.
pub open spec fn after_remove(pre: StoreView, name: Seq<char>) -> StoreView {
    if pre.holds(name) {
        pre.without_identity(name)
    } else {
        pre
    }
}

/// What selecting `name` answers on the store `pre`.
pub open spec fn select_outcome(pre: StoreView, name: Seq<char>) -> Result<
    IdentityView,
    ErrorView,
> {
    if pre.holds(name) {
        Ok(pre.identity(name))
    } else {
        Err(ErrorView::NotFound(name))
    }
}

/// The store that selecting `name` leaves behind.
pub open spec fn after_select(pre: StoreView, name: Seq<char>) -> StoreView {
    if pre.holds(name) {
        pre.with_selection(name)
    } else {
        pre
    }
}

/// What asking for the selected identity answers on the store `pre`.
pub open spec fn status_outcome(pre: StoreView) -> Result<IdentityView, ErrorView> {
    match pre.selected {
        None => Err(ErrorView::NoSelection),
        Some(name) => if pre.holds(name) {
            Ok(pre.identity(name))
        } else {
            Err(ErrorView::DanglingSelection(name))
        },
    }
}

} // verus!
