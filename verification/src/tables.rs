use crate::changes::changes_view;
use crate::changes::Change;
use crate::changes::ChangeView;
use crate::error::ErrorView;
use crate::error::StoreError;
use crate::identity::GitUser;
use crate::identity::IdentityView;
use crate::model::add_refusal;
use crate::model::valid_identities;
use crate::model::StoreView;
use vstd::prelude::*;

verus! {

/// The views of a list of identities, in the same order.
pub open spec fn views_of(users: Seq<GitUser>) -> Seq<IdentityView> {
    Seq::new(users.len(), |i: int| users[i]@)
}

/// The view of an optional name.
pub open spec fn name_view(name: Option<String>) -> Option<Seq<char>> {
    match name {
        Some(text) => Some(text@),
        None => None,
    }
}

/// The two tables held in memory: the identities, in insertion order, and the
/// selection. No two identities share a name, and no name or email is empty.
pub struct Tables {
    users: Vec<GitUser>,
    selected: Option<String>,
}

impl View for Tables {
    type V = StoreView;

    closed spec fn view(&self) -> StoreView {
        StoreView { users: views_of(self.users@), selected: name_view(self.selected) }
    }
}

/// Whether `users[..upto]` holds an identity called `name`.
fn occurs_before(users: &Vec<GitUser>, upto: usize, name: &String) -> (found: bool)
    requires
        upto <= users.len(),
    ensures
        found == exists|i: int| 0 <= i < upto && (#[trigger] users[i]).name@ == name@,
{
    let mut i: usize = 0;
    while i < upto
        invariant
            i <= upto <= users.len(),
            forall|j: int| 0 <= j < i ==> (#[trigger] users[j]).name@ != name@,
        decreases upto - i,
    {
        if users[i].name == *name {
            return true;
        }
        i += 1;
    }
    false
}

/// Whether the rows `users` can be the identities of a store.
pub fn rows_are_valid(users: &Vec<GitUser>) -> (valid: bool)
    ensures
        valid == valid_identities(views_of(users@)),
{
    let ghost views = views_of(users@);
    let mut i: usize = 0;
    while i < users.len()
        invariant
            i <= users.len(),
            views == views_of(users@),
            forall|k: int|
                0 <= k < i ==> (#[trigger] views[k]).name.len() > 0 && views[k].email.len() > 0,
            forall|k: int, l: int|
                0 <= k < l < i ==> (#[trigger] views[k]).name != (#[trigger] views[l]).name,
        decreases users.len() - i,
    {
        let user = &users[i];
        if user.name.as_str().is_empty() || user.email.as_str().is_empty() {
            assert(views[i as int].name.len() == 0 || views[i as int].email.len() == 0);
            return false;
        }
        if occurs_before(users, i, &user.name) {
            proof {
                let k = choose|k: int| 0 <= k < i && (#[trigger] users[k]).name@ == user.name@;
                assert(views[k].name == views[i as int].name);
            }
            return false;
        }
        i += 1;
    }
    true
}

impl Tables {
    /// What holds of every value of this type.
    #[verifier::type_invariant]
    pub open spec fn well_formed(self) -> bool {
        self@.wf()
    }

    /// The tables with no identity and no selection.
    pub fn new() -> (tables: Tables)
        ensures
            tables@ == StoreView::empty(),
    {
        let tables = Tables { users: Vec::new(), selected: None };
        assert(tables@.users =~= Seq::empty());
        tables
    }

    /// The tables that hold the rows `users`, in their order, and the selection
    /// `selected`; `None` where two rows share a name or a row has an empty
    /// name or email. A selection of a name that no row carries is kept.
    pub fn from_rows(users: Vec<GitUser>, selected: Option<String>) -> (tables: Option<Tables>)
        ensures
            tables is Some <==> valid_identities(views_of(users@)),
            tables matches Some(t) ==> t@ == (StoreView {
                users: views_of(users@),
                selected: name_view(selected),
            }),
    {
        if rows_are_valid(&users) {
            Some(Tables { users, selected })
        } else {
            None
        }
    }

    /// The place of the identity called `name`.
    fn index_of(&self, name: &str) -> (r: Option<usize>)
        ensures
            self@.wf(),
            r is Some <==> self@.holds(name@),
            r matches Some(i) ==> i < self.users.len() && i == self@.position(name@)
                && self.users[i as int]@.name == name@,
    {
        proof {
            use_type_invariant(self);
        }
        let key: String = name.to_owned();
        let mut i: usize = 0;
        while i < self.users.len()
            invariant
                i <= self.users.len(),
                key@ == name@,
                self@.wf(),
                self@.users.len() == self.users.len(),
                forall|j: int| 0 <= j < i ==> (#[trigger] self@.users[j]).name != name@,
            decreases self.users.len() - i,
        {
            if self.users[i].name == key {
                assert(self@.users[i as int].name == name@);
                return Some(i);
            }
            i += 1;
        }
        None
    }

    /// How many identities are stored.
    pub fn len(&self) -> (n: usize)
        ensures
            n == self@.users.len(),
            self@.wf(),
    {
        proof {
            use_type_invariant(self);
        }
        self.users.len()
    }

    /// All identities, in insertion order.
    pub fn list_identities(&self) -> (users: Vec<GitUser>)
        ensures
            views_of(users@) == self@.users,
    {
        let mut users: Vec<GitUser> = Vec::new();
        let mut i: usize = 0;
        while i < self.users.len()
            invariant
                i <= self.users.len(),
                users.len() == i,
                forall|j: int| 0 <= j < i ==> users[j] == self.users[j],
            decreases self.users.len() - i,
        {
            users.push(self.users[i].clone());
            i += 1;
        }
        users
    }

    /// The identity called `name`, if one is stored.
    pub fn get_identity(&self, name: &str) -> (user: Option<GitUser>)
        ensures
            user is Some <==> self@.holds(name@),
            user matches Some(u) ==> u@ == self@.identity(name@) && u@.name == name@,
    {
        match self.index_of(name) {
            Some(i) => Some(self.users[i].clone()),
            None => None,
        }
    }

    /// Stores `user` after the identities already held. Fails, and changes
    /// nothing, where its name or email is empty or its name is taken.
    pub fn put_identity(&mut self, user: GitUser) -> (r: Result<(), StoreError>)
        ensures
            final(self)@.wf(),
            match r {
                Ok(()) => user@.name.len() > 0 && user@.email.len() > 0 && !old(self)@.holds(
                    user@.name,
                ) && final(self)@ == old(self)@.with_identity(user@),
                Err(e) => final(self)@ == old(self)@ && e@ == add_refusal(
                    old(self)@,
                    user@.name,
                    user@.email,
                ) && (user@.name.len() == 0 || user@.email.len() == 0 || old(self)@.holds(
                    user@.name,
                )),
            },
    {
        proof {
            use_type_invariant(&*self);
        }
        if user.name.as_str().is_empty() || user.email.as_str().is_empty() {
            return Err(StoreError::InvalidArgument);
        }
        if self.index_of(user.name.as_str()).is_some() {
            return Err(StoreError::DuplicateName(user.name));
        }
        let mut users: Vec<GitUser> = Vec::new();
        core::mem::swap(&mut self.users, &mut users);
        users.push(user);
        assert(views_of(users@) =~= old(self)@.users.push(user@));
        core::mem::swap(&mut self.users, &mut users);
        Ok(())
    }

    /// Deletes the identity called `name`; the selection stays as it is. Fails,
    /// and changes nothing, where no such identity is stored.
    pub fn delete_identity(&mut self, name: &str) -> (r: Result<(), StoreError>)
        ensures
            final(self)@.wf(),
            match r {
                Ok(()) => old(self)@.holds(name@) && final(self)@ == (StoreView {
                    users: old(self)@.users.remove(old(self)@.position(name@)),
                    selected: old(self)@.selected,
                }),
                Err(e) => !old(self)@.holds(name@) && final(self)@ == old(self)@ && e@
                    == ErrorView::NotFound(name@),
            },
    {
        match self.index_of(name) {
            None => Err(StoreError::NotFound(name.to_owned())),
            Some(i) => {
                let mut users: Vec<GitUser> = Vec::new();
                core::mem::swap(&mut self.users, &mut users);
                users.remove(i);
                assert(views_of(users@) =~= old(self)@.users.remove(i as int));
                core::mem::swap(&mut self.users, &mut users);
                Ok(())
            },
        }
    }

    /// Makes `change`. Fails, and changes nothing, where the tables do not
    /// admit it.
    pub fn apply(&mut self, change: &Change) -> (r: Result<(), StoreError>)
        ensures
            final(self)@.wf(),
            final(self)@ == old(self)@.applied(change@),
            r is Ok <==> old(self)@.admits(change@),
            r matches Err(e) ==> match change@ {
                ChangeView::InsertUser(user) => e@ == add_refusal(old(self)@, user.name, user.email),
                ChangeView::DeleteUser(name) => e@ == ErrorView::NotFound(name),
                _ => false,
            },
    {
        match change {
            Change::InsertUser(user) => self.put_identity(user.clone()),
            Change::DeleteUser(name) => self.delete_identity(name.as_str()),
            Change::SetSelection(name) => {
                self.set_selection(name.as_str());
                Ok(())
            },
            Change::ClearSelection => {
                self.clear_selection();
                Ok(())
            },
        }
    }

    /// Makes each of `changes` in turn, but for those that the tables do not
    /// admit when their turn comes.
    pub fn apply_all(&mut self, changes: &Vec<Change>)
        ensures
            final(self)@.wf(),
            final(self)@ == old(self)@.replayed(changes_view(changes@)),
    {
        proof {
            use_type_invariant(&*self);
        }
        let ghost all = changes_view(changes@);
        let mut i: usize = 0;
        assert(all.skip(0) =~= all);
        while i < changes.len()
            invariant
                i <= changes.len(),
                all == changes_view(changes@),
                self@.wf(),
                self@.replayed(all.skip(i as int)) == old(self)@.replayed(all),
            decreases changes.len() - i,
        {
            assert(all.skip(i as int).drop_first() =~= all.skip(i + 1));
            let _ = self.apply(&changes[i]);
            i += 1;
        }
    }

    /// The selected name, if any.
    pub fn get_selection(&self) -> (name: Option<String>)
        ensures
            name_view(name) == self@.selected,
    {
        match &self.selected {
            Some(text) => Some(text.clone()),
            None => None,
        }
    }

    /// Selects `name`, whatever was selected before and whether or not an
    /// identity of that name is stored.
    pub fn set_selection(&mut self, name: &str)
        ensures
            final(self)@ == old(self)@.with_selection(name@),
            final(self)@.wf(),
    {
        proof {
            use_type_invariant(&*self);
        }
        self.selected = Some(name.to_owned());
    }

    /// Clears the selection.
    pub fn clear_selection(&mut self)
        ensures
            final(self)@ == old(self)@.without_selection(),
            final(self)@.wf(),
    {
        proof {
            use_type_invariant(&*self);
        }
        self.selected = None;
    }
}

} // verus!
