use crate::changes::changes_view;
use crate::changes::Change;
use crate::changes::ChangeView;
use crate::error::ErrorView;
use crate::error::StoreError;
use crate::identity::GitUser;
use crate::identity::IdentityView;
use crate::model::add_outcome;
use crate::model::after_add;
use crate::model::after_remove;
use crate::model::after_select;
use crate::model::remove_outcome;
use crate::model::select_outcome;
use crate::model::status_outcome;
use crate::model::StoreView;
use crate::tables::Tables;
use vstd::prelude::*;

verus! {

/// The view of an answer that carries an identity.
pub open spec fn user_outcome(r: Result<GitUser, StoreError>) -> Result<IdentityView, ErrorView> {
    match r {
        Ok(user) => Ok(user@),
        Err(e) => Err(e@),
    }
}

/// The view of an answer that carries a flag.
pub open spec fn flag_outcome(r: Result<bool, StoreError>) -> Result<bool, ErrorView> {
    match r {
        Ok(flag) => Ok(flag),
        Err(e) => Err(e@),
    }
}

/// The changes that add the identity `name`, `email`.
pub open spec fn add_changes(name: Seq<char>, email: Seq<char>) -> Seq<ChangeView> {
    seq![ChangeView::InsertUser(IdentityView { name, email })]
}

/// The changes that remove `name` from the store `pre`: a selection of that
/// name is cleared first, so that it never names an identity that is gone.
pub open spec fn remove_changes(pre: StoreView, name: Seq<char>) -> Seq<ChangeView> {
    if pre.selected == Some(name) {
        seq![ChangeView::ClearSelection, ChangeView::DeleteUser(name)]
    } else {
        seq![ChangeView::DeleteUser(name)]
    }
}

/// The changes that select `name`.
pub open spec fn select_changes(name: Seq<char>) -> Seq<ChangeView> {
    seq![ChangeView::SetSelection(name)]
}

/// Where an identity can be added, the changes that add it are admitted one by
/// one and lead to the store that adding leaves behind.
pub proof fn law_add_changes(pre: StoreView, name: Seq<char>, email: Seq<char>)
    requires
        add_outcome(pre, name, email) is Ok,
    ensures
        pre.admits_all(add_changes(name, email)),
        pre.replayed(add_changes(name, email)) == after_add(pre, name, email),
{
    let changes = add_changes(name, email);
    let next = pre.applied(changes[0]);
    assert(next.admits_all(changes.drop_first()));
    assert(next.replayed(changes.drop_first()) == next);
}

/// Where an identity can be removed, the changes that remove it are admitted
/// one by one and lead to the store that removing leaves behind.
pub proof fn law_remove_changes(pre: StoreView, name: Seq<char>)
    requires
        remove_outcome(pre, name) is Ok,
    ensures
        pre.admits_all(remove_changes(pre, name)),
        pre.replayed(remove_changes(pre, name)) == after_remove(pre, name),
{
    let changes = remove_changes(pre, name);
    if pre.selected == Some(name) {
        let cleared = pre.applied(changes[0]);
        let rest = changes.drop_first();
        let last = cleared.applied(rest[0]);
        assert(last.admits_all(rest.drop_first()));
        assert(last.replayed(rest.drop_first()) == last);
        assert(cleared.admits_all(rest));
        assert(cleared.replayed(rest) == last);
    } else {
        let next = pre.applied(changes[0]);
        assert(next.admits_all(changes.drop_first()));
        assert(next.replayed(changes.drop_first()) == next);
    }
}

/// Where an identity can be selected, the changes that select it are admitted
/// and lead to the store that selecting leaves behind.
pub proof fn law_select_changes(pre: StoreView, name: Seq<char>)
    requires
        select_outcome(pre, name) is Ok,
    ensures
        pre.admits_all(select_changes(name)),
        pre.replayed(select_changes(name)) == after_select(pre, name),
{
    let changes = select_changes(name);
    let next = pre.applied(changes[0]);
    assert(next.admits_all(changes.drop_first()));
    assert(next.replayed(changes.drop_first()) == next);
}

/// Decides whether the identity `name`, `email` can be added to `tables`, and
/// with which changes.
pub fn plan_add(tables: &Tables, name: &str, email: &str) -> (r: Result<
    (GitUser, Vec<Change>),
    StoreError,
>)
    ensures
        match r {
            Ok((user, changes)) => add_outcome(tables@, name@, email@) == Ok::<
                IdentityView,
                ErrorView,
            >(user@) && changes_view(changes@) == add_changes(name@, email@),
            Err(e) => add_outcome(tables@, name@, email@) == Err::<IdentityView, ErrorView>(e@),
        },
{
    if name.is_empty() || email.is_empty() {
        return Err(StoreError::InvalidArgument);
    }
    if tables.get_identity(name).is_some() {
        return Err(StoreError::DuplicateName(name.to_owned()));
    }
    let user = GitUser { name: name.to_owned(), email: email.to_owned() };
    let mut changes: Vec<Change> = Vec::new();
    changes.push(Change::InsertUser(user.clone()));
    Ok((user, changes))
}

/// Decides whether the identity called `name` can be removed from `tables`,
/// and with which changes; the flag says whether the selection goes with it.
pub fn plan_remove(tables: &Tables, name: &str) -> (r: Result<(bool, Vec<Change>), StoreError>)
    ensures
        match r {
            Ok((cleared, changes)) => remove_outcome(tables@, name@) == Ok::<bool, ErrorView>(
                cleared,
            ) && changes_view(changes@) == remove_changes(tables@, name@),
            Err(e) => remove_outcome(tables@, name@) == Err::<bool, ErrorView>(e@),
        },
{
    if tables.get_identity(name).is_none() {
        return Err(StoreError::NotFound(name.to_owned()));
    }
    let key: String = name.to_owned();
    let cleared = match tables.get_selection() {
        Some(selected) => selected == key,
        None => false,
    };
    let mut changes: Vec<Change> = Vec::new();
    if cleared {
        changes.push(Change::ClearSelection);
    }
    changes.push(Change::DeleteUser(key));
    Ok((cleared, changes))
}

/// Decides whether the identity called `name` can be selected in `tables`, and
/// with which changes.
pub fn plan_select(tables: &Tables, name: &str) -> (r: Result<(GitUser, Vec<Change>), StoreError>)
    ensures
        match r {
            Ok((user, changes)) => select_outcome(tables@, name@) == Ok::<IdentityView, ErrorView>(
                user@,
            ) && changes_view(changes@) == select_changes(name@),
            Err(e) => select_outcome(tables@, name@) == Err::<IdentityView, ErrorView>(e@),
        },
{
    match tables.get_identity(name) {
        None => Err(StoreError::NotFound(name.to_owned())),
        Some(user) => {
            let mut changes: Vec<Change> = Vec::new();
            changes.push(Change::SetSelection(name.to_owned()));
            Ok((user, changes))
        },
    }
}

/// The selected identity of `tables`.
pub fn current(tables: &Tables) -> (r: Result<GitUser, StoreError>)
    ensures
        user_outcome(r) == status_outcome(tables@),
{
    match tables.get_selection() {
        None => Err(StoreError::NoSelection),
        Some(name) => match tables.get_identity(name.as_str()) {
            Some(user) => Ok(user),
            None => Err(StoreError::DanglingSelection(name)),
        },
    }
}

/// Ends an operation whose `changes` were handed to the storage: where they
/// were written, `tables` follows them and the operation answers `answer`;
/// where they were not, `tables` stays as it is and the failure is the answer.
pub fn settle<T>(
    tables: &mut Tables,
    changes: &Vec<Change>,
    answer: T,
    written: Result<(), StoreError>,
) -> (r: Result<T, StoreError>)
    ensures
        final(tables)@.wf(),
        match written {
            Ok(()) => r == Ok::<T, StoreError>(answer) && final(tables)@ == old(tables)@.replayed(
                changes_view(changes@),
            ),
            Err(e) => r == Err::<T, StoreError>(e) && final(tables)@ == old(tables)@,
        },
{
    match written {
        Ok(()) => {
            tables.apply_all(changes);
            Ok(answer)
        },
        Err(e) => {
            proof {
                use_type_invariant(&*tables);
            }
            Err(e)
        },
    }
}

} // verus!
