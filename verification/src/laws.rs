use crate::error::ErrorView;
use crate::error::SyncHalf;
use crate::identity::GitUser;
use crate::identity::IdentityView;
use crate::model::add_outcome;
use crate::model::after_add;
use crate::model::after_remove;
use crate::model::after_select;
use crate::model::remove_outcome;
use crate::model::select_outcome;
use crate::model::status_outcome;
use crate::model::StoreView;
use crate::sync::step_after;
use crate::sync::StepView;
use crate::tables::views_of;
use vstd::prelude::*;

verus! {

impl StoreView {
    /// Whether the selection, if there is one, names a stored identity.
    pub open spec fn selection_is_sound(self) -> bool {
        self.selected matches Some(name) ==> self.holds(name)
    }
}

/// In a well-formed store a name is found at one place only.
pub proof fn law_position_is_unique(store: StoreView, name: Seq<char>, i: int)
    requires
        store.wf(),
        0 <= i < store.users.len(),
        store.users[i].name == name,
    ensures
        store.holds(name),
        store.position(name) == i,
        store.identity(name) == store.users[i],
{
}

/// Adding, removing and selecting keep the store well formed.
pub proof fn law_operations_keep_the_store_well_formed(
    pre: StoreView,
    name: Seq<char>,
    email: Seq<char>,
)
    requires
        pre.wf(),
    ensures
        after_add(pre, name, email).wf(),
        after_remove(pre, name).wf(),
        after_select(pre, name).wf(),
{
}

/// After an identity was added, the list holds it exactly once: it is the last
/// entry, and no other entry equals it or carries its name.
pub proof fn law_add_then_list(pre: StoreView, name: Seq<char>, email: Seq<char>)
    requires
        pre.wf(),
        add_outcome(pre, name, email) is Ok,
    ensures
        add_outcome(pre, name, email) == Ok::<IdentityView, ErrorView>(IdentityView { name, email }),
        after_add(pre, name, email).users == pre.users.push(IdentityView { name, email }),
        forall|i: int|
            0 <= i < after_add(pre, name, email).users.len() ==> ((
            #[trigger] after_add(pre, name, email).users[i]).name == name <==> i
                == pre.users.len()),
        forall|i: int|
            0 <= i < after_add(pre, name, email).users.len() ==> ((
            #[trigger] after_add(pre, name, email).users[i]) == (IdentityView { name, email }) <==> i
                == pre.users.len()),
        pre == StoreView::empty() ==> after_add(pre, name, email).users == seq![
            IdentityView { name, email },
        ],
{
}

/// A name that was added cannot be added again, whatever the email: the second
/// attempt fails with `DuplicateName` and leaves the store with the first
/// identity only.
pub proof fn law_names_are_unique(
    pre: StoreView,
    name: Seq<char>,
    first: Seq<char>,
    second: Seq<char>,
)
    requires
        pre.wf(),
        add_outcome(pre, name, first) is Ok,
        second.len() > 0,
    ensures
        add_outcome(after_add(pre, name, first), name, second) == Err::<IdentityView, ErrorView>(
            ErrorView::DuplicateName(name),
        ),
        after_add(after_add(pre, name, first), name, second) == after_add(pre, name, first),
{
    let mid = after_add(pre, name, first);
    assert(mid.users[pre.users.len() as int].name == name);
}

/// Removing a stored identity takes just that identity out of the list, after
/// which its name is unknown: a second removal fails with `NotFound`.
pub proof fn law_remove_then_gone(pre: StoreView, name: Seq<char>)
    requires
        pre.wf(),
        pre.holds(name),
    ensures
        remove_outcome(pre, name) is Ok,
        after_remove(pre, name).users == pre.users.remove(pre.position(name)),
        !after_remove(pre, name).holds(name),
        remove_outcome(after_remove(pre, name), name) == Err::<bool, ErrorView>(
            ErrorView::NotFound(name),
        ),
        after_remove(after_remove(pre, name), name) == after_remove(pre, name),
{
    let post = after_remove(pre, name);
    let p = pre.position(name);
    if post.holds(name) {
        let i = post.position(name);
        let i0 = if i < p { i } else { i + 1 };
        law_position_is_unique(pre, name, i0);
    }
}

/// Removing an identity that was just added gives the list as it was before;
/// from the empty store, the empty list.
pub proof fn law_add_then_remove(pre: StoreView, name: Seq<char>, email: Seq<char>)
    requires
        pre.wf(),
        add_outcome(pre, name, email) is Ok,
    ensures
        remove_outcome(after_add(pre, name, email), name) is Ok,
        after_remove(after_add(pre, name, email), name).users == pre.users,
{
    let mid = after_add(pre, name, email);
    law_operations_keep_the_store_well_formed(pre, name, email);
    law_position_is_unique(mid, name, pre.users.len() as int);
}

/// After a stored identity was selected, the status is that identity.
pub proof fn law_select_then_status(pre: StoreView, name: Seq<char>)
    requires
        pre.wf(),
        pre.holds(name),
    ensures
        select_outcome(pre, name) == Ok::<IdentityView, ErrorView>(pre.identity(name)),
        status_outcome(after_select(pre, name)) == Ok::<IdentityView, ErrorView>(
            pre.identity(name),
        ),
        pre.identity(name).name == name,
{
    law_position_is_unique(after_select(pre, name), name, pre.position(name));
}

/// Removing the selected identity clears the selection: the status is then
/// `NoSelection`, not a dangling selection.
pub proof fn law_remove_clears_selection(pre: StoreView, name: Seq<char>)
    requires
        pre.wf(),
        pre.holds(name),
        pre.selected == Some(name),
    ensures
        remove_outcome(pre, name) == Ok::<bool, ErrorView>(true),
        after_remove(pre, name).selected == None::<Seq<char>>,
        status_outcome(after_remove(pre, name)) == Err::<IdentityView, ErrorView>(
            ErrorView::NoSelection,
        ),
{
}

/// A selection that names a stored identity stays one through every
/// operation: none of them leaves a selection dangling.
pub proof fn law_selection_never_dangles(pre: StoreView, name: Seq<char>, email: Seq<char>)
    requires
        pre.wf(),
        pre.selection_is_sound(),
    ensures
        after_add(pre, name, email).selection_is_sound(),
        after_remove(pre, name).selection_is_sound(),
        after_select(pre, name).selection_is_sound(),
{
    if pre.holds(name) {
        let post = after_select(pre, name);
        assert(post.users[pre.position(name)].name == name);
    }
    if let Some(selected) = pre.selected {
        let at = pre.position(selected);
        if add_outcome(pre, name, email) is Ok {
            let post = after_add(pre, name, email);
            assert(post.users[at].name == selected);
        }
        if pre.holds(name) && selected != name {
            let post = after_remove(pre, name);
            let p = pre.position(name);
            let shifted = if at < p { at } else { at - 1 };
            assert(post.users[shifted] == pre.users[at]);
        }
    }
}

/// A selection that names no stored identity is reported as dangling, with the
/// name, whatever else the store holds.
pub proof fn law_dangling_is_reported(store: StoreView, name: Seq<char>)
    requires
        store.selected == Some(name),
        !store.holds(name),
    ensures
        status_outcome(store) == Err::<IdentityView, ErrorView>(ErrorView::DanglingSelection(name)),
{
}

/// Where the invocation for the name succeeded and the one for the email
/// failed, the synchronisation ends with `SyncFailed` for the email half, and
/// the selection that was stored before it stays: the status is the selected
/// identity.
pub proof fn law_failed_email_is_reported(
    pre: StoreView,
    name: Seq<char>,
    email: Seq<char>,
    outcomes: Seq<bool>,
)
    requires
        pre.wf(),
        pre.holds(name),
        outcomes.len() >= 2,
        outcomes[0],
        !outcomes[1],
    ensures
        step_after(name, email, outcomes) == StepView::Finished(
            Err(ErrorView::SyncFailed(SyncHalf::Email)),
        ),
        status_outcome(after_select(pre, name)) == Ok::<IdentityView, ErrorView>(
            pre.identity(name),
        ),
{
    law_select_then_status(pre, name);
}

/// Where the invocation for the name failed, the synchronisation ends with
/// `SyncFailed` for the name half, whatever followed.
pub proof fn law_failed_name_is_reported(name: Seq<char>, email: Seq<char>, outcomes: Seq<bool>)
    requires
        outcomes.len() >= 1,
        !outcomes[0],
    ensures
        step_after(name, email, outcomes) == StepView::Finished(
            Err(ErrorView::SyncFailed(SyncHalf::Name)),
        ),
{
}

/// Two listings of one store are the same sequence.
pub proof fn law_listing_is_repeatable(store: StoreView, first: Seq<GitUser>, second: Seq<GitUser>)
    requires
        views_of(first) == store.users,
        views_of(second) == store.users,
    ensures
        views_of(first) == views_of(second),
        first.len() == second.len(),
        forall|i: int| 0 <= i < first.len() ==> (#[trigger] first[i])@ == second[i]@,
{
    assert(views_of(first).len() == first.len());
    assert forall|i: int| 0 <= i < first.len() implies (#[trigger] first[i])@ == second[i]@ by {
        assert(views_of(first)[i] == first[i]@);
    }
}

} // verus!
