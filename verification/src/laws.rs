//! What holds of the store whatever it holds: how adding, selecting and
//! listing go together.

use crate::command::{entry_text, entry_texts, is_selected, listing_text, marker_text};
use crate::storage::{AccountView, StoreErrorView, StoreView};
use vstd::prelude::*;

verus! {

/// The store after an attempt to add `account` to `store`: the one that
/// `add` gives, or `store` itself where it was refused.
pub open spec fn after_add(store: StoreView, account: AccountView) -> StoreView {
    match store.add(account) {
        Ok(after) => after,
        Err(_) => store,
    }
}

/// The store after an attempt to select `name` in `store`: the one that
/// `select` gives, or `store` itself where it was refused.
pub open spec fn after_select(store: StoreView, name: Seq<char>) -> StoreView {
    match store.select(name) {
        Ok(after) => after,
        Err(_) => store,
    }
}

/// A profile that was added is listed exactly once, behind those that were
/// there, with the fields it was added with; the others and the selection
/// stay as they were.
pub proof fn lemma_added_profile_is_listed_once(store: StoreView, account: AccountView)
    requires
        store.add(account) is Ok,
    ensures
        ({
            let after = after_add(store, account);
            let last = after.accounts.len() - 1;
            &&& after.accounts.len() == store.accounts.len() + 1
            &&& after.accounts[last] == account
            &&& forall|i: int|
                0 <= i < after.accounts.len() && (#[trigger] after.accounts[i]).profile_name
                    == account.profile_name ==> i == last
            &&& forall|i: int|
                0 <= i < store.accounts.len() ==> #[trigger] after.accounts[i] == store.accounts[i]
            &&& after.selected_profile == store.selected_profile
            &&& after.has_profile(account.profile_name)
        }),
{
    let after = after_add(store, account);
    let last = after.accounts.len() - 1;
    assert(after.accounts[last] == account);
    assert forall|i: int|
        0 <= i < after.accounts.len() && (#[trigger] after.accounts[i]).profile_name
            == account.profile_name implies i == last by {
        if i < last {
            assert(store.accounts[i].profile_name == account.profile_name);
        }
    }
}

/// Once a profile has been added, or was refused because its name was taken,
/// a second profile of the same name is refused as already there, and the
/// store stays as the first attempt left it.
pub proof fn lemma_same_name_is_refused(store: StoreView, first: AccountView, second: AccountView)
    requires
        first.profile_name == second.profile_name,
    ensures
        after_add(store, first).add(second) == Err::<StoreView, StoreErrorView>(
            StoreErrorView::AlreadyExists { profile_name: second.profile_name },
        ),
        after_add(after_add(store, first), second) == after_add(store, first),
{
    if store.add(first) is Ok {
        lemma_added_profile_is_listed_once(store, first);
    }
}

/// Selecting a name that no profile bears is refused as not found, and the
/// store, its selection included, stays as it was.
pub proof fn lemma_missing_profile_is_not_selected(store: StoreView, name: Seq<char>)
    requires
        !store.has_profile(name),
    ensures
        store.select(name) == Err::<StoreView, StoreErrorView>(
            StoreErrorView::NotFound { profile_name: name },
        ),
        after_select(store, name) == store,
        after_select(store, name).selected_profile == store.selected_profile,
{
}

/// Selecting a name that some profile bears succeeds and keeps the name as
/// the selection, the profiles stay as they were, and the listing then marks
/// the profiles of that name with a star and every other with a dash.
pub proof fn lemma_selected_profile_is_marked(store: StoreView, name: Seq<char>)
    requires
        store.has_profile(name),
    ensures
        ({
            let after = after_select(store, name);
            &&& store.select(name) == Ok::<StoreView, StoreErrorView>(after)
            &&& after.selected_profile == Some(name)
            &&& after.accounts == store.accounts
            &&& after.valid()
            &&& entry_texts(after).len() == after.accounts.len()
            &&& forall|i: int|
                0 <= i < after.accounts.len() ==> (#[trigger] entry_texts(after)[i]) == entry_text(
                    after.accounts[i],
                    Some(name),
                )
            &&& forall|i: int|
                0 <= i < after.accounts.len() ==> #[trigger] marker_text(
                    after.accounts[i],
                    after.selected_profile,
                ) == if after.accounts[i].profile_name == name {
                    "*"@
                } else {
                    "-"@
                }
            &&& listing_text(after) == seq!["Available git account profiles:"@] + entry_texts(
                after,
            )
        }),
{
    let after = after_select(store, name);
    let i = choose|i: int|
        0 <= i < store.accounts.len() && (#[trigger] store.accounts[i]).profile_name == name;
    assert(after.accounts[i].profile_name == name);
    assert forall|i: int| 0 <= i < after.accounts.len() implies #[trigger] marker_text(
        after.accounts[i],
        after.selected_profile,
    ) == if after.accounts[i].profile_name == name {
        "*"@
    } else {
        "-"@
    } by {
        assert(is_selected(after.accounts[i], after.selected_profile) == (
        after.accounts[i].profile_name == name));
    }
}

/// A store whose selection names one of its profiles keeps that through
/// every attempt to add a profile.
pub proof fn lemma_add_keeps_selection_valid(store: StoreView, account: AccountView)
    requires
        store.valid(),
    ensures
        after_add(store, account).valid(),
{
    let after = after_add(store, account);
    if store.add(account) is Ok {
        if let Some(name) = store.selected_profile {
            let i = choose|i: int|
                0 <= i < store.accounts.len() && (#[trigger] store.accounts[i]).profile_name
                    == name;
            assert(after.accounts[i].profile_name == name);
        }
    }
}

/// A store whose selection names one of its profiles keeps that through
/// every attempt to select a profile.
pub proof fn lemma_select_keeps_selection_valid(store: StoreView, name: Seq<char>)
    requires
        store.valid(),
    ensures
        after_select(store, name).valid(),
{
    if store.has_profile(name) {
        lemma_selected_profile_is_marked(store, name);
    }
}

/// A store in which no two profiles bear the same name keeps that through
/// every attempt to add or to select a profile.
pub proof fn lemma_names_stay_distinct(store: StoreView, account: AccountView, name: Seq<char>)
    requires
        store.names_distinct(),
    ensures
        after_add(store, account).names_distinct(),
        after_select(store, name).names_distinct(),
{
    let after = after_add(store, account);
    if store.add(account) is Ok {
        assert forall|i: int, j: int| 0 <= i < j < after.accounts.len() implies (
        #[trigger] after.accounts[i]).profile_name != (#[trigger] after.accounts[j]).profile_name by {
            if j < store.accounts.len() {
                assert(store.accounts[i].profile_name != store.accounts[j].profile_name);
            } else {
                assert(store.accounts[i].profile_name != account.profile_name);
            }
        }
    }
}

/// The empty store holds no profile, is valid, and is listed as the one line
/// that says so.
pub proof fn lemma_empty_store(name: Seq<char>)
    ensures
        !StoreView::empty().has_profile(name),
        StoreView::empty().valid(),
        StoreView::empty().names_distinct(),
        listing_text(StoreView::empty()) == seq![
            "No accounts configured yet. Use 'add' command to add one."@,
        ],
{
}

} // verus!
