//! The profile store and its operations.

use vstd::prelude::*;
use vstd::string::*;

verus! {

/// One git identity under a profile name.
#[derive(Debug)]
pub struct GitAccount {
    pub profile_name: String,
    pub user_name: String,
    pub user_email: String,
}

/// What a `GitAccount` holds, as sequences of characters.
pub ghost struct AccountView {
    pub profile_name: Seq<char>,
    pub user_name: Seq<char>,
    pub user_email: Seq<char>,
}

impl View for GitAccount {
    type V = AccountView;

    open spec fn view(&self) -> AccountView {
        AccountView {
            profile_name: self.profile_name@,
            user_name: self.user_name@,
            user_email: self.user_email@,
        }
    }
}

impl Clone for GitAccount {
    fn clone(&self) -> (res: Self)
        ensures
            res@ == self@,
    {
        GitAccount {
            profile_name: self.profile_name.clone(),
            user_name: self.user_name.clone(),
            user_email: self.user_email.clone(),
        }
    }
}

/// Everything that is kept: the profiles in the order in which they were
/// added, and the name of the selected one, if any.
#[derive(Debug)]
pub struct StorageData {
    pub accounts: Vec<GitAccount>,
    pub selected_profile: Option<String>,
}

/// Why an operation on the store was refused.
#[derive(Debug)]
pub enum StoreError {
    /// A profile of this name is already in the store.
    AlreadyExists { profile_name: String },
    /// No profile of this name is in the store.
    NotFound { profile_name: String },
}

/// A `StoreError` with its name as a sequence of characters.
pub ghost enum StoreErrorView {
    AlreadyExists { profile_name: Seq<char> },
    NotFound { profile_name: Seq<char> },
}

impl View for StoreError {
    type V = StoreErrorView;

    open spec fn view(&self) -> StoreErrorView {
        match self {
            StoreError::AlreadyExists { profile_name } => StoreErrorView::AlreadyExists {
                profile_name: profile_name@,
            },
            StoreError::NotFound { profile_name } => StoreErrorView::NotFound {
                profile_name: profile_name@,
            },
        }
    }
}

/// The store as a mathematical value.
pub ghost struct StoreView {
    pub accounts: Seq<AccountView>,
    pub selected_profile: Option<Seq<char>>,
}

impl StoreView {
    /// The store with no profile and no selection.
    pub open spec fn empty() -> StoreView {
        StoreView { accounts: Seq::empty(), selected_profile: None }
    }

    /// Some profile of the store bears `name`.
    pub open spec fn has_profile(self, name: Seq<char>) -> bool {
        exists|i: int| 0 <= i < self.accounts.len() && (#[trigger] self.accounts[i]).profile_name == name
    }

    /// `i` is the place of the first profile that bears `name`.
    pub open spec fn is_first_match(self, name: Seq<char>, i: int) -> bool {
        &&& 0 <= i < self.accounts.len()
        &&& self.accounts[i].profile_name == name
        &&& forall|j: int| 0 <= j < i ==> (#[trigger] self.accounts[j]).profile_name != name
    }

    /// The selection, if there is one, names a profile of the store.
    pub open spec fn valid(self) -> bool {
        self.selected_profile matches Some(name) ==> self.has_profile(name)
    }

    /// No two profiles bear the same name.
    pub open spec fn names_distinct(self) -> bool {
        forall|i: int, j: int|
            0 <= i < j < self.accounts.len() ==> (#[trigger] self.accounts[i]).profile_name != (
            #[trigger] self.accounts[j]).profile_name
    }

    /// What adding `account` gives: the store with `account` behind the
    /// others, or the refusal where its name is taken.
    pub open spec fn add(self, account: AccountView) -> Result<StoreView, StoreErrorView> {
        if self.has_profile(account.profile_name) {
            Err(StoreErrorView::AlreadyExists { profile_name: account.profile_name })
        } else {
            Ok(StoreView { accounts: self.accounts.push(account), ..self })
        }
    }

    /// What selecting `name` gives: the store with `name` selected, or the
    /// refusal where no profile bears it.
    pub open spec fn select(self, name: Seq<char>) -> Result<StoreView, StoreErrorView> {
        if self.has_profile(name) {
            Ok(StoreView { selected_profile: Some(name), ..self })
        } else {
            Err(StoreErrorView::NotFound { profile_name: name })
        }
    }
}

/// The profiles of `accounts`, each as a mathematical value, in their order.
pub open spec fn account_views(accounts: Seq<GitAccount>) -> Seq<AccountView> {
    Seq::new(accounts.len(), |i: int| accounts[i]@)
}

/// An optional name as an optional sequence of characters.
pub open spec fn name_view(name: Option<String>) -> Option<Seq<char>> {
    match name {
        Some(name) => Some(name@),
        None => None,
    }
}

impl View for StorageData {
    type V = StoreView;

    open spec fn view(&self) -> StoreView {
        StoreView {
            accounts: account_views(self.accounts@),
            selected_profile: name_view(self.selected_profile),
        }
    }
}

impl Default for StorageData {
    /// The empty store: what an absent file stands for.
    fn default() -> (res: Self)
        ensures
            res@ == StoreView::empty(),
    {
        let res = StorageData { accounts: Vec::new(), selected_profile: None };
        assert(res@.accounts =~= Seq::empty());
        res
    }
}

/// Whether some profile of `storage` bears `profile_name`.
pub fn has_profile(storage: &StorageData, profile_name: &str) -> (found: bool)
    ensures
        found == storage@.has_profile(profile_name@),
{
    let wanted = String::from_str(profile_name);
    let mut i: usize = 0;
    while i < storage.accounts.len()
        invariant
            i <= storage.accounts.len(),
            wanted@ == profile_name@,
            forall|j: int| 0 <= j < i ==> (#[trigger] storage@.accounts[j]).profile_name != profile_name@,
        decreases storage.accounts.len() - i,
    {
        if storage.accounts[i].profile_name == wanted {
            assert(storage@.accounts[i as int].profile_name == profile_name@);
            return true;
        }
        i += 1;
    }
    false
}

/// Adds `account` behind the profiles of `storage`, unless one of them bears
/// its name already: then `storage` is left as it was.
pub fn add_account(storage: &mut StorageData, account: GitAccount) -> (result: Result<
    (),
    StoreError,
>)
    ensures
        match old(storage)@.add(account@) {
            Ok(after) => result is Ok && final(storage)@ == after,
            Err(refusal) => result matches Err(e) && e@ == refusal && final(storage)@ == old(
                storage,
            )@,
        },
{
    if has_profile(storage, account.profile_name.as_str()) {
        return Err(StoreError::AlreadyExists { profile_name: account.profile_name });
    }
    storage.accounts.push(account);
    assert(storage@.accounts =~= old(storage)@.accounts.push(account@));
    Ok(())
}

/// The profiles of `storage`, in the order in which they were added.
pub fn get_accounts(storage: &StorageData) -> (accounts: Vec<GitAccount>)
    ensures
        account_views(accounts@) == storage@.accounts,
{
    let mut accounts: Vec<GitAccount> = Vec::new();
    let mut i: usize = 0;
    while i < storage.accounts.len()
        invariant
            i <= storage.accounts.len(),
            accounts@.len() == i,
            forall|j: int| 0 <= j < i ==> (#[trigger] accounts@[j])@ == storage.accounts@[j]@,
        decreases storage.accounts.len() - i,
    {
        accounts.push(storage.accounts[i].clone());
        i += 1;
    }
    assert(account_views(accounts@) =~= storage@.accounts);
    accounts
}

/// The name of the selected profile of `storage`, if one is selected.
pub fn get_selected_profile(storage: &StorageData) -> (selected: Option<String>)
    ensures
        name_view(selected) == storage@.selected_profile,
{
    match &storage.selected_profile {
        Some(name) => Some(name.clone()),
        None => None,
    }
}

/// The first profile of `storage` that bears `profile_name`, if any does.
pub fn get_account_by_profile_name(storage: &StorageData, profile_name: &str) -> (found: Option<
    GitAccount,
>)
    ensures
        found is Some == storage@.has_profile(profile_name@),
        found matches Some(account) ==> exists|i: int|
            storage@.is_first_match(profile_name@, i) && #[trigger] storage@.accounts[i]
                == account@,
{
    let wanted = String::from_str(profile_name);
    let mut i: usize = 0;
    while i < storage.accounts.len()
        invariant
            i <= storage.accounts.len(),
            wanted@ == profile_name@,
            forall|j: int| 0 <= j < i ==> (#[trigger] storage@.accounts[j]).profile_name != profile_name@,
        decreases storage.accounts.len() - i,
    {
        if storage.accounts[i].profile_name == wanted {
            let account = storage.accounts[i].clone();
            assert(storage@.is_first_match(profile_name@, i as int));
            assert(storage@.accounts[i as int] == account@);
            return Some(account);
        }
        i += 1;
    }
    None
}

/// Selects the profile that bears `profile_name`, unless no profile of
/// `storage` does: then `storage` is left as it was.
pub fn set_selected_profile(storage: &mut StorageData, profile_name: &str) -> (result: Result<
    (),
    StoreError,
>)
    ensures
        match old(storage)@.select(profile_name@) {
            Ok(after) => result is Ok && final(storage)@ == after,
            Err(refusal) => result matches Err(e) && e@ == refusal && final(storage)@ == old(
                storage,
            )@,
        },
{
    if !has_profile(storage, profile_name) {
        return Err(StoreError::NotFound { profile_name: String::from_str(profile_name) });
    }
    storage.selected_profile = Some(String::from_str(profile_name));
    Ok(())
}

} // verus!
