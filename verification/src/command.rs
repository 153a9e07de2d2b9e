//! What the command line shows of a store, and what it runs to apply a
//! profile to git's global configuration.

use crate::storage::{
    get_account_by_profile_name, name_view, set_selected_profile, AccountView, GitAccount,
    StorageData, StoreError, StoreErrorView, StoreView,
};
use vstd::prelude::*;
use vstd::string::*;

verus! {

/// Strings as sequences of characters, in their order.
pub open spec fn texts(strings: Seq<String>) -> Seq<Seq<char>> {
    Seq::new(strings.len(), |i: int| strings[i]@)
}

/// Lists of strings as lists of sequences of characters, in their order.
pub open spec fn text_lists(lists: Seq<Vec<String>>) -> Seq<Seq<Seq<char>>> {
    Seq::new(lists.len(), |i: int| texts(lists[i]@))
}

/// `account` is the one that `selected` names.
pub open spec fn is_selected(account: AccountView, selected: Option<Seq<char>>) -> bool {
    selected == Some(account.profile_name)
}

/// The sign in front of a listed profile: a star for the selected one, a
/// dash for every other.
pub open spec fn marker_text(account: AccountView, selected: Option<Seq<char>>) -> Seq<char> {
    if is_selected(account, selected) {
        "*"@
    } else {
        "-"@
    }
}

/// The line that lists `account`: sign, profile name, user name and, in
/// angle brackets, the e-mail address.
pub open spec fn entry_text(account: AccountView, selected: Option<Seq<char>>) -> Seq<char> {
    marker_text(account, selected) + " "@ + account.profile_name + ": "@ + account.user_name
        + " <"@ + account.user_email + ">"@
}

/// The one line shown for a store without profiles.
pub open spec fn no_accounts_text() -> Seq<char> {
    "No accounts configured yet. Use 'add' command to add one."@
}

/// The line above the listed profiles.
pub open spec fn heading_text() -> Seq<char> {
    "Available git account profiles:"@
}

/// The line below the listed profiles where none is selected.
pub open spec fn no_selection_text() -> Seq<char> {
    "\nNo profile currently selected. Use 'use <profile_name>' to select one."@
}

/// The lines that list the profiles of `store`, one for each, in their order.
pub open spec fn entry_texts(store: StoreView) -> Seq<Seq<char>> {
    Seq::new(store.accounts.len(), |i: int| entry_text(store.accounts[i], store.selected_profile))
}

/// All lines shown for `store`.
pub open spec fn listing_text(store: StoreView) -> Seq<Seq<char>> {
    if store.accounts.len() == 0 {
        seq![no_accounts_text()]
    } else if store.selected_profile is None {
        seq![heading_text()] + entry_texts(store) + seq![no_selection_text()]
    } else {
        seq![heading_text()] + entry_texts(store)
    }
}

/// The arguments with which git sets `key` to `value` for the user.
pub open spec fn config_args_text(key: Seq<char>, value: Seq<char>) -> Seq<Seq<char>> {
    seq!["config"@, "--global"@, key, value]
}

/// The argument lists of the git calls that apply `account`: first the user
/// name, then the e-mail address.
pub open spec fn identity_commands_text(account: AccountView) -> Seq<Seq<Seq<char>>> {
    seq![
        config_args_text("user.name"@, account.user_name),
        config_args_text("user.email"@, account.user_email),
    ]
}

/// What is reported where git did not set `key` to `value`.
pub open spec fn config_failure_text(key: Seq<char>, value: Seq<char>) -> Seq<char> {
    "Failed to execute 'git config --global "@ + key + " \""@ + value
        + "\"'. Is git installed and in PATH?"@
}

/// What is reported for a refused operation.
pub open spec fn error_text(error: StoreErrorView) -> Seq<char> {
    match error {
        StoreErrorView::AlreadyExists { profile_name } => "Profile '"@
            + profile_name + "' already exists"@,
        StoreErrorView::NotFound { profile_name } => "Profile '"@ + profile_name
            + "' not found"@,
    }
}

/// Whether `account` is the one that `selected` names.
pub fn account_is_selected(account: &GitAccount, selected: &Option<String>) -> (marked: bool)
    ensures
        marked == is_selected(account@, name_view(*selected)),
{
    match selected {
        Some(name) => *name == account.profile_name,
        None => false,
    }
}

/// The line that lists `account` in a store whose selection is `selected`.
pub fn format_entry(account: &GitAccount, selected: &Option<String>) -> (line: String)
    ensures
        line@ == entry_text(account@, name_view(*selected)),
{
    let mut line = if account_is_selected(account, selected) {
        String::from_str("*")
    } else {
        String::from_str("-")
    };
    line.append(" ");
    line.append(account.profile_name.as_str());
    line.append(": ");
    line.append(account.user_name.as_str());
    line.append(" <");
    line.append(account.user_email.as_str());
    line.append(">");
    line
}

/// The lines to show for `storage`: one line for a store without profiles;
/// else a heading, a line for each profile in order, and a closing line
/// where no profile is selected.
pub fn list_lines(storage: &StorageData) -> (lines: Vec<String>)
    ensures
        texts(lines@) == listing_text(storage@),
{
    let mut lines: Vec<String> = Vec::new();
    if storage.accounts.len() == 0 {
        lines.push(String::from_str("No accounts configured yet. Use 'add' command to add one."));
        assert(texts(lines@) =~= listing_text(storage@));
        return lines;
    }
    lines.push(String::from_str("Available git account profiles:"));
    let mut i: usize = 0;
    while i < storage.accounts.len()
        invariant
            i <= storage.accounts.len(),
            lines@.len() == i + 1,
            lines@[0]@ == heading_text(),
            forall|k: int|
                1 <= k <= i ==> (#[trigger] lines@[k])@ == entry_texts(storage@)[k - 1],
        decreases storage.accounts.len() - i,
    {
        lines.push(format_entry(&storage.accounts[i], &storage.selected_profile));
        i += 1;
    }
    if storage.selected_profile.is_none() {
        lines.push(
            String::from_str(
                "\nNo profile currently selected. Use 'use <profile_name>' to select one.",
            ),
        );
    }
    proof {
        let shown = texts(lines@);
        let wanted = listing_text(storage@);
        assert(shown.len() == wanted.len());
        assert forall|k: int| 0 <= k < shown.len() implies shown[k] == wanted[k] by {
            if 1 <= k <= i {
                assert(shown[k] == lines@[k]@);
            }
        }
        assert(shown =~= wanted);
    }
    lines
}

/// The arguments with which git sets `key` to `value` for the user.
pub fn git_config_args(key: &str, value: &str) -> (args: Vec<String>)
    ensures
        texts(args@) == config_args_text(key@, value@),
{
    let mut args: Vec<String> = Vec::new();
    args.push(String::from_str("config"));
    args.push(String::from_str("--global"));
    args.push(String::from_str(key));
    args.push(String::from_str(value));
    assert(texts(args@) =~= config_args_text(key@, value@));
    args
}

/// The argument lists of the git calls that apply `account`, in the order in
/// which they are to run.
pub fn identity_commands(account: &GitAccount) -> (commands: Vec<Vec<String>>)
    ensures
        text_lists(commands@) == identity_commands_text(account@),
{
    let mut commands: Vec<Vec<String>> = Vec::new();
    commands.push(git_config_args("user.name", account.user_name.as_str()));
    commands.push(git_config_args("user.email", account.user_email.as_str()));
    assert(text_lists(commands@) =~= identity_commands_text(account@));
    commands
}

/// What to report where git did not set `key` to `value`.
pub fn config_failure_message(key: &str, value: &str) -> (message: String)
    ensures
        message@ == config_failure_text(key@, value@),
{
    let mut message = String::from_str("Failed to execute 'git config --global ");
    message.append(key);
    message.append(" \"");
    message.append(value);
    message.append("\"'. Is git installed and in PATH?");
    message
}

/// What to report for `error`.
pub fn error_message(error: &StoreError) -> (message: String)
    ensures
        message@ == error_text(error@),
{
    let mut message = String::from_str("Profile '");
    match error {
        StoreError::AlreadyExists { profile_name } => {
            message.append(profile_name.as_str());
            message.append("' already exists");
        },
        StoreError::NotFound { profile_name } => {
            message.append(profile_name.as_str());
            message.append("' not found");
        },
    }
    message
}

/// Selects the profile that bears `profile_name` and hands out the profile
/// whose identity is to be applied: the first that bears the name. Where no
/// profile bears it, `storage` is left as it was.
pub fn activate_profile(storage: &mut StorageData, profile_name: &str) -> (result: Result<
    GitAccount,
    StoreError,
>)
    ensures
        match old(storage)@.select(profile_name@) {
            Ok(after) => final(storage)@ == after && (result matches Ok(account) && exists|i: int|
                after.is_first_match(profile_name@, i) && #[trigger] after.accounts[i]
                    == account@),
            Err(refusal) => result matches Err(e) && e@ == refusal && final(storage)@ == old(
                storage,
            )@,
        },
{
    match set_selected_profile(storage, profile_name) {
        Err(e) => Err(e),
        Ok(()) => {
            match get_account_by_profile_name(storage, profile_name) {
                Some(account) => Ok(account),
                None => Err(StoreError::NotFound { profile_name: String::from_str(profile_name) }),
            }
        },
    }
}

} // verus!
