use git_manager::storage::{
    add_account, get_account_by_profile_name, get_accounts, get_selected_profile, has_profile,
    set_selected_profile, GitAccount, StorageData, StoreError,
};

fn account(profile: &str, name: &str, email: &str) -> GitAccount {
    GitAccount {
        profile_name: profile.to_string(),
        user_name: name.to_string(),
        user_email: email.to_string(),
    }
}

fn fields(account: &GitAccount) -> (String, String, String) {
    (
        account.profile_name.clone(),
        account.user_name.clone(),
        account.user_email.clone(),
    )
}

fn triple(profile: &str, name: &str, email: &str) -> (String, String, String) {
    (profile.to_string(), name.to_string(), email.to_string())
}

#[test]
fn default_store_is_empty() {
    let store = StorageData::default();
    assert!(store.accounts.is_empty());
    assert_eq!(store.selected_profile, None);
    assert!(get_accounts(&store).is_empty());
    assert_eq!(get_selected_profile(&store), None);
    assert!(!has_profile(&store, "work"));
    assert!(get_account_by_profile_name(&store, "work").is_none());
}

#[test]
fn added_profile_is_listed_once_with_its_fields() {
    let mut store = StorageData::default();
    assert!(add_account(&mut store, account("work", "Alice", "a@x.com")).is_ok());
    let listed = get_accounts(&store);
    assert_eq!(listed.len(), 1);
    assert_eq!(fields(&listed[0]), triple("work", "Alice", "a@x.com"));
    let count = listed.iter().filter(|a| a.profile_name == "work").count();
    assert_eq!(count, 1);
    assert!(has_profile(&store, "work"));
    assert_eq!(get_selected_profile(&store), None);
}

#[test]
fn added_profile_goes_behind_the_others() {
    let mut store = StorageData::default();
    assert!(add_account(&mut store, account("b", "B", "b@x.com")).is_ok());
    assert!(add_account(&mut store, account("a", "A", "a@x.com")).is_ok());
    assert!(add_account(&mut store, account("c", "C", "c@x.com")).is_ok());
    let listed = get_accounts(&store);
    let names: Vec<String> = listed.iter().map(|a| a.profile_name.clone()).collect();
    assert_eq!(names, vec!["b".to_string(), "a".to_string(), "c".to_string()]);
}

#[test]
fn second_add_of_a_name_is_refused_and_changes_nothing() {
    let mut store = StorageData::default();
    assert!(add_account(&mut store, account("work", "Alice", "a@x.com")).is_ok());
    assert!(set_selected_profile(&mut store, "work").is_ok());
    let result = add_account(&mut store, account("work", "Mallory", "m@x.com"));
    match result {
        Err(StoreError::AlreadyExists { profile_name }) => assert_eq!(profile_name, "work"),
        other => panic!("unexpected result: {:?}", other),
    }
    let listed = get_accounts(&store);
    assert_eq!(listed.len(), 1);
    assert_eq!(fields(&listed[0]), triple("work", "Alice", "a@x.com"));
    assert_eq!(get_selected_profile(&store), Some("work".to_string()));
}

#[test]
fn names_differ_by_case_and_by_space() {
    let mut store = StorageData::default();
    assert!(add_account(&mut store, account("work", "Alice", "a@x.com")).is_ok());
    assert!(add_account(&mut store, account("Work", "Alice", "a@x.com")).is_ok());
    assert!(add_account(&mut store, account("work ", "Alice", "a@x.com")).is_ok());
    assert!(add_account(&mut store, account("", "Nobody", "")).is_ok());
    assert!(add_account(&mut store, account("", "Again", "")).is_err());
    assert_eq!(get_accounts(&store).len(), 4);
}

#[test]
fn selecting_a_missing_profile_is_refused_and_keeps_the_selection() {
    let mut store = StorageData::default();
    let result = set_selected_profile(&mut store, "work");
    match result {
        Err(StoreError::NotFound { profile_name }) => assert_eq!(profile_name, "work"),
        other => panic!("unexpected result: {:?}", other),
    }
    assert_eq!(get_selected_profile(&store), None);

    assert!(add_account(&mut store, account("work", "Alice", "a@x.com")).is_ok());
    assert!(set_selected_profile(&mut store, "work").is_ok());
    assert!(set_selected_profile(&mut store, "home").is_err());
    assert_eq!(get_selected_profile(&store), Some("work".to_string()));
    assert_eq!(get_accounts(&store).len(), 1);
}

#[test]
fn selecting_a_present_profile_keeps_the_marker() {
    let mut store = StorageData::default();
    assert!(add_account(&mut store, account("work", "Alice", "a@x.com")).is_ok());
    assert!(add_account(&mut store, account("home", "Bob", "b@x.com")).is_ok());
    assert!(set_selected_profile(&mut store, "home").is_ok());
    assert_eq!(get_selected_profile(&store), Some("home".to_string()));
    assert!(set_selected_profile(&mut store, "work").is_ok());
    assert_eq!(get_selected_profile(&store), Some("work".to_string()));
    let listed = get_accounts(&store);
    assert_eq!(listed.len(), 2);
    assert_eq!(fields(&listed[0]), triple("work", "Alice", "a@x.com"));
    assert_eq!(fields(&listed[1]), triple("home", "Bob", "b@x.com"));
}

#[test]
fn lookup_gives_the_first_profile_of_a_name() {
    let store = StorageData {
        accounts: vec![
            account("home", "Bob", "b@x.com"),
            account("work", "Alice", "a@x.com"),
            account("work", "Carol", "c@x.com"),
        ],
        selected_profile: None,
    };
    let found = get_account_by_profile_name(&store, "work");
    assert_eq!(
        found.map(|a| fields(&a)),
        Some(triple("work", "Alice", "a@x.com"))
    );
    assert!(get_account_by_profile_name(&store, "wor").is_none());
    assert!(has_profile(&store, "home"));
    assert!(!has_profile(&store, "hom"));
}

#[test]
fn a_stale_selection_is_handed_out_as_it_is() {
    let store = StorageData {
        accounts: vec![account("home", "Bob", "b@x.com")],
        selected_profile: Some("gone".to_string()),
    };
    assert_eq!(get_selected_profile(&store), Some("gone".to_string()));
    assert_eq!(get_accounts(&store).len(), 1);
}

#[test]
fn clone_keeps_the_fields() {
    let original = account("work", "Alice", "a@x.com");
    let copy = original.clone();
    assert_eq!(fields(&copy), fields(&original));
}
