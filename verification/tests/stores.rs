use openpasswd::cache::{expiry_of, get_or_set, MemoryCache, RevocationStore};
use openpasswd::repository::memory::{fresh_id, MemoryRepository};
use openpasswd::repository::models::account::{
    Account, AccountGroup, AccountPassword, NewAccount, NewAccountGroup, NewAccountPassword,
};
use openpasswd::repository::models::device::{Device, NewDevice};
use openpasswd::repository::models::user::{NewUser, User};
use openpasswd::repository::models::user_password_recovery::NewUserPasswordRecovery;
use openpasswd::repository::repositories::accounts_repository::AccountsRepository;
use openpasswd::repository::repositories::devices_repository::DevicesRepository;
use openpasswd::repository::repositories::users_repository::UsersRepository;

fn new_user(name: &str, email: &str) -> NewUser {
    NewUser {
        name: name.to_string(),
        email: email.to_string(),
        password: "hash".to_string(),
        master_key: None,
    }
}

fn user_with_id(id: i32) -> User {
    User {
        id,
        name: String::new(),
        email: String::new(),
        password: String::new(),
        master_key: None,
        last_login: None,
        fail_attempts: 0,
        last_attempt: None,
    }
}

#[test]
fn cache_entries_expire() {
    let mut cache = MemoryCache::new();
    assert_eq!(cache.len(), 0);
    assert_eq!(cache.get("k", 0), None);
    cache.set_and_expire("k", 1, 60, 1000);
    assert_eq!(cache.len(), 1);
    assert_eq!(cache.get("k", 1000), Some(1));
    assert_eq!(cache.get("k", 1059), Some(1));
    assert_eq!(cache.get("k", 1060), None);
    assert_eq!(cache.get("k", 5000), None);
    assert_eq!(cache.get("other", 1000), None);
    // setting again replaces value and expiry
    cache.set_and_expire("k", 5, 10, 2000);
    assert_eq!(cache.len(), 1);
    assert_eq!(cache.get("k", 2009), Some(5));
    assert_eq!(cache.get("k", 2010), None);
    // no time at all
    cache.set_and_expire("z", 1, 0, 3000);
    assert_eq!(cache.get("z", 3000), None);
    assert_eq!(cache.len(), 2);
}

#[test]
fn cache_overwrite_keeps_the_expiry() {
    let mut cache = MemoryCache::new();
    cache.set_and_expire("k", 1, 60, 1000);
    cache.set_keepttl("k", 0, 1030);
    assert_eq!(cache.get("k", 1030), Some(0));
    assert_eq!(cache.get("k", 1059), Some(0));
    assert_eq!(cache.get("k", 1060), None);
    assert_eq!(cache.len(), 1);
}

#[test]
fn cache_overwrite_of_nothing_never_expires() {
    let mut cache = MemoryCache::new();
    cache.set_keepttl("fresh", 0, 1000);
    assert_eq!(cache.get("fresh", 1000), Some(0));
    assert_eq!(cache.get("fresh", i64::MAX), Some(0));
    // an expired entry is gone, so there is no expiry to keep
    cache.set_and_expire("old", 1, 60, 1000);
    cache.set_keepttl("old", 0, 1060);
    assert_eq!(cache.get("old", 1060), Some(0));
    assert_eq!(cache.get("old", i64::MAX), Some(0));
    assert_eq!(cache.len(), 2);
}

#[test]
fn cache_set_without_expiry_stays() {
    let mut cache = MemoryCache::new();
    cache.set("k", 7);
    assert_eq!(cache.get("k", 0), Some(7));
    assert_eq!(cache.get("k", i64::MAX), Some(7));
    assert_eq!(cache.get_expiretime("k", 0), -1);
    // a set without expiry drops the expiry that was there
    cache.set_and_expire("e", 1, 60, 1000);
    cache.set("e", 2);
    assert_eq!(cache.get("e", 5000), Some(2));
    assert_eq!(cache.get_expiretime("e", 5000), -1);
}

#[test]
fn cache_tells_when_an_entry_expires() {
    let mut cache = MemoryCache::new();
    assert_eq!(cache.get_expiretime("k", 1000), -2);
    cache.set_and_expire("k", 1, 60, 1000);
    assert_eq!(cache.get_expiretime("k", 1000), 1060);
    assert_eq!(cache.get_expiretime("k", 1059), 1060);
    assert_eq!(cache.get_expiretime("k", 1060), -2);
    cache.set_keepttl("k", 0, 1030);
    assert_eq!(cache.get_expiretime("k", 1030), 1060);
}

#[test]
fn get_or_set_makes_a_value_only_where_none_is_found() {
    let mut cache = MemoryCache::new();
    assert_eq!(get_or_set(&mut cache, "k", 1000, || 5), 5);
    assert_eq!(cache.get("k", 1000), Some(5));
    assert_eq!(cache.get_expiretime("k", 1000), -1);
    assert_eq!(get_or_set(&mut cache, "k", 1000, || 6), 5);
    cache.set_and_expire("e", 1, 60, 1000);
    assert_eq!(get_or_set(&mut cache, "e", 1059, || 9), 1);
    assert_eq!(get_or_set(&mut cache, "e", 1060, || 9), 9);
    assert_eq!(cache.get("e", i64::MAX), Some(9));
}

#[test]
fn expiry_stops_at_the_last_instant() {
    assert_eq!(expiry_of(1000, 60), 1060);
    assert_eq!(expiry_of(-10, 60), 50);
    assert_eq!(expiry_of(0, 0), 0);
    assert_eq!(expiry_of(i64::MAX, 0), i64::MAX);
    assert_eq!(expiry_of(i64::MAX, 1), i64::MAX);
    assert_eq!(expiry_of(i64::MAX - 5, 60), i64::MAX);
    assert_eq!(expiry_of(i64::MIN, 60), i64::MIN + 60);
    assert_eq!(expiry_of(1, usize::MAX), i64::MAX);
}

#[test]
fn fresh_ids_are_above_every_id() {
    assert_eq!(fresh_id::<User>(&vec![]), Some(1));
    assert_eq!(fresh_id(&vec![user_with_id(1), user_with_id(2)]), Some(3));
    assert_eq!(fresh_id(&vec![user_with_id(7), user_with_id(3)]), Some(8));
    assert_eq!(fresh_id(&vec![user_with_id(-5)]), Some(1));
    assert_eq!(fresh_id(&vec![user_with_id(i32::MAX - 1)]), Some(i32::MAX));
    assert_eq!(fresh_id(&vec![user_with_id(1), user_with_id(i32::MAX)]), None);
}

#[test]
fn repository_refuses_an_insert_when_ids_run_out() {
    let mut repository = MemoryRepository::new();
    repository.users.push(user_with_id(i32::MAX));
    assert_eq!(repository.users_insert(new_user("a", "a@example.com")), Err(()));
    assert_eq!(repository.users.len(), 1);
}

#[test]
fn users_are_found_by_address_and_id() {
    let mut repository = MemoryRepository::new();
    assert_eq!(repository.users_insert(new_user("a", "a@example.com")), Ok(1));
    assert_eq!(repository.users_insert(new_user("b", "b@example.com")), Ok(2));
    assert_eq!(repository.users_find_by_email("b@example.com").unwrap().id, 2);
    assert_eq!(repository.users_find_by_email("a@example.com").unwrap().name, "a");
    assert!(repository.users_find_by_email("A@example.com").is_none());
    assert!(repository.users_find_by_email("").is_none());
    assert_eq!(repository.users_find_by_id(1).unwrap().email, "a@example.com");
    assert!(repository.users_find_by_id(3).is_none());
    let row = repository.users_find_by_id(2).unwrap();
    assert_eq!((row.last_login, row.fail_attempts, row.last_attempt), (None, 0, None));
}

#[test]
fn user_updates_touch_the_named_user_only() {
    let mut repository = MemoryRepository::new();
    repository.users_insert(new_user("a", "a@example.com")).unwrap();
    repository.users_insert(new_user("b", "b@example.com")).unwrap();
    repository.users_update_last_login(2, 50);
    repository.users_update_fail_attempts(1, 3, 60);
    repository.users_update_password(2, "other".to_string());
    repository.users_update_password(9, "nobody".to_string());
    let a = repository.users_find_by_id(1).unwrap();
    let b = repository.users_find_by_id(2).unwrap();
    assert_eq!((a.last_login, a.fail_attempts, a.last_attempt), (None, 3, Some(60)));
    assert_eq!(a.password, "hash");
    assert_eq!((b.last_login, b.fail_attempts, b.last_attempt), (Some(50), 0, None));
    assert_eq!(b.password, "other");
}

#[test]
fn recoveries_are_found_and_used_up_by_token() {
    let mut repository = MemoryRepository::new();
    for (token, user_id) in [("t1", 1), ("t2", 2), ("t1", 3)] {
        repository
            .users_password_recovery_insert(NewUserPasswordRecovery {
                user_id,
                token: token.to_string(),
                issued_at: 10,
                valid: true,
            })
            .unwrap();
    }
    assert_eq!(repository.users_password_recovery_find_by_token("t1").unwrap().user_id, 1);
    assert_eq!(repository.users_password_recovery_find_by_token("t2").unwrap().user_id, 2);
    assert!(repository.users_password_recovery_find_by_token("t3").is_none());
    repository.users_password_recovery_invalide("t1".to_string());
    let valid: Vec<bool> = repository.recoveries.iter().map(|r| r.valid).collect();
    assert_eq!(valid, vec![false, true, false]);
    assert!(!repository.users_password_recovery_find_by_token("t1").unwrap().valid);
}

#[test]
fn devices_are_known_by_owner_and_name() {
    let mut repository = MemoryRepository::new();
    let device = NewDevice {
        user_id: 1,
        name: "laptop".to_string(),
        last_access: 5,
        active: true,
        public_key: "pk".to_string(),
    };
    assert_eq!(repository.devices_insert(device), Ok(1));
    assert_eq!(repository.devices[0].public_key, "pk");
    assert_eq!(repository.devices_find_device_name(1, "laptop"), Some("laptop".to_string()));
    assert_eq!(repository.devices_find_device_name(2, "laptop"), None);
    assert_eq!(repository.devices_find_device_name(1, "Laptop"), None);
}

#[test]
fn account_rows_are_listed_in_order() {
    let mut repository = MemoryRepository::new();
    let g1 = repository
        .accounts_groups_insert(NewAccountGroup { user_id: 1, name: "Work".to_string() })
        .unwrap();
    let g2 = repository
        .accounts_groups_insert(NewAccountGroup { user_id: 2, name: "Home".to_string() })
        .unwrap();
    assert_eq!((g1.id, g1.user_id, g1.name.as_str()), (1, 1, "Work"));
    assert_eq!(g2.id, 2);
    assert_eq!(repository.accounts_groups_find_by_id(1, 1).unwrap().name, "Work");
    assert!(repository.accounts_groups_find_by_id(1, 2).is_none());
    assert!(repository.accounts_groups_find_by_id(2, 1).is_none());
    assert_eq!(repository.accounts_groups_list(1).len(), 1);
    for (user_id, group_id, name) in [(1, 1, "a"), (2, 2, "b"), (1, 1, "c")] {
        repository
            .accounts_insert(NewAccount {
                user_id,
                name: name.to_string(),
                level: None,
                account_groups_id: group_id,
            })
            .unwrap();
    }
    let names: Vec<String> = repository.accounts_list(1).into_iter().map(|a| a.name).collect();
    assert_eq!(names, vec!["a".to_string(), "c".to_string()]);
    assert_eq!(repository.accounts_list_by_group_id(1, 2).len(), 0);
    assert_eq!(repository.accounts_list_by_group_id(2, 2).len(), 1);
    for (account_id, bytes) in [(1, vec![1u8]), (2, vec![2u8]), (1, vec![3u8])] {
        repository
            .account_passwords_insert(NewAccountPassword {
                account_id,
                username: "u".to_string(),
                password: bytes,
                created_date: 0,
            })
            .unwrap();
    }
    let (row, passwords) = repository.accounts_get_with_passwords_by_account_id(1, 1).unwrap();
    assert_eq!(row.name, "a");
    let stored: Vec<Vec<u8>> = passwords.into_iter().map(|p| p.password).collect();
    assert_eq!(stored, vec![vec![1u8], vec![3u8]]);
    assert!(repository.accounts_get_with_passwords_by_account_id(1, 2).is_none());
    assert!(repository.accounts_get_with_passwords_by_account_id(9, 1).is_none());
    assert_eq!(repository.accounts_passwords_list_account_id(2).len(), 1);
}

fn a_group(id: i32) -> AccountGroup {
    AccountGroup { id, user_id: 1, name: String::new() }
}

fn an_account(id: i32) -> Account {
    Account { id, user_id: 1, name: String::new(), level: None, account_groups_id: 1 }
}

fn a_credential(id: i32) -> AccountPassword {
    AccountPassword { id, account_id: 1, username: String::new(), password: Vec::new(), created_date: 0 }
}

fn a_device(id: i32) -> Device {
    Device {
        id,
        user_id: 1,
        name: String::new(),
        last_access: 0,
        active: true,
        public_key: String::new(),
    }
}

fn new_group() -> NewAccountGroup {
    NewAccountGroup { user_id: 1, name: "g".to_string() }
}

fn new_account() -> NewAccount {
    NewAccount { user_id: 1, name: "a".to_string(), level: None, account_groups_id: 1 }
}

fn new_credential() -> NewAccountPassword {
    NewAccountPassword { account_id: 1, username: "u".to_string(), password: vec![1], created_date: 0 }
}

fn new_device() -> NewDevice {
    NewDevice {
        user_id: 1,
        name: "d".to_string(),
        last_access: 0,
        active: true,
        public_key: String::new(),
    }
}

#[test]
fn every_table_gives_the_id_above_its_largest() {
    let mut repository = MemoryRepository::new();
    repository.users.push(user_with_id(7));
    repository.users.push(user_with_id(3));
    assert_eq!(repository.users_insert(new_user("a", "a@example.com")), Ok(8));
    assert_eq!(repository.users[2].id, 8);
    repository.devices.push(a_device(-4));
    assert_eq!(repository.devices_insert(new_device()), Ok(1));
    repository.groups.push(a_group(40));
    assert_eq!(repository.accounts_groups_insert(new_group()).unwrap().id, 41);
    repository.accounts.push(an_account(i32::MAX - 1));
    assert_eq!(repository.accounts_insert(new_account()).unwrap().id, i32::MAX);
    repository.passwords.push(a_credential(5));
    repository.passwords.push(a_credential(9));
    assert_eq!(repository.account_passwords_insert(new_credential()), Ok(10));
    assert_eq!(repository.passwords.len(), 3);
}

#[test]
fn every_table_refuses_only_when_its_ids_run_out() {
    let mut repository = MemoryRepository::new();
    repository.devices.push(a_device(i32::MAX));
    repository.groups.push(a_group(i32::MAX));
    repository.accounts.push(an_account(i32::MAX));
    repository.passwords.push(a_credential(i32::MAX));
    assert_eq!(repository.devices_insert(new_device()), Err(()));
    assert!(repository.accounts_groups_insert(new_group()).is_err());
    assert!(repository.accounts_insert(new_account()).is_err());
    assert_eq!(repository.account_passwords_insert(new_credential()), Err(()));
    assert_eq!(
        (
            repository.devices.len(),
            repository.groups.len(),
            repository.accounts.len(),
            repository.passwords.len()
        ),
        (1, 1, 1, 1)
    );
    // the other tables still take rows
    assert_eq!(repository.users_insert(new_user("a", "a@example.com")), Ok(1));
    for n in 1..=3 {
        let recovery = NewUserPasswordRecovery {
            user_id: 1,
            token: "t".to_string(),
            issued_at: 0,
            valid: true,
        };
        assert_eq!(repository.users_password_recovery_insert(recovery), Ok(()));
        assert_eq!(repository.recoveries.len(), n);
    }
}

#[test]
fn new_stores_are_empty() {
    let repository = MemoryRepository::new();
    assert!(repository.users.is_empty());
    assert!(repository.recoveries.is_empty());
    assert!(repository.devices.is_empty());
    assert!(repository.groups.is_empty());
    assert!(repository.accounts.is_empty());
    assert!(repository.passwords.is_empty());
    let cache = MemoryCache::new();
    assert_eq!(cache.len(), 0);
    assert_eq!(cache.get("anything", 0), None);
}
