use supcore::users::{Account, Directory, SID_TYPE_USER, SID_TYPE_WELL_KNOWN_GROUP};

fn administrator() -> Account {
    Account {
        name: "Administrator".to_string(),
        system_name: None,
        domain: "LOCAL".to_string(),
        account_type: SID_TYPE_USER,
        sid: "S-1-5-21-500".to_string(),
        home: Some("/home/Administrator".to_string()),
    }
}

fn everyone() -> Account {
    Account {
        name: "Everyone".to_string(),
        system_name: None,
        domain: "".to_string(),
        account_type: SID_TYPE_WELL_KNOWN_GROUP,
        sid: "S-1-1-0".to_string(),
        home: None,
    }
}

fn directory() -> Directory {
    Directory {
        accounts: vec![administrator(), everyone()],
        current_user: Some("Administrator".to_string()),
        current_group: Some("Everyone".to_string()),
    }
}

#[test]
fn real_account_returns_some() {
    assert!(Account::from_name(&directory(), "Administrator".to_string()).is_some());
}

#[test]
fn bogus_account_returns_none() {
    assert!(Account::from_name(&directory(), "bogus".to_string()).is_none());
}

#[test]
fn user_account_returns_user_type() {
    let acct = Account::from_name(&directory(), "Administrator".to_string()).unwrap();
    assert_eq!(acct.account_type, SID_TYPE_USER);
}

#[test]
fn well_known_group_account_returns_correct_type() {
    let acct = Account::from_name(&directory(), "Everyone".to_string()).unwrap();
    assert_eq!(acct.account_type, SID_TYPE_WELL_KNOWN_GROUP);
}

#[test]
fn sid_and_home_lookups_follow_the_directory() {
    let dir = directory();
    assert_eq!(
        supcore::users::get_uid_by_name(&dir, "Administrator"),
        Some("S-1-5-21-500".to_string())
    );
    assert_eq!(
        supcore::users::get_gid_by_name(&dir, "Everyone"),
        Some("S-1-1-0".to_string())
    );
    assert_eq!(supcore::users::get_uid_by_name(&dir, "nobody"), None);
    assert_eq!(
        supcore::users::get_sid_by_name(&dir, "Everyone"),
        Some("S-1-1-0".to_string())
    );
    assert_eq!(
        supcore::users::get_home_for_user(&dir, "Administrator"),
        Some("/home/Administrator".to_string())
    );
    assert_eq!(supcore::users::get_home_for_user(&dir, "Everyone"), None);
    assert_eq!(
        supcore::users::get_current_username(&dir),
        Some("Administrator".to_string())
    );
    assert_eq!(
        supcore::users::get_current_groupname(&dir),
        Some("Everyone".to_string())
    );
}

#[test]
fn lookup_records_the_system_name() {
    let acct =
        Account::from_name_and_system(&directory(), "Administrator".to_string(), "HOST".to_string())
            .unwrap();
    assert_eq!(acct.system_name, Some("HOST".to_string()));
    assert_eq!(acct.domain, "LOCAL".to_string());
}
