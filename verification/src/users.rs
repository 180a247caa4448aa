//! Platform identity resolution, modelled as a pure, fallible lookup
//! over an account directory.
//!
//! The platform's own account database is opaque foreign state; the
//! process edge materialises the accounts it may be asked about into a
//! [`Directory`] of plain values, and every lookup here is verified
//! against that data.

use vstd::prelude::*;

verus! {

/// An account type: a user.
pub const SID_TYPE_USER: u32 = 1;

/// An account type: a group.
pub const SID_TYPE_GROUP: u32 = 2;

/// An account type: a well-known group.
pub const SID_TYPE_WELL_KNOWN_GROUP: u32 = 5;

/// One platform account: its security identifier, domain, type, and
/// home directory, held as plain values.
#[derive(Debug)]
pub struct Account {
    pub name: String,
    pub system_name: Option<String>,
    pub domain: String,
    pub account_type: u32,
    pub sid: String,
    pub home: Option<String>,
}

impl Clone for Account {
    fn clone(&self) -> (r: Self)
        ensures
            r == *self,
    {
        Account {
            name: self.name.clone(),
            system_name: match &self.system_name {
                Some(s) => Some(s.clone()),
                None => None,
            },
            domain: self.domain.clone(),
            account_type: self.account_type,
            sid: self.sid.clone(),
            home: match &self.home {
                Some(h) => Some(h.clone()),
                None => None,
            },
        }
    }
}

/// The accounts the platform would answer for, with the identity of
/// the calling process.
#[derive(Debug)]
pub struct Directory {
    pub accounts: Vec<Account>,
    pub current_user: Option<String>,
    pub current_group: Option<String>,
}

/// The first account registered under `name`, if any.
pub open spec fn spec_find_account(s: Seq<Account>, name: Seq<char>) -> Option<Account>
    decreases s.len(),
{
    if s.len() == 0 {
        None
    } else if s[0].name@ == name {
        Some(s[0])
    } else {
        spec_find_account(s.drop_first(), name)
    }
}

/// Looks a name up in the directory, recording the system name the
/// caller addressed, and answers `None` for an unknown account.
pub fn lookup_account(dir: &Directory, name: String, system_name: Option<String>) -> (r: Option<
    Account,
>)
    ensures
        match spec_find_account(dir.accounts@, name@) {
            Some(acct) => match r {
                Some(found) => {
                    &&& found.name == name
                    &&& found.system_name == system_name
                    &&& found.domain == acct.domain
                    &&& found.account_type == acct.account_type
                    &&& found.sid == acct.sid
                    &&& found.home == acct.home
                },
                None => false,
            },
            None => r is None,
        },
{
    let mut i: usize = 0;
    proof {
        assert(dir.accounts@.skip(0) =~= dir.accounts@);
    }
    while i < dir.accounts.len()
        invariant
            i <= dir.accounts@.len(),
            spec_find_account(dir.accounts@.skip(i as int), name@) == spec_find_account(
                dir.accounts@,
                name@,
            ),
        decreases dir.accounts@.len() - i,
    {
        proof {
            assert(dir.accounts@.skip(i as int)[0] == dir.accounts@[i as int]);
            assert(dir.accounts@.skip(i as int).drop_first() =~= dir.accounts@.skip(i + 1));
        }
        if dir.accounts[i].name == name {
            let acct = &dir.accounts[i];
            return Some(
                Account {
                    name,
                    system_name,
                    domain: acct.domain.clone(),
                    account_type: acct.account_type,
                    sid: acct.sid.clone(),
                    home: match &acct.home {
                        Some(h) => Some(h.clone()),
                        None => None,
                    },
                },
            );
        }
        i = i + 1;
    }
    proof {
        assert(dir.accounts@.skip(dir.accounts@.len() as int) =~= Seq::<Account>::empty());
    }
    None
}

impl Account {
    /// Resolves a bare account name against the local directory.
    pub fn from_name(dir: &Directory, name: String) -> (r: Option<Account>)
        ensures
            r is Some <==> spec_find_account(dir.accounts@, name@) is Some,
            match r {
                Some(found) => found.name == name && found.system_name is None && found.sid
                    == spec_find_account(dir.accounts@, name@)->Some_0.sid && found.account_type
                    == spec_find_account(dir.accounts@, name@)->Some_0.account_type
                    && found.domain == spec_find_account(dir.accounts@, name@)->Some_0.domain,
                None => true,
            },
    {
        lookup_account(dir, name, None)
    }

    /// Resolves an account name addressed to a named system.
    pub fn from_name_and_system(dir: &Directory, name: String, system_name: String) -> (r: Option<
        Account,
    >)
        ensures
            r is Some <==> spec_find_account(dir.accounts@, name@) is Some,
            match r {
                Some(found) => found.name == name && found.system_name == Some(system_name)
                    && found.sid == spec_find_account(dir.accounts@, name@)->Some_0.sid
                    && found.account_type == spec_find_account(
                    dir.accounts@,
                    name@,
                )->Some_0.account_type,
                None => true,
            },
    {
        lookup_account(dir, name, Some(system_name))
    }
}

/// The security identifier registered under `name`, if any.
pub fn get_sid_by_name(dir: &Directory, name: &str) -> (r: Option<String>)
    ensures
        match spec_find_account(dir.accounts@, name@) {
            Some(acct) => r == Some(acct.sid),
            None => r is None,
        },
{
    match lookup_account(dir, name.to_owned(), None) {
        Some(acct) => Some(acct.sid),
        None => None,
    }
}

/// A user's identity is its security identifier.
pub fn get_uid_by_name(dir: &Directory, owner: &str) -> (r: Option<String>)
    ensures
        match spec_find_account(dir.accounts@, owner@) {
            Some(acct) => r == Some(acct.sid),
            None => r is None,
        },
{
    get_sid_by_name(dir, owner)
}

/// A group's identity is its security identifier.
pub fn get_gid_by_name(dir: &Directory, group: &str) -> (r: Option<String>)
    ensures
        match spec_find_account(dir.accounts@, group@) {
            Some(acct) => r == Some(acct.sid),
            None => r is None,
        },
{
    get_sid_by_name(dir, group)
}

/// The name the calling process runs as, when the platform knows it.
pub fn get_current_username(dir: &Directory) -> (r: Option<String>)
    ensures
        r == dir.current_user,
{
    match &dir.current_user {
        Some(u) => Some(u.clone()),
        None => None,
    }
}

/// The group the calling process runs as, when the platform knows it.
pub fn get_current_groupname(dir: &Directory) -> (r: Option<String>)
    ensures
        r == dir.current_group,
{
    match &dir.current_group {
        Some(g) => Some(g.clone()),
        None => None,
    }
}

/// The home directory registered for `username`, if the account
/// exists and has one.
pub fn get_home_for_user(dir: &Directory, username: &str) -> (r: Option<String>)
    ensures
        match spec_find_account(dir.accounts@, username@) {
            Some(acct) => r == acct.home,
            None => r is None,
        },
{
    match lookup_account(dir, username.to_owned(), None) {
        Some(acct) => acct.home,
        None => None,
    }
}

} // verus!
