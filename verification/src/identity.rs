//! The identity database of the operating system.
//!
//! What a lookup returns depends on the machine and on the moment, so
//! nothing is promised of the record that comes back. A lookup that finds
//! no entry is no failure: it gives `None`.

use vstd::prelude::*;
use crate::error::Error;
use crate::records::{GroupRecord, UserRecord};

verus! {

/// `nix::unistd::User::from_uid`: the entry of the user database for `uid`,
/// if there is one, with its text fields as bytes. An error of the
/// operating system comes back as its number. Nothing is claimed of what
/// comes back.
#[verifier::external_body]
fn user_from_uid(uid: u32) -> (found: Result<Option<UserRecord>, i32>) {
    match nix::unistd::User::from_uid(nix::unistd::Uid::from_raw(uid)) {
        Ok(found) => Ok(found.map(|user| UserRecord {
            name: user.name.into_bytes(),
            passwd: user.passwd.into_bytes(),
            uid: user.uid.as_raw(),
            gid: user.gid.as_raw(),
            gecos: user.gecos.into_bytes(),
            dir: user.dir.into_os_string().into_encoded_bytes(),
            shell: user.shell.into_os_string().into_encoded_bytes(),
        })),
        Err(errno) => Err(errno as i32),
    }
}

/// `nix::unistd::User::from_name`: the entry of the user database for
/// `name`, if there is one, with its text fields as bytes. An error of the
/// operating system comes back as its number. Nothing is claimed of what
/// comes back.
#[verifier::external_body]
fn user_from_name(name: &str) -> (found: Result<Option<UserRecord>, i32>) {
    match nix::unistd::User::from_name(name) {
        Ok(found) => Ok(found.map(|user| UserRecord {
            name: user.name.into_bytes(),
            passwd: user.passwd.into_bytes(),
            uid: user.uid.as_raw(),
            gid: user.gid.as_raw(),
            gecos: user.gecos.into_bytes(),
            dir: user.dir.into_os_string().into_encoded_bytes(),
            shell: user.shell.into_os_string().into_encoded_bytes(),
        })),
        Err(errno) => Err(errno as i32),
    }
}

/// `nix::unistd::Group::from_gid`: the entry of the group database for
/// `gid`, if there is one, with its names as bytes and its members in the
/// order of the database. An error of the operating system comes back as its
/// number. Nothing is claimed of what comes back.
#[verifier::external_body]
fn group_from_gid(gid: u32) -> (found: Result<Option<GroupRecord>, i32>) {
    match nix::unistd::Group::from_gid(nix::unistd::Gid::from_raw(gid)) {
        Ok(found) => Ok(found.map(|group| GroupRecord {
            name: group.name.into_bytes(),
            passwd: group.passwd.into_bytes(),
            gid: group.gid.as_raw(),
            mem: group.mem.into_iter().map(String::into_bytes).collect(),
        })),
        Err(errno) => Err(errno as i32),
    }
}

/// `nix::unistd::Group::from_name`: the entry of the group database for
/// `name`, if there is one, with its names as bytes and its members in the
/// order of the database. An error of the operating system comes back as its
/// number. Nothing is claimed of what comes back.
#[verifier::external_body]
fn group_from_name(name: &str) -> (found: Result<Option<GroupRecord>, i32>) {
    match nix::unistd::Group::from_name(name) {
        Ok(found) => Ok(found.map(|group| GroupRecord {
            name: group.name.into_bytes(),
            passwd: group.passwd.into_bytes(),
            gid: group.gid.as_raw(),
            mem: group.mem.into_iter().map(String::into_bytes).collect(),
        })),
        Err(errno) => Err(errno as i32),
    }
}

/// The outcome of a lookup, with the operating system's error as an error
/// of this library.
pub open spec fn lookup_outcome<T>(found: Result<Option<T>, i32>) -> Result<Option<T>, Error> {
    match found {
        Ok(entry) => Ok(entry),
        Err(errno) => Err(Error::LookupFailure { errno }),
    }
}

/// Whether `found` is the outcome of some lookup: an entry, no entry, or a
/// failure of the lookup itself.
pub open spec fn is_lookup_outcome<T>(found: Result<Option<T>, Error>) -> bool {
    found is Err ==> found->Err_0 is LookupFailure
}

/// Turns what the operating system answered into the outcome of a lookup:
/// its error number becomes a `LookupFailure`, and an entry, or none, stays
/// what it is.
pub fn lookup_result<T>(found: Result<Option<T>, i32>) -> (outcome: Result<Option<T>, Error>)
    ensures
        outcome == lookup_outcome(found),
{
    match found {
        Ok(entry) => Ok(entry),
        Err(errno) => Err(Error::LookupFailure { errno }),
    }
}

/// Looks the user with the id `uid` up. Which entry comes back, if any, is
/// for the database to say.
pub fn find_user_by_uid(uid: u32) -> (found: Result<Option<UserRecord>, Error>)
    ensures
        is_lookup_outcome(found),
{
    lookup_result(user_from_uid(uid))
}

/// Looks the user with the login name `name` up. Which entry comes back, if
/// any, is for the database to say.
pub fn find_user_by_name(name: &str) -> (found: Result<Option<UserRecord>, Error>)
    ensures
        is_lookup_outcome(found),
{
    lookup_result(user_from_name(name))
}

/// Looks the group with the id `gid` up. Which entry comes back, if any, is
/// for the database to say.
pub fn find_group_by_gid(gid: u32) -> (found: Result<Option<GroupRecord>, Error>)
    ensures
        is_lookup_outcome(found),
{
    lookup_result(group_from_gid(gid))
}

/// Looks the group with the name `name` up. Which entry comes back, if
/// any, is for the database to say.
pub fn find_group_by_name(name: &str) -> (found: Result<Option<GroupRecord>, Error>)
    ensures
        is_lookup_outcome(found),
{
    lookup_result(group_from_name(name))
}

} // verus!
