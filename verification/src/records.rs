//! The records that the identity database hands back, as plain bytes and
//! numbers.

use vstd::prelude::*;

verus! {

/// An entry of the user database.
#[derive(Debug, PartialEq, Eq)]
pub struct UserRecord {
    /// Login name.
    pub name: Vec<u8>,
    /// Password placeholder.
    pub passwd: Vec<u8>,
    /// Numeric user id.
    pub uid: u32,
    /// Numeric id of the user's primary group.
    pub gid: u32,
    /// Comment, by custom the full name.
    pub gecos: Vec<u8>,
    /// Home directory.
    pub dir: Vec<u8>,
    /// Login shell.
    pub shell: Vec<u8>,
}

/// What a `UserRecord` holds.
pub struct UserModel {
    pub name: Seq<u8>,
    pub passwd: Seq<u8>,
    pub uid: u32,
    pub gid: u32,
    pub gecos: Seq<u8>,
    pub dir: Seq<u8>,
    pub shell: Seq<u8>,
}

impl View for UserRecord {
    type V = UserModel;

    open spec fn view(&self) -> UserModel {
        UserModel {
            name: self.name@,
            passwd: self.passwd@,
            uid: self.uid,
            gid: self.gid,
            gecos: self.gecos@,
            dir: self.dir@,
            shell: self.shell@,
        }
    }
}

impl Clone for UserRecord {
    fn clone(&self) -> (copy: UserRecord)
        ensures
            copy@ == self@,
    {
        UserRecord {
            name: self.name.clone(),
            passwd: self.passwd.clone(),
            uid: self.uid,
            gid: self.gid,
            gecos: self.gecos.clone(),
            dir: self.dir.clone(),
            shell: self.shell.clone(),
        }
    }
}

/// An entry of the group database.
#[derive(Debug, PartialEq, Eq)]
pub struct GroupRecord {
    /// Group name.
    pub name: Vec<u8>,
    /// Password placeholder, as the database gave it. It is not sent.
    pub passwd: Vec<u8>,
    /// Numeric group id.
    pub gid: u32,
    /// The names of the members, in the order of the database.
    pub mem: Vec<Vec<u8>>,
}

/// The names of the members as sequences of bytes.
pub open spec fn member_views(mem: Seq<Vec<u8>>) -> Seq<Seq<u8>> {
    Seq::new(mem.len(), |i: int| mem[i]@)
}

/// What a `GroupRecord` holds.
pub struct GroupModel {
    pub name: Seq<u8>,
    pub passwd: Seq<u8>,
    pub gid: u32,
    pub mem: Seq<Seq<u8>>,
}

impl View for GroupRecord {
    type V = GroupModel;

    open spec fn view(&self) -> GroupModel {
        GroupModel {
            name: self.name@,
            passwd: self.passwd@,
            gid: self.gid,
            mem: member_views(self.mem@),
        }
    }
}

impl Clone for GroupRecord {
    fn clone(&self) -> (copy: GroupRecord)
        ensures
            copy@ == self@,
    {
        let mut mem: Vec<Vec<u8>> = Vec::new();
        let mut i: usize = 0;
        while i < self.mem.len()
            invariant
                i <= self.mem@.len(),
                mem@.len() == i,
                forall|j: int| 0 <= j < i ==> (#[trigger] mem@[j])@ == self.mem@[j]@,
            decreases self.mem@.len() - i,
        {
            mem.push(self.mem[i].clone());
            i += 1;
        }
        assert(member_views(mem@) =~= member_views(self.mem@));
        GroupRecord { name: self.name.clone(), passwd: self.passwd.clone(), gid: self.gid, mem }
    }
}

/// What an optional user record holds.
pub open spec fn user_model(user: Option<UserRecord>) -> Option<UserModel> {
    match user {
        Some(record) => Some(record@),
        None => None,
    }
}

/// What an optional group record holds.
pub open spec fn group_model(group: Option<GroupRecord>) -> Option<GroupModel> {
    match group {
        Some(record) => Some(record@),
        None => None,
    }
}

} // verus!
