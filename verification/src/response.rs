//! What a response is: the bytes that answer a lookup, as a function of the
//! record that was found.

use vstd::prelude::*;
use crate::error::Error;
use crate::protocol::{GrResponseHeader, PwResponseHeader, VERSION};
use crate::records::{GroupModel, UserModel};
use crate::text::{c_string, len_fits, nul_free, wire_len};
use crate::wire::{i32_bytes, ByteOrder};

verus! {

/// No name of `names` holds a null byte.
pub open spec fn all_nul_free(names: Seq<Seq<u8>>) -> bool {
    forall|i: int| 0 <= i < names.len() ==> nul_free(#[trigger] names[i])
}

/// Each name of `names` can be announced.
pub open spec fn all_fit(names: Seq<Seq<u8>>) -> bool {
    forall|i: int| 0 <= i < names.len() ==> len_fits(#[trigger] names[i])
}

/// The password that stands for every group's: the letter `x`.
pub open spec fn placeholder_password() -> Seq<u8> {
    seq![0x78u8]
}

impl UserModel {
    /// None of the five text fields holds a null byte.
    pub open spec fn nul_free(self) -> bool {
        &&& nul_free(self.name)
        &&& nul_free(self.passwd)
        &&& nul_free(self.gecos)
        &&& nul_free(self.dir)
        &&& nul_free(self.shell)
    }

    /// Each of the five text fields can be announced in the header.
    pub open spec fn fits(self) -> bool {
        &&& len_fits(self.name)
        &&& len_fits(self.passwd)
        &&& len_fits(self.gecos)
        &&& len_fits(self.dir)
        &&& len_fits(self.shell)
    }

    /// The header that announces this record.
    pub open spec fn header(self) -> PwResponseHeader {
        PwResponseHeader {
            version: VERSION,
            found: 1,
            pw_name_len: wire_len(self.name),
            pw_passwd_len: wire_len(self.passwd),
            pw_uid: self.uid,
            pw_gid: self.gid,
            pw_gecos_len: wire_len(self.gecos),
            pw_dir_len: wire_len(self.dir),
            pw_shell_len: wire_len(self.shell),
        }
    }

    /// What follows the header: name, password, comment, home directory and
    /// shell, each closed by a null byte.
    pub open spec fn payload(self) -> Seq<u8> {
        c_string(self.name) + c_string(self.passwd) + c_string(self.gecos) + c_string(self.dir)
            + c_string(self.shell)
    }
}

/// The response to a user lookup that found `user`.
pub open spec fn user_found(order: ByteOrder, user: UserModel) -> Seq<u8> {
    user.header().bytes(order) + user.payload()
}

/// The response to a user lookup that found nothing: the all-zero header,
/// and no payload.
pub open spec fn user_absent(order: ByteOrder) -> Seq<u8> {
    PwResponseHeader::absent().bytes(order)
}

/// The outcome of encoding the result of a user lookup. A record with a
/// text field too long to announce is refused; so is, after that, one with a
/// null byte in a text field.
pub open spec fn user_reply(order: ByteOrder, user: Option<UserModel>) -> Result<Seq<u8>, Error> {
    match user {
        None => Ok(user_absent(order)),
        Some(found) => if !found.fits() {
            Err(Error::FieldTooLarge)
        } else if !found.nul_free() {
            Err(Error::InvalidFieldContent)
        } else {
            Ok(user_found(order, found))
        },
    }
}

/// The lengths of the members' names, each with its terminating null byte
/// and as a four-byte integer, in the order of the members.
pub open spec fn member_lengths(order: ByteOrder, mem: Seq<Seq<u8>>) -> Seq<u8>
    decreases mem.len(),
{
    if mem.len() == 0 {
        Seq::empty()
    } else {
        member_lengths(order, mem.drop_last()) + i32_bytes(order, wire_len(mem.last()))
    }
}

/// The members' names, each closed by a null byte, in the order of the
/// members.
pub open spec fn member_names(mem: Seq<Seq<u8>>) -> Seq<u8>
    decreases mem.len(),
{
    if mem.len() == 0 {
        Seq::empty()
    } else {
        member_names(mem.drop_last()) + c_string(mem.last())
    }
}

impl GroupModel {
    /// Neither the name nor a member's name holds a null byte. The password
    /// is not looked at: it is never sent.
    pub open spec fn nul_free(self) -> bool {
        &&& nul_free(self.name)
        &&& all_nul_free(self.mem)
    }

    /// The name, the number of members and each member's name can be
    /// announced.
    pub open spec fn fits(self) -> bool {
        &&& len_fits(self.name)
        &&& self.mem.len() <= i32::MAX
        &&& all_fit(self.mem)
    }

    /// The header that announces this record. The password it announces is
    /// the placeholder's.
    pub open spec fn header(self) -> GrResponseHeader {
        GrResponseHeader {
            version: VERSION,
            found: 1,
            gr_name_len: wire_len(self.name),
            gr_passwd_len: 2,
            gr_gid: self.gid,
            gr_mem_cnt: self.mem.len() as i32,
        }
    }

    /// What follows the header and the members' lengths: the name, the
    /// placeholder password, then the members' names.
    pub open spec fn payload(self) -> Seq<u8> {
        c_string(self.name) + c_string(placeholder_password()) + member_names(self.mem)
    }
}

/// The response to a group lookup that found `group`.
pub open spec fn group_found(order: ByteOrder, group: GroupModel) -> Seq<u8> {
    group.header().bytes(order) + member_lengths(order, group.mem) + group.payload()
}

/// The response to a group lookup that found nothing: the all-zero header,
/// and nothing after it.
pub open spec fn group_absent(order: ByteOrder) -> Seq<u8> {
    GrResponseHeader::absent().bytes(order)
}

/// The outcome of encoding the result of a group lookup. A record with a
/// name or a member count too large to announce is refused; so is, after
/// that, one with a null byte in a name.
pub open spec fn group_reply(order: ByteOrder, group: Option<GroupModel>) -> Result<
    Seq<u8>,
    Error,
> {
    match group {
        None => Ok(group_absent(order)),
        Some(found) => if !found.fits() {
            Err(Error::FieldTooLarge)
        } else if !found.nul_free() {
            Err(Error::InvalidFieldContent)
        } else {
            Ok(group_found(order, found))
        },
    }
}

/// A reply as the bytes it holds.
pub open spec fn reply_view(reply: Result<Vec<u8>, Error>) -> Result<Seq<u8>, Error> {
    match reply {
        Ok(bytes) => Ok(bytes@),
        Err(error) => Err(error),
    }
}

/// One more member adds its length after the lengths of those before it.
pub proof fn lemma_member_lengths_step(order: ByteOrder, mem: Seq<Seq<u8>>, i: int)
    requires
        0 <= i < mem.len(),
    ensures
        member_lengths(order, mem.take(i + 1)) == member_lengths(order, mem.take(i)) + i32_bytes(
            order,
            wire_len(mem[i]),
        ),
{
    assert(mem.take(i + 1).drop_last() =~= mem.take(i));
}

/// One more member adds its name after the names of those before it.
pub proof fn lemma_member_names_step(mem: Seq<Seq<u8>>, i: int)
    requires
        0 <= i < mem.len(),
    ensures
        member_names(mem.take(i + 1)) == member_names(mem.take(i)) + c_string(mem[i]),
{
    assert(mem.take(i + 1).drop_last() =~= mem.take(i));
}

/// A lookup that found no user is answered with 36 zero bytes, whatever
/// the byte order and whatever was asked for.
pub proof fn lemma_absent_user(order: ByteOrder)
    ensures
        user_reply(order, None) == Ok::<Seq<u8>, Error>(Seq::new(36, |i: int| 0u8)),
{
    PwResponseHeader::lemma_absent_is_zero(order);
}

/// A lookup that found no group is answered with 24 zero bytes, whatever
/// the byte order and whatever was asked for.
pub proof fn lemma_absent_group(order: ByteOrder)
    ensures
        group_reply(order, None) == Ok::<Seq<u8>, Error>(Seq::new(24, |i: int| 0u8)),
{
    GrResponseHeader::lemma_absent_is_zero(order);
}

/// A user with a text field too long to announce is refused with
/// `FieldTooLarge`: no length is cut short or wraps.
pub proof fn lemma_oversized_user(order: ByteOrder, user: UserModel)
    requires
        !user.fits(),
    ensures
        user_reply(order, Some(user)) == Err::<Seq<u8>, Error>(Error::FieldTooLarge),
{
}

/// A group with a name too long to announce, or with more members than can
/// be announced, is refused with `FieldTooLarge`: no length is cut short or
/// wraps.
pub proof fn lemma_oversized_group(order: ByteOrder, group: GroupModel)
    requires
        !group.fits(),
    ensures
        group_reply(order, Some(group)) == Err::<Seq<u8>, Error>(Error::FieldTooLarge),
{
}

} // verus!
