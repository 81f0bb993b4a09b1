//! Reading a response back, as the client does, and the laws that tie the
//! reading to the writing.
//!
//! The client goes by the header alone: it takes each text field at the
//! place and with the length that the header announces. The decoders here
//! are specifications. They say what a response means, so that the encoders
//! can be held to it.

use vstd::prelude::*;
use crate::protocol::{GrResponseHeader, PwResponseHeader, VERSION};
use crate::records::{GroupModel, UserModel};
use crate::response::{
    group_found, group_reply, member_lengths, member_names, placeholder_password, user_found,
    user_reply,
};
use crate::text::{c_string, wire_len};
use crate::wire::{i32_bytes, i32_from_bytes, lemma_i32_round_trip, ByteOrder};

verus! {

/// Whether a text field of `len` bytes, its terminator included, stands at
/// `at`: it lies within `bytes`, and its last byte is null.
pub open spec fn field_ok(bytes: Seq<u8>, at: int, len: int) -> bool {
    &&& 0 <= at
    &&& 1 <= len
    &&& at + len <= bytes.len()
    &&& bytes[at + len - 1] == 0
}

/// The text of the field of `len` bytes at `at`: its bytes without the
/// terminator.
pub open spec fn field_at(bytes: Seq<u8>, at: int, len: int) -> Seq<u8> {
    bytes.subrange(at, at + len - 1)
}

/// What a response to a user lookup says: `Some(None)` that there is no such
/// user, `Some(Some(user))` that `user` was found, and `None` that the bytes
/// are no response.
pub open spec fn decode_user(order: ByteOrder, bytes: Seq<u8>) -> Option<Option<UserModel>> {
    let header = PwResponseHeader::parse(order, bytes);
    let name_at: int = 36;
    let passwd_at = name_at + header.pw_name_len;
    let gecos_at = passwd_at + header.pw_passwd_len;
    let dir_at = gecos_at + header.pw_gecos_len;
    let shell_at = dir_at + header.pw_dir_len;
    if bytes.len() < 36 {
        None
    } else if header == PwResponseHeader::absent() {
        if bytes.len() == 36 {
            Some(None)
        } else {
            None
        }
    } else if header.version == VERSION && header.found == 1 && field_ok(
        bytes,
        name_at,
        header.pw_name_len as int,
    ) && field_ok(bytes, passwd_at, header.pw_passwd_len as int) && field_ok(
        bytes,
        gecos_at,
        header.pw_gecos_len as int,
    ) && field_ok(bytes, dir_at, header.pw_dir_len as int) && field_ok(
        bytes,
        shell_at,
        header.pw_shell_len as int,
    ) && bytes.len() == shell_at + header.pw_shell_len {
        Some(
            Some(
                UserModel {
                    name: field_at(bytes, name_at, header.pw_name_len as int),
                    passwd: field_at(bytes, passwd_at, header.pw_passwd_len as int),
                    uid: header.pw_uid,
                    gid: header.pw_gid,
                    gecos: field_at(bytes, gecos_at, header.pw_gecos_len as int),
                    dir: field_at(bytes, dir_at, header.pw_dir_len as int),
                    shell: field_at(bytes, shell_at, header.pw_shell_len as int),
                },
            ),
        )
    } else {
        None
    }
}

/// The response to a user lookup that found `user` opens with the header
/// that announces each text field with its true length, terminator
/// included.
pub proof fn lemma_user_header(order: ByteOrder, user: UserModel)
    requires
        user.fits(),
    ensures
        user_found(order, user).len() >= 36,
        PwResponseHeader::parse(order, user_found(order, user)) == user.header(),
        user.header().pw_name_len == user.name.len() + 1,
        user.header().pw_passwd_len == user.passwd.len() + 1,
        user.header().pw_gecos_len == user.gecos.len() + 1,
        user.header().pw_dir_len == user.dir.len() + 1,
        user.header().pw_shell_len == user.shell.len() + 1,
        user.header().pw_uid == user.uid,
        user.header().pw_gid == user.gid,
{
    user.header().lemma_round_trip(order, user.payload());
}

/// Five text fields that were written one after the other behind `head`
/// are found one after the other, each where the one before it ends.
proof fn lemma_five_fields(
    head: Seq<u8>,
    a: Seq<u8>,
    b: Seq<u8>,
    c: Seq<u8>,
    d: Seq<u8>,
    e: Seq<u8>,
)
    ensures
        ({
            let bytes = head + (c_string(a) + c_string(b) + c_string(c) + c_string(d) + c_string(
                e,
            ));
            let a_at = head.len() as int;
            let b_at = a_at + a.len() + 1;
            let c_at = b_at + b.len() + 1;
            let d_at = c_at + c.len() + 1;
            let e_at = d_at + d.len() + 1;
            &&& field_ok(bytes, a_at, a.len() as int + 1)
            &&& field_ok(bytes, b_at, b.len() as int + 1)
            &&& field_ok(bytes, c_at, c.len() as int + 1)
            &&& field_ok(bytes, d_at, d.len() as int + 1)
            &&& field_ok(bytes, e_at, e.len() as int + 1)
            &&& field_at(bytes, a_at, a.len() as int + 1) == a
            &&& field_at(bytes, b_at, b.len() as int + 1) == b
            &&& field_at(bytes, c_at, c.len() as int + 1) == c
            &&& field_at(bytes, d_at, d.len() as int + 1) == d
            &&& field_at(bytes, e_at, e.len() as int + 1) == e
            &&& bytes.len() == e_at + e.len() + 1
        }),
{
}

/// Round trip of a user lookup: whatever the encoder accepts, found or not,
/// the client reads back as it was.
pub proof fn lemma_user_round_trip(order: ByteOrder, user: Option<UserModel>)
    requires
        user_reply(order, user) is Ok,
    ensures
        decode_user(order, user_reply(order, user)->Ok_0) == Some(user),
{
    match user {
        None => {
            PwResponseHeader::absent().lemma_round_trip(order, Seq::empty());
        },
        Some(found) => {
            found.header().lemma_round_trip(order, found.payload());
            lemma_five_fields(
                found.header().bytes(order),
                found.name,
                found.passwd,
                found.gecos,
                found.dir,
                found.shell,
            );
        },
    }
}

/// The length of the name of member `i`, as it stands behind the header of
/// a response to a group lookup.
pub open spec fn announced_length(order: ByteOrder, bytes: Seq<u8>, i: int) -> i32 {
    i32_from_bytes(order, bytes.skip(24 + 4 * i))
}

/// The lengths of the names of the first `count` members together.
pub open spec fn announced_total(order: ByteOrder, bytes: Seq<u8>, count: int) -> int
    decreases count,
{
    if count <= 0 {
        0
    } else {
        announced_total(order, bytes, count - 1) + announced_length(order, bytes, count - 1)
    }
}

/// Where the name of member `i` begins in a response to a group lookup with
/// the given header: behind the header, the members' lengths, the name, the
/// password and the names of the members before it.
pub open spec fn member_at(
    order: ByteOrder,
    bytes: Seq<u8>,
    header: GrResponseHeader,
    i: int,
) -> int {
    24 + 4 * header.gr_mem_cnt + header.gr_name_len + header.gr_passwd_len + announced_total(
        order,
        bytes,
        i,
    )
}

/// Whether the name of member `i` stands where it is announced.
pub open spec fn member_ok(
    order: ByteOrder,
    bytes: Seq<u8>,
    header: GrResponseHeader,
    i: int,
) -> bool {
    field_ok(bytes, member_at(order, bytes, header, i), announced_length(order, bytes, i) as int)
}

/// The name of member `i`.
pub open spec fn member_name(
    order: ByteOrder,
    bytes: Seq<u8>,
    header: GrResponseHeader,
    i: int,
) -> Seq<u8> {
    field_at(bytes, member_at(order, bytes, header, i), announced_length(order, bytes, i) as int)
}

/// What a response to a group lookup says: `Some(None)` that there is no
/// such group, `Some(Some(group))` that `group` was found, and `None` that
/// the bytes are no response.
///
/// The name follows the members' lengths, the password the name, and the
/// members' names the password, each member's name where the one before it
/// ends.
pub open spec fn decode_group(order: ByteOrder, bytes: Seq<u8>) -> Option<Option<GroupModel>> {
    let header = GrResponseHeader::parse(order, bytes);
    let count = header.gr_mem_cnt as int;
    let name_at = 24 + 4 * count;
    let passwd_at = name_at + header.gr_name_len;
    if bytes.len() < 24 {
        None
    } else if header == GrResponseHeader::absent() {
        if bytes.len() == 24 {
            Some(None)
        } else {
            None
        }
    } else if header.version == VERSION && header.found == 1 && count >= 0 && field_ok(
        bytes,
        name_at,
        header.gr_name_len as int,
    ) && field_ok(bytes, passwd_at, header.gr_passwd_len as int) && (forall|i: int|
        0 <= i < count ==> #[trigger] member_ok(order, bytes, header, i)) && bytes.len()
        == member_at(order, bytes, header, count) {
        Some(
            Some(
                GroupModel {
                    name: field_at(bytes, name_at, header.gr_name_len as int),
                    passwd: field_at(bytes, passwd_at, header.gr_passwd_len as int),
                    gid: header.gr_gid,
                    mem: Seq::new(count as nat, |i: int| member_name(order, bytes, header, i)),
                },
            ),
        )
    } else {
        None
    }
}

/// The lengths of the members' names take four bytes each.
pub proof fn lemma_member_lengths_len(order: ByteOrder, mem: Seq<Seq<u8>>)
    ensures
        member_lengths(order, mem).len() == 4 * mem.len(),
    decreases mem.len(),
{
    if mem.len() > 0 {
        lemma_member_lengths_len(order, mem.drop_last());
        lemma_i32_round_trip(order, wire_len(mem.last()), Seq::empty());
    }
}

/// The length of the name of member `i` stands at four times `i` in the
/// lengths of the members' names, whatever follows them.
pub proof fn lemma_member_length_at(order: ByteOrder, mem: Seq<Seq<u8>>, i: int, after: Seq<u8>)
    requires
        0 <= i < mem.len(),
    ensures
        i32_from_bytes(order, (member_lengths(order, mem) + after).skip(4 * i)) == wire_len(
            mem[i],
        ),
    decreases mem.len(),
{
    let init = member_lengths(order, mem.drop_last());
    let last = i32_bytes(order, wire_len(mem.last()));
    lemma_member_lengths_len(order, mem.drop_last());
    if i == mem.len() - 1 {
        lemma_i32_round_trip(order, wire_len(mem.last()), after);
        assert((member_lengths(order, mem) + after).skip(4 * i) =~= last + after);
    } else {
        lemma_member_length_at(order, mem.drop_last(), i, last + after);
        assert(member_lengths(order, mem) + after =~= init + (last + after));
    }
}

/// The name of member `i` stands in the members' names where the names of
/// the members before it end, whatever stands before and after the names.
pub proof fn lemma_member_name_at(mem: Seq<Seq<u8>>, i: int, before: Seq<u8>, after: Seq<u8>)
    requires
        0 <= i < mem.len(),
    ensures
        ({
            let bytes = before + member_names(mem) + after;
            let at = (before.len() + member_names(mem.take(i)).len()) as int;
            &&& field_ok(bytes, at, mem[i].len() as int + 1)
            &&& field_at(bytes, at, mem[i].len() as int + 1) == mem[i]
        }),
    decreases mem.len(),
{
    if i < mem.len() - 1 {
        assert(mem.take(i) =~= mem.drop_last().take(i));
        lemma_member_name_at(mem.drop_last(), i, before, c_string(mem.last()) + after);
    }
}

/// The response to a group lookup that found `group` opens with the header
/// that announces the name with its true length, the placeholder password
/// with its two bytes, and the number of the members; the lengths that
/// follow it are those of the members' names, in the order of the members.
pub proof fn lemma_group_header(order: ByteOrder, group: GroupModel)
    requires
        group.fits(),
    ensures
        group_found(order, group).len() >= 24 + 4 * group.mem.len(),
        GrResponseHeader::parse(order, group_found(order, group)) == group.header(),
        group.header().gr_name_len == group.name.len() + 1,
        group.header().gr_passwd_len == 2,
        group.header().gr_mem_cnt == group.mem.len(),
        group.header().gr_gid == group.gid,
        forall|i: int|
            0 <= i < group.mem.len() ==> #[trigger] announced_length(
                order,
                group_found(order, group),
                i,
            ) == group.mem[i].len() + 1,
{
    let head = group.header().bytes(order);
    let lengths = member_lengths(order, group.mem);
    let bytes = group_found(order, group);
    group.header().lemma_round_trip(order, lengths + group.payload());
    lemma_member_lengths_len(order, group.mem);
    assert(bytes =~= head + (lengths + group.payload()));
    assert forall|i: int| 0 <= i < group.mem.len() implies #[trigger] announced_length(
        order,
        bytes,
        i,
    ) == group.mem[i].len() + 1 by {
        lemma_member_length_at(order, group.mem, i, group.payload());
        assert(bytes.skip(24 + 4 * i) =~= (lengths + group.payload()).skip(4 * i));
    }
}

/// The lengths that the response to a group lookup that found `group`
/// announces for its first `k` members add up to the length of their names
/// as they are written.
proof fn lemma_announced_total(order: ByteOrder, group: GroupModel, k: int)
    requires
        group.fits(),
        0 <= k <= group.mem.len(),
    ensures
        announced_total(order, group_found(order, group), k) == member_names(
            group.mem.take(k),
        ).len(),
    decreases k,
{
    if k > 0 {
        lemma_announced_total(order, group, k - 1);
        lemma_group_header(order, group);
        assert(group.mem.take(k).drop_last() =~= group.mem.take(k - 1));
    }
}

/// The name and the password of the response to a group lookup that found
/// `group` stand where the client looks for them, and hold the name of the
/// record and the placeholder.
proof fn lemma_group_name_and_password(order: ByteOrder, group: GroupModel)
    requires
        group.fits(),
    ensures
        ({
            let bytes = group_found(order, group);
            let name_at = 24 + 4 * group.mem.len() as int;
            let passwd_at = name_at + group.name.len() + 1;
            &&& field_ok(bytes, name_at, group.name.len() as int + 1)
            &&& field_at(bytes, name_at, group.name.len() as int + 1) == group.name
            &&& field_ok(bytes, passwd_at, 2)
            &&& field_at(bytes, passwd_at, 2) == placeholder_password()
            &&& bytes.len() == passwd_at + 2 + member_names(group.mem).len()
        }),
{
    group.header().lemma_round_trip(order, Seq::empty());
    lemma_member_lengths_len(order, group.mem);
}

/// The name of member `i` of the response to a group lookup that found
/// `group` stands where the client looks for it, and is that of member `i`
/// of the record.
proof fn lemma_group_member(order: ByteOrder, group: GroupModel, i: int)
    requires
        group.fits(),
        0 <= i < group.mem.len(),
    ensures
        member_ok(order, group_found(order, group), group.header(), i),
        member_name(order, group_found(order, group), group.header(), i) == group.mem[i],
{
    let bytes = group_found(order, group);
    let before = group.header().bytes(order) + member_lengths(order, group.mem) + c_string(
        group.name,
    ) + c_string(placeholder_password());
    group.header().lemma_round_trip(order, Seq::empty());
    lemma_member_lengths_len(order, group.mem);
    lemma_group_header(order, group);
    lemma_announced_total(order, group, i);
    lemma_member_name_at(group.mem, i, before, Seq::empty());
    assert(bytes =~= before + member_names(group.mem) + Seq::<u8>::empty());
}

/// What the client reads out of the response to a group lookup that found
/// `group`: the record, with the placeholder for its password.
proof fn lemma_group_found_round_trip(order: ByteOrder, group: GroupModel)
    requires
        group.fits(),
    ensures
        decode_group(order, group_found(order, group)) == Some(
            Some(GroupModel { passwd: placeholder_password(), ..group }),
        ),
{
    let bytes = group_found(order, group);
    let header = group.header();
    let count = group.mem.len() as int;
    lemma_group_header(order, group);
    lemma_group_name_and_password(order, group);
    assert forall|i: int| 0 <= i < count implies #[trigger] member_ok(order, bytes, header, i) by {
        lemma_group_member(order, group, i);
    }
    assert forall|i: int| 0 <= i < count implies #[trigger] member_name(order, bytes, header, i)
        == group.mem[i] by {
        lemma_group_member(order, group, i);
    }
    assert(bytes.len() == member_at(order, bytes, header, count)) by {
        lemma_announced_total(order, group, count);
        assert(group.mem.take(count) =~= group.mem);
    }
    assert(Seq::new(count as nat, |i: int| member_name(order, bytes, header, i)) =~= group.mem);
}

/// Round trip of a group lookup: whatever the encoder accepts, found or
/// not, the client reads back as it was, but for the password, which is the
/// placeholder whatever the record held. The members come back in the order
/// of the record.
pub proof fn lemma_group_round_trip(order: ByteOrder, group: Option<GroupModel>)
    requires
        group_reply(order, group) is Ok,
    ensures
        decode_group(order, group_reply(order, group)->Ok_0) == match group {
            None => Some(None::<GroupModel>),
            Some(found) => Some(Some(GroupModel { passwd: placeholder_password(), ..found })),
        },
{
    match group {
        None => {
            GrResponseHeader::absent().lemma_round_trip(order, Seq::empty());
        },
        Some(found) => {
            lemma_group_found_round_trip(order, found);
        },
    }
}

} // verus!
