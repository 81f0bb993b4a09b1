//! The dispatcher of requests, and the encoders of the two kinds of
//! response.

use vstd::prelude::*;
use crate::error::Error;
use crate::identity::{
    find_group_by_gid, find_group_by_name, find_user_by_name, find_user_by_uid,
};
use crate::key::{all_digits, name_key, name_key_spec, numeric_key, numeric_key_spec};
use crate::protocol::{GrResponseHeader, PwResponseHeader, Request, RequestType, VERSION};
use crate::records::{GroupModel, UserModel};
use crate::records::{group_model, member_views, user_model, GroupRecord, UserRecord};
use crate::response::{
    all_fit, all_nul_free, group_found, group_reply, lemma_absent_group, lemma_absent_user,
    lemma_member_lengths_step, lemma_member_names_step, member_lengths, member_names,
    placeholder_password, reply_view, user_found, user_reply,
};
use crate::text::{contains_nul, len_fits, nul_free, put_c_string, wire_length};
use crate::wire::{native_order, put_i32, ByteOrder};

verus! {

/// Whether the name of each member can be announced.
fn members_fit(mem: &Vec<Vec<u8>>) -> (fit: bool)
    ensures
        fit == all_fit(member_views(mem@)),
{
    let ghost names = member_views(mem@);
    let mut i: usize = 0;
    while i < mem.len()
        invariant
            i <= mem@.len(),
            names == member_views(mem@),
            forall|j: int| 0 <= j < i ==> len_fits(#[trigger] names[j]),
        decreases mem@.len() - i,
    {
        if wire_length(mem[i].len()).is_err() {
            assert(!len_fits(names[i as int]));
            return false;
        }
        i += 1;
    }
    true
}

/// Whether the name of a member holds a null byte.
fn member_contains_nul(mem: &Vec<Vec<u8>>) -> (found: bool)
    ensures
        found == !all_nul_free(member_views(mem@)),
{
    let ghost names = member_views(mem@);
    let mut i: usize = 0;
    while i < mem.len()
        invariant
            i <= mem@.len(),
            names == member_views(mem@),
            forall|j: int| 0 <= j < i ==> nul_free(#[trigger] names[j]),
        decreases mem@.len() - i,
    {
        if contains_nul(mem[i].as_slice()) {
            assert(!nul_free(names[i as int]));
            return true;
        }
        i += 1;
    }
    false
}

/// Appends the lengths of the members' names.
fn put_member_lengths(out: &mut Vec<u8>, order: ByteOrder, mem: &Vec<Vec<u8>>)
    requires
        all_fit(member_views(mem@)),
    ensures
        final(out)@ == old(out)@ + member_lengths(order, member_views(mem@)),
{
    let ghost names = member_views(mem@);
    let ghost before = out@;
    let mut i: usize = 0;
    while i < mem.len()
        invariant
            i <= mem@.len(),
            names == member_views(mem@),
            all_fit(names),
            out@ == before + member_lengths(order, names.take(i as int)),
        decreases mem@.len() - i,
    {
        assert(len_fits(names[i as int]));
        put_i32(out, order, (mem[i].len() + 1) as i32);
        proof {
            lemma_member_lengths_step(order, names, i as int);
        }
        i += 1;
    }
    assert(names.take(i as int) =~= names);
}

/// Appends the members' names, each closed by a null byte.
fn put_member_names(out: &mut Vec<u8>, mem: &Vec<Vec<u8>>)
    ensures
        final(out)@ == old(out)@ + member_names(member_views(mem@)),
{
    let ghost names = member_views(mem@);
    let ghost before = out@;
    let mut i: usize = 0;
    while i < mem.len()
        invariant
            i <= mem@.len(),
            names == member_views(mem@),
            out@ == before + member_names(names.take(i as int)),
        decreases mem@.len() - i,
    {
        put_c_string(out, mem[i].as_slice());
        proof {
            lemma_member_names_step(names, i as int);
        }
        i += 1;
    }
    assert(names.take(i as int) =~= names);
}

/// Encodes the result of a group lookup, with the integers in the given
/// byte order.
///
/// A group that was found gives the header, the lengths of the members'
/// names, the name, the placeholder password and the members' names, in the
/// order of the record. No group gives the all-zero header alone. A group
/// with a name too long to announce, or with too many members, fails with
/// `FieldTooLarge`; one with a null byte in a name with
/// `InvalidFieldContent`.
pub fn encode_group(order: ByteOrder, group: Option<GroupRecord>) -> (reply: Result<
    Vec<u8>,
    Error,
>)
    ensures
        reply_view(reply) == group_reply(order, group_model(group)),
{
    let mut result: Vec<u8> = Vec::new();
    match group {
        Some(data) => {
            let ghost model = data@;
            if data.mem.len() > 0x7fff_ffff || !members_fit(&data.mem) {
                return Err(Error::FieldTooLarge);
            }
            let placeholder: [u8; 1] = [0x78];
            let passwd = placeholder.as_slice();
            assert(passwd@ =~= placeholder_password());
            let header = GrResponseHeader {
                version: VERSION,
                found: 1,
                gr_name_len: wire_length(data.name.len())?,
                gr_passwd_len: wire_length(passwd.len())?,
                gr_gid: data.gid,
                gr_mem_cnt: data.mem.len() as i32,
            };
            if contains_nul(data.name.as_slice()) || member_contains_nul(&data.mem) {
                return Err(Error::InvalidFieldContent);
            }
            header.write(order, &mut result);
            put_member_lengths(&mut result, order, &data.mem);
            put_c_string(&mut result, data.name.as_slice());
            put_c_string(&mut result, passwd);
            put_member_names(&mut result, &data.mem);
            assert(result@ =~= group_found(order, model));
        },
        None => {
            let header = GrResponseHeader::default();
            header.write(order, &mut result);
        },
    }
    Ok(result)
}

/// Encodes the result of a user lookup, with the integers in the given byte
/// order.
///
/// A user that was found gives the header and then name, password, comment,
/// home directory and shell, each closed by a null byte. No user gives the
/// all-zero header alone. A user with a text field too long to announce
/// fails with `FieldTooLarge`; one with a null byte in a text field with
/// `InvalidFieldContent`.
pub fn encode_user(order: ByteOrder, user: Option<UserRecord>) -> (reply: Result<Vec<u8>, Error>)
    ensures
        reply_view(reply) == user_reply(order, user_model(user)),
{
    let mut result: Vec<u8> = Vec::new();
    match user {
        Some(data) => {
            let ghost model = data@;
            let header = PwResponseHeader {
                version: VERSION,
                found: 1,
                pw_name_len: wire_length(data.name.len())?,
                pw_passwd_len: wire_length(data.passwd.len())?,
                pw_uid: data.uid,
                pw_gid: data.gid,
                pw_gecos_len: wire_length(data.gecos.len())?,
                pw_dir_len: wire_length(data.dir.len())?,
                pw_shell_len: wire_length(data.shell.len())?,
            };
            if contains_nul(data.name.as_slice()) || contains_nul(data.passwd.as_slice())
                || contains_nul(data.gecos.as_slice()) || contains_nul(data.dir.as_slice())
                || contains_nul(data.shell.as_slice()) {
                return Err(Error::InvalidFieldContent);
            }
            header.write(order, &mut result);
            put_c_string(&mut result, data.name.as_slice());
            put_c_string(&mut result, data.passwd.as_slice());
            put_c_string(&mut result, data.gecos.as_slice());
            put_c_string(&mut result, data.dir.as_slice());
            put_c_string(&mut result, data.shell.as_slice());
            assert(result@ =~= user_found(order, model));
        },
        None => {
            let header = PwResponseHeader::default();
            header.write(order, &mut result);
        },
    }
    Ok(result)
}

/// Encodes the result of a user lookup as this machine's C library reads
/// it: with the integers in the machine's own byte order.
///
/// The reply is that of `encode_user` in one of the two byte orders. Where a
/// record is refused, or none was found, the order makes no difference.
pub fn serialize_user(user: Option<UserRecord>) -> (reply: Result<Vec<u8>, Error>)
    ensures
        reply_view(reply) == user_reply(ByteOrder::Little, user_model(user)) || reply_view(reply)
            == user_reply(ByteOrder::Big, user_model(user)),
        user is None ==> reply_view(reply) == Ok::<Seq<u8>, Error>(Seq::new(36, |i: int| 0u8)),
{
    let order = native_order();
    proof {
        lemma_absent_user(order);
    }
    encode_user(order, user)
}

/// Encodes the result of a group lookup as this machine's C library reads
/// it: with the integers in the machine's own byte order.
///
/// The reply is that of `encode_group` in one of the two byte orders. Where
/// a record is refused, or none was found, the order makes no difference.
pub fn serialize_group(group: Option<GroupRecord>) -> (reply: Result<Vec<u8>, Error>)
    ensures
        reply_view(reply) == group_reply(ByteOrder::Little, group_model(group)) || reply_view(
            reply,
        ) == group_reply(ByteOrder::Big, group_model(group)),
        group is None ==> reply_view(reply) == Ok::<Seq<u8>, Error>(Seq::new(24, |i: int| 0u8)),
{
    let order = native_order();
    proof {
        lemma_absent_group(order);
    }
    encode_group(order, group)
}

/// Whether the key of a request can be read as the kind of request asks:
/// as an id for a lookup by id, as a name for a lookup by name. Other kinds
/// of request do not read their key.
pub open spec fn key_accepted(ty: RequestType, key: Seq<u8>) -> bool {
    &&& ty.by_id() ==> numeric_key_spec(key) is Ok
    &&& ty.by_name() ==> name_key_spec(key) is Ok
}

/// Whether `reply` can answer a user lookup: the lookup failed, or the reply
/// encodes what it returned, in one of the two byte orders.
pub open spec fn answers_user_lookup(reply: Result<Seq<u8>, Error>) -> bool {
    ||| reply matches Err(Error::LookupFailure { .. })
    ||| exists|order: ByteOrder, user: Option<UserModel>| reply == #[trigger] user_reply(order, user)
}

/// Whether `reply` can answer a group lookup: the lookup failed, or the
/// reply encodes what it returned, in one of the two byte orders.
pub open spec fn answers_group_lookup(reply: Result<Seq<u8>, Error>) -> bool {
    ||| reply matches Err(Error::LookupFailure { .. })
    ||| exists|order: ByteOrder, group: Option<GroupModel>|
        reply == #[trigger] group_reply(order, group)
}

/// Handles a request: reads the key, asks the identity database, and
/// encodes what it returned.
///
/// The four lookups are answered. A key that cannot be read fails with
/// `MalformedKey`, before anything is looked up; a failure of the lookup
/// itself is handed on. Every other kind of request succeeds with an empty
/// response, whatever its key.
pub fn handle_request(request: &Request) -> (reply: Result<Vec<u8>, Error>)
    ensures
        !request.ty.implemented() ==> reply_view(reply) == Ok::<Seq<u8>, Error>(Seq::empty()),
        request.ty.implemented() && !key_accepted(request.ty, request.key@) ==> reply_view(reply)
            == Err::<Seq<u8>, Error>(Error::MalformedKey),
        request.ty.asks_user() && key_accepted(request.ty, request.key@) ==> answers_user_lookup(
            reply_view(reply),
        ),
        request.ty.asks_group() && key_accepted(request.ty, request.key@)
            ==> answers_group_lookup(reply_view(reply)),
        request.ty.implemented() && (request.key@.len() == 0 || request.key@.last() != 0)
            ==> reply_view(reply) == Err::<Seq<u8>, Error>(Error::MalformedKey),
        request.ty.by_id() && (request.key@.len() <= 1 || !all_digits(request.key@.drop_last()))
            ==> reply_view(reply) == Err::<Seq<u8>, Error>(Error::MalformedKey),
{
    match request.ty {
        RequestType::GETPWBYUID => {
            let uid = numeric_key(request.key)?;
            let user = find_user_by_uid(uid)?;
            serialize_user(user)
        },
        RequestType::GETPWBYNAME => {
            let name = name_key(request.key)?;
            let user = find_user_by_name(name)?;
            serialize_user(user)
        },
        RequestType::GETGRBYGID => {
            let gid = numeric_key(request.key)?;
            let group = find_group_by_gid(gid)?;
            serialize_group(group)
        },
        RequestType::GETGRBYNAME => {
            let name = name_key(request.key)?;
            let group = find_group_by_name(name)?;
            serialize_group(group)
        },
        RequestType::GETHOSTBYADDR
        | RequestType::GETHOSTBYADDRv6
        | RequestType::GETHOSTBYNAME
        | RequestType::GETHOSTBYNAMEv6
        | RequestType::SHUTDOWN
        | RequestType::GETSTAT
        | RequestType::INVALIDATE
        | RequestType::GETFDPW
        | RequestType::GETFDGR
        | RequestType::GETFDHST
        | RequestType::GETAI
        | RequestType::GETSERVBYNAME
        | RequestType::GETSERVBYPORT
        | RequestType::GETFDSERV
        | RequestType::GETFDNETGR
        | RequestType::GETNETGRENT
        | RequestType::INNETGR
        | RequestType::LASTREQ
        | RequestType::INITGROUPS => Ok(Vec::new()),
    }
}

} // verus!
