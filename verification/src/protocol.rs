//! The vocabulary of the wire protocol: the kinds of request, and the
//! fixed-size headers that open a response.

use vstd::prelude::*;
use crate::wire::{
    i32_bytes, i32_from_bytes, lemma_i32_round_trip, lemma_u32_round_trip, lemma_zero_bytes,
    put_i32, put_u32, u32_bytes, u32_from_bytes, ByteOrder,
};

verus! {

/// The version marker that opens every response to a lookup that found its
/// entry.
pub const VERSION: i32 = 2;

/// The kinds of request a client can send, in the order of the client's own
/// enumeration.
#[allow(non_camel_case_types)]
#[derive(Clone, Copy, Debug, PartialEq, Eq, Structural)]
pub enum RequestType {
    /// Look a user up by name.
    GETPWBYNAME,
    /// Look a user up by numeric id.
    GETPWBYUID,
    /// Look a group up by name.
    GETGRBYNAME,
    /// Look a group up by numeric id.
    GETGRBYGID,
    /// Resolve a host name to IPv4 addresses.
    GETHOSTBYNAME,
    /// Resolve a host name to IPv6 addresses.
    GETHOSTBYNAMEv6,
    /// Resolve an IPv4 address to a host name.
    GETHOSTBYADDR,
    /// Resolve an IPv6 address to a host name.
    GETHOSTBYADDRv6,
    /// Shut the server down.
    SHUTDOWN,
    /// Get the server's statistics.
    GETSTAT,
    /// Invalidate one of the server's caches.
    INVALIDATE,
    /// Get a file descriptor for the user database.
    GETFDPW,
    /// Get a file descriptor for the group database.
    GETFDGR,
    /// Get a file descriptor for the host database.
    GETFDHST,
    /// Resolve a host name to address information.
    GETAI,
    /// List the groups a user belongs to.
    INITGROUPS,
    /// Look a service up by name.
    GETSERVBYNAME,
    /// Look a service up by port.
    GETSERVBYPORT,
    /// Get a file descriptor for the service database.
    GETFDSERV,
    /// List the entries of a network group.
    GETNETGRENT,
    /// Ask whether a network group holds an entry.
    INNETGR,
    /// Get a file descriptor for the network group database.
    GETFDNETGR,
    /// Marks the end of the enumeration.
    LASTREQ,
}

impl RequestType {
    /// The request asks for an entry by its numeric id.
    pub open spec fn by_id(self) -> bool {
        self is GETPWBYUID || self is GETGRBYGID
    }

    /// The request asks for an entry by its name.
    pub open spec fn by_name(self) -> bool {
        self is GETPWBYNAME || self is GETGRBYNAME
    }

    /// The request asks for a user.
    pub open spec fn asks_user(self) -> bool {
        self is GETPWBYUID || self is GETPWBYNAME
    }

    /// The request asks for a group.
    pub open spec fn asks_group(self) -> bool {
        self is GETGRBYGID || self is GETGRBYNAME
    }

    /// The request is one of the four lookups that are answered. Every
    /// other kind gets an empty response.
    pub open spec fn implemented(self) -> bool {
        self.asks_user() || self.asks_group()
    }
}

/// A decoded request: what is asked for, and the key to look up.
#[derive(Clone, Copy, Debug)]
pub struct Request<'a> {
    pub ty: RequestType,
    /// The key as the client sent it. Nothing is known of it: it need not be
    /// text, a number, or end in a null byte.
    pub key: &'a [u8],
}

/// The header of the response to a user lookup.
#[derive(Clone, Copy, Debug, PartialEq, Eq, Structural)]
pub struct PwResponseHeader {
    pub version: i32,
    pub found: i32,
    pub pw_name_len: i32,
    pub pw_passwd_len: i32,
    pub pw_uid: u32,
    pub pw_gid: u32,
    pub pw_gecos_len: i32,
    pub pw_dir_len: i32,
    pub pw_shell_len: i32,
}

/// The header of the response to a group lookup.
#[derive(Clone, Copy, Debug, PartialEq, Eq, Structural)]
pub struct GrResponseHeader {
    pub version: i32,
    pub found: i32,
    pub gr_name_len: i32,
    pub gr_passwd_len: i32,
    pub gr_gid: u32,
    pub gr_mem_cnt: i32,
}

impl PwResponseHeader {
    /// The header of a lookup that found nothing: every field is zero.
    pub open spec fn absent() -> PwResponseHeader {
        PwResponseHeader {
            version: 0,
            found: 0,
            pw_name_len: 0,
            pw_passwd_len: 0,
            pw_uid: 0,
            pw_gid: 0,
            pw_gecos_len: 0,
            pw_dir_len: 0,
            pw_shell_len: 0,
        }
    }

    /// The 36 bytes of the header: its nine fields in the order of their
    /// declaration, each in the given byte order, with nothing between them.
    #[verifier::opaque]
    pub open spec fn bytes(self, order: ByteOrder) -> Seq<u8> {
        i32_bytes(order, self.version) + i32_bytes(order, self.found) + i32_bytes(
            order,
            self.pw_name_len,
        ) + i32_bytes(order, self.pw_passwd_len) + u32_bytes(order, self.pw_uid) + u32_bytes(
            order,
            self.pw_gid,
        ) + i32_bytes(order, self.pw_gecos_len) + i32_bytes(order, self.pw_dir_len) + i32_bytes(
            order,
            self.pw_shell_len,
        )
    }

    /// The header that the first 36 bytes of `bytes` hold.
    pub open spec fn parse(order: ByteOrder, bytes: Seq<u8>) -> PwResponseHeader
        recommends
            bytes.len() >= 36,
    {
        PwResponseHeader {
            version: i32_from_bytes(order, bytes),
            found: i32_from_bytes(order, bytes.skip(4)),
            pw_name_len: i32_from_bytes(order, bytes.skip(8)),
            pw_passwd_len: i32_from_bytes(order, bytes.skip(12)),
            pw_uid: u32_from_bytes(order, bytes.skip(16)),
            pw_gid: u32_from_bytes(order, bytes.skip(20)),
            pw_gecos_len: i32_from_bytes(order, bytes.skip(24)),
            pw_dir_len: i32_from_bytes(order, bytes.skip(28)),
            pw_shell_len: i32_from_bytes(order, bytes.skip(32)),
        }
    }

    /// A header takes 36 bytes, and reading them back gives the header
    /// again, whatever follows them.
    pub proof fn lemma_round_trip(self, order: ByteOrder, rest: Seq<u8>)
        ensures
            self.bytes(order).len() == 36,
            PwResponseHeader::parse(order, self.bytes(order) + rest) == self,
    {
        reveal(PwResponseHeader::bytes);
        let f0 = i32_bytes(order, self.version);
        let f1 = i32_bytes(order, self.found);
        let f2 = i32_bytes(order, self.pw_name_len);
        let f3 = i32_bytes(order, self.pw_passwd_len);
        let f4 = u32_bytes(order, self.pw_uid);
        let f5 = u32_bytes(order, self.pw_gid);
        let f6 = i32_bytes(order, self.pw_gecos_len);
        let f7 = i32_bytes(order, self.pw_dir_len);
        let f8 = i32_bytes(order, self.pw_shell_len);
        let all = self.bytes(order) + rest;
        let r8 = rest;
        let r7 = f8 + r8;
        let r6 = f7 + r7;
        let r5 = f6 + r6;
        let r4 = f5 + r5;
        let r3 = f4 + r4;
        let r2 = f3 + r3;
        let r1 = f2 + r2;
        let r0 = f1 + r1;
        lemma_i32_round_trip(order, self.version, r0);
        lemma_i32_round_trip(order, self.found, r1);
        lemma_i32_round_trip(order, self.pw_name_len, r2);
        lemma_i32_round_trip(order, self.pw_passwd_len, r3);
        lemma_u32_round_trip(order, self.pw_uid, r4);
        lemma_u32_round_trip(order, self.pw_gid, r5);
        lemma_i32_round_trip(order, self.pw_gecos_len, r6);
        lemma_i32_round_trip(order, self.pw_dir_len, r7);
        lemma_i32_round_trip(order, self.pw_shell_len, r8);
        assert(all =~= f0 + r0);
        assert(all.skip(4) =~= f1 + r1);
        assert(all.skip(8) =~= f2 + r2);
        assert(all.skip(12) =~= f3 + r3);
        assert(all.skip(16) =~= f4 + r4);
        assert(all.skip(20) =~= f5 + r5);
        assert(all.skip(24) =~= f6 + r6);
        assert(all.skip(28) =~= f7 + r7);
        assert(all.skip(32) =~= f8 + r8);
    }

    /// The header of a lookup that found nothing is 36 zero bytes in either
    /// byte order.
    pub proof fn lemma_absent_is_zero(order: ByteOrder)
        ensures
            PwResponseHeader::absent().bytes(order) == Seq::new(36, |i: int| 0u8),
    {
        reveal(PwResponseHeader::bytes);
        lemma_zero_bytes(order);
    }

    /// Appends the bytes of the header to `out`.
    pub fn write(&self, order: ByteOrder, out: &mut Vec<u8>)
        ensures
            final(out)@ == old(out)@ + self.bytes(order),
    {
        proof {
            reveal(PwResponseHeader::bytes);
        }
        put_i32(out, order, self.version);
        put_i32(out, order, self.found);
        put_i32(out, order, self.pw_name_len);
        put_i32(out, order, self.pw_passwd_len);
        put_u32(out, order, self.pw_uid);
        put_u32(out, order, self.pw_gid);
        put_i32(out, order, self.pw_gecos_len);
        put_i32(out, order, self.pw_dir_len);
        put_i32(out, order, self.pw_shell_len);
    }
}

impl Default for PwResponseHeader {
    fn default() -> (header: PwResponseHeader)
        ensures
            header == PwResponseHeader::absent(),
    {
        PwResponseHeader {
            version: 0,
            found: 0,
            pw_name_len: 0,
            pw_passwd_len: 0,
            pw_uid: 0,
            pw_gid: 0,
            pw_gecos_len: 0,
            pw_dir_len: 0,
            pw_shell_len: 0,
        }
    }
}

impl GrResponseHeader {
    /// The header of a lookup that found nothing: every field is zero.
    pub open spec fn absent() -> GrResponseHeader {
        GrResponseHeader {
            version: 0,
            found: 0,
            gr_name_len: 0,
            gr_passwd_len: 0,
            gr_gid: 0,
            gr_mem_cnt: 0,
        }
    }

    /// The 24 bytes of the header: its six fields in the order of their
    /// declaration, each in the given byte order, with nothing between them.
    #[verifier::opaque]
    pub open spec fn bytes(self, order: ByteOrder) -> Seq<u8> {
        i32_bytes(order, self.version) + i32_bytes(order, self.found) + i32_bytes(
            order,
            self.gr_name_len,
        ) + i32_bytes(order, self.gr_passwd_len) + u32_bytes(order, self.gr_gid) + i32_bytes(
            order,
            self.gr_mem_cnt,
        )
    }

    /// The header that the first 24 bytes of `bytes` hold.
    pub open spec fn parse(order: ByteOrder, bytes: Seq<u8>) -> GrResponseHeader
        recommends
            bytes.len() >= 24,
    {
        GrResponseHeader {
            version: i32_from_bytes(order, bytes),
            found: i32_from_bytes(order, bytes.skip(4)),
            gr_name_len: i32_from_bytes(order, bytes.skip(8)),
            gr_passwd_len: i32_from_bytes(order, bytes.skip(12)),
            gr_gid: u32_from_bytes(order, bytes.skip(16)),
            gr_mem_cnt: i32_from_bytes(order, bytes.skip(20)),
        }
    }

    /// A header takes 24 bytes, and reading them back gives the header
    /// again, whatever follows them.
    pub proof fn lemma_round_trip(self, order: ByteOrder, rest: Seq<u8>)
        ensures
            self.bytes(order).len() == 24,
            GrResponseHeader::parse(order, self.bytes(order) + rest) == self,
    {
        reveal(GrResponseHeader::bytes);
        let f0 = i32_bytes(order, self.version);
        let f1 = i32_bytes(order, self.found);
        let f2 = i32_bytes(order, self.gr_name_len);
        let f3 = i32_bytes(order, self.gr_passwd_len);
        let f4 = u32_bytes(order, self.gr_gid);
        let f5 = i32_bytes(order, self.gr_mem_cnt);
        let all = self.bytes(order) + rest;
        let r5 = rest;
        let r4 = f5 + r5;
        let r3 = f4 + r4;
        let r2 = f3 + r3;
        let r1 = f2 + r2;
        let r0 = f1 + r1;
        lemma_i32_round_trip(order, self.version, r0);
        lemma_i32_round_trip(order, self.found, r1);
        lemma_i32_round_trip(order, self.gr_name_len, r2);
        lemma_i32_round_trip(order, self.gr_passwd_len, r3);
        lemma_u32_round_trip(order, self.gr_gid, r4);
        lemma_i32_round_trip(order, self.gr_mem_cnt, r5);
        assert(all =~= f0 + r0);
        assert(all.skip(4) =~= f1 + r1);
        assert(all.skip(8) =~= f2 + r2);
        assert(all.skip(12) =~= f3 + r3);
        assert(all.skip(16) =~= f4 + r4);
        assert(all.skip(20) =~= f5 + r5);
    }

    /// The header of a lookup that found nothing is 24 zero bytes in either
    /// byte order.
    pub proof fn lemma_absent_is_zero(order: ByteOrder)
        ensures
            GrResponseHeader::absent().bytes(order) == Seq::new(24, |i: int| 0u8),
    {
        reveal(GrResponseHeader::bytes);
        lemma_zero_bytes(order);
    }

    /// Appends the bytes of the header to `out`.
    pub fn write(&self, order: ByteOrder, out: &mut Vec<u8>)
        ensures
            final(out)@ == old(out)@ + self.bytes(order),
    {
        proof {
            reveal(GrResponseHeader::bytes);
        }
        put_i32(out, order, self.version);
        put_i32(out, order, self.found);
        put_i32(out, order, self.gr_name_len);
        put_i32(out, order, self.gr_passwd_len);
        put_u32(out, order, self.gr_gid);
        put_i32(out, order, self.gr_mem_cnt);
    }
}

impl Default for GrResponseHeader {
    fn default() -> (header: GrResponseHeader)
        ensures
            header == GrResponseHeader::absent(),
    {
        GrResponseHeader {
            version: 0,
            found: 0,
            gr_name_len: 0,
            gr_passwd_len: 0,
            gr_gid: 0,
            gr_mem_cnt: 0,
        }
    }
}

} // verus!
