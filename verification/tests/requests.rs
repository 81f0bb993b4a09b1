use nsncd::error::Error;
use nsncd::handlers::{encode_group, encode_user, handle_request, serialize_group, serialize_user};
use nsncd::identity::{
    find_group_by_gid, find_group_by_name, find_user_by_name, find_user_by_uid, lookup_result,
};
use nsncd::records::UserRecord;
use nsncd::protocol::{Request, RequestType, VERSION};
use nsncd::wire::native_order;

const NO_SUCH_NAME: &[u8] = b"no-such-entry-4c1f0e\0";
const NO_SUCH_ID: &[u8] = b"4123456789\0";

const LOOKUPS: [RequestType; 4] = [
    RequestType::GETPWBYNAME,
    RequestType::GETPWBYUID,
    RequestType::GETGRBYNAME,
    RequestType::GETGRBYGID,
];

const STUBS: [RequestType; 19] = [
    RequestType::GETHOSTBYNAME,
    RequestType::GETHOSTBYNAMEv6,
    RequestType::GETHOSTBYADDR,
    RequestType::GETHOSTBYADDRv6,
    RequestType::SHUTDOWN,
    RequestType::GETSTAT,
    RequestType::INVALIDATE,
    RequestType::GETFDPW,
    RequestType::GETFDGR,
    RequestType::GETFDHST,
    RequestType::GETAI,
    RequestType::INITGROUPS,
    RequestType::GETSERVBYNAME,
    RequestType::GETSERVBYPORT,
    RequestType::GETFDSERV,
    RequestType::GETNETGRENT,
    RequestType::INNETGR,
    RequestType::GETFDNETGR,
    RequestType::LASTREQ,
];

fn native_i32(bytes: &[u8], at: usize) -> i32 {
    i32::from_ne_bytes([bytes[at], bytes[at + 1], bytes[at + 2], bytes[at + 3]])
}

fn native_u32(bytes: &[u8], at: usize) -> u32 {
    u32::from_ne_bytes([bytes[at], bytes[at + 1], bytes[at + 2], bytes[at + 3]])
}

#[test]
fn unimplemented_requests_get_an_empty_response() {
    let keys: [&[u8]; 6] = [b"", b"\0", b"root\0", b"root", b"0\0", &[0xff, 0x00, 0xff]];
    for ty in STUBS {
        for key in keys {
            assert_eq!(handle_request(&Request { ty, key }), Ok(Vec::new()));
        }
    }
}

#[test]
fn key_without_terminator_is_malformed_for_every_lookup() {
    let keys: [&[u8]; 5] = [b"", b"root", b"0", b"root\0x", &[0x7F, 0x0, 0x0, 0x01]];
    for ty in LOOKUPS {
        for key in keys {
            assert_eq!(handle_request(&Request { ty, key }), Err(Error::MalformedKey));
        }
    }
}

#[test]
fn key_with_a_null_byte_inside_is_malformed_for_every_lookup() {
    for ty in LOOKUPS {
        assert_eq!(handle_request(&Request { ty, key: b"0\x000\0" }), Err(Error::MalformedKey));
    }
}

#[test]
fn non_numeric_key_is_malformed_for_a_lookup_by_id() {
    let keys: [&[u8]; 6] = [b"\0", b"root\0", b"x0\0", b" 0\0", b"+0\0", b"-1\0"];
    for ty in [RequestType::GETPWBYUID, RequestType::GETGRBYGID] {
        for key in keys {
            assert_eq!(handle_request(&Request { ty, key }), Err(Error::MalformedKey));
        }
    }
}

#[test]
fn id_beyond_32_bits_is_malformed() {
    for ty in [RequestType::GETPWBYUID, RequestType::GETGRBYGID] {
        assert_eq!(
            handle_request(&Request { ty, key: b"4294967296\0" }),
            Err(Error::MalformedKey)
        );
    }
}

#[test]
fn name_that_is_not_utf8_is_malformed_for_a_lookup_by_name() {
    for ty in [RequestType::GETPWBYNAME, RequestType::GETGRBYNAME] {
        assert_eq!(handle_request(&Request { ty, key: &[0xff, 0xfe, 0] }), Err(Error::MalformedKey));
    }
}

#[test]
fn absent_user_is_the_same_by_id_and_by_name() {
    let by_id = handle_request(&Request { ty: RequestType::GETPWBYUID, key: NO_SUCH_ID });
    let by_name = handle_request(&Request { ty: RequestType::GETPWBYNAME, key: NO_SUCH_NAME });
    assert_eq!(by_id, Ok(vec![0u8; 36]));
    assert_eq!(by_name, Ok(vec![0u8; 36]));
}

#[test]
fn absent_group_is_the_same_by_id_and_by_name() {
    let by_id = handle_request(&Request { ty: RequestType::GETGRBYGID, key: NO_SUCH_ID });
    let by_name = handle_request(&Request { ty: RequestType::GETGRBYNAME, key: NO_SUCH_NAME });
    assert_eq!(by_id, Ok(vec![0u8; 24]));
    assert_eq!(by_name, Ok(vec![0u8; 24]));
}

#[test]
fn error_of_the_operating_system_is_a_lookup_failure() {
    let failed: Result<Option<UserRecord>, i32> = Err(13);
    assert_eq!(lookup_result(failed), Err(Error::LookupFailure { errno: 13 }));
    let failed: Result<Option<u32>, i32> = Err(-1);
    assert_eq!(lookup_result(failed), Err(Error::LookupFailure { errno: -1 }));
}

#[test]
fn entry_or_none_is_no_lookup_failure() {
    assert_eq!(lookup_result(Ok(Some(7u32))), Ok(Some(7u32)));
    assert_eq!(lookup_result::<u32>(Ok(None)), Ok(None));
}

#[test]
fn lookups_of_missing_entries_find_nothing() {
    assert_eq!(find_user_by_uid(4123456789), Ok(None));
    assert_eq!(find_user_by_name("no-such-entry-4c1f0e"), Ok(None));
    assert_eq!(find_group_by_gid(4123456789), Ok(None));
    assert_eq!(find_group_by_name("no-such-entry-4c1f0e"), Ok(None));
}

#[test]
fn root_user_is_found_by_id_and_by_name() {
    let by_id = find_user_by_uid(0).unwrap().unwrap();
    let by_name = find_user_by_name("root").unwrap().unwrap();
    assert_eq!(by_id, by_name);
    assert_eq!(by_id.name, b"root".to_vec());
    assert_eq!(by_id.uid, 0);
    assert_eq!(by_id.gid, 0);
}

#[test]
fn root_group_is_found_by_id_and_by_name() {
    let by_id = find_group_by_gid(0).unwrap().unwrap();
    let by_name = find_group_by_name("root").unwrap().unwrap();
    assert_eq!(by_id, by_name);
    assert_eq!(by_id.name, b"root".to_vec());
    assert_eq!(by_id.gid, 0);
}

#[test]
fn request_for_root_by_name_end_to_end() {
    let output = handle_request(&Request { ty: RequestType::GETPWBYNAME, key: b"root\0" }).unwrap();
    assert_eq!(native_i32(&output, 0), VERSION);
    assert_eq!(native_i32(&output, 4), 1);
    assert_eq!(native_i32(&output, 8), 5);
    assert_eq!(native_u32(&output, 16), 0);
    assert_eq!(native_u32(&output, 20), 0);
    assert_eq!(&output[36..41], b"root\0");
    let user = find_user_by_name("root").unwrap().unwrap();
    let mut payload = Vec::new();
    for field in [&user.name, &user.passwd, &user.gecos, &user.dir, &user.shell] {
        payload.extend_from_slice(field);
        payload.push(0);
    }
    assert_eq!(&output[36..], &payload[..]);
    assert_eq!(native_i32(&output, 12) as usize, user.passwd.len() + 1);
    assert_eq!(native_i32(&output, 24) as usize, user.gecos.len() + 1);
    assert_eq!(native_i32(&output, 28) as usize, user.dir.len() + 1);
    assert_eq!(native_i32(&output, 32) as usize, user.shell.len() + 1);
    assert_eq!(output.len(), 36 + payload.len());
}

#[test]
fn request_for_root_by_id_is_the_encoded_record() {
    let output = handle_request(&Request { ty: RequestType::GETPWBYUID, key: b"0\0" });
    let user = find_user_by_uid(0).unwrap();
    assert!(user.is_some());
    assert_eq!(output, serialize_user(user.clone()));
    assert_eq!(output, encode_user(native_order(), user));
}

#[test]
fn request_for_root_by_name_is_the_request_by_id() {
    let by_name = handle_request(&Request { ty: RequestType::GETPWBYNAME, key: b"root\0" });
    let by_id = handle_request(&Request { ty: RequestType::GETPWBYUID, key: b"0\0" });
    assert!(by_name.is_ok());
    assert_eq!(by_name, by_id);
}

#[test]
fn request_for_the_root_group_is_the_encoded_record() {
    let by_id = handle_request(&Request { ty: RequestType::GETGRBYGID, key: b"0\0" });
    let by_name = handle_request(&Request { ty: RequestType::GETGRBYNAME, key: b"root\0" });
    let group = find_group_by_gid(0).unwrap();
    assert!(group.is_some());
    assert_eq!(by_id, serialize_group(group.clone()));
    assert_eq!(by_id, encode_group(native_order(), group));
    assert_eq!(by_name, by_id);
    let output = by_id.unwrap();
    assert_eq!(native_i32(&output, 0), VERSION);
    assert_eq!(native_i32(&output, 4), 1);
    assert_eq!(native_i32(&output, 8), 5);
    assert_eq!(native_i32(&output, 12), 2);
    assert_eq!(native_u32(&output, 16), 0);
}

#[test]
fn id_with_bytes_after_its_digits_is_malformed() {
    let keys: [&[u8]; 5] = [b"12ab\0", b"000 root\0", b"0 \0", b"0x0\0", b"4294967295x\0"];
    for ty in [RequestType::GETPWBYUID, RequestType::GETGRBYGID] {
        for key in keys {
            assert_eq!(handle_request(&Request { ty, key }), Err(Error::MalformedKey));
        }
    }
}

#[test]
fn id_with_leading_zeros_is_the_id() {
    let plain = handle_request(&Request { ty: RequestType::GETPWBYUID, key: b"0\0" });
    let padded = handle_request(&Request { ty: RequestType::GETPWBYUID, key: b"000\0" });
    assert!(plain.is_ok());
    assert_eq!(plain, padded);
}
