//! Player UUIDs of offline-mode servers.
use md5::{Digest, Md5};
use vstd::prelude::*;

verus! {

/// Offline player namespace.
pub const OFFLINE_PLAYER_NAMESPACE: &'static str = "OfflinePlayer:";

/// The MD5 digest of `data`.
pub uninterp spec fn md5_digest(data: Seq<u8>) -> Seq<u8>;

/// MD5 digest of `data`.
///
/// Calls `Md5::new`, `update` and `finalize` of the md-5 crate. Claimed: the output is the
/// named digest of `data`, 16 bytes long (the digest size).
#[verifier::external_body]
fn md5(data: &[u8]) -> (res: Vec<u8>)
    ensures
        res@ == md5_digest(data@),
        res@.len() == 16,
{
    let mut hasher = Md5::new();
    hasher.update(data);
    hasher.finalize().to_vec()
}

/// A type 3 (name based) UUID from an MD5 digest: version bits set to 3, variant bits set to
/// the IETF variant.
pub open spec fn spec_name_uuid(md5: Seq<u8>) -> Seq<u8> {
    md5.update(6, (md5[6] & 0x0f) | 0x30).update(8, (md5[8] & 0x3f) | 0x80)
}

/// Java's `UUID.nameUUIDFromBytes`: the type 3 UUID of the MD5 digest of `data`, as 16
/// bytes.
pub fn java_name_uuid_from_bytes(data: &[u8]) -> (res: Vec<u8>)
    ensures
        res@ == spec_name_uuid(md5_digest(data@)),
        res@.len() == 16,
{
    name_uuid_from_digest(md5(data))
}

/// The type 3 UUID of a 16-byte MD5 digest: its version and variant bits set.
pub fn name_uuid_from_digest(digest: Vec<u8>) -> (res: Vec<u8>)
    requires
        digest@.len() == 16,
    ensures
        res@ == spec_name_uuid(digest@),
        res@.len() == 16,
{
    let mut uuid = digest;
    let b6 = (uuid[6] & 0x0f) | 0x30;
    uuid.set(6, b6);
    let b8 = (uuid[8] & 0x3f) | 0x80;
    uuid.set(8, b8);
    uuid
}

/// Get UUID for given player username.
pub fn player_uuid(username: &str) -> (res: Vec<u8>)
    ensures
        res@ == spec_name_uuid(md5_digest(vstd::utf8::encode_utf8(username@))),
        res@.len() == 16,
{
    java_name_uuid_from_bytes(username.as_bytes())
}

/// Get UUID for given offline player username: that of `OfflinePlayer:` and the name.
pub fn offline_player_uuid(username: &str) -> (res: Vec<u8>)
    ensures
        res@ == spec_name_uuid(
            md5_digest(vstd::utf8::encode_utf8(OFFLINE_PLAYER_NAMESPACE@ + username@)),
        ),
        res@.len() == 16,
{
    let mut name = String::from_str(OFFLINE_PLAYER_NAMESPACE);
    name.append(username);
    player_uuid(name.as_str())
}

} // verus!
