//! Server icons in status responses.
use base64::Engine;
use vstd::prelude::*;

use crate::proto::client::ClientInfo;

verus! {

/// Protocol version since when favicons are supported.
pub const FAVICON_PROTOCOL_VERSION: u32 = 4;

/// The standard base64 alphabet: `A-Z`, `a-z`, `0-9`, `+`, `/`.
pub open spec fn base64_char(i: u8) -> char {
    if i < 26 {
        (65 + i) as char
    } else if i < 52 {
        (97 + (i - 26)) as char
    } else if i < 62 {
        (48 + (i - 52)) as char
    } else if i == 62 {
        '+'
    } else {
        '/'
    }
}

/// Standard base64 with `=` padding: each group of three bytes gives four characters.
pub open spec fn base64_standard(data: Seq<u8>) -> Seq<char>
    decreases data.len(),
{
    if data.len() == 0 {
        Seq::empty()
    } else if data.len() == 1 {
        seq![base64_char(data[0] >> 2u8), base64_char((data[0] & 3u8) << 4u8), '=', '=']
    } else if data.len() == 2 {
        seq![
            base64_char(data[0] >> 2u8),
            base64_char(((data[0] & 3u8) << 4u8) | (data[1] >> 4u8)),
            base64_char((data[1] & 15u8) << 2u8),
            '=',
        ]
    } else {
        seq![
            base64_char(data[0] >> 2u8),
            base64_char(((data[0] & 3u8) << 4u8) | (data[1] >> 4u8)),
            base64_char(((data[1] & 15u8) << 2u8) | (data[2] >> 6u8)),
            base64_char(data[2] & 63u8),
        ] + base64_standard(data.skip(3))
    }
}

/// Encode bytes in standard base64 with padding.
///
/// Calls `STANDARD.encode` of the base64 crate. Claimed: the output is the standard base64
/// encoding of `data` as `base64_standard` states it.
#[verifier::external_body]
fn base64_encode(data: &[u8]) -> (res: String)
    ensures
        res@ == base64_standard(data@),
{
    base64::engine::general_purpose::STANDARD.encode(data)
}

/// The prefix of a PNG data URL.
pub open spec fn favicon_prefix() -> Seq<char> {
    "data:image/png;base64,"@
}

/// Encode favicon bytes to a string Minecraft can read: a PNG data URL.
///
/// This assumes the favicon data to be a valid PNG image.
pub fn encode_favicon(data: &[u8]) -> (res: String)
    ensures
        res@ == favicon_prefix() + base64_standard(data@),
{
    let mut url = String::from_str("data:image/png;base64,");
    let encoded = base64_encode(data);
    url.append(encoded.as_str());
    url
}

/// Check whether the status response favicon is supported based on the given client info.
///
/// Defaults to `true` if unsure.
pub fn supports_favicon(client_info: &ClientInfo) -> (res: bool)
    ensures
        res == match client_info.protocol {
            Some(p) => p >= FAVICON_PROTOCOL_VERSION,
            None => true,
        },
{
    match client_info.protocol {
        Some(p) => p >= FAVICON_PROTOCOL_VERSION,
        None => true,
    }
}

} // verus!
