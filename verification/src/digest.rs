//! The digests derived from the challenge token: the password hash and the request
//! checksum.

use crate::text::{decimal, decimal_i32, hex_lower, hex_text, is_lower_hex, lemma_hex_text_shape};
use hmac::Mac;
use sha1::Digest;
use vstd::prelude::*;
use vstd::utf8::encode_utf8;

verus! {

/// The HMAC-MD5 tag of `msg` under `key`.
pub uninterp spec fn hmac_md5_digest(key: Seq<u8>, msg: Seq<u8>) -> Seq<u8>;

/// The SHA-1 digest of `data`.
pub uninterp spec fn sha1_digest(data: Seq<u8>) -> Seq<u8>;

/// HMAC over MD5 as the `hmac` and `md-5` crates compute it (`Mac::new_from_slice`,
/// `Mac::update`, `Mac::finalize`): the tag depends on the key and the message alone and
/// has 16 bytes. `Hmac` accepts a key of any length.
#[verifier::external_body]
fn hmac_md5(key: &[u8], msg: &[u8]) -> (tag: Vec<u8>)
    ensures
        tag@ == hmac_md5_digest(key@, msg@),
        tag@.len() == 16,
{
    let mut mac = hmac::Hmac::<md5::Md5>::new_from_slice(key).unwrap();
    mac.update(msg);
    mac.finalize().into_bytes().to_vec()
}

/// SHA-1 as the `sha1` crate computes it (`Digest::new`, `Digest::update`,
/// `Digest::finalize`): the digest depends on the data alone and has 20 bytes.
#[verifier::external_body]
fn sha1(data: &[u8]) -> (digest: Vec<u8>)
    ensures
        digest@ == sha1_digest(data@),
        digest@.len() == 20,
{
    let mut hasher = sha1::Sha1::new();
    hasher.update(data);
    hasher.finalize().to_vec()
}

/// The password hash as text: the HMAC-MD5 tag of the password keyed by the token, in
/// lower-case hexadecimal.
pub open spec fn password_hash_text(token: Seq<char>, password: Seq<char>) -> Seq<char> {
    hex_text(hmac_md5_digest(encode_utf8(token), encode_utf8(password)))
}

/// The text that the checksum digests: the fields in their fixed order, each one
/// preceded by the token.
pub open spec fn checksum_plain(
    token: Seq<char>,
    username: Seq<char>,
    password_hash: Seq<char>,
    acid: int,
    ip: Seq<char>,
    n: int,
    stype: int,
    info: Seq<char>,
) -> Seq<char> {
    token + username + token + password_hash + token + decimal(acid) + token + ip + token
        + decimal(n) + token + decimal(stype) + token + info
}

/// The checksum as text: the SHA-1 digest of `checksum_plain`, in lower-case
/// hexadecimal.
pub open spec fn checksum_text(
    token: Seq<char>,
    username: Seq<char>,
    password_hash: Seq<char>,
    acid: int,
    ip: Seq<char>,
    n: int,
    stype: int,
    info: Seq<char>,
) -> Seq<char> {
    hex_text(sha1_digest(encode_utf8(checksum_plain(token, username, password_hash, acid, ip, n, stype, info))))
}

/// Hashes the password under the challenge token. The result is a function of the two
/// texts alone and always has 32 lower-case hexadecimal characters.
pub fn password_hash(token: &str, password: &str) -> (out: String)
    ensures
        out@ == password_hash_text(token@, password@),
        out@.len() == 32,
        forall|i: int| 0 <= i < 32 ==> is_lower_hex(#[trigger] out@[i]),
{
    let tag = hmac_md5(token.as_bytes(), password.as_bytes());
    proof {
        lemma_hex_text_shape(tag@);
    }
    hex_lower(tag.as_slice())
}

/// Joins the checksum's fields in their fixed order, with the token before each.
pub fn checksum_input(
    token: &str,
    username: &str,
    password_hash: &str,
    acid: i32,
    ip: &str,
    n: i32,
    stype: i32,
    info: &str,
) -> (out: String)
    ensures
        out@ == checksum_plain(
            token@,
            username@,
            password_hash@,
            acid as int,
            ip@,
            n as int,
            stype as int,
            info@,
        ),
{
    let mut out = String::from_str(token);
    out.append(username);
    out.append(token);
    out.append(password_hash);
    out.append(token);
    out.append(decimal_i32(acid).as_str());
    out.append(token);
    out.append(ip);
    out.append(token);
    out.append(decimal_i32(n).as_str());
    out.append(token);
    out.append(decimal_i32(stype).as_str());
    out.append(token);
    out.append(info);
    out
}

/// Computes the request checksum over the fields in their fixed order. The result
/// always has 40 lower-case hexadecimal characters.
pub fn checksum(
    token: &str,
    username: &str,
    password_hash: &str,
    acid: i32,
    ip: &str,
    n: i32,
    stype: i32,
    info: &str,
) -> (out: String)
    ensures
        out@ == checksum_text(
            token@,
            username@,
            password_hash@,
            acid as int,
            ip@,
            n as int,
            stype as int,
            info@,
        ),
        out@.len() == 40,
        forall|i: int| 0 <= i < 40 ==> is_lower_hex(#[trigger] out@[i]),
{
    let plain = checksum_input(token, username, password_hash, acid, ip, n, stype, info);
    let digest = sha1(plain.as_str().as_bytes());
    proof {
        lemma_hex_text_shape(digest@);
    }
    hex_lower(digest.as_slice())
}

} // verus!
