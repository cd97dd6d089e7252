//! Hashes, encodings and signature checks.
//!
//! The digests, the two text encodings and the signature check are computed by
//! the crates that implement them; each has a name here, under which the
//! contracts of this library speak of its result.

use vstd::prelude::*;
use vstd::string::*;
use vstd::utf8::encode_utf8;
use crate::error::ContractError;

verus! {

/// The SHA-256 digest of `data`.
pub uninterp spec fn sha256(data: Seq<u8>) -> Seq<u8>;

/// The RIPEMD-160 digest of `data`.
pub uninterp spec fn ripemd160(data: Seq<u8>) -> Seq<u8>;

/// The Bech32 text for the prefix `hrp` and the bytes `data`, where the
/// prefix is one that Bech32 accepts.
pub uninterp spec fn bech32_encoding(hrp: Seq<char>, data: Seq<u8>) -> Option<Seq<char>>;

/// The standard Base64 text, with padding, for `data`.
pub uninterp spec fn base64_encoding(data: Seq<u8>) -> Seq<char>;

/// Whether `signature` is a secp256k1 signature of the digest `message_hash`
/// under `public_key`; `None` where one of the three is malformed.
pub uninterp spec fn secp256k1_verifies(
    message_hash: Seq<u8>,
    signature: Seq<u8>,
    public_key: Seq<u8>,
) -> Option<bool>;

/// The network prefix of signer addresses. It is fixed: signers of another
/// network cannot be recognised. Whether it should become a setting is open.
pub const ADDRESS_PREFIX: &'static str = "osmo";

/// A prefix that Bech32 accepts: one to eighty-three printable ASCII
/// characters, not lower case and upper case mixed.
pub open spec fn valid_hrp(hrp: Seq<char>) -> bool {
    &&& 1 <= hrp.len() <= 83
    &&& forall|i: int| 0 <= i < hrp.len() ==> 33 <= (#[trigger] hrp[i]) as u32 <= 126
    &&& !((exists|i: int| 0 <= i < hrp.len() && 97 <= (#[trigger] hrp[i]) as u32 <= 122) && (
    exists|j: int| 0 <= j < hrp.len() && 65 <= (#[trigger] hrp[j]) as u32 <= 90))
}

/// The lower-case form of an ASCII letter; any other character itself.
pub open spec fn lower_case(c: char) -> char {
    if 65 <= c as u32 <= 90 {
        ((c as u32 + 32) as u32) as char
    } else {
        c
    }
}

/// How the Bech32 text for the prefix `hrp` begins: with the prefix in lower
/// case and the separator.
pub open spec fn bech32_head(hrp: Seq<char>) -> Seq<char> {
    hrp.map_values(|c: char| lower_case(c)).push('1')
}

/// The length of the Bech32 text for a prefix and data: the prefix, the
/// separator, the groups of five bits that hold the data, and the checksum.
pub open spec fn bech32_len(hrp: Seq<char>, data: Seq<u8>) -> nat {
    (hrp.len() + 1 + (data.len() * 8 + 4) / 5 + 6) as nat
}

/// The sign document that wraps `data` for `signer`: the data in Base64
/// between the fixed parts of the document.
pub open spec fn adr36_message(data: Seq<char>, signer: Seq<char>) -> Seq<char> {
    "{\"account_number\":\"0\",\"chain_id\":\"\",\"fee\":{\"amount\":[],\"gas\":\"0\"},\"memo\":\"\",\"msgs\":[{\"type\":\"sign/MsgSignData\",\"value\":{\"data\":\""@
        + base64_encoding(encode_utf8(data)) + "\",\"signer\":\""@ + signer
        + "\"}}],\"sequence\":\"0\"}"@
}

/// The address that belongs to `public_key` under the prefix `hrp`: the
/// Bech32 text of the RIPEMD-160 digest of the SHA-256 digest of the key.
pub open spec fn address_of(public_key: Seq<u8>, hrp: Seq<char>) -> Option<Seq<char>> {
    bech32_encoding(hrp, ripemd160(sha256(public_key)))
}

/// Computes the SHA-256 digest of `message` with `sha2::Sha256`; a digest has
/// thirty-two bytes.
#[verifier::external_body]
pub fn compute_sha256_hash(message: &[u8]) -> (r: Vec<u8>)
    ensures
        r@ == sha256(message@),
        r@.len() == 32,
{
    let mut hasher = <sha2::Sha256 as sha2::Digest>::new();
    sha2::Digest::update(&mut hasher, message);
    sha2::Digest::finalize(hasher).to_vec()
}

/// Computes the RIPEMD-160 digest of `data` with `ripemd::Ripemd160`; a
/// digest has twenty bytes.
#[verifier::external_body]
fn compute_ripemd160_hash(data: &[u8]) -> (r: Vec<u8>)
    ensures
        r@ == ripemd160(data@),
        r@.len() == 20,
{
    <ripemd::Ripemd160 as ripemd::Digest>::digest(data).to_vec()
}

/// Calls `bech32::encode` with the checksum of Bech32, not that of Bech32m,
/// on the five-bit groups of `data`. It fails exactly where the prefix is
/// refused. The text is the prefix in lower case, the separator `1`, one
/// character for every group of five bits of the data, the last group filled
/// up, and six characters of checksum.
#[verifier::external_body]
fn bech32_encode(hrp: &str, data: &[u8]) -> (r: Option<String>)
    ensures
        r is Some <==> valid_hrp(hrp@),
        match r {
            Some(text) => bech32_encoding(hrp@, data@) == Some(text@) && text@.len()
                == bech32_len(hrp@, data@) && text@.subrange(0, hrp@.len() as int + 1) == bech32_head(
                hrp@,
            ),
            None => bech32_encoding(hrp@, data@) is None,
        },
{
    match bech32::encode(hrp, bech32::ToBase32::to_base32(&data), bech32::Variant::Bech32) {
        Ok(text) => Some(text),
        Err(_) => None,
    }
}

/// Encodes `data` with the standard Base64 engine of the `base64` crate.
#[verifier::external_body]
fn base64_encode(data: &[u8]) -> (r: String)
    ensures
        r@ == base64_encoding(data@),
{
    base64::Engine::encode(&base64::engine::general_purpose::STANDARD, data)
}

/// Calls `secp256k1_verify` of `cosmwasm_std::Api` as
/// `cosmwasm_std::testing::MockApi` implements it, which hands the three byte
/// strings to `cosmwasm_crypto::secp256k1_verify`. It reports an error where
/// the digest, the signature or the key is malformed, and otherwise whether
/// the signature verifies.
#[verifier::external_body]
fn secp256k1_verify(message_hash: &[u8], signature: &[u8], public_key: &[u8]) -> (r: Option<bool>)
    ensures
        r == secp256k1_verifies(message_hash@, signature@, public_key@),
{
    let api = cosmwasm_std::testing::MockApi::default();
    match cosmwasm_std::Api::secp256k1_verify(&api, message_hash, signature, public_key) {
        Ok(verified) => Some(verified),
        Err(_) => None,
    }
}

/// Wraps `data` in the sign document that wallets sign for arbitrary data.
/// The engine does not hash such documents itself; the function is there for
/// callers that prepare or check what a wallet is asked to sign.
pub fn create_adr36_message(data: &String, signer: &String) -> (r: String)
    ensures
        r@ == adr36_message(data@, signer@),
{
    let encoded = base64_encode(data.as_str().as_bytes());
    let mut message = String::from_str(
        "{\"account_number\":\"0\",\"chain_id\":\"\",\"fee\":{\"amount\":[],\"gas\":\"0\"},\"memo\":\"\",\"msgs\":[{\"type\":\"sign/MsgSignData\",\"value\":{\"data\":\"",
    );
    message.append(encoded.as_str());
    message.append("\",\"signer\":\"");
    message.append(signer.as_str());
    message.append("\"}}],\"sequence\":\"0\"}");
    message
}

/// Derives the address that belongs to `pub_key` under the prefix `hrp`. The
/// derivation does not look at any signature. It fails exactly where the
/// prefix is none that Bech32 accepts.
pub fn derive_addr_from_pubkey(pub_key: &[u8], hrp: &str) -> (r: Result<String, ContractError>)
    ensures
        r is Ok <==> valid_hrp(hrp@),
        match r {
            Ok(addr) => address_of(pub_key@, hrp@) == Some(addr@) && addr@.len() == hrp@.len()
                + 39 && addr@.subrange(0, hrp@.len() as int + 1) == bech32_head(hrp@),
            Err(e) => e == ContractError::VerificationFailed && address_of(pub_key@, hrp@) is None,
        },
{
    let sha_hash = compute_sha256_hash(pub_key);
    let rip_hash = compute_ripemd160_hash(sha_hash.as_slice());
    match bech32_encode(hrp, rip_hash.as_slice()) {
        Some(addr) => Ok(addr),
        None => Err(ContractError::VerificationFailed),
    }
}

/// Whether `signature` verifies for the digest `message_hash` under
/// `public_key`. A malformed digest, signature or key does not verify.
pub fn signature_verifies(message_hash: &[u8], signature: &[u8], public_key: &[u8]) -> (r: bool)
    ensures
        r == (secp256k1_verifies(message_hash@, signature@, public_key@) == Some(true)),
{
    match secp256k1_verify(message_hash, signature, public_key) {
        Some(verified) => verified,
        None => false,
    }
}

/// The prefix of signer addresses is one that Bech32 accepts, and a signer
/// address begins with it and the separator.
pub proof fn lemma_address_prefix_is_valid()
    ensures
        valid_hrp(ADDRESS_PREFIX@),
        ADDRESS_PREFIX@.len() == 4,
        bech32_head(ADDRESS_PREFIX@) == "osmo1"@,
{
    reveal_strlit("osmo");
    reveal_strlit("osmo1");
    assert(bech32_head(ADDRESS_PREFIX@) =~= "osmo1"@);
}

} // verus!
