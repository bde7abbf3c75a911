//! Authenticating a parameter set: the timestamp and the receive window are
//! added to it, the whole is signed with HMAC-SHA256 under the shared secret,
//! and the signature goes last.

use crate::error::Error;
use crate::params::{append_pair, canonical, query_text, Params};
use crate::text::{dec_text, hex_encode, hex_text, u64_to_string};
use hmac::{Hmac, Mac};
use sha2::Sha256;
use vstd::prelude::*;
use vstd::string::*;
use vstd::utf8::encode_utf8;

verus! {

/// The HMAC-SHA256 code of `message` under `key`.
pub uninterp spec fn hmac_sha256(key: Seq<u8>, message: Seq<u8>) -> Seq<u8>;

/// Calls `Hmac::<Sha256>` of the crate `hmac`: a MAC made from `key` by
/// `new_from_slice`, fed `message` by `update`, and read off by `finalize`.
/// Believed, not proved: the bytes that come back are the HMAC-SHA256 code of
/// the message under the key. `new_from_slice` takes a key of any length.
#[verifier::external_body]
fn hmac_sha256_code(key: &[u8], message: &[u8]) -> (code: Vec<u8>)
    ensures
        code@ == hmac_sha256(key@, message@),
{
    let mut mac = Hmac::<Sha256>::new_from_slice(key).expect("a key of any length is taken");
    mac.update(message);
    mac.finalize().into_bytes().to_vec()
}

/// The mapping without the keys that belong to the signer. Whatever a caller
/// put under them gives way to what the signer writes.
pub open spec fn without_reserved(m: Map<Seq<char>, Seq<char>>) -> Map<Seq<char>, Seq<char>> {
    m.remove("timestamp"@).remove("recvWindow"@).remove("signature"@)
}

/// What is signed: the caller's parameters by ascending key, then the
/// timestamp, then the receive window, as one query string.
pub open spec fn payload_text(m: Map<Seq<char>, Seq<char>>, timestamp: u64, recv_window: u64) -> Seq<
    char,
> {
    query_text(
        canonical(without_reserved(m)).push(("timestamp"@, dec_text(timestamp as nat))).push(
            ("recvWindow"@, dec_text(recv_window as nat)),
        ),
    )
}

/// The signature of a payload: the HMAC-SHA256 code of its UTF-8 bytes under
/// the UTF-8 bytes of the secret, in lower-case hexadecimal.
pub open spec fn signature_text(secret: Seq<char>, payload: Seq<char>) -> Seq<char> {
    hex_text(hmac_sha256(encode_utf8(secret), encode_utf8(payload)))
}

/// The signed query string: the payload, then its signature as the last
/// parameter.
pub open spec fn signed_text(
    m: Map<Seq<char>, Seq<char>>,
    secret: Seq<char>,
    timestamp: u64,
    recv_window: u64,
) -> Seq<char> {
    let payload = payload_text(m, timestamp, recv_window);
    payload + "&signature="@ + signature_text(secret, payload)
}

/// The message of the error for a missing secret.
pub open spec fn missing_secret_text() -> Seq<char> {
    "Secret key is missing"@
}

/// What signing gives: under a secret that is not empty the signed query
/// string, under an empty one a configuration error.
pub open spec fn signed(
    r: Result<String, Error>,
    m: Map<Seq<char>, Seq<char>>,
    secret: Seq<char>,
    timestamp: u64,
    recv_window: u64,
) -> bool {
    match r {
        Ok(q) => secret.len() > 0 && q@ == signed_text(m, secret, timestamp, recv_window),
        Err(e) => secret.len() == 0 && e is ConfigurationError && e.text()
            == missing_secret_text(),
    }
}

/// Signing is a function of its inputs: whatever two runs on the same
/// parameters, secret, timestamp and receive window give is the same, string
/// for string and error for error.
pub proof fn lemma_sign_deterministic(
    first: Result<String, Error>,
    second: Result<String, Error>,
    m: Map<Seq<char>, Seq<char>>,
    secret: Seq<char>,
    timestamp: u64,
    recv_window: u64,
)
    requires
        signed(first, m, secret, timestamp, recv_window),
        signed(second, m, secret, timestamp, recv_window),
    ensures
        first is Ok <==> second is Ok,
        first is Ok ==> first->Ok_0@ == second->Ok_0@,
        first is Err ==> first->Err_0.same_as(&second->Err_0),
{
}

/// Signs `params` under `secret` for the moment `timestamp`, in milliseconds
/// since the epoch, with the receive window `recv_window`. An empty secret is
/// refused: nothing goes out unsigned.
pub fn sign(params: Params, secret: &str, recv_window: u64, timestamp: u64) -> (r: Result<
    String,
    Error,
>)
    ensures
        signed(r, params@, secret@, timestamp, recv_window),
{
    if secret.is_empty() {
        return Err(Error::ConfigurationError { msg: String::from_str("Secret key is missing") });
    }
    let mut own: Params = params;
    own.remove("timestamp");
    own.remove("recvWindow");
    own.remove("signature");
    let first: bool = own.is_empty();
    let mut q: String = own.to_query();
    let stamp: String = u64_to_string(timestamp);
    let window: String = u64_to_string(recv_window);
    let ghost base = canonical(own@);
    let ghost with_stamp = base.push(("timestamp"@, stamp@));
    let ghost with_window = with_stamp.push(("recvWindow"@, window@));
    append_pair(&mut q, "timestamp", stamp.as_str(), first);
    proof {
        assert(with_stamp.drop_last() =~= base);
        assert(q@ =~= query_text(with_stamp));
    }
    append_pair(&mut q, "recvWindow", window.as_str(), false);
    proof {
        assert(with_window.drop_last() =~= with_stamp);
        assert(q@ =~= query_text(with_window));
    }
    let code: Vec<u8> = hmac_sha256_code(secret.as_bytes(), q.as_str().as_bytes());
    let signature: String = hex_encode(code.as_slice());
    q.append("&signature=");
    q.append(signature.as_str());
    assert(q@ =~= signed_text(params@, secret@, timestamp, recv_window));
    Ok(q)
}

} // verus!
