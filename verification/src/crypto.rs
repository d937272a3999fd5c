//! Symmetric obfuscation of the stored capture-session token.
use vstd::prelude::*;
use vstd::utf8::{valid_utf8, decode_utf8, encode_utf8};

verus! {

/// Static key that `xor_crypt` cycles over the data.
pub const SESSION_XOR_KEY: [u8; 65] = [
    82, 111, 98, 111, 116, 105, 99, 115, 32, 105, 115, 32, 116, 104, 101, 32, 97, 114, 116, 32,
    111, 102, 32, 109, 97, 107, 105, 110, 103, 32, 100, 114, 101, 97, 109, 115, 32, 99, 111, 109,
    101, 32, 116, 114, 117, 101, 32, 105, 110, 32, 109, 101, 116, 97, 108, 32, 97, 110, 100, 32,
    119, 105, 114, 101, 115,
];

/// Byte `i` of the stream `data` XOR-ed with the cycled key.
pub open spec fn xor_with_key(data: Seq<u8>) -> Seq<u8> {
    Seq::new(data.len(), |i: int| data[i] ^ SESSION_XOR_KEY@[i % 65])
}

/// XOR every byte of `data` with the session key, repeated as often as needed.
///
/// The same call both obfuscates and restores the data.
pub fn xor_crypt(data: &[u8]) -> (res: Vec<u8>)
    ensures
        res@ == xor_with_key(data@),
{
    let mut res: Vec<u8> = Vec::new();
    let mut i: usize = 0;
    while i < data.len()
        invariant
            i <= data@.len(),
            res@ == xor_with_key(data@.take(i as int)),
        decreases data@.len() - i,
    {
        let k: u8 = SESSION_XOR_KEY[i % 65];
        res.push(data[i] ^ k);
        i = i + 1;
        assert(res@ =~= xor_with_key(data@.take(i as int)));
    }
    assert(data@.take(i as int) =~= data@);
    res
}

/// Applying the cipher twice gives back the original bytes.
pub proof fn lemma_xor_crypt_involution(data: Seq<u8>)
    ensures
        xor_with_key(xor_with_key(data)) == data,
{
    let once = xor_with_key(data);
    let twice = xor_with_key(once);
    assert forall|i: int| 0 <= i < data.len() implies twice[i] == data[i] by {
        let b = data[i];
        let k = SESSION_XOR_KEY@[i % 65];
        assert((b ^ k) ^ k == b) by (bit_vector);
    }
    assert(twice =~= data);
}

/// `String::from_utf8`: the text the bytes encode, when they are valid UTF-8.
#[verifier::external_body]
fn string_from_utf8(bytes: Vec<u8>) -> (r: Option<String>)
    ensures
        r is Some <==> valid_utf8(bytes@),
        r matches Some(s) ==> s@ == decode_utf8(bytes@),
{
    String::from_utf8(bytes).ok()
}

/// The bytes stored for a capture-session token: its UTF-8 form run through the cipher
/// (no bytes when there is no token).
pub open spec fn stored_token_bytes(token: Option<Seq<char>>) -> Seq<u8> {
    match token {
        Some(t) => xor_with_key(encode_utf8(t)),
        None => xor_with_key(Seq::empty()),
    }
}

/// Obfuscate a capture-session token for storage.
pub fn encode_session_token(token: Option<String>) -> (r: Vec<u8>)
    ensures
        r@ == stored_token_bytes(match token {
            Some(t) => Some(t@),
            None => None,
        }),
{
    match token {
        Some(t) => xor_crypt(t.as_str().as_bytes()),
        None => {
            let empty: Vec<u8> = Vec::new();
            xor_crypt(empty.as_slice())
        },
    }
}

/// Recover a stored capture-session token; `None` when the stored bytes do not decode to
/// text (a corrupted file).
pub fn decode_session_token(stored: &[u8]) -> (r: Option<String>)
    ensures
        r is Some <==> valid_utf8(xor_with_key(stored@)),
        r matches Some(t) ==> t@ == decode_utf8(xor_with_key(stored@)),
{
    let plain = xor_crypt(stored);
    string_from_utf8(plain)
}

/// A stored token reads back as the token that was stored.
pub proof fn lemma_session_token_roundtrip(token: Seq<char>)
    ensures
        valid_utf8(xor_with_key(stored_token_bytes(Some(token)))),
        decode_utf8(xor_with_key(stored_token_bytes(Some(token)))) == token,
{
    lemma_xor_crypt_involution(encode_utf8(token));
    vstd::utf8::encode_utf8_valid_utf8(token);
    vstd::utf8::encode_utf8_decode_utf8(token);
}

} // verus!
