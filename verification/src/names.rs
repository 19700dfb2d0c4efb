//! The names under which files travel when a transfer is encrypted.
//!
//! The relative path of a file is encrypted, and the ciphertext is written in
//! the URL-safe base64 alphabet, which holds no path separator, so that it can
//! serve as the name of one flat file. The cipher itself is not part of this
//! crate: these functions take and give the bytes that go through it.

use crate::paths::{file_name, file_name_of, lemma_file_name_of_stored};
use crate::structs::TransferError;
use vstd::prelude::*;
use vstd::utf8::{decode_utf8, encode_utf8, valid_utf8};

verus! {

/// The padded URL-safe base64 text of `bytes`, as the `base64` crate writes it.
pub uninterp spec fn url_safe_base64(bytes: Seq<u8>) -> Seq<char>;

/// The bytes that the `base64` crate reads from padded URL-safe base64 text,
/// or `None` where it rejects the text.
pub uninterp spec fn url_safe_base64_decoded(text: Seq<char>) -> Option<Seq<u8>>;

/// `base64::DecodeError`, the error of the `base64` crate's decoder. Nothing
/// is claimed of what it holds.
#[verifier::external_type_specification]
#[verifier::external_body]
pub struct ExDecodeError(base64::DecodeError);

/// Whether `c` belongs to the URL-safe base64 alphabet or is its padding sign.
pub open spec fn is_url_safe_char(c: char) -> bool {
    ('A' <= c <= 'Z') || ('a' <= c <= 'z') || ('0' <= c <= '9') || c == '-' || c == '_' || c == '='
}

/// Number of characters of the padded base64 text of `len` bytes.
pub open spec fn base64_len(len: nat) -> nat {
    4 * ((len + 2) / 3)
}

/// Whether the text form of `len` bytes can be held in memory.
pub open spec fn fits_text_form(len: nat) -> bool {
    (len / 3) * 4 + 4 <= usize::MAX
}

/// `base64::Engine::encode` on the engine `URL_SAFE`. The contract claims
/// that the result is the padded URL-safe base64 text of `bytes`: characters
/// of the URL-safe alphabet and `=` only, four for every three bytes begun,
/// which the same engine decodes to `bytes` again. Longer inputs than
/// `requires` admits make the crate panic on the size of its buffer.
#[verifier::external_body]
fn base64_encode(bytes: &[u8]) -> (text: String)
    requires
        fits_text_form(bytes@.len()),
    ensures
        text@ == url_safe_base64(bytes@),
        url_safe_base64_decoded(text@) == Some(bytes@),
        text@.len() == base64_len(bytes@.len()),
        forall|i: int| 0 <= i < text@.len() ==> is_url_safe_char(#[trigger] text@[i]),
{
    base64::Engine::encode(&base64::engine::general_purpose::URL_SAFE, bytes)
}

/// `base64::Engine::decode` on the engine `URL_SAFE`. The contract claims
/// that the outcome depends on the text alone: the bytes that the text stands
/// for, or an error where the crate rejects it.
#[verifier::external_body]
fn base64_decode(text: &str) -> (r: Result<Vec<u8>, base64::DecodeError>)
    ensures
        match r {
            Ok(bytes) => url_safe_base64_decoded(text@) == Some(bytes@),
            Err(_) => url_safe_base64_decoded(text@) is None,
        },
{
    base64::Engine::decode(&base64::engine::general_purpose::URL_SAFE, text)
}

/// `std::str::from_utf8`. The contract claims that it succeeds on valid
/// UTF-8 and on nothing else, and that the string then holds the characters
/// that the bytes encode.
#[verifier::external_body]
pub(crate) fn str_from_utf8(bytes: &[u8]) -> (r: Option<&str>)
    ensures
        match r {
            Some(s) => valid_utf8(bytes@) && s@ == decode_utf8(bytes@),
            None => !valid_utf8(bytes@),
        },
{
    match std::str::from_utf8(bytes) {
        Ok(s) => Some(s),
        Err(_) => None,
    }
}

/// The name under which a file travels whose encrypted relative path is
/// `cipher`: a separator, then the text form of `cipher`.
pub open spec fn encoded_name(cipher: Seq<u8>) -> Seq<char> {
    seq!['/'] + url_safe_base64(cipher)
}

/// The encrypted relative path that the name of the stored file `path` stands
/// for, or `None` where its last component is not the text form of any bytes.
pub open spec fn stored_name_bytes(path: Seq<char>) -> Option<Seq<u8>> {
    url_safe_base64_decoded(file_name_of(path))
}

/// The bytes of a relative path that are handed to the cipher: its UTF-8 form.
pub fn name_plaintext(relative_path: &str) -> (bytes: Vec<u8>)
    ensures
        bytes@ == encode_utf8(relative_path@),
{
    relative_path.as_bytes_vec()
}

/// The name under which a file travels whose encrypted relative path is
/// `cipher`, or `None` when `cipher` is too long for its text form to be held
/// in memory. Stored under any directory, the name gives `cipher` back.
pub fn encode_name(cipher: &[u8]) -> (r: Option<String>)
    ensures
        r is Some <==> fits_text_form(cipher@.len()),
        r matches Some(name) ==> {
            &&& name@ == encoded_name(cipher@)
            &&& name@.len() == 1 + base64_len(cipher@.len())
            &&& forall|i: int| 1 <= i < name@.len() ==> is_url_safe_char(#[trigger] name@[i])
            &&& forall|dir: Seq<char>| #[trigger]
                stored_name_bytes(dir + name@) == Some(cipher@)
        },
{
    if cipher.len() / 3 > (usize::MAX - 4) / 4 {
        return None;
    }
    let text = base64_encode(cipher);
    let name = String::from_str("/").concat(text.as_str());
    proof {
        reveal_strlit("/");
        assert("/"@ =~= seq!['/']);
        assert(name@ =~= encoded_name(cipher@));
        assert forall|dir: Seq<char>| #[trigger]
            stored_name_bytes(dir + name@) == Some(cipher@) by {
            lemma_file_name_of_stored(dir, text@);
            assert(dir + name@ =~= dir + seq!['/'] + text@);
        }
    }
    Some(name)
}

/// The encrypted relative path that the name of the stored file `path` stands
/// for: its last component, read as URL-safe base64.
pub fn decode_name(path: &str) -> (r: Result<Vec<u8>, TransferError>)
    ensures
        match r {
            Ok(cipher) => stored_name_bytes(path@) == Some(cipher@),
            Err(e) => e == TransferError::InvalidName && stored_name_bytes(path@) is None,
        },
{
    let name = file_name(path);
    match base64_decode(name.as_str()) {
        Ok(cipher) => Ok(cipher),
        Err(_) => Err(TransferError::InvalidName),
    }
}

/// The relative path that decrypted name bytes spell, where they are UTF-8.
pub fn name_from_plaintext(bytes: &[u8]) -> (r: Result<String, TransferError>)
    ensures
        match r {
            Ok(path) => valid_utf8(bytes@) && path@ == decode_utf8(bytes@),
            Err(e) => e == TransferError::NotUtf8 && !valid_utf8(bytes@),
        },
{
    match str_from_utf8(bytes) {
        Some(path) => Ok(path.to_owned()),
        None => Err(TransferError::NotUtf8),
    }
}

/// A relative path is read back from the bytes that were handed to the cipher
/// for it.
pub proof fn lemma_name_plaintext_round_trip(relative_path: Seq<char>)
    ensures
        valid_utf8(encode_utf8(relative_path)),
        decode_utf8(encode_utf8(relative_path)) == relative_path,
{
    vstd::utf8::encode_utf8_valid_utf8(relative_path);
    vstd::utf8::encode_utf8_decode_utf8(relative_path);
}

} // verus!
