//! Credentials: the text `<application id>:<hex digest>`, how a new one is made and how
//! a presented one is read.

use crate::clock::unix_millis;
use crate::db::UserId;
use crate::text::{
    chars_of, decimal, digit_char, find_char, find_from, is_digit, lemma_decimal_reads_back,
    lemma_find_from, parse_unsigned, push_decimal, unsigned_value,
};
use blake2::digest::consts::U16;
use blake2::{Blake2s, Digest};
use vstd::prelude::*;
use vstd::utf8::encode_utf8;

verus! {

/// The BLAKE2s digest of `input` with an output of 16 bytes.
pub uninterp spec fn blake2s_128(input: Seq<u8>) -> Seq<u8>;

/// `blake2::Blake2s::<U16>::digest`: the 16-byte BLAKE2s digest of `input`, a function
/// of the input bytes alone. The length is that of the output type.
#[verifier::external_body]
fn blake2s_digest(input: &[u8]) -> (digest: Vec<u8>)
    ensures
        digest@ == blake2s_128(input@),
        digest@.len() == 16,
{
    Blake2s::<U16>::digest(input).to_vec()
}

/// The lower-case character of one hexadecimal digit.
pub open spec fn hex_digit(d: nat) -> char {
    if d < 10 {
        digit_char(d)
    } else if d == 10 {
        'a'
    } else if d == 11 {
        'b'
    } else if d == 12 {
        'c'
    } else if d == 13 {
        'd'
    } else if d == 14 {
        'e'
    } else {
        'f'
    }
}

/// The lower-case hexadecimal text of `data`: two digits for each byte, high half first.
pub open spec fn hex_text(data: Seq<u8>) -> Seq<char> {
    Seq::new(
        2 * data.len(),
        |i: int|
            if i % 2 == 0 {
                hex_digit((data[i / 2] / 16) as nat)
            } else {
                hex_digit((data[i / 2] % 16) as nat)
            },
    )
}

/// `hex::encode`: each byte of `data` becomes two lower-case hexadecimal digits, the
/// high half first, in the order of the bytes.
#[verifier::external_body]
fn hex_encode(data: &[u8]) -> (text: String)
    ensures
        text@ == hex_text(data@),
{
    hex::encode(data)
}

/// The text that is hashed for a credential: the user's number, then the time in
/// milliseconds, both in decimal and with nothing between them.
pub open spec fn digest_input(user: u64, millis: u128) -> Seq<char> {
    decimal(user as nat) + decimal(millis as nat)
}

/// The credential of application `app_id`, issued to `user` at `millis` milliseconds
/// after the Unix epoch.
pub open spec fn token_text(app_id: u32, user: u64, millis: u128) -> Seq<char> {
    decimal(app_id as nat) + seq![':'] + hex_text(
        blake2s_128(encode_utf8(digest_input(user, millis))),
    )
}

/// Why a presented credential could not be read.
#[derive(Clone, Copy, Debug, PartialEq, Eq)]
pub enum CredentialError {
    /// The text holds no colon.
    MissingSeparator,
    /// What stands before the first colon is no unsigned number of 64 bits.
    InvalidId,
}

/// What reading the credential `text` gives: the application id before the first colon.
pub open spec fn credential_id(text: Seq<char>) -> Result<u64, CredentialError> {
    let colon = find_from(text, ':', 0);
    if colon >= text.len() {
        Err(CredentialError::MissingSeparator)
    } else {
        match unsigned_value(text.subrange(0, colon), u64::MAX as nat) {
            Some(id) => Ok(id as u64),
            None => Err(CredentialError::InvalidId),
        }
    }
}

/// Makes the credential of application `app_id` for the user `id` at the time `millis`.
pub fn generate_token_at(app_id: u32, id: &UserId, millis: u128) -> (token: String)
    ensures
        token@ == token_text(app_id, id.0, millis),
        token@.len() == decimal(app_id as nat).len() + 33,
{
    let mut input = String::new();
    push_decimal(&mut input, id.0 as u128);
    push_decimal(&mut input, millis);
    assert(input@ =~= digest_input(id.0, millis));
    let digest = blake2s_digest(input.as_str().as_bytes());
    let mut token = String::new();
    push_decimal(&mut token, app_id as u128);
    proof {
        reveal_strlit(":");
    }
    token.append(":");
    let hex = hex_encode(digest.as_slice());
    token.append(hex.as_str());
    assert(token@ =~= token_text(app_id, id.0, millis));
    token
}

/// Makes the credential of application `app_id` for the user `id`, at the time that the
/// system clock shows.
pub fn generate_token(app_id: u32, id: &UserId) -> (token: String)
    ensures
        exists|millis: u128| token@ == #[trigger] token_text(app_id, id.0, millis),
        token@.len() == decimal(app_id as nat).len() + 33,
        credential_id(token@) == Ok::<u64, CredentialError>(app_id as u64),
{
    let millis = unix_millis();
    let token = generate_token_at(app_id, id, millis);
    proof {
        lemma_token_names_its_application(app_id, id.0, millis);
    }
    token
}

/// Reads the application id of a presented credential.
pub fn parse_credential(credential: &str) -> (id: Result<u64, CredentialError>)
    ensures
        id == credential_id(credential@),
{
    let chars = chars_of(credential);
    let colon = find_char(&chars, ':', 0);
    if colon >= chars.len() {
        return Err(CredentialError::MissingSeparator);
    }
    match parse_unsigned(&chars, 0, colon, u64::MAX) {
        Some(id) => Ok(id),
        None => Err(CredentialError::InvalidId),
    }
}

/// A credential reads back as the id of the application that it was made for,
/// whoever the user and whatever the time.
pub proof fn lemma_token_names_its_application(app_id: u32, user: u64, millis: u128)
    ensures
        credential_id(token_text(app_id, user, millis)) == Ok::<u64, CredentialError>(
            app_id as u64,
        ),
{
    let text = token_text(app_id, user, millis);
    let id = decimal(app_id as nat);
    lemma_decimal_reads_back(app_id as nat);
    lemma_find_from(text, ':', 0);
    let colon = find_from(text, ':', 0);
    assert(text[id.len() as int] == ':');
    assert forall|j: int| 0 <= j < id.len() implies text[j] != ':' by {
        assert(text[j] == id[j]);
        assert(is_digit(id[j]));
    }
    assert(colon == id.len());
    assert(text.subrange(0, colon) =~= id);
}

} // verus!
