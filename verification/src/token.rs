//! Access tokens: how one is made for a user, and how the text that a
//! client sends is turned back into one.

use base64::engine::general_purpose::STANDARD_NO_PAD;
use base64::Engine;
use blake2::Blake2b512;
use blake2::Digest;
use crate::errors::ApiError;
use crate::random::{first_bytes, random_block};
use vstd::prelude::*;
use vstd::string::StringSliceAdditionalSpecFns;

verus! {

/// Length in bytes of a token.
pub const TOKEN_LENGTH: usize = 64;

/// Length in bytes of the random part that goes into a token.
pub const SALT_LENGTH: usize = 16;

/// The BLAKE2b-512 digest of a message.
pub uninterp spec fn blake2b512(message: Seq<u8>) -> Seq<u8>;

/// The sixteen bytes of an identity, the highest first.
pub open spec fn identity_bytes(user: u128) -> Seq<u8> {
    Seq::new(16, |i: int| ((user >> ((15 - i) * 8) as u128) & 0xff) as u8)
}

/// The message that a token is the digest of: the bytes of the name, the
/// sixteen bytes of the user's identity, the bytes of the server
/// identifier and the salt, in this order.
pub open spec fn token_message(username: Seq<u8>, user: u128, server_id: Seq<u8>, salt: Seq<u8>) -> Seq<
    u8,
> {
    username + identity_bytes(user) + server_id + salt
}

/// The text of bytes in Base64 with the standard alphabet and no padding.
pub uninterp spec fn base64_text(bytes: Seq<u8>) -> Seq<char>;

/// The bytes that a text in Base64 with the standard alphabet and no
/// padding stands for, where it is such a text.
pub uninterp spec fn base64_bytes(text: Seq<u8>) -> Option<Seq<u8>>;

/// `Digest::digest` of `Blake2b512`: the digest of the message. It has
/// sixty-four bytes.
#[verifier::external_body]
fn digest_message(message: &Vec<u8>) -> (digest: Vec<u8>)
    ensures
        digest@ == blake2b512(message@),
        digest@.len() == TOKEN_LENGTH,
{
    Blake2b512::digest(message).to_vec()
}

/// Puts `bytes` behind what `message` holds.
fn append_bytes(message: &mut Vec<u8>, bytes: &[u8])
    ensures
        final(message)@ == old(message)@ + bytes@,
{
    let mut i: usize = 0;
    assert(message@ =~= old(message)@ + bytes@.subrange(0, 0));
    while i < bytes.len()
        invariant
            i <= bytes.len(),
            message@ == old(message)@ + bytes@.subrange(0, i as int),
        decreases bytes.len() - i,
    {
        message.push(bytes[i]);
        assert(message@ =~= old(message)@ + bytes@.subrange(0, i + 1));
        i = i + 1;
    }
    assert(bytes@.subrange(0, i as int) =~= bytes@);
}

/// Puts the sixteen bytes of an identity, the highest first, behind what
/// `message` holds.
fn append_identity(message: &mut Vec<u8>, user: u128)
    ensures
        final(message)@ == old(message)@ + identity_bytes(user),
{
    let mut i: u32 = 0;
    assert(message@ =~= old(message)@ + identity_bytes(user).subrange(0, 0));
    while i < 16
        invariant
            i <= 16,
            message@ == old(message)@ + identity_bytes(user).subrange(0, i as int),
        decreases 16 - i,
    {
        let shift: u32 = (15 - i) * 8;
        let byte = ((user >> shift) & 0xff) as u8;
        message.push(byte);
        assert(byte == identity_bytes(user)[i as int]);
        assert(message@ =~= old(message)@ + identity_bytes(user).subrange(0, i + 1));
        i = i + 1;
    }
    assert(identity_bytes(user).subrange(0, 16) =~= identity_bytes(user));
}

/// `Engine::encode` of `STANDARD_NO_PAD`: the bytes written in Base64.
#[verifier::external_body]
fn encode_base64(bytes: &Vec<u8>) -> (text: String)
    ensures
        text@ == base64_text(bytes@),
{
    STANDARD_NO_PAD.encode(bytes)
}

/// `Engine::decode` of `STANDARD_NO_PAD`: the bytes that the text stands
/// for, or nothing where it is not Base64 without padding.
#[verifier::external_body]
fn decode_base64(text: &[u8]) -> (bytes: Option<Vec<u8>>)
    ensures
        match bytes {
            Some(decoded) => base64_bytes(text@) == Some(decoded@),
            None => base64_bytes(text@) is None,
        },
{
    match STANDARD_NO_PAD.decode(text) {
        Ok(decoded) => Some(decoded),
        Err(_) => None,
    }
}

/// A token: the bytes that are stored and the text that the client gets.
#[derive(Clone, Debug, PartialEq, Eq)]
pub struct AccessToken {
    pub bytes: Vec<u8>,
    pub text: String,
}

impl AccessToken {
    /// The message that the token of a claim is the digest of.
    pub fn message(username: &str, user: u128, server_id: &str, salt: &Vec<u8>) -> (r: Vec<u8>)
        ensures
            r@ == token_message(username.spec_bytes(), user, server_id.spec_bytes(), salt@),
    {
        let mut message: Vec<u8> = Vec::new();
        append_bytes(&mut message, username.as_bytes());
        append_identity(&mut message, user);
        append_bytes(&mut message, server_id.as_bytes());
        append_bytes(&mut message, salt.as_slice());
        assert(message@ =~= token_message(
            username.spec_bytes(),
            user,
            server_id.spec_bytes(),
            salt@,
        ));
        message
    }

    /// The token that the salt gives for the claim of a user.
    pub fn derive(username: &str, user: u128, server_id: &str, salt: &Vec<u8>) -> (r: AccessToken)
        ensures
            r.bytes@ == blake2b512(
                token_message(username.spec_bytes(), user, server_id.spec_bytes(), salt@),
            ),
            r.bytes@.len() == TOKEN_LENGTH,
            r.text@ == base64_text(r.bytes@),
    {
        let message = AccessToken::message(username, user, server_id, salt);
        let bytes = digest_message(&message);
        let text = encode_base64(&bytes);
        AccessToken { bytes, text }
    }

    /// A token for the claim of a user, from a salt drawn at random. It is
    /// the token that `derive` gives for some salt of full length.
    pub fn fresh(username: &str, user: u128, server_id: &str) -> (r: AccessToken)
        ensures
            exists|salt: Seq<u8>|
                salt.len() == SALT_LENGTH && r.bytes@ == blake2b512(
                    #[trigger] token_message(
                        username.spec_bytes(),
                        user,
                        server_id.spec_bytes(),
                        salt,
                    ),
                ),
            r.bytes@.len() == TOKEN_LENGTH,
            r.text@ == base64_text(r.bytes@),
    {
        let salt = first_bytes(&random_block(), SALT_LENGTH);
        AccessToken::derive(username, user, server_id, &salt)
    }

    /// The bytes of the token that a request carries in its authorization
    /// header. A request without the header, or with one that is no Base64
    /// without padding, is not authorized.
    pub fn of_request(header: Option<&[u8]>) -> (r: Result<Vec<u8>, ApiError>)
        ensures
            match r {
                Ok(bytes) => header matches Some(text) && base64_bytes(text@) == Some(bytes@),
                Err(e) => e == ApiError::Unauthorized && (header matches Some(text)
                    ==> base64_bytes(text@) is None),
            },
    {
        match header {
            None => Err(ApiError::Unauthorized),
            Some(text) => match decode_base64(text) {
                Some(bytes) => Ok(bytes),
                None => Err(ApiError::Unauthorized),
            },
        }
    }

    /// The bytes of the token that a client sent as text, or nothing where
    /// the text is no Base64 without padding.
    pub fn of_header(text: &[u8]) -> (r: Option<Vec<u8>>)
        ensures
            match r {
                Some(bytes) => base64_bytes(text@) == Some(bytes@),
                None => base64_bytes(text@) is None,
            },
    {
        decode_base64(text)
    }
}

} // verus!
