//! Who may use the interface over TCP: whoever knows the token.
use base64::Engine;
use subtle::ConstantTimeEq;
use vstd::prelude::*;

use crate::text::{strip_prefix, u64_to_string};
use crate::util::util::generate_random_bytes;
use crate::wire::Status;

verus! {

/// The error of `base64` for a text that encodes no bytes.
#[verifier::external_type_specification]
#[verifier::external_body]
pub struct ExBase64DecodeError(base64::DecodeError);

/// The text that stands for bytes in base64, in the standard alphabet with padding.
pub uninterp spec fn base64_text(bytes: Seq<u8>) -> Seq<char>;

/// The bytes that a text stands for in base64, in the standard alphabet with padding.
pub uninterp spec fn base64_bytes(text: Seq<char>) -> Option<Seq<u8>>;

/// `Engine::encode` of the standard engine of `base64`. The text stands for the bytes.
#[verifier::external_body]
fn encode_base64(bytes: &Vec<u8>) -> (r: String)
    ensures
        r@ == base64_text(bytes@),
        base64_bytes(r@) == Some(bytes@),
{
    base64::engine::general_purpose::STANDARD.encode(bytes)
}

/// `Engine::decode` of the standard engine of `base64`.
#[verifier::external_body]
fn decode_base64(text: &str) -> (r: Result<Vec<u8>, base64::DecodeError>)
    ensures
        match r {
            Ok(bytes) => base64_bytes(text@) == Some(bytes@),
            Err(_) => base64_bytes(text@) is None,
        },
{
    base64::engine::general_purpose::STANDARD.decode(text)
}

/// `ConstantTimeEq::ct_eq` of `subtle` on slices: whether they are the same, found out in a time
/// that does not tell where they differ.
#[verifier::external_body]
fn is_equal_in_constant_time(a: &Vec<u8>, b: &Vec<u8>) -> (r: bool)
    ensures
        r == (a@ == b@),
{
    a.as_slice().ct_eq(b.as_slice()).unwrap_u8() == 1
}

/// The length of a token in bytes.
pub const TOKEN_LENGTH: usize = 32;

/// Lets requests pass that present the token.
#[derive(Debug)]
pub struct BearerAuth {
    token: Vec<u8>,
}

/// Why a request with the given authorization is refused, if it is.
pub open spec fn refusal(token: Seq<u8>, authorization: Option<Seq<char>>) -> Option<Seq<char>> {
    match authorization {
        None => Some("missing authorization"@),
        Some(header) => if !"Bearer "@.is_prefix_of(header) {
            Some("bad authorization scheme"@)
        } else {
            match base64_bytes(header.skip("Bearer "@.len() as int)) {
                None => Some("bad token encoding"@),
                Some(presented) => if presented == token {
                    None
                } else {
                    Some("invalid token"@)
                },
            }
        },
    }
}

impl BearerAuth {
    pub closed spec fn token(&self) -> Seq<u8> {
        self.token@
    }

    /// Checks the authorization that a request presents.
    pub fn authenticate(&self, authorization: Option<&str>) -> (r: Result<(), Status>)
        ensures
            match (r, refusal(
                self.token(),
                match authorization {
                    Some(header) => Some(header@),
                    None => None,
                },
            )) {
                (Ok(()), None) => true,
                (Err(status), Some(message)) => status.is_unauthenticated(message),
                _ => false,
            },
    {
        let header = match authorization {
            Some(header) => header,
            None => return Err(Status::unauthenticated("missing authorization".to_owned())),
        };
        let encoded = match strip_prefix(header, "Bearer ") {
            Some(encoded) => encoded,
            None => return Err(Status::unauthenticated("bad authorization scheme".to_owned())),
        };
        let presented = match decode_base64(encoded) {
            Ok(presented) => presented,
            Err(_) => return Err(Status::unauthenticated("bad token encoding".to_owned())),
        };
        if presented.len() != self.token.len() {
            return Err(Status::unauthenticated("invalid token".to_owned()));
        }
        if !is_equal_in_constant_time(&presented, &self.token) {
            return Err(Status::unauthenticated("invalid token".to_owned()));
        }
        Ok(())
    }
}

/// A new token, and the text that clients present for it. Whoever presents it is let pass.
pub fn bearer_auth_interceptor() -> (r: (BearerAuth, String))
    ensures
        r.0.token().len() == TOKEN_LENGTH,
        crate::util::util::are_drawn(r.0.token()),
        r.1@ == base64_text(r.0.token()),
        refusal(r.0.token(), Some("Bearer "@ + r.1@)) is None,
{
    let token = generate_random_bytes(TOKEN_LENGTH);
    let token_string = encode_base64(&token);
    assert("Bearer "@.is_prefix_of("Bearer "@ + token_string@));
    assert(("Bearer "@ + token_string@).skip("Bearer "@.len() as int) =~= token_string@);
    (BearerAuth { token }, token_string)
}

/// What is written for clients of this machine: the port and the token.
pub fn api_server_config(port: u16, token_string: &str) -> (r: String)
    ensures
        r@ == crate::text::decimal(port as nat) + ":"@ + token_string@,
{
    u64_to_string(port as u64).concat(":").concat(token_string)
}

/// A request is let pass exactly where its authorization is that of a bearer, and what follows is a
/// text that stands for the token, for all of it and nothing else.
pub proof fn law_only_the_token_lets_pass(token: Seq<u8>, authorization: Option<Seq<char>>)
    ensures
        refusal(token, authorization) is None <==> exists|text: Seq<char>|
            {
                &&& authorization == Some("Bearer "@ + text)
                &&& #[trigger] base64_bytes(text) == Some(token)
            },
        authorization is None ==> refusal(token, authorization) == Some("missing authorization"@),
{
    if let Some(header) = authorization {
        let scheme = "Bearer "@;
        if scheme.is_prefix_of(header) {
            let text = header.skip(scheme.len() as int);
            assert(header =~= scheme + text);
            if base64_bytes(text) == Some(token) {
                assert(authorization == Some(scheme + text));
            }
        }
        assert forall|text: Seq<char>|
            header == scheme + text && #[trigger] base64_bytes(text) == Some(
                token,
            ) implies refusal(token, authorization) is None by {
            assert(scheme.is_prefix_of(header));
            assert(header.skip(scheme.len() as int) =~= text);
        }
    }
}

/// Whoever presents the text that belongs to a new token is let pass, and the token has thirty-two
/// bytes.
pub proof fn law_new_tokens_let_pass(auth: BearerAuth, text: String)
    requires
        call_ensures(bearer_auth_interceptor, (), (auth, text)),
    ensures
        auth.token().len() == 32,
        refusal(auth.token(), Some("Bearer "@ + text@)) is None,
{
}

} // verus!
