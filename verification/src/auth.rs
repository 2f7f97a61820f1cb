//! The auth gate: a shared-secret check on one request header.
//!
//! Each direction derives its expected credential from the pre-shared
//! token with its own formatting rule — `Token <token>` in the
//! `authorization` header for outbound subscribers, `auth-<token>` in
//! the websocket subprotocol header for inbound publishers. The comparison
//! accepts exactly a present header whose value equals the expected
//! credential; a missing header and a mismatched value reach the same
//! failure, `InvalidToken`. No state, no attempt tracking.

use vstd::prelude::*;

verus! {

/// The error taxonomy of the HTTP surface.
#[derive(Copy, Clone, Debug, PartialEq, Eq, Structural)]
pub enum HttpError {
    /// The auth header was missing or did not match: surfaced as 401.
    InvalidToken,
    /// Reserved for future exclusive-publisher enforcement: surfaced as
    /// 409. No current path produces it.
    Conflict,
}

/// The credential the outbound gate expects in the `authorization`
/// header: `Token <token>`.
pub open spec fn authorization_credential(token: Seq<char>) -> Seq<char> {
    "Token "@ + token
}

/// The credential the inbound gate expects in the websocket subprotocol
/// header: `auth-<token>`.
pub open spec fn subprotocol_credential(token: Seq<char>) -> Seq<char> {
    "auth-"@ + token
}

/// Builds the expected `authorization` header value for `token`.
pub fn authorization_auth(token: &str) -> (credential: String)
    ensures
        credential@ == authorization_credential(token@),
{
    let mut credential = String::from_str("Token ");
    credential.append(token);
    credential
}

/// Builds the expected subprotocol header value for `token`.
pub fn subprotocol_auth(token: &str) -> (credential: String)
    ensures
        credential@ == subprotocol_credential(token@),
{
    let mut credential = String::from_str("auth-");
    credential.append(token);
    credential
}

/// The auth check itself: accepts if and only if the header is present and its
/// value equals the expected credential exactly. Absence and mismatch
/// take the same failure path.
pub fn header_auth(header: Option<&String>, expected: &String) -> (outcome: Result<
    (),
    HttpError,
>)
    ensures
        outcome is Ok <==> (header matches Some(value) && value@ == expected@),
        outcome is Err ==> outcome == Err::<(), HttpError>(HttpError::InvalidToken),
{
    match header {
        Some(value) => if value.eq(expected) {
            Ok(())
        } else {
            Err(HttpError::InvalidToken)
        },
        None => Err(HttpError::InvalidToken),
    }
}

/// Maps an error of the taxonomy to its HTTP status and body.
pub fn rejection_handler(error: HttpError) -> (response: (u16, String))
    ensures
        error == HttpError::InvalidToken ==> response.0 == 401 && response.1@
            == "Invalid token provided"@,
        error == HttpError::Conflict ==> response.0 == 409 && response.1@
            == "Another client connected"@,
{
    match error {
        HttpError::InvalidToken => (401, String::from_str("Invalid token provided")),
        HttpError::Conflict => (409, String::from_str("Another client connected")),
    }
}

/// A value that differs from the expected credential in even a single
/// position is not the credential, so it is rejected.
pub proof fn lemma_gate_rejects_near_miss(value: Seq<char>, expected: Seq<char>, i: int)
    requires
        0 <= i < value.len(),
        value.len() == expected.len(),
        value[i] != expected[i],
    ensures
        value != expected,
{
}

/// Both formatting rules prefix the token, so neither expected
/// credential is ever empty: an empty header value never passes.
pub proof fn lemma_credentials_nonempty(token: Seq<char>)
    ensures
        authorization_credential(token).len() > 0,
        subprotocol_credential(token).len() > 0,
{
    reveal_strlit("Token ");
    reveal_strlit("auth-");
}

} // verus!
