//! The auth gate: a per-process bearer token guards every endpoint except
//! the liveness probe.
//!
//! The token is generated once at startup from 128 bits of randomness and
//! rendered as 32 lowercase hex digits. Comparison walks both strings to
//! the end instead of stopping at the first differing character; only the
//! length check can exit early, which leaks no more than the length of a
//! fixed-length token.

use vstd::prelude::*;

use crate::BridgeError;
use crate::hex::{hex32, is_hex_char, lemma_hex_seq_wf};

verus! {

/// The one path the auth gate exempts.
pub open spec fn health_path() -> Seq<char> {
    "/health"@
}

/// Relies on `rand::random`: a value drawn from the thread-local
/// generator, 128 bits of entropy. Nothing is assumed of the value.
#[verifier::external_body]
fn random_u128() -> u128 {
    rand::random::<u128>()
}

/// Generate the process's auth token: 128 random bits as 32 lowercase hex
/// digits.
pub fn generate_auth_token() -> (r: String)
    ensures
        r@.len() == 32,
        forall|i: int| 0 <= i < r@.len() ==> is_hex_char(#[trigger] r@[i]),
{
    let t = random_u128();
    proof {
        lemma_hex_seq_wf(t as int, 32);
    }
    hex32(t)
}

/// Token comparison that does not stop at the first differing character:
/// every index is visited and a mismatch flag is accumulated. Only a
/// length difference exits early.
pub fn token_matches(expected: &str, provided: &str) -> (r: bool)
    ensures
        r == (expected@ == provided@),
{
    let n = expected.unicode_len();
    if provided.unicode_len() != n {
        proof {
            assert(expected@ != provided@);
        }
        return false;
    }
    let mut differs = false;
    let mut i: usize = 0;
    while i < n
        invariant
            i <= n,
            differs == exists|k: int| 0 <= k < i && expected@[k] != provided@[k],
        decreases n - i,
    {
        if expected.get_char(i) != provided.get_char(i) {
            differs = true;
        }
        i += 1;
    }
    proof {
        if !differs {
            assert(expected@ =~= provided@);
        }
    }
    !differs
}

/// Allowed requests: the liveness probe, and any other request whose
/// provided token (missing means empty) matches the expected token.
pub open spec fn auth_allows(
    path: Seq<char>,
    expected: Seq<char>,
    provided: Option<Seq<char>>,
) -> bool {
    ||| path == health_path()
    ||| match provided {
        Some(p) => p == expected,
        None => ""@ == expected,
    }
}

/// Gate one request: `path` is the endpoint, `provided` the token header
/// if the request carried one. Denial is a bare `Unauthorized` with no
/// hint of why the token was wrong.
pub fn check_request(path: &str, expected: &str, provided: Option<&str>) -> (r: Result<
    (),
    BridgeError,
>)
    ensures
        r is Ok <==> auth_allows(
            path@,
            expected@,
            match provided {
                Some(p) => Some(p@),
                None => None,
            },
        ),
        r is Err ==> r == Err::<(), BridgeError>(BridgeError::Unauthorized),
{
    if crate::strutil::str_eq(path, "/health") {
        return Ok(());
    }
    let given = match provided {
        Some(p) => p,
        None => "",
    };
    if token_matches(expected, given) {
        Ok(())
    } else {
        Err(BridgeError::Unauthorized)
    }
}

/// A request to a non-health endpoint with a missing or wrong token is
/// refused, and a request to the health endpoint passes with no token at
/// all.
pub proof fn lemma_auth_gate(path: Seq<char>, expected: Seq<char>, provided: Option<Seq<char>>)
    ensures
        path != health_path() && (match provided {
            Some(p) => p != expected,
            None => ""@ != expected,
        }) ==> !auth_allows(path, expected, provided),
        auth_allows(health_path(), expected, None),
{
}

} // verus!
