//! Credential verification: the signed-token check, the shared-secret
//! frontend token, the temporary-token exchange outcome, and the ordered
//! chain that resolves a request to at most one identity.
//!
//! The two cryptographic primitives — RSA-SHA256 signature verification and
//! SHA-256 digests — are outside calls whose results are taken as functions
//! of their inputs; every decision built on them is proved here.

use vstd::prelude::*;

use crate::errors::{AuthError, DomainError};
use crate::events::opt_str_view;
use crate::models::UserId;
use crate::text::{first_index_of, query_param, query_param_str, starts_with, starts_with_str};

verus! {

/// The issuer a signed user token must name.
pub open spec fn spec_trusted_issuer() -> Seq<char> {
    "https://prod.augmentos.cloud"@
}

/// The claims this service reads out of a signed token.
#[derive(Debug, Clone)]
pub struct TokenClaims {
    pub iss: Option<String>,
    pub sub: Option<String>,
    pub exp: Option<i64>,
    pub iat: Option<i64>,
}

/// The ghost image of `TokenClaims`.
pub struct SpecClaims {
    pub iss: Option<Seq<char>>,
    pub sub: Option<Seq<char>>,
    pub exp: Option<i64>,
    pub iat: Option<i64>,
}

/// The ghost image of a claims record.
pub open spec fn claims_view(c: TokenClaims) -> SpecClaims {
    SpecClaims {
        iss: opt_str_view(c.iss),
        sub: opt_str_view(c.sub),
        exp: c.exp,
        iat: c.iat,
    }
}

/// What decoding a token against a public key yields: `None` for anything
/// whose RSA-SHA256 signature does not verify under that key, the token's
/// claims otherwise — a function of the two strings alone.
pub uninterp spec fn rs256_claims(token: Seq<char>, public_key_pem: Seq<char>) -> Option<
    SpecClaims,
>;

/// Relies on `jsonwebtoken::decode` restricted to RSA-SHA256: it accepts
/// exactly the tokens whose signature verifies under the given PEM key, and
/// hands back their claims. Expiry and claim presence are not checked here;
/// they are decided, and proved, downstream.
#[verifier::external_body]
fn decode_rs256(token: &str, public_key_pem: &str) -> (r: Option<TokenClaims>)
    ensures
        r is Some <==> rs256_claims(token@, public_key_pem@) is Some,
        r matches Some(c) ==> rs256_claims(token@, public_key_pem@) == Some(claims_view(c)),
{
    let key = jsonwebtoken::DecodingKey::from_rsa_pem(public_key_pem.as_bytes()).ok()?;
    let mut validation = jsonwebtoken::Validation::new(jsonwebtoken::Algorithm::RS256);
    validation.validate_exp = false;
    validation.required_spec_claims = std::collections::HashSet::new();
    let data = jsonwebtoken::decode::<serde_json::Value>(token, &key, &validation).ok()?;
    let c = data.claims;
    let text = |k: &str| c.get(k).and_then(|v| v.as_str()).map(|s| s.to_string());
    let num = |k: &str| c.get(k).and_then(|v| v.as_i64());
    Some(TokenClaims { iss: text("iss"), sub: text("sub"), exp: num("exp"), iat: num("iat") })
}

/// The identity a decoded token yields at time `now`: every required claim
/// present, the issuer trusted and the expiry in the future — or the one
/// error that names what failed.
pub open spec fn spec_subject_outcome(claims: Option<SpecClaims>, issuer: Seq<char>, now: i64) -> Result<
    Seq<char>,
    AuthError,
> {
    match claims {
        None => Err(AuthError::InvalidSignature),
        Some(c) => if c.iss is None || c.exp is None || c.iat is None || c.sub is None {
            Err(AuthError::MissingClaim)
        } else if c.iss->0 != issuer {
            Err(AuthError::InvalidSignature)
        } else if c.exp->0 <= now {
            Err(AuthError::Expired)
        } else {
            Ok(c.sub->0)
        },
    }
}

/// A token's claims yield its subject exactly when all four conditions
/// hold at once — the claims decoded, the issuer the trusted one, the expiry
/// in the future, and `iss`, `exp`, `iat`, `sub` all present; flipping any
/// one of them fails the verification.
pub proof fn lemma_signed_token_acceptance(claims: Option<SpecClaims>, issuer: Seq<char>, now: i64)
    ensures
        spec_subject_outcome(claims, issuer, now) is Ok <==> (claims matches Some(c) && ((
        c.iss matches Some(i) && i == issuer) && (c.exp matches Some(e) && e > now) && c.iat
            is Some && c.sub is Some)),
        spec_subject_outcome(claims, issuer, now) matches Ok(s) ==> claims->0.sub == Some(s),
{
}

/// Judge a decoded claims record at time `now` against the trusted issuer.
pub fn subject_from_claims(claims: Option<TokenClaims>, trusted_issuer: &str, now: i64) -> (r:
    Result<UserId, AuthError>)
    ensures
        match r {
            Ok(uid) => ({
                let o = spec_subject_outcome(
                    match claims {
                        Some(c) => Some(claims_view(c)),
                        None => None,
                    },
                    trusted_issuer@,
                    now,
                );
                o matches Ok(s) && uid.0@ == s
            }),
            Err(e) => spec_subject_outcome(
                match claims {
                    Some(c) => Some(claims_view(c)),
                    None => None,
                },
                trusted_issuer@,
                now,
            ) == Err::<Seq<char>, AuthError>(e),
        },
{
    let c = match claims {
        Some(c) => c,
        None => {
            return Err(AuthError::InvalidSignature);
        },
    };
    let iss = match c.iss {
        Some(s) => s,
        None => {
            return Err(AuthError::MissingClaim);
        },
    };
    let exp = match c.exp {
        Some(t) => t,
        None => {
            return Err(AuthError::MissingClaim);
        },
    };
    if c.iat.is_none() {
        return Err(AuthError::MissingClaim);
    }
    let sub = match c.sub {
        Some(s) => s,
        None => {
            return Err(AuthError::MissingClaim);
        },
    };
    if !crate::text::str_eq(iss.as_str(), trusted_issuer) {
        return Err(AuthError::InvalidSignature);
    }
    if exp <= now {
        return Err(AuthError::Expired);
    }
    Ok(UserId(sub))
}

/// Verify a signed user token at time `now`: decode it against the key, then
/// judge its claims against the fixed trusted issuer.
pub fn verify_signed_user_token(token: &str, public_key_pem: &str, now: i64) -> (r: Result<
    UserId,
    AuthError,
>)
    ensures
        match r {
            Ok(uid) => spec_subject_outcome(
                rs256_claims(token@, public_key_pem@),
                spec_trusted_issuer(),
                now,
            ) matches Ok(s) && uid.0@ == s,
            Err(e) => spec_subject_outcome(
                rs256_claims(token@, public_key_pem@),
                spec_trusted_issuer(),
                now,
            ) == Err::<Seq<char>, AuthError>(e),
        },
{
    let claims = decode_rs256(token, public_key_pem);
    subject_from_claims(claims, "https://prod.augmentos.cloud", now)
}

/// What the SHA-256 digest of a byte string is: a function of those bytes
/// alone.
pub uninterp spec fn sha256_of(data: Seq<u8>) -> Seq<u8>;

/// Relies on `sha2::Sha256::digest`: thirty-two bytes depending on the input
/// alone.
#[verifier::external_body]
fn sha256(data: &[u8]) -> (r: Vec<u8>)
    ensures
        r@ == sha256_of(data@),
        r@.len() == 32,
{
    <sha2::Sha256 as sha2::Digest>::digest(data).to_vec()
}

/// Relies on `subtle::ConstantTimeEq` for byte slices: equality is decided
/// without a data-dependent early exit, so unequal inputs of equal length
/// take the same time.
#[verifier::external_body]
fn constant_time_eq(a: &[u8], b: &[u8]) -> (r: bool)
    ensures
        r == (a@ == b@),
{
    subtle::ConstantTimeEq::ct_eq(a, b).unwrap_u8() == 1
}

/// The lowercase hexadecimal writing of a byte string, two digits per byte.
pub open spec fn hex_of(bytes: Seq<u8>) -> Seq<char>
    decreases bytes.len(),
{
    if bytes.len() == 0 {
        Seq::empty()
    } else {
        hex_of(bytes.drop_last()) + seq![
            hex_digit(bytes.last() / 16),
            hex_digit(bytes.last() % 16),
        ]
    }
}

/// The character of one hexadecimal digit.
pub open spec fn hex_digit(d: u8) -> char {
    if d < 10 {
        crate::text::digit_char(d as int)
    } else if d == 10 {
        'a'
    } else if d == 11 {
        'b'
    } else if d == 12 {
        'c'
    } else if d == 13 {
        'd'
    } else if d == 14 {
        'e'
    } else {
        'f'
    }
}

/// One hexadecimal digit.
fn hex_digit_str(d: u8) -> (r: &'static str)
    requires
        d < 16,
    ensures
        r@ == seq![hex_digit(d)],
{
    let r: &'static str = if d == 0 {
        "0"
    } else if d == 1 {
        "1"
    } else if d == 2 {
        "2"
    } else if d == 3 {
        "3"
    } else if d == 4 {
        "4"
    } else if d == 5 {
        "5"
    } else if d == 6 {
        "6"
    } else if d == 7 {
        "7"
    } else if d == 8 {
        "8"
    } else if d == 9 {
        "9"
    } else if d == 10 {
        "a"
    } else if d == 11 {
        "b"
    } else if d == 12 {
        "c"
    } else if d == 13 {
        "d"
    } else if d == 14 {
        "e"
    } else {
        "f"
    };
    proof {
        reveal_strlit("0");
        reveal_strlit("1");
        reveal_strlit("2");
        reveal_strlit("3");
        reveal_strlit("4");
        reveal_strlit("5");
        reveal_strlit("6");
        reveal_strlit("7");
        reveal_strlit("8");
        reveal_strlit("9");
        reveal_strlit("a");
        reveal_strlit("b");
        reveal_strlit("c");
        reveal_strlit("d");
        reveal_strlit("e");
        reveal_strlit("f");
        assert(r@ =~= seq![hex_digit(d)]);
    }
    r
}

/// Write a byte string in lowercase hexadecimal.
pub fn hex_encode(bytes: &[u8]) -> (r: String)
    ensures
        r@ == hex_of(bytes@),
{
    let mut out = String::new();
    let mut i: usize = 0;
    proof {
        assert(out@ =~= hex_of(bytes@.take(0)));
    }
    while i < bytes.len()
        invariant
            0 <= i <= bytes@.len(),
            out@ == hex_of(bytes@.take(i as int)),
        decreases bytes@.len() - i,
    {
        let b = bytes[i];
        proof {
            assert(bytes@.take(i + 1).drop_last() =~= bytes@.take(i as int));
            assert(bytes@.take(i + 1).last() == bytes@[i as int]);
        }
        let hi = hex_digit_str(b / 16);
        let lo = hex_digit_str(b % 16);
        let next = out.concat(hi).concat(lo);
        proof {
            assert(next@ =~= hex_of(bytes@.take(i + 1)));
        }
        out = next;
        i = i + 1;
    }
    proof {
        assert(bytes@.take(bytes@.len() as int) =~= bytes@);
    }
    out
}

/// The digest a frontend token must carry for an identity under a shared
/// secret: the hexadecimal SHA-256 of the identity's bytes followed by the
/// bytes of the hexadecimal SHA-256 of the secret.
pub open spec fn spec_expected_digest(identity: Seq<char>, api_key: Seq<char>) -> Seq<char> {
    hex_of(
        sha256_of(
            vstd::utf8::encode_utf8(identity) + vstd::utf8::encode_utf8(
                hex_of(sha256_of(vstd::utf8::encode_utf8(api_key))),
            ),
        ),
    )
}

/// The identity a frontend token of the form `identity:digest` names, when
/// its digest is the expected one under the shared secret.
pub open spec fn spec_frontend_token_id(t: Seq<char>, api_key: Seq<char>) -> Option<Seq<char>> {
    let i = first_index_of(t, ':');
    if i == t.len() {
        None
    } else {
        let identity = t.take(i);
        let digest = t.skip(i + 1);
        if first_index_of(digest, ':') != digest.len() {
            None
        } else if digest == spec_expected_digest(identity, api_key) {
            Some(identity)
        } else {
            None
        }
    }
}

/// Verify a frontend token of the form `identity:digest` against the shared
/// secret. The digest comparison runs in constant time, and success or
/// failure is the only answer: nothing says which half failed.
pub fn verify_frontend_token(token: &str, api_key: &str) -> (r: Option<UserId>)
    ensures
        match r {
            Some(uid) => spec_frontend_token_id(token@, api_key@) == Some(uid.0@),
            None => spec_frontend_token_id(token@, api_key@) is None,
        },
{
    broadcast use vstd::utf8::encode_utf8_decode_utf8;

    let n = token.unicode_len();
    let i = match crate::text::find_char(token, ':') {
        Some(i) => i,
        None => {
            return None;
        },
    };
    let identity = token.substring_char(0, i);
    let digest = token.substring_char(i + 1, n);
    proof {
        assert(identity@ =~= token@.take(first_index_of(token@, ':')));
        assert(digest@ =~= token@.skip(first_index_of(token@, ':') + 1));
    }
    if crate::text::find_char(digest, ':').is_some() {
        return None;
    }
    let hashed_api_key = hex_encode(sha256(api_key.as_bytes()).as_slice());
    let mut buf: Vec<u8> = vstd::slice::slice_to_vec(identity.as_bytes());
    let mut key_bytes: Vec<u8> = vstd::slice::slice_to_vec(hashed_api_key.as_str().as_bytes());
    buf.append(&mut key_bytes);
    let expected = hex_encode(sha256(buf.as_slice()).as_slice());
    proof {
        assert(buf@ =~= vstd::utf8::encode_utf8(identity@) + vstd::utf8::encode_utf8(
            hex_of(sha256_of(vstd::utf8::encode_utf8(api_key@))),
        ));
    }
    if constant_time_eq(digest.as_bytes(), expected.as_str().as_bytes()) {
        proof {
            assert(vstd::utf8::encode_utf8(digest@) == vstd::utf8::encode_utf8(expected@));
            assert(digest@ == expected@) by {
                assert(vstd::utf8::decode_utf8(vstd::utf8::encode_utf8(digest@)) == digest@);
                assert(vstd::utf8::decode_utf8(vstd::utf8::encode_utf8(expected@)) == expected@);
            }
        }
        Some(UserId(identity.to_owned()))
    } else {
        proof {
            assert(digest@ != expected@);
        }
        None
    }
}

/// The identity resolved by an earlier verification, if any, carried with
/// the request.
#[derive(Debug, Clone)]
pub struct AuthUser(pub Option<UserId>);

/// Look a parameter up in an optional query string.
pub fn get_query_param(query: Option<&str>, key: &str) -> (r: Option<String>)
    ensures
        match query {
            None => r is None,
            Some(q) => match r {
                Some(v) => query_param(q@, key@) == Some(v@),
                None => query_param(q@, key@) is None,
            },
        },
{
    match query {
        Some(q) => query_param_str(q, key),
        None => None,
    }
}

/// Admit a request only with a nonempty identity.
pub fn check_user_id(user_id: Option<UserId>) -> (r: Result<String, DomainError>)
    ensures
        match r {
            Ok(s) => user_id matches Some(u) && u.0@ == s@ && s@.len() > 0,
            Err(e) => e == DomainError::NotFoundOrUnauthorized && match user_id {
                Some(u) => u.0@.len() == 0,
                None => true,
            },
        },
{
    match user_id {
        Some(u) => {
            if u.0.as_str().unicode_len() == 0 {
                Err(DomainError::NotFoundOrUnauthorized)
            } else {
                Ok(u.0)
            }
        },
        None => Err(DomainError::NotFoundOrUnauthorized),
    }
}

/// What the token-exchange response yields: an identity exactly for a 200
/// response that says success and carries a user id; anything else is the
/// one exchange error.
pub fn exchange_outcome(
    status: u16,
    success: Option<bool>,
    user_id: Option<String>,
    error: Option<String>,
) -> (r: Result<UserId, AuthError>)
    ensures
        match r {
            Ok(uid) => status == 200 && success == Some(true) && (user_id matches Some(u)
                && uid.0 == u),
            Err(e) => e == AuthError::ExchangeFailed && !(status == 200 && success == Some(true)
                && user_id is Some),
        },
{
    if status == 200 && success == Some(true) {
        match user_id {
            Some(u) => Ok(UserId(u)),
            None => Err(AuthError::ExchangeFailed),
        }
    } else {
        Err(AuthError::ExchangeFailed)
    }
}

/// What the credential chain decides for one request.
#[derive(Debug, Clone)]
pub enum AuthDecision {
    /// A method succeeded; a fresh session cookie is owed unless the
    /// identity came from the cookie itself.
    Identified { user: UserId, issue_cookie: bool },
    /// A temporary token is present; the caller must exchange it with the
    /// cloud and judge the response.
    ExchangeTempToken { token: String },
    /// No method yielded an identity; the request proceeds anonymously.
    Anonymous,
}

/// How the ordered chain reads a request: each method is consulted only when
/// every earlier method found nothing of its shape in the request.
pub open spec fn spec_resolves(
    query: Option<Seq<char>>,
    auth_header: Option<Seq<char>>,
    cookie: Option<Seq<char>>,
    public_key_pem: Seq<char>,
    api_key: Seq<char>,
    now: i64,
    d: AuthDecision,
) -> bool {
    let qp_signed = match query {
        Some(q) => query_param(q, "aos_signed_user_token"@),
        None => None,
    };
    let bearer = match auth_header {
        Some(h) => if starts_with(h, "Bearer "@) {
            Some(h.skip(7))
        } else {
            None
        },
        None => None,
    };
    let qp_temp = match query {
        Some(q) => query_param(q, "aos_temp_token"@),
        None => None,
    };
    let qp_frontend = match query {
        Some(q) => query_param(q, "aos_frontend_token"@),
        None => None,
    };
    match qp_signed {
        Some(tok) => match spec_subject_outcome(
            rs256_claims(tok, public_key_pem),
            spec_trusted_issuer(),
            now,
        ) {
            Ok(s) => d matches AuthDecision::Identified { user, issue_cookie } && (user.0@ == s
                && issue_cookie),
            Err(_) => d matches AuthDecision::Anonymous,
        },
        None => match bearer {
            Some(tok) => match spec_subject_outcome(
                rs256_claims(tok, public_key_pem),
                spec_trusted_issuer(),
                now,
            ) {
                Ok(s) => d matches AuthDecision::Identified { user, issue_cookie } && (user.0@ == s
                    && issue_cookie),
                Err(_) => match spec_frontend_token_id(tok, api_key) {
                    Some(id) => d matches AuthDecision::Identified { user, issue_cookie } && (
                    user.0@ == id && issue_cookie),
                    None => d matches AuthDecision::Anonymous,
                },
            },
            None => match qp_temp {
                Some(tok) => d matches AuthDecision::ExchangeTempToken { token } && token@ == tok,
                None => match qp_frontend {
                    Some(tok) => match spec_frontend_token_id(tok, api_key) {
                        Some(id) => d matches AuthDecision::Identified { user, issue_cookie } && (
                        user.0@ == id && issue_cookie),
                        None => d matches AuthDecision::Anonymous,
                    },
                    None => match cookie {
                        Some(v) => d matches AuthDecision::Identified { user, issue_cookie } && (
                        user.0@ == v && !issue_cookie),
                        None => d matches AuthDecision::Anonymous,
                    },
                },
            },
        },
    }
}

/// Resolve a request's identity through the ordered chain: signed token in
/// the query, bearer credential, temporary token, frontend token in the
/// query, and finally the already-verified session cookie.
pub fn resolve_identity(
    query: Option<&str>,
    auth_header: Option<&str>,
    cookie: Option<&str>,
    public_key_pem: &str,
    api_key: &str,
    now: i64,
) -> (d: AuthDecision)
    ensures
        spec_resolves(
            match query {
                Some(q) => Some(q@),
                None => None,
            },
            match auth_header {
                Some(h) => Some(h@),
                None => None,
            },
            match cookie {
                Some(c) => Some(c@),
                None => None,
            },
            public_key_pem@,
            api_key@,
            now,
            d,
        ),
{
    if let Some(tok) = get_query_param(query, "aos_signed_user_token") {
        return match verify_signed_user_token(tok.as_str(), public_key_pem, now) {
            Ok(user) => AuthDecision::Identified { user, issue_cookie: true },
            Err(_) => AuthDecision::Anonymous,
        };
    }
    let bearer: Option<&str> = match auth_header {
        Some(h) => {
            if starts_with_str(h, "Bearer ") {
                proof {
                    reveal_strlit("Bearer ");
                }
                let n = h.unicode_len();
                let tok = h.substring_char(7, n);
                proof {
                    assert(tok@ =~= h@.skip(7));
                }
                Some(tok)
            } else {
                None
            }
        },
        None => None,
    };
    if let Some(tok) = bearer {
        return match verify_signed_user_token(tok, public_key_pem, now) {
            Ok(user) => AuthDecision::Identified { user, issue_cookie: true },
            Err(_) => match verify_frontend_token(tok, api_key) {
                Some(user) => AuthDecision::Identified { user, issue_cookie: true },
                None => AuthDecision::Anonymous,
            },
        };
    }
    if let Some(tok) = get_query_param(query, "aos_temp_token") {
        return AuthDecision::ExchangeTempToken { token: tok };
    }
    if let Some(tok) = get_query_param(query, "aos_frontend_token") {
        return match verify_frontend_token(tok.as_str(), api_key) {
            Some(user) => AuthDecision::Identified { user, issue_cookie: true },
            None => AuthDecision::Anonymous,
        };
    }
    if let Some(v) = cookie {
        return AuthDecision::Identified { user: UserId(v.to_owned()), issue_cookie: false };
    }
    AuthDecision::Anonymous
}

/// With a valid signed token in the query and any bearer credential also
/// present, the query token's subject is the identity bound to the request:
/// the chain never reaches the bearer method.
pub proof fn lemma_query_token_precedence(
    q: Seq<char>,
    h: Seq<char>,
    cookie: Option<Seq<char>>,
    public_key_pem: Seq<char>,
    api_key: Seq<char>,
    now: i64,
    d: AuthDecision,
)
    requires
        query_param(q, "aos_signed_user_token"@) matches Some(tok) && spec_subject_outcome(
            rs256_claims(tok, public_key_pem),
            spec_trusted_issuer(),
            now,
        ) is Ok,
        spec_resolves(Some(q), Some(h), cookie, public_key_pem, api_key, now, d),
    ensures
        d matches AuthDecision::Identified { user, issue_cookie } && (issue_cookie && user.0@
            == spec_subject_outcome(
            rs256_claims(query_param(q, "aos_signed_user_token"@)->0, public_key_pem),
            spec_trusted_issuer(),
            now,
        )->Ok_0),
{
}

} // verus!
