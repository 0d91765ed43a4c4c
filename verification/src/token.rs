//! The stateless anti-CSRF token protocol: short-lived HMAC-signed tokens
//! issued on the read path and demanded on the write path. Validity is a
//! pure function of the token, the signing secret and the current time, so
//! any number of replicas agree without coordination. A cheap character
//! class check runs before any signature work, so malformed input never
//! reaches the verification library.

use vstd::prelude::*;
use vstd::slice::slice_to_vec;
use vstd::string::StrSliceExecFns;

verus! {

/// Lifetime of an issued token, in seconds.
pub const TOKEN_TTL_SECS: u64 = 3600;

/// Why a token was rejected. Both reasons map to the same client-visible
/// refusal; they are kept apart for telemetry.
#[derive(Clone, Copy, Debug, PartialEq, Eq, Structural)]
pub enum TokenError {
    /// The format check failed: a character outside the token alphabet.
    Malformed,
    /// The signature or the expiry check failed.
    Invalid,
}

/// The claims carried by a token: only its expiry instant.
#[derive(Clone, Copy, Debug, PartialEq, Eq, Structural)]
pub struct CsrfToken {
    pub exp: u64,
}

/// Whether `c` belongs to the token alphabet `[A-Za-z0-9._-]`.
pub open spec fn is_token_char(c: char) -> bool {
    let u = c as int;
    (48 <= u <= 57)  // '0'..='9'
    || (65 <= u <= 90)  // 'A'..='Z'
    || (97 <= u <= 122)  // 'a'..='z'
    || u == 45  // '-'
    || u == 46  // '.'
    || u == 95  // '_'
}

impl CsrfToken {
    /// Whether every character of `s` belongs to the token alphabet.
    pub open spec fn spec_format_ok(s: Seq<char>) -> bool {
        forall|i: int| 0 <= i < s.len() ==> is_token_char(s[i])
    }

    /// Validates the format of a token without checking either signature
    /// or claims.
    pub fn validate_format(s: &str) -> (r: bool)
        ensures
            r == Self::spec_format_ok(s@),
    {
        let len = s.unicode_len();
        let mut i: usize = 0;
        while i < len
            invariant
                i <= len,
                len == s@.len(),
                forall|j: int| 0 <= j < i ==> is_token_char(s@[j]),
            decreases len - i,
        {
            let c = s.get_char(i);
            let u = c as u32;
            let ok = (48 <= u && u <= 57) || (65 <= u && u <= 90) || (97 <= u && u <= 122)
                || u == 45 || u == 46 || u == 95;
            if !ok {
                assert(!is_token_char(s@[i as int]));
                return false;
            }
            i += 1;
        }
        true
    }
}

/// The compact serialization that signing an expiry instant with a secret
/// produces. The result depends on the secret and the claims alone, so the
/// same name denotes the same token on every replica.
pub uninterp spec fn token_of(secret: Seq<u8>, exp: u64) -> Seq<char>;

/// What verification extracts from a token under a secret: the embedded
/// expiry instant if the token is an acceptable HMAC-signed token for that
/// secret, and nothing otherwise. A function of the secret and the token
/// alone.
pub uninterp spec fn decoded_exp(secret: Seq<u8>, token: Seq<char>) -> Option<u64>;

/// What validating `token` under `secret` at instant `now` answers: the
/// format gate first, then the signature, then the expiry.
pub open spec fn spec_validate(secret: Seq<u8>, token: Seq<char>, now: u64) -> Result<
    (),
    TokenError,
> {
    if !CsrfToken::spec_format_ok(token) {
        Err(TokenError::Malformed)
    } else {
        match decoded_exp(secret, token) {
            Some(exp) => if now <= exp {
                Ok(())
            } else {
                Err(TokenError::Invalid)
            },
            None => Err(TokenError::Invalid),
        }
    }
}

/// Issues and validates the signed tokens. Holds the process-wide signing
/// secret, derived once at startup and never mutated.
pub struct TokenManager {
    secret: Vec<u8>,
}

impl View for TokenManager {
    type V = Seq<u8>;

    closed spec fn view(&self) -> Seq<u8> {
        self.secret@
    }
}

impl TokenManager {
    /// A token manager over the given signing secret.
    pub fn new(secret: &[u8]) -> (r: TokenManager)
        ensures
            r@ == secret@,
    {
        TokenManager { secret: slice_to_vec(secret) }
    }

    /// Relies on `jsonwebtoken::encode` with the default header (HS256)
    /// and a key from `EncodingKey::from_secret`. Signing cannot fail: the
    /// key family matches the header's algorithm, serializing the header
    /// and the string-keyed claims map to JSON cannot fail, and the HMAC
    /// signer accepts a secret of any length and signs infallibly. The
    /// compact token is a function of the secret and the claims alone and
    /// uses only base64url characters and `.`. Decoding it under the same
    /// secret succeeds and recovers the embedded expiry: the signature is
    /// the same HMAC recomputed, and the `exp` claim is present as the
    /// integer it was signed with.
    #[verifier::external_body]
    fn sign_exp(&self, exp: u64) -> (r: Result<String, String>)
        ensures
            r is Ok,
            r matches Ok(t) ==> t@ == token_of(self@, exp) && CsrfToken::spec_format_ok(t@)
                && decoded_exp(self@, t@) == Some(exp),
    {
        let mut claims = serde_json::Map::new();
        claims.insert("exp".to_owned(), serde_json::Value::from(exp));
        jsonwebtoken::encode(
            &jsonwebtoken::Header::default(),
            &serde_json::Value::Object(claims),
            &jsonwebtoken::EncodingKey::from_secret(self.secret.as_slice()),
        ).map_err(|e| e.to_string())
    }

    /// Relies on `jsonwebtoken::decode` with HS256 and expiry validation
    /// turned off: acceptance and the extracted `exp` claim depend on the
    /// secret and the token alone; the caller judges expiry itself.
    #[verifier::external_body]
    fn decode_exp(&self, token: &str) -> (r: Option<u64>)
        ensures
            r == decoded_exp(self@, token@),
    {
        let mut validation = jsonwebtoken::Validation::default();
        validation.validate_exp = false;
        jsonwebtoken::decode::<serde_json::Value>(
            token,
            &jsonwebtoken::DecodingKey::from_secret(self.secret.as_slice()),
            &validation,
        ).ok().and_then(|data| data.claims.get("exp").and_then(serde_json::Value::as_u64))
    }

    /// Signs a token that expires at `exp`. Signing always succeeds; the
    /// token decodes back to `exp` under the same secret.
    pub fn issue_at(&self, exp: u64) -> (r: Result<String, String>)
        ensures
            r is Ok,
            r matches Ok(t) ==> t@ == token_of(self@, exp) && CsrfToken::spec_format_ok(t@)
                && decoded_exp(self@, t@) == Some(exp),
    {
        self.sign_exp(exp)
    }

    /// Issues a token valid for `TOKEN_TTL_SECS` from now, taking the
    /// current time from the system clock. It fails only when the clock
    /// cannot be read as an instant that leaves room for the lifetime.
    pub fn generate_csrf_token(&self) -> (r: Result<String, String>)
        ensures
            r matches Ok(t) ==> (exists|exp: u64|
                t@ == token_of(self@, exp) && decoded_exp(self@, t@) == Some(exp))
                && CsrfToken::spec_format_ok(t@),
    {
        match current_timestamp() {
            Some(now) => match now.checked_add(TOKEN_TTL_SECS) {
                Some(exp) => self.issue_at(exp),
                None => Err("system clock out of range".to_owned()),
            },
            None => Err("system clock unavailable".to_owned()),
        }
    }

    /// Validates a token at the injected instant `now`: the format gate
    /// first, then the signature, then the expiry. The result is a pure
    /// function of the token, the secret and `now`.
    pub fn validate_at(&self, token: &str, now: u64) -> (r: Result<(), TokenError>)
        ensures
            r == spec_validate(self@, token@, now),
    {
        if !CsrfToken::validate_format(token) {
            return Err(TokenError::Malformed);
        }
        match self.decode_exp(token) {
            Some(exp) => if now <= exp {
                Ok(())
            } else {
                Err(TokenError::Invalid)
            },
            None => Err(TokenError::Invalid),
        }
    }

    /// Validates a token against the system clock: the format gate first,
    /// then — when the clock can be read — the signature and the expiry.
    /// A clock that cannot be read rejects the token, it never passes it.
    pub fn validate_csrf_token(&self, token: &str) -> (r: Result<(), TokenError>)
        ensures
            !CsrfToken::spec_format_ok(token@) ==> r == Err::<(), TokenError>(
                TokenError::Malformed,
            ),
            CsrfToken::spec_format_ok(token@) && decoded_exp(self@, token@) is None ==> r == Err::<
                (),
                TokenError,
            >(TokenError::Invalid),
            r is Ok ==> CsrfToken::spec_format_ok(token@) && decoded_exp(self@, token@) is Some,
    {
        if !CsrfToken::validate_format(token) {
            return Err(TokenError::Malformed);
        }
        match current_timestamp() {
            Some(now) => self.validate_at(token, now),
            None => Err(TokenError::Invalid),
        }
    }
}

/// Relies on `std::time::SystemTime::now`: the seconds since the Unix
/// epoch, or nothing when the host clock reads before the epoch — that
/// case becomes a value here, never a panic. Nothing is assumed of the
/// value itself.
#[verifier::external_body]
fn current_timestamp() -> Option<u64> {
    std::time::SystemTime::now()
        .duration_since(std::time::UNIX_EPOCH)
        .ok()
        .map(|d| d.as_secs())
}

/// The format gate runs first: a token with any character outside the
/// token alphabet is rejected as malformed, never as a signature failure,
/// whatever the secret and the clock say.
pub proof fn format_gate_precedes_verification(
    secret: Seq<u8>,
    token: Seq<char>,
    i: int,
    now: u64,
)
    requires
        0 <= i < token.len(),
        !is_token_char(token[i]),
    ensures
        spec_validate(secret, token, now) == Err::<(), TokenError>(TokenError::Malformed),
{
}

/// A fresh token validates: a token in the token alphabet whose decoded
/// expiry is the instant `exp` is accepted at any instant up to `exp` —
/// in particular immediately after issuance, whose tokens `issue_at`
/// promises to be exactly of this shape.
pub proof fn fresh_token_validates(secret: Seq<u8>, token: Seq<char>, exp: u64, now: u64)
    requires
        CsrfToken::spec_format_ok(token),
        decoded_exp(secret, token) == Some(exp),
        now <= exp,
    ensures
        spec_validate(secret, token, now) == Ok::<(), TokenError>(()),
{
}

/// An expired token is rejected: at any instant past the embedded expiry,
/// validation never answers success.
pub proof fn expired_token_rejected(secret: Seq<u8>, token: Seq<char>, exp: u64, now: u64)
    requires
        decoded_exp(secret, token) == Some(exp),
        now > exp,
    ensures
        spec_validate(secret, token, now) is Err,
{
}

} // verus!
