//! The per-request validation decision.
//!
//! `validate_jwt` reads the key cell, checks the presented token's signature
//! against the cached key through jsonwebtoken, and enforces the required
//! claims itself: the audience must equal the requested value exactly, the
//! issuer must equal the configured broker domain exactly, and the expiry
//! instant must not have elapsed. Every failure is reported as one of two
//! undifferentiated errors.

use vstd::prelude::*;

use crate::key_rotator::{cell_get_spec, JwksDataView, KeyCell};

verus! {

/// Why validation refused a token. Callers only ever learn which of the two
/// cases they are in; no finer reason crosses this boundary (fail-closed).
#[derive(Clone, Copy, Debug, PartialEq, Eq, Structural)]
pub enum ValidateError {
    /// No key is currently trusted: the cell is empty or its record expired.
    KeyUnavailable,
    /// The token failed the signature or claim checks.
    Invalid,
}

/// What decoding a signed token yields before the claim checks: the three
/// registered claims, each absent when the claim document does not carry it
/// as the expected JSON type, beside the whole claim document as text.
pub struct TokenPayload {
    pub aud: Option<String>,
    pub iss: Option<String>,
    pub exp: Option<u64>,
    pub claims_json: String,
}

/// The mathematical image of a `TokenPayload`.
pub struct TokenPayloadView {
    pub aud: Option<Seq<char>>,
    pub iss: Option<Seq<char>>,
    pub exp: Option<u64>,
    pub claims_json: Seq<char>,
}

impl View for TokenPayload {
    type V = TokenPayloadView;

    open spec fn view(&self) -> TokenPayloadView {
        TokenPayloadView {
            aud: match self.aud {
                Option::Some(aud) => Option::Some(aud@),
                Option::None => Option::None,
            },
            iss: match self.iss {
                Option::Some(iss) => Option::Some(iss@),
                Option::None => Option::None,
            },
            exp: self.exp,
            claims_json: self.claims_json@,
        }
    }
}

/// The payload an RS256 decode yields for given key bytes and token text,
/// and nothing when the token is rejected: a function of the two alone.
pub uninterp spec fn decoded_of(key: Seq<u8>, token: Seq<char>) -> Option<TokenPayloadView>;

/// Relies on jsonwebtoken::decode with algorithm RS256: yields a payload
/// exactly when the token is a well-formed JWT whose header names RS256 and
/// whose signature verifies against the key; all claim checks are switched
/// off here and left to the caller. The registered claims are handed out
/// beside the claim document's text.
#[verifier::external_body]
fn decode_signed(key: &Vec<u8>, token: &String) -> (r: Option<TokenPayload>)
    ensures
        r matches Some(t) ==> decoded_of(key@, token@) == Some(t@),
        r is None ==> decoded_of(key@, token@) is None,
{
    let dk = jsonwebtoken::DecodingKey::from_rsa_pem(key).ok()?;
    let mut v = jsonwebtoken::Validation::new(jsonwebtoken::Algorithm::RS256);
    v.validate_exp = false;
    v.validate_aud = false;
    v.required_spec_claims = std::collections::HashSet::new();
    let c = jsonwebtoken::decode::<serde_json::Value>(token, &dk, &v).ok()?.claims;
    Some(TokenPayload {
        aud: c.get("aud").and_then(|x| x.as_str()).map(|s| s.to_string()),
        iss: c.get("iss").and_then(|x| x.as_str()).map(|s| s.to_string()),
        exp: c.get("exp").and_then(|x| x.as_u64()),
        claims_json: c.to_string(),
    })
}

/// The decoded claim set of an accepted token, owned by the caller.
#[derive(Clone, Debug)]
pub struct Claims {
    pub aud: String,
    pub iss: String,
    pub exp: u64,
    pub claims_json: String,
}

/// The mathematical image of a `Claims` value.
pub struct ClaimsView {
    pub aud: Seq<char>,
    pub iss: Seq<char>,
    pub exp: u64,
    pub claims_json: Seq<char>,
}

impl View for Claims {
    type V = ClaimsView;

    open spec fn view(&self) -> ClaimsView {
        ClaimsView {
            aud: self.aud@,
            iss: self.iss@,
            exp: self.exp,
            claims_json: self.claims_json@,
        }
    }
}

/// The claim checks of an accepted payload: the audience and the issuer are
/// present and equal the expected values exactly, and the expiry instant has
/// not yet elapsed at clock `now`.
pub open spec fn claims_ok(
    t: TokenPayloadView,
    aud: Seq<char>,
    domain: Seq<char>,
    now: u64,
) -> bool {
    &&& t.aud == Some(aud)
    &&& t.iss == Some(domain)
    &&& t.exp matches Some(exp) && now < exp
}

/// The claim set an accepted payload decodes to.
pub open spec fn claims_of(t: TokenPayloadView) -> ClaimsView
    recommends
        t.aud is Some,
        t.iss is Some,
        t.exp is Some,
{
    ClaimsView {
        aud: t.aud->0,
        iss: t.iss->0,
        exp: t.exp->0,
        claims_json: t.claims_json,
    }
}

/// The whole validation decision at clock `now`, over the cell's contents:
/// no usable key fails closed with `KeyUnavailable`; a token the cached key
/// does not verify, or whose claims do not check out, fails closed with
/// `Invalid`; everything else is accepted.
pub open spec fn validate_spec(
    cell: Option<JwksDataView>,
    aud: Seq<char>,
    token: Seq<char>,
    domain: Seq<char>,
    now: u64,
) -> Result<TokenPayloadView, ValidateError> {
    match cell_get_spec(cell, now) {
        Option::None => Result::Err(ValidateError::KeyUnavailable),
        Option::Some(rec) => match decoded_of(rec.key, token) {
            Option::None => Result::Err(ValidateError::Invalid),
            Option::Some(t) => if claims_ok(t, aud, domain, now) {
                Result::Ok(t)
            } else {
                Result::Err(ValidateError::Invalid)
            },
        },
    }
}

/// Check a presented token for the audience `aud` against the currently
/// cached key, the configured broker domain and the clock reading `now`.
/// Returns the decoded claim set exactly when `validate_spec` accepts.
pub fn validate_jwt(
    cell: &KeyCell,
    aud: &String,
    token: &String,
    team_domain: &String,
    now: u64,
) -> (r: Result<Claims, ValidateError>)
    ensures
        match r {
            Result::Ok(c) => validate_spec(cell@, aud@, token@, team_domain@, now) matches Ok(t)
                && c@ == claims_of(t),
            Result::Err(e) => validate_spec(cell@, aud@, token@, team_domain@, now)
                == Result::<TokenPayloadView, ValidateError>::Err(e),
        },
{
    let rec = match cell.get(now) {
        Some(rec) => rec,
        None => return Err(ValidateError::KeyUnavailable),
    };
    let t = match decode_signed(&rec.key, token) {
        Some(t) => t,
        None => return Err(ValidateError::Invalid),
    };
    let TokenPayload { aud: t_aud, iss: t_iss, exp: t_exp, claims_json } = t;
    match (t_aud, t_iss, t_exp) {
        (Some(t_aud), Some(t_iss), Some(t_exp)) => {
            if t_aud == *aud && t_iss == *team_domain && now < t_exp {
                Ok(Claims { aud: t_aud, iss: t_iss, exp: t_exp, claims_json })
            } else {
                Err(ValidateError::Invalid)
            }
        },
        _ => Err(ValidateError::Invalid),
    }
}

/// Law: a token the currently cached, unexpired key verifies, whose audience
/// equals the requested value, whose issuer equals the configured domain and
/// whose expiry has not elapsed, is accepted with exactly the decoded claim
/// set.
pub proof fn lemma_valid_token_accepted(
    rec: JwksDataView,
    aud: Seq<char>,
    token: Seq<char>,
    domain: Seq<char>,
    now: u64,
    t: TokenPayloadView,
)
    requires
        !crate::key_rotator::expired_at(rec, now),
        decoded_of(rec.key, token) == Some(t),
        claims_ok(t, aud, domain, now),
    ensures
        validate_spec(Some(rec), aud, token, domain, now)
            == Result::<TokenPayloadView, ValidateError>::Ok(t),
{
}

/// Law: a token the cached key does not verify — in particular one signed
/// with any key other than the cached one — is refused, whatever its claims
/// say and whatever the clock reads.
pub proof fn lemma_foreign_signature_refused(
    rec: JwksDataView,
    aud: Seq<char>,
    token: Seq<char>,
    domain: Seq<char>,
    now: u64,
)
    requires
        decoded_of(rec.key, token) is None,
    ensures
        validate_spec(Some(rec), aud, token, domain, now) is Err,
{
}

/// Law: once the cached record's age has reached the expiry window, every
/// token is refused for want of a key, however well it is signed.
pub proof fn lemma_expired_record_refused(
    rec: JwksDataView,
    aud: Seq<char>,
    token: Seq<char>,
    domain: Seq<char>,
    now: u64,
)
    requires
        crate::key_rotator::expired_at(rec, now),
    ensures
        validate_spec(Some(rec), aud, token, domain, now)
            == Result::<TokenPayloadView, ValidateError>::Err(ValidateError::KeyUnavailable),
{
}

/// Law: before any successful fetch — with the cell still empty — validation
/// fails with `KeyUnavailable`, whatever the token, audience, domain and
/// clock.
pub proof fn lemma_empty_cell_refused(aud: Seq<char>, token: Seq<char>, domain: Seq<char>, now: u64)
    ensures
        validate_spec(None, aud, token, domain, now)
            == Result::<TokenPayloadView, ValidateError>::Err(ValidateError::KeyUnavailable),
{
}

} // verus!
