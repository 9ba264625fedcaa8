//! Login tokens: the claims a token carries, signing them, and what a
//! failed verification reports.

use vstd::prelude::*;
use vstd::string::StrSliceExecFns;
use crate::chatlog::serialize::{record_get, record_lookup};
use crate::json::{decode_json_string, json_decoded_string, json_quote, json_string_literal};
use crate::text::{
    chars_of, decimal, is_prefix, parse_unsigned, parsed_unsigned, push_str, starts_with, str_eq, string_from_chars,
    to_owned_string, usize_to_decimal,
};

verus! {

/// The secret that login tokens are signed with.
pub const CODE: &'static str = "cvx$^G#%^nh3t9y83h$%^@#isfdhioeroisd";

/// How long a login token is valid: one week, in seconds.
pub const TOKEN_LIFETIME: u64 = 604800;

/// What a login token says: who logged in and until when (UNIX seconds).
#[derive(Debug)]
pub struct Claims {
    pub username: String,
    pub expires: usize,
}

/// The JSON form of claims, fields in declaration order.
pub open spec fn claims_text(username: Seq<char>, expires: nat) -> Seq<char> {
    "{\"username\":"@ + json_string_literal(username) + ",\"expires\":"@ + decimal(expires) + "}"@
}

/// Writes claims as JSON.
pub fn claims_json(c: &Claims) -> (s: String)
    ensures
        s@ == claims_text(c.username@, c.expires as nat),
{
    let mut s = to_owned_string("{\"username\":");
    let u = json_quote(c.username.as_str());
    push_str(&mut s, u.as_str());
    push_str(&mut s, ",\"expires\":");
    let e = usize_to_decimal(c.expires);
    push_str(&mut s, e.as_str());
    push_str(&mut s, "}");
    s
}

/// The HS256 JSON Web Token of a JSON payload under a secret, with the
/// default header; `None` when the payload is not JSON or signing fails.
pub uninterp spec fn hs256_token(payload: Seq<char>, secret: Seq<char>) -> Option<Seq<char>>;

/// Signs a JSON payload as an HS256 token.
///
/// Trusted: `jsonwebtoken::encode` with `Header::default()` (HS256) and
/// `EncodingKey::from_secret`, the payload handed over verbatim as a
/// `serde_json` raw value; the result is named `hs256_token` of the payload
/// and secret.  Nothing else is claimed.
#[verifier::external_body]
fn encode_hs256(payload: &str, secret: &str) -> (r: Option<String>)
    ensures
        r.deep_view() == hs256_token(payload@, secret@),
{
    let raw = serde_json::value::RawValue::from_string(payload.to_string()).ok()?;
    let key = jsonwebtoken::EncodingKey::from_secret(secret.as_bytes());
    jsonwebtoken::encode(&jsonwebtoken::Header::default(), &raw, &key).ok()
}

/// The current UNIX time in seconds.
///
/// Trusted: `jsonwebtoken::get_current_timestamp`; nothing is claimed of the
/// value, which depends on the clock.  That function panics when the system
/// clock reads earlier than 1970: a state of the machine, not of any
/// argument, so no `requires` can leave it out.
#[verifier::external_body]
fn current_timestamp() -> (now: u64) {
    jsonwebtoken::get_current_timestamp()
}

/// The token a user gets at time `now`: the claims expire a week later.
pub open spec fn token_at(user_id: Seq<char>, now: nat) -> Result<Seq<char>, (u16, Seq<char>)> {
    match hs256_token(claims_text(user_id, now + 604800), CODE@) {
        Some(t) => Ok(t),
        None => Err((401u16, "Token creation failed."@)),
    }
}

/// Creates the login token of a user at time `now`.
pub fn create_token_at(user_id: &str, now: u64) -> (r: Result<String, (u16, &'static str)>)
    requires
        now + 604800 <= usize::MAX,
    ensures
        match r {
            Ok(t) => token_at(user_id@, now as nat) == Ok::<Seq<char>, (u16, Seq<char>)>(t@),
            Err(e) => token_at(user_id@, now as nat) == Err::<Seq<char>, (u16, Seq<char>)>((e.0, e.1@)),
        },
{
    let expires = (now + TOKEN_LIFETIME) as usize;
    let claims = Claims { username: to_owned_string(user_id), expires };
    let payload = claims_json(&claims);
    match encode_hs256(payload.as_str(), CODE) {
        Some(t) => Ok(t),
        None => Err((401, "Token creation failed.")),
    }
}

/// Whether no token can be made for a user at time `now` (UNIX seconds, as
/// the clock gives them): the expiry a week later does not fit in a `usize`,
/// or signing the claims fails.
pub open spec fn token_fails_at(user_id: Seq<char>, now: nat) -> bool {
    now <= u64::MAX && (now + 604800 > usize::MAX || token_at(user_id, now) is Err)
}

/// Creates the login token of a user, valid for a week from now.
pub fn create_token(user_id: &str) -> (r: Result<String, (u16, &'static str)>)
    ensures
        r matches Err(e) ==> e.0 == 401 && e.1@ == "Token creation failed."@,
        r matches Ok(t) ==> exists|now: nat| token_at(user_id@, now) == Ok::<Seq<char>, (u16, Seq<char>)>(t@),
        r is Err ==> exists|now: nat| token_fails_at(user_id@, now),
{
    let now = current_timestamp();
    if now > u64::MAX - TOKEN_LIFETIME || now + TOKEN_LIFETIME > usize::MAX as u64 {
        assert(token_fails_at(user_id@, now as nat));
        return Err((401, "Token creation failed."));
    }
    let r = create_token_at(user_id, now);
    proof {
        if r is Err {
            assert(token_fails_at(user_id@, now as nat));
        }
    }
    r
}

/// Logs a user in: every login gets a token.
pub fn login(username: &str, password: &str) -> (r: Result<String, (u16, &'static str)>)
    ensures
        r matches Err(e) ==> e.0 == 500 && e.1@ == "Failed to create token"@,
        r matches Ok(t) ==> exists|now: nat| token_at(username@, now) == Ok::<Seq<char>, (u16, Seq<char>)>(t@),
        r is Err ==> exists|now: nat| token_fails_at(username@, now),
{
    match create_token(username) {
        Ok(t) => Ok(t),
        Err(_) => Err((500, "Failed to create token")),
    }
}

/// Why a token failed verification.
#[derive(Debug)]
pub enum JwtErrorKind {
    InvalidToken,
    InvalidSignature,
    InvalidEcdsaKey,
    InvalidRsaKey(String),
    RsaFailedSigning,
    InvalidAlgorithmName,
    InvalidKeyFormat,
    MissingRequiredClaim(String),
    ExpiredSignature,
    InvalidIssuer,
    InvalidAudience,
    InvalidSubject,
    ImmatureSignature,
    InvalidAlgorithm,
    MissingAlgorithm,
    /// A base64 error, as its message.
    Base64(String),
    /// A JSON error, as its message.
    Json(String),
    /// A UTF-8 error, as its message.
    Utf8(String),
    /// A crypto error, as its message.
    Crypto(String),
    /// A kind added after these.
    Other,
}

/// The message reported for a verification failure.
pub open spec fn jwt_error_text(k: JwtErrorKind) -> Seq<char> {
    match k {
        JwtErrorKind::InvalidToken => "Invalid token"@,
        JwtErrorKind::InvalidSignature => "Invalid signature"@,
        JwtErrorKind::InvalidEcdsaKey => "Invalid ECDSA key"@,
        JwtErrorKind::InvalidRsaKey(m) => m@,
        JwtErrorKind::RsaFailedSigning => "RSA failed signing"@,
        JwtErrorKind::InvalidAlgorithmName => "Invalid algorithm name"@,
        JwtErrorKind::InvalidKeyFormat => "Invalid key format"@,
        JwtErrorKind::MissingRequiredClaim(c) => c@,
        JwtErrorKind::ExpiredSignature => "Expired signature"@,
        JwtErrorKind::InvalidIssuer => "Invalid issuer"@,
        JwtErrorKind::InvalidAudience => "Invalid audience"@,
        JwtErrorKind::InvalidSubject => "Invalid subject"@,
        JwtErrorKind::ImmatureSignature => "Immature signature"@,
        JwtErrorKind::InvalidAlgorithm => "Invalid algorithm"@,
        JwtErrorKind::MissingAlgorithm => "Missing algorithm"@,
        JwtErrorKind::Base64(m) => m@,
        JwtErrorKind::Json(m) => m@,
        JwtErrorKind::Utf8(m) => m@,
        JwtErrorKind::Crypto(m) => m@,
        JwtErrorKind::Other => "Other JWT error"@,
    }
}

/// The message for a verification failure.
pub fn jwt_error_message(k: &JwtErrorKind) -> (s: String)
    ensures
        s@ == jwt_error_text(*k),
{
    match k {
        JwtErrorKind::InvalidToken => to_owned_string("Invalid token"),
        JwtErrorKind::InvalidSignature => to_owned_string("Invalid signature"),
        JwtErrorKind::InvalidEcdsaKey => to_owned_string("Invalid ECDSA key"),
        JwtErrorKind::InvalidRsaKey(m) => m.clone(),
        JwtErrorKind::RsaFailedSigning => to_owned_string("RSA failed signing"),
        JwtErrorKind::InvalidAlgorithmName => to_owned_string("Invalid algorithm name"),
        JwtErrorKind::InvalidKeyFormat => to_owned_string("Invalid key format"),
        JwtErrorKind::MissingRequiredClaim(c) => c.clone(),
        JwtErrorKind::ExpiredSignature => to_owned_string("Expired signature"),
        JwtErrorKind::InvalidIssuer => to_owned_string("Invalid issuer"),
        JwtErrorKind::InvalidAudience => to_owned_string("Invalid audience"),
        JwtErrorKind::InvalidSubject => to_owned_string("Invalid subject"),
        JwtErrorKind::ImmatureSignature => to_owned_string("Immature signature"),
        JwtErrorKind::InvalidAlgorithm => to_owned_string("Invalid algorithm"),
        JwtErrorKind::MissingAlgorithm => to_owned_string("Missing algorithm"),
        JwtErrorKind::Base64(m) => m.clone(),
        JwtErrorKind::Json(m) => m.clone(),
        JwtErrorKind::Utf8(m) => m.clone(),
        JwtErrorKind::Crypto(m) => m.clone(),
        JwtErrorKind::Other => to_owned_string("Other JWT error"),
    }
}

/// The result of verifying a token, given what decoding it gave: its claims,
/// or status 401 with the failure's message.
pub fn verify_outcome(decoded: Result<Claims, JwtErrorKind>) -> (r: Result<Claims, (u16, String)>)
    ensures
        decoded is Ok <==> r is Ok,
        r matches Ok(c) ==> decoded matches Ok(d) && c == d,
        r matches Err(e) ==> decoded matches Err(k) && e.0 == 401 && e.1@ == jwt_error_text(k),
{
    match decoded {
        Ok(c) => Ok(c),
        Err(k) => {
            let m = jwt_error_message(&k);
            Err((401, m))
        },
    }
}


/// What checking a token's HS256 signature under a secret and reading its
/// payload gives, before any claim is validated: the payload's members
/// (each key with its value written back as compact JSON) when the payload
/// is a JSON object, nothing when it is another JSON value, or the error, as
/// its `Debug` kind and its `Display` text.
pub uninterp spec fn hs256_claims(token: Seq<char>, secret: Seq<char>) -> Result<
    Option<Seq<(Seq<char>, Seq<char>)>>,
    (Seq<char>, Seq<char>),
>;

/// The value of what decoding a token handed back.
pub open spec fn decoded_view(r: Result<Option<Vec<(String, String)>>, (String, String)>) -> Result<
    Option<Seq<(Seq<char>, Seq<char>)>>,
    (Seq<char>, Seq<char>),
> {
    match r {
        Ok(p) => Ok(p.deep_view()),
        Err(e) => Err((e.0@, e.1@)),
    }
}

/// Whether a token's signature and payload passed and the payload is an
/// object without an `exp` member.
pub open spec fn lacks_exp(d: Result<Option<Seq<(Seq<char>, Seq<char>)>>, (Seq<char>, Seq<char>)>) -> bool {
    d matches Ok(Some(ms)) && record_get(ms, "exp"@) is None
}

/// jsonwebtoken's error for a missing `exp` claim, as kind and message.
pub open spec fn missing_exp_error() -> Result<Option<Seq<(Seq<char>, Seq<char>)>>, (Seq<char>, Seq<char>)> {
    Err((missing_exp_kind(), missing_exp_display()))
}

/// Decodes a token signed with HS256 under a secret.
///
/// Trusted: `jsonwebtoken::decode::<serde_json::Value>` with
/// `DecodingKey::from_secret` and `Validation::default()`; when
/// `validate_claims` is false the validation's claim checks are switched off
/// (no required claims, no `exp` or `aud` check), so that only the
/// signature and the payload are read and nothing depends on the clock.  An
/// object payload's members are handed back with `Value::to_string` of each
/// value, another payload as `None`; an error is handed back as
/// `format!("{:?}", e.kind())` and `e.to_string()`.  Without claim checks the
/// result is named `hs256_claims` of the token and the secret.  With them,
/// the same signature and payload checks come first, then the required
/// `exp` claim is checked before the clock is read: an object payload that
/// passed the first checks and has no `exp` member fails with
/// `MissingRequiredClaim("exp")`, as stated.  Otherwise the answer depends on
/// the clock (expiry) and nothing more is claimed; `get_current_timestamp`
/// panics when the clock reads before 1970, a state of the machine that no
/// `requires` can leave out.
#[verifier::external_body]
fn decode_hs256(token: &str, secret: &str, validate_claims: bool) -> (r: Result<Option<Vec<(String, String)>>, (String, String)>)
    ensures
        !validate_claims ==> decoded_view(r) == hs256_claims(token@, secret@),
        validate_claims && lacks_exp(hs256_claims(token@, secret@)) ==> decoded_view(r) == missing_exp_error(),
{
    let key = jsonwebtoken::DecodingKey::from_secret(secret.as_bytes());
    let mut validation = jsonwebtoken::Validation::default();
    if !validate_claims {
        validation.required_spec_claims.clear();
        validation.validate_exp = false;
        validation.validate_aud = false;
    }
    match jsonwebtoken::decode::<serde_json::Value>(token, &key, &validation) {
        Ok(data) => match data.claims {
            serde_json::Value::Object(m) => Ok(Some(m.into_iter().map(|(k, v)| (k, v.to_string())).collect())),
            _ => Ok(None),
        },
        Err(e) => Err((format!("{:?}", e.kind()), e.to_string())),
    }
}

/// The `Debug` text of jsonwebtoken's error for a missing `exp` claim.
pub open spec fn missing_exp_kind() -> Seq<char> {
    seq![
        'M', 'i', 's', 's', 'i', 'n', 'g', 'R', 'e', 'q', 'u', 'i', 'r', 'e', 'd', 'C', 'l', 'a', 'i', 'm', '(', '"',
        'e', 'x', 'p', '"', ')',
    ]
}

/// The `Display` text of jsonwebtoken's error for a missing `exp` claim.
pub open spec fn missing_exp_display() -> Seq<char> {
    "Missing required claim: "@ + "exp"@
}

/// The position of the first `(` at or after `k`, or the length.
pub open spec fn paren_pos(d: Seq<char>, k: int) -> int
    decreases d.len() - k,
{
    if k < 0 || k >= d.len() || d[k] == '(' {
        k
    } else {
        paren_pos(d, k + 1)
    }
}

proof fn lemma_paren_pos(d: Seq<char>, k: int)
    requires
        0 <= k <= d.len(),
    ensures
        k <= paren_pos(d, k) <= d.len(),
    decreases d.len() - k,
{
    if k < d.len() && d[k] != '(' {
        lemma_paren_pos(d, k + 1);
    }
}

/// The variant name that starts a `Debug` text: what comes before its `(`.
pub open spec fn variant_name(d: Seq<char>) -> Seq<char> {
    d.subrange(0, paren_pos(d, 0))
}

fn variant_name_of(d: &str) -> (n: String)
    ensures
        n@ == variant_name(d@),
{
    let v = chars_of(d);
    let mut k: usize = 0;
    proof {
        lemma_paren_pos(v@, 0);
    }
    while k < v.len() && v[k] != '('
        invariant
            k <= v@.len(),
            paren_pos(v@, 0) == paren_pos(v@, k as int),
        decreases v.len() - k,
    {
        k = k + 1;
    }
    string_from_chars(&v, 0, k)
}

/// A text without a given prefix, or the text itself when it lacks it.
pub open spec fn after_prefix(s: Seq<char>, p: Seq<char>) -> Seq<char> {
    if is_prefix(p, s) {
        s.subrange(p.len() as int, s.len() as int)
    } else {
        s
    }
}

fn strip_prefix_of(s: &str, p: &str) -> (r: String)
    ensures
        r@ == after_prefix(s@, p@),
{
    if starts_with(s, p) {
        let v = chars_of(s);
        let n = p.unicode_len();
        string_from_chars(&v, n, v.len())
    } else {
        to_owned_string(s)
    }
}

/// The message for a jsonwebtoken error given as its `Debug` kind and its
/// `Display` text: the fixed message of a kind without data, or the data's
/// own message (the `Display` text after the kind's prefix).
pub open spec fn error_message_of(kind: Seq<char>, display: Seq<char>) -> Seq<char> {
    let n = variant_name(kind);
    if n == "InvalidToken"@ {
        "Invalid token"@
    } else if n == "InvalidSignature"@ {
        "Invalid signature"@
    } else if n == "InvalidEcdsaKey"@ {
        "Invalid ECDSA key"@
    } else if n == "InvalidRsaKey"@ {
        after_prefix(display, "RSA key invalid: "@)
    } else if n == "RsaFailedSigning"@ {
        "RSA failed signing"@
    } else if n == "InvalidAlgorithmName"@ {
        "Invalid algorithm name"@
    } else if n == "InvalidKeyFormat"@ {
        "Invalid key format"@
    } else if n == "MissingRequiredClaim"@ {
        after_prefix(display, "Missing required claim: "@)
    } else if n == "ExpiredSignature"@ {
        "Expired signature"@
    } else if n == "InvalidIssuer"@ {
        "Invalid issuer"@
    } else if n == "InvalidAudience"@ {
        "Invalid audience"@
    } else if n == "InvalidSubject"@ {
        "Invalid subject"@
    } else if n == "ImmatureSignature"@ {
        "Immature signature"@
    } else if n == "InvalidAlgorithm"@ {
        "Invalid algorithm"@
    } else if n == "MissingAlgorithm"@ {
        "Missing algorithm"@
    } else if n == "Base64"@ {
        after_prefix(display, "Base64 error: "@)
    } else if n == "Json"@ {
        after_prefix(display, "JSON error: "@)
    } else if n == "Utf8"@ {
        after_prefix(display, "UTF-8 error: "@)
    } else if n == "Crypto"@ {
        after_prefix(display, "Crypto error: "@)
    } else {
        "Other JWT error"@
    }
}

/// Names the failure of a jsonwebtoken error given as its `Debug` kind and
/// its `Display` text.
pub fn jwt_error_kind(kind: &str, display: &str) -> (k: JwtErrorKind)
    ensures
        jwt_error_text(k) == error_message_of(kind@, display@),
{
    let n = variant_name_of(kind);
    let n = n.as_str();
    if str_eq(n, "InvalidToken") {
        JwtErrorKind::InvalidToken
    } else if str_eq(n, "InvalidSignature") {
        JwtErrorKind::InvalidSignature
    } else if str_eq(n, "InvalidEcdsaKey") {
        JwtErrorKind::InvalidEcdsaKey
    } else if str_eq(n, "InvalidRsaKey") {
        JwtErrorKind::InvalidRsaKey(strip_prefix_of(display, "RSA key invalid: "))
    } else if str_eq(n, "RsaFailedSigning") {
        JwtErrorKind::RsaFailedSigning
    } else if str_eq(n, "InvalidAlgorithmName") {
        JwtErrorKind::InvalidAlgorithmName
    } else if str_eq(n, "InvalidKeyFormat") {
        JwtErrorKind::InvalidKeyFormat
    } else if str_eq(n, "MissingRequiredClaim") {
        JwtErrorKind::MissingRequiredClaim(strip_prefix_of(display, "Missing required claim: "))
    } else if str_eq(n, "ExpiredSignature") {
        JwtErrorKind::ExpiredSignature
    } else if str_eq(n, "InvalidIssuer") {
        JwtErrorKind::InvalidIssuer
    } else if str_eq(n, "InvalidAudience") {
        JwtErrorKind::InvalidAudience
    } else if str_eq(n, "InvalidSubject") {
        JwtErrorKind::InvalidSubject
    } else if str_eq(n, "ImmatureSignature") {
        JwtErrorKind::ImmatureSignature
    } else if str_eq(n, "InvalidAlgorithm") {
        JwtErrorKind::InvalidAlgorithm
    } else if str_eq(n, "MissingAlgorithm") {
        JwtErrorKind::MissingAlgorithm
    } else if str_eq(n, "Base64") {
        JwtErrorKind::Base64(strip_prefix_of(display, "Base64 error: "))
    } else if str_eq(n, "Json") {
        JwtErrorKind::Json(strip_prefix_of(display, "JSON error: "))
    } else if str_eq(n, "Utf8") {
        JwtErrorKind::Utf8(strip_prefix_of(display, "UTF-8 error: "))
    } else if str_eq(n, "Crypto") {
        JwtErrorKind::Crypto(strip_prefix_of(display, "Crypto error: "))
    } else {
        JwtErrorKind::Other
    }
}

/// The claims a token's payload members hold: `username` as a JSON string
/// and `expires` as a number that fits a `usize`.
pub open spec fn claims_of_members(ms: Seq<(Seq<char>, Seq<char>)>) -> Option<(Seq<char>, nat)> {
    match (record_get(ms, "username"@), record_get(ms, "expires"@)) {
        (Some(u), Some(e)) => match (json_decoded_string(u), parsed_unsigned(e, usize::MAX as nat)) {
            (Some(name), Some(n)) => Some((name, n)),
            _ => None,
        },
        _ => None,
    }
}

/// Why a token's payload members hold no claims.
pub open spec fn claims_error_text(ms: Seq<(Seq<char>, Seq<char>)>) -> Seq<char> {
    match record_get(ms, "username"@) {
        None => "missing field `username`"@,
        Some(u) => if json_decoded_string(u) is None {
            "invalid type: expected a string for `username`"@
        } else {
            match record_get(ms, "expires"@) {
                None => "missing field `expires`"@,
                Some(e) => if parsed_unsigned(e, usize::MAX as nat) is None {
                    "invalid value: expected a usize for `expires`"@
                } else {
                    Seq::empty()
                },
            }
        },
    }
}

/// Reads the claims out of a token's payload members.
pub fn claims_from_members(ms: &Vec<(String, String)>) -> (r: Result<Claims, String>)
    ensures
        match r {
            Ok(c) => claims_of_members(ms.deep_view()) == Some((c.username@, c.expires as nat)),
            Err(m) => claims_of_members(ms.deep_view()) is None && m@ == claims_error_text(ms.deep_view()),
        },
{
    let u = match record_lookup(ms, "username") {
        Some(u) => u,
        None => return Err(to_owned_string("missing field `username`")),
    };
    let name = match decode_json_string(u.as_str()) {
        Some(n) => n,
        None => return Err(to_owned_string("invalid type: expected a string for `username`")),
    };
    let e = match record_lookup(ms, "expires") {
        Some(e) => e,
        None => return Err(to_owned_string("missing field `expires`")),
    };
    match parse_unsigned(e.as_str(), usize::MAX) {
        Some(n) => Ok(Claims { username: name, expires: n }),
        None => Err(to_owned_string("invalid value: expected a usize for `expires`")),
    }
}

/// The result of verifying a token whose claims were read, given what the
/// claim validation answered: the claims, or status 401 with the message
/// of the validation's error.
pub fn validated_claims(claims: Claims, validation: Result<Option<Vec<(String, String)>>, (String, String)>) -> (r: Result<Claims, (u16, String)>)
    ensures
        match validation {
            Ok(_) => r == Ok::<Claims, (u16, String)>(claims),
            Err(e) => r matches Err(x) && x.0 == 401 && x.1@ == error_message_of(e.0@, e.1@),
        },
{
    match validation {
        Ok(_) => verify_outcome(Ok(claims)),
        Err(e) => verify_outcome(Err(jwt_error_kind(e.0.as_str(), e.1.as_str()))),
    }
}

/// Why a token's payload holds no claims.
pub open spec fn payload_error_text(payload: Option<Seq<(Seq<char>, Seq<char>)>>) -> Seq<char> {
    match payload {
        Some(ms) => claims_error_text(ms),
        None => "invalid type: expected struct Claims"@,
    }
}

/// The claims a token's payload holds: none unless it is an object.
pub open spec fn payload_claims(payload: Option<Seq<(Seq<char>, Seq<char>)>>) -> Option<(Seq<char>, nat)> {
    match payload {
        Some(ms) => claims_of_members(ms),
        None => None,
    }
}

/// Whether a token's signature and payload passed, its claims are readable
/// and its payload has no `exp` member.
pub open spec fn claims_without_exp(d: Result<Option<Seq<(Seq<char>, Seq<char>)>>, (Seq<char>, Seq<char>)>) -> bool {
    d matches Ok(Some(ms)) && claims_of_members(ms) is Some && record_get(ms, "exp"@) is None
}

/// The message of jsonwebtoken's missing-`exp` error is `exp`.
proof fn lemma_missing_exp_message()
    ensures
        error_message_of(missing_exp_kind(), missing_exp_display()) == "exp"@,
{
    let d = missing_exp_kind();
    lemma_paren_pos_at(d, 0, 20);
    reveal_strlit("MissingRequiredClaim");
    reveal_strlit("Missing required claim: ");
    reveal_strlit("exp");
    assert(variant_name(d) =~= "MissingRequiredClaim"@);
    assert(missing_exp_display().subrange(24, missing_exp_display().len() as int) =~= "exp"@);
    assert(missing_exp_display().subrange(0, 24) =~= "Missing required claim: "@);
    assert(is_prefix("Missing required claim: "@, missing_exp_display()));
    assert(after_prefix(missing_exp_display(), "Missing required claim: "@) =~= "exp"@);
    let n = variant_name(d);
    assert(n != "InvalidToken"@ && n != "InvalidSignature"@ && n != "InvalidEcdsaKey"@ && n != "InvalidRsaKey"@
        && n != "RsaFailedSigning"@ && n != "InvalidAlgorithmName"@ && n != "InvalidKeyFormat"@) by {
        reveal_strlit("InvalidToken");
        reveal_strlit("InvalidSignature");
        reveal_strlit("InvalidEcdsaKey");
        reveal_strlit("InvalidRsaKey");
        reveal_strlit("RsaFailedSigning");
        reveal_strlit("InvalidAlgorithmName");
        reveal_strlit("InvalidKeyFormat");
        assert(n[0] == 'M');
        assert("InvalidToken"@[0] == 'I');
        assert("InvalidSignature"@[0] == 'I');
        assert("InvalidEcdsaKey"@[0] == 'I');
        assert("InvalidRsaKey"@[0] == 'I');
        assert("RsaFailedSigning"@[0] == 'R');
        assert("InvalidAlgorithmName"@[0] == 'I');
        assert("InvalidKeyFormat"@[0] == 'I');
    }
}

proof fn lemma_paren_pos_at(d: Seq<char>, k: int, p: int)
    requires
        0 <= k <= p < d.len(),
        d[p] == '(',
        forall|t: int| k <= t < p ==> d[t] != '(',
    ensures
        paren_pos(d, k) == p,
    decreases p - k,
{
    if k < p {
        lemma_paren_pos_at(d, k + 1, p);
    }
}

/// Verifies a login token: its HS256 signature under the host's secret, its
/// claims (`username`, `expires`), then the claim validation of
/// `Validation::default()`.  Every failure is status 401 with its message.
/// A token with readable claims but no `exp` claim, as every token that
/// `create_token` issues, is refused with the message `exp`.
pub fn verify_token(token: &str) -> (r: Result<Claims, (u16, String)>)
    ensures
        r matches Err(e) ==> e.0 == 401,
        match hs256_claims(token@, CODE@) {
            Err(e) => r matches Err(x) && x.1@ == error_message_of(e.0, e.1),
            Ok(p) => match payload_claims(p) {
                None => r matches Err(x) && x.1@ == payload_error_text(p),
                Some(c) => r matches Ok(k) ==> k.username@ == c.0 && k.expires == c.1,
            },
        },
        claims_without_exp(hs256_claims(token@, CODE@)) ==> (r matches Err(x) && x.0 == 401 && x.1@ == "exp"@),
{
    let payload = match decode_hs256(token, CODE, false) {
        Ok(p) => p,
        Err(e) => return verify_outcome(Err(jwt_error_kind(e.0.as_str(), e.1.as_str()))),
    };
    let members = match payload {
        Some(ms) => ms,
        None => return verify_outcome(Err(JwtErrorKind::Json(to_owned_string("invalid type: expected struct Claims")))),
    };
    let claims = match claims_from_members(&members) {
        Ok(c) => c,
        Err(m) => return verify_outcome(Err(JwtErrorKind::Json(m))),
    };
    let validation = decode_hs256(token, CODE, true);
    proof {
        lemma_missing_exp_message();
    }
    validated_claims(claims, validation)
}

} // verus!
