use vstd::prelude::*;

use jsonwebtoken::{DecodingKey, EncodingKey, Header, Validation};
use serde_json::value::RawValue;
use vstd::string::StringSliceAdditionalSpecFns;

use crate::models::{now_timestamp, LATEST_INSTANT_SECS};
use crate::utils::{decimal, hex_digit, hex_digit_injective};
use vstd::string::StringExecFns;

verus! {

/// Lifetime of an access token, in minutes.
pub const ACCESS_EXP: i64 = 15;

/// Lifetime of an access token, in seconds.
pub const ACCESS_EXP_SECS: i64 = ACCESS_EXP * 60;

/// What an access token asserts: whose it is and when it expires (Unix seconds).
#[derive(Debug)]
pub struct Claims {
    pub sub: String,
    pub exp: usize,
}

/// Why a token could not be issued or was not accepted.
#[derive(Debug)]
pub enum TokenError {
    /// The current time could not be read.
    ClockUnavailable,
    /// The token is malformed, wrongly signed or expired.
    Rejected,
}

/// How one character of a JSON string is written: quote and backslash are
/// escaped, the usual control characters by letter, the others as `\u00XX`
/// with lower-case hexadecimal digits, and every other character as itself.
pub open spec fn json_escape_char(c: char) -> Seq<char> {
    if c == '"' {
        seq!['\\', '"']
    } else if c == '\\' {
        seq!['\\', '\\']
    } else if c == '\x08' {
        seq!['\\', 'b']
    } else if c == '\t' {
        seq!['\\', 't']
    } else if c == '\n' {
        seq!['\\', 'n']
    } else if c == '\x0C' {
        seq!['\\', 'f']
    } else if c == '\r' {
        seq!['\\', 'r']
    } else if (c as u32) < 0x20 {
        seq!['\\', 'u', '0', '0', hex_digit(((c as u32) / 16) as int), hex_digit(((c as u32) % 16) as int)]
    } else {
        seq![c]
    }
}

/// The escaped body of a JSON string holding `s`.
pub open spec fn json_escape(s: Seq<char>) -> Seq<char>
    decreases s.len(),
{
    if s.len() == 0 {
        Seq::empty()
    } else {
        json_escape(s.drop_last()) + json_escape_char(s.last())
    }
}

/// The JSON string literal holding `s`.
pub open spec fn json_string(s: Seq<char>) -> Seq<char> {
    seq!['"'] + json_escape(s) + seq!['"']
}

/// The compact JSON text of the claims `sub` and `exp`, fields in that order.
pub open spec fn claims_text(sub: Seq<char>, exp: nat) -> Seq<char> {
    "{\"sub\":"@ + json_string(sub) + ",\"exp\":"@ + decimal(exp) + "}"@
}

/// The HS256-signed JSON Web Token, with the default header, whose payload is
/// the JSON text `claims_json`, signed with `secret`.
pub uninterp spec fn hs256_jwt(claims_json: Seq<char>, secret: Seq<u8>) -> Seq<char>;

/// Whether `s` is the claims' JSON text of some subject and some expiry that
/// fits an unsigned 64-bit number.
pub open spec fn is_claims_text(s: Seq<char>) -> bool {
    exists|sub: Seq<char>, exp: nat| exp <= u64::MAX && s == #[trigger] claims_text(sub, exp)
}

/// Calls `jsonwebtoken::encode` with the default header (HS256) on the claims
/// given as JSON text (carried by `serde_json`'s `RawValue`, which writes the
/// text as it is), keyed by `EncodingKey::from_secret(secret)`. Trusted: where
/// it succeeds the token is [`hs256_jwt`] of the arguments. On claims text
/// (valid JSON with a numeric `exp` and no `aud`) it succeeds, HMAC signing
/// taking keys of any length, and the decoder reads back, with the same secret,
/// exactly that payload: the token's [`hs256_jwt_payload`] is the claims text.
#[verifier::external_body]
fn jwt_encode_hs256(claims_json: &str, secret: &[u8]) -> (r: Option<String>)
    ensures
        r matches Some(t) ==> t@ == hs256_jwt(claims_json@, secret@),
        is_claims_text(claims_json@) ==> r is Some,
        r matches Some(t) ==> (is_claims_text(claims_json@) ==> hs256_jwt_payload(t@, secret@) == Some(claims_json@)),
{
    let claims = RawValue::from_string(claims_json.to_owned()).ok()?;
    jsonwebtoken::encode(&Header::default(), &claims, &EncodingKey::from_secret(secret)).ok()
}

/// The payload, as JSON text, of `token` where it is a well-formed HS256
/// token signed with `secret` that passes `Validation::default()` with the
/// comparison of its `exp` claim with the clock switched off (the header names
/// HS256, the signature matches, the payload is JSON whose `exp` reads as an
/// unsigned 64-bit number); `None` otherwise.
pub uninterp spec fn hs256_jwt_payload(token: Seq<char>, secret: Seq<u8>) -> Option<Seq<char>>;

/// Calls `jsonwebtoken::decode` with `Validation::default()` whose
/// `validate_exp` is switched off (so the decoder does not read the clock; the
/// `exp` claim is still required), keyed by `DecodingKey::from_secret(secret)`,
/// and returns the payload as JSON text. Trusted: the result is
/// [`hs256_jwt_payload`] of the token and the secret.
#[verifier::external_body]
fn jwt_decode_hs256(token: &str, secret: &[u8]) -> (r: Option<String>)
    ensures
        r is Some <==> hs256_jwt_payload(token@, secret@) is Some,
        r matches Some(c) ==> hs256_jwt_payload(token@, secret@) == Some(c@),
{
    let key = DecodingKey::from_secret(secret);
    let mut validation = Validation::default();
    validation.validate_exp = false;
    let data = jsonwebtoken::decode::<Box<RawValue>>(token, &key, &validation).ok()?;
    Some(data.claims.get().to_owned())
}

/// The member `key` of the JSON object `json` read as an unsigned 64-bit
/// number; `None` where `json` is not JSON, has no such member, or the member
/// is not such a number.
pub uninterp spec fn json_u64_field(json: Seq<char>, key: Seq<char>) -> Option<u64>;

/// Parses `json` with `serde_json::from_str` into a `Value` and reads its
/// member `key` with `Value::get` and `as_u64`. Trusted: the result is
/// [`json_u64_field`] of the text and the key; on the claims' text the member
/// `exp` reads back as the expiry written there.
#[verifier::external_body]
fn read_u64_field(json: &str, key: &str) -> (r: Option<u64>)
    ensures
        r == json_u64_field(json@, key@),
        forall|sub: Seq<char>, exp: nat|
            key@ == "exp"@ && exp <= u64::MAX && json@ == #[trigger] claims_text(sub, exp) ==> r == Some(exp as u64),
{
    serde_json::from_str::<serde_json::Value>(json).ok()?.get(key)?.as_u64()
}

/// Calls `serde_json::to_string` on a string. Trusted: the result is the JSON
/// string literal holding `s` ([`json_string`]), as `serde_json`'s escape table
/// writes it; serialising a string does not fail.
#[verifier::external_body]
fn json_string_literal(s: &str) -> (r: String)
    ensures
        r@ == json_string(s@),
{
    serde_json::to_string(s).unwrap_or_default()
}

/// Calls `serde_json::to_string` on an unsigned number. Trusted: the result is
/// its decimal text; serialising a number does not fail.
#[verifier::external_body]
fn json_unsigned(n: usize) -> (r: String)
    ensures
        r@ == decimal(n as nat),
{
    serde_json::to_string(&n).unwrap_or_default()
}

impl Claims {
    /// The claims as compact JSON text: `sub` then `exp`.
    pub fn to_json(&self) -> (r: String)
        ensures
            r@ == claims_text(self.sub@, self.exp as nat),
    {
        proof {
            reveal_strlit("{\"sub\":");
            reveal_strlit(",\"exp\":");
            reveal_strlit("}");
        }
        let sub = json_string_literal(self.sub.as_str());
        let exp = json_unsigned(self.exp);
        let mut out = String::new();
        out.append("{\"sub\":");
        out.append(sub.as_str());
        out.append(",\"exp\":");
        out.append(exp.as_str());
        out.append("}");
        assert(out@ =~= claims_text(self.sub@, self.exp as nat));
        out
    }
}

/// The expiry (Unix seconds) of an access token issued at `now`.
pub open spec fn access_expiry(now: i64) -> usize {
    (now + ACCESS_EXP_SECS) as usize
}

/// The claims of an access token for `user_id` issued at `now`: the user and
/// an expiry [`ACCESS_EXP`] minutes later.
pub fn access_claims(user_id: &str, now: i64) -> (c: Claims)
    requires
        now <= i64::MAX - ACCESS_EXP_SECS,
    ensures
        c.sub@ == user_id@,
        c.exp == access_expiry(now),
{
    let exp = now + ACCESS_EXP_SECS;
    Claims { sub: user_id.to_owned(), exp: exp as usize }
}

/// Signs the claims of an access token for `user_id` issued at `now` with
/// `secret`: the HS256 token whose payload is the claims' JSON text, which the
/// decoder reads back with the same secret.
pub fn access_token_at(user_id: &str, secret: &str, now: i64) -> (r: String)
    requires
        now <= i64::MAX - ACCESS_EXP_SECS,
    ensures
        r@ == hs256_jwt(claims_text(user_id@, access_expiry(now) as nat), secret.spec_bytes()),
        hs256_jwt_payload(r@, secret.spec_bytes()) == Some(
            claims_text(user_id@, access_expiry(now) as nat),
        ),
{
    let claims = access_claims(user_id, now);
    let text = claims.to_json();
    assert(is_claims_text(text@));
    let token = jwt_encode_hs256(text.as_str(), secret.as_bytes());
    token.unwrap()
}

/// Issues an access token for `user_id`, signed with `secret`, that expires
/// [`ACCESS_EXP`] minutes after the current time; the clock may be unreadable
/// (an instant before the Unix epoch), which is reported.
pub fn create_access_token(user_id: &str, secret: &str) -> (r: Result<String, TokenError>)
    ensures
        r matches Ok(t) ==> exists|now: i64|
            0 <= now <= LATEST_INSTANT_SECS && t@ == hs256_jwt(
                #[trigger] claims_text(user_id@, access_expiry(now) as nat),
                secret.spec_bytes(),
            ) && hs256_jwt_payload(t@, secret.spec_bytes()) == Some(
                claims_text(user_id@, access_expiry(now) as nat),
            ),
        r matches Err(e) ==> e == TokenError::ClockUnavailable,
{
    match now_timestamp() {
        Some(now) => Ok(access_token_at(user_id, secret, now.secs)),
        None => Err(TokenError::ClockUnavailable),
    }
}

/// An access token issued for a user, read back by the decoder with the
/// secret that signed it, gives a payload that names exactly that user and
/// that expiry: whatever claims the payload is read as, they are the issued
/// ones.
pub proof fn issued_access_token_verifies_to_its_claims(
    token: Seq<char>,
    secret: Seq<u8>,
    user_id: Seq<char>,
    exp: nat,
    sub: Seq<char>,
    read_exp: nat,
)
    requires
        hs256_jwt_payload(token, secret) == Some(claims_text(user_id, exp)),
        hs256_jwt_payload(token, secret) == Some(claims_text(sub, read_exp)),
    ensures
        sub == user_id,
        read_exp == exp,
{
    claims_text_injective(user_id, exp, sub, read_exp);
}

/// Seconds of grace after a token's expiry during which it is still accepted
/// (the leeway of the default validation).
pub const EXPIRY_LEEWAY_SECS: u64 = 60;

/// Whether the payload `payload` has not expired at `now` (Unix seconds): its
/// `exp` reads as a number and `now` is at most [`EXPIRY_LEEWAY_SECS`] past it.
pub open spec fn payload_fresh_at(payload: Seq<char>, now: int) -> bool {
    json_u64_field(payload, "exp"@) matches Some(e) && now <= e + EXPIRY_LEEWAY_SECS
}

/// Whether `token`, checked against `secret`, is accepted at `now`: it is well
/// formed and well signed, and its payload has not expired.
pub open spec fn token_accepted_at(token: Seq<char>, secret: Seq<u8>, now: int) -> bool {
    hs256_jwt_payload(token, secret) matches Some(p) && payload_fresh_at(p, now)
}

/// The expiry check of a verified payload at `now`: accepted (and given back)
/// while `now` is at most [`EXPIRY_LEEWAY_SECS`] past its `exp`, refused after,
/// and refused where `exp` cannot be read.
pub fn check_expiry(payload: String, now: u64) -> (r: Result<String, TokenError>)
    ensures
        r is Ok <==> payload_fresh_at(payload@, now as int),
        r matches Ok(c) ==> c@ == payload@,
        r matches Err(e) ==> e == TokenError::Rejected,
        forall|sub: Seq<char>, exp: nat|
            exp <= u64::MAX && payload@ == #[trigger] claims_text(sub, exp) ==> (r is Ok <==> now <= exp + EXPIRY_LEEWAY_SECS),
{
    match read_u64_field(payload.as_str(), "exp") {
        Some(exp) => {
            if now <= exp || now - exp <= EXPIRY_LEEWAY_SECS {
                Ok(payload)
            } else {
                Err(TokenError::Rejected)
            }
        },
        None => Err(TokenError::Rejected),
    }
}

/// Checks the signature and the expiry of `token` against `secret` at `now`
/// (Unix seconds) and gives back its payload, the claims as JSON text. A token
/// with claims expiring at `exp` is accepted exactly until
/// [`EXPIRY_LEEWAY_SECS`] past `exp`.
pub fn verify_token_at(token: &str, secret: &str, now: u64) -> (r: Result<String, TokenError>)
    ensures
        r is Ok <==> token_accepted_at(token@, secret.spec_bytes(), now as int),
        r matches Ok(c) ==> hs256_jwt_payload(token@, secret.spec_bytes()) == Some(c@),
        r matches Err(e) ==> e == TokenError::Rejected,
        forall|sub: Seq<char>, exp: nat|
            exp <= u64::MAX && hs256_jwt_payload(token@, secret.spec_bytes()) == Some(#[trigger] claims_text(sub, exp))
                ==> (r is Ok <==> now <= exp + EXPIRY_LEEWAY_SECS),
{
    match jwt_decode_hs256(token, secret.as_bytes()) {
        Some(payload) => check_expiry(payload, now),
        None => Err(TokenError::Rejected),
    }
}

/// Checks the signature and expiry of `token` against `secret` at the current
/// time and gives back its payload, the claims as JSON text. A token that is
/// malformed or wrongly signed is refused without reading the clock; a
/// well-signed one is then checked at the current time, and a clock that
/// cannot be read is reported.
pub fn verify_token(token: &str, secret: &str) -> (r: Result<String, TokenError>)
    ensures
        r matches Ok(c) ==> hs256_jwt_payload(token@, secret.spec_bytes()) == Some(c@),
        hs256_jwt_payload(token@, secret.spec_bytes()) is None ==> r == Err::<String, TokenError>(TokenError::Rejected),
        r matches Err(e) ==> (e == TokenError::Rejected || e == TokenError::ClockUnavailable),
        !(r matches Err(TokenError::ClockUnavailable)) ==> exists|now: int|
            0 <= now <= LATEST_INSTANT_SECS && (r is Ok <==> #[trigger] token_accepted_at(token@, secret.spec_bytes(), now)),
{
    match jwt_decode_hs256(token, secret.as_bytes()) {
        None => {
            assert(!token_accepted_at(token@, secret.spec_bytes(), 0));
            Err(TokenError::Rejected)
        },
        Some(payload) => match now_timestamp() {
            None => Err(TokenError::ClockUnavailable),
            Some(now) => {
                let r = check_expiry(payload, now.secs as u64);
                assert(r is Ok <==> token_accepted_at(token@, secret.spec_bytes(), now.secs as int));
                r
            },
        },
    }
}

/// Whether `c` is written as itself inside a JSON string.
pub open spec fn json_plain_char(c: char) -> bool {
    (c as u32) >= 0x20 && c != '"' && c != '\\'
}

/// A subject made only of characters that need no escaping appears verbatim
/// inside the claims' JSON text.
pub proof fn plain_subject_is_verbatim(s: Seq<char>)
    requires
        forall|i: int| 0 <= i < s.len() ==> json_plain_char(#[trigger] s[i]),
    ensures
        json_escape(s) == s,
    decreases s.len(),
{
    if s.len() > 0 {
        plain_subject_is_verbatim(s.drop_last());
        assert(json_plain_char(s[s.len() - 1]));
        assert(s.drop_last().push(s.last()) =~= s);
    }
}

/// An access token issued at `now` expires exactly [`ACCESS_EXP`] minutes
/// later, where that instant fits the machine's word.
pub proof fn access_token_lasts_fifteen_minutes(now: i64)
    requires
        0 <= now + ACCESS_EXP_SECS <= usize::MAX,
    ensures
        access_expiry(now) as int == now + 15 * 60,
{
}

proof fn lemma_json_escape_front(s: Seq<char>)
    requires
        s.len() > 0,
    ensures
        json_escape(s) == json_escape_char(s[0]) + json_escape(s.drop_first()),
    decreases s.len(),
{
    if s.len() == 1 {
        assert(s.drop_last() =~= Seq::<char>::empty());
        assert(s.drop_first() =~= Seq::<char>::empty());
        assert(json_escape(Seq::<char>::empty()) =~= Seq::<char>::empty());
        assert(s.last() == s[0]);
        assert(json_escape(s) =~= json_escape_char(s[0]));
    } else {
        lemma_json_escape_front(s.drop_last());
        assert(s.drop_last().drop_first() =~= s.drop_first().drop_last());
        assert(s.drop_first().last() == s.last());
        assert(json_escape(s.drop_first()) == json_escape(s.drop_first().drop_last())
            + json_escape_char(s.drop_first().last()));
        assert(json_escape(s) =~= json_escape_char(s[0]) + json_escape(s.drop_first()));
    }
}

proof fn lemma_json_escape_char_shape(c: char)
    ensures
        json_escape_char(c).len() >= 1,
        json_escape_char(c)[0] == '\\' <==> !json_plain_char(c),
        json_escape_char(c)[0] != '\\' ==> json_escape_char(c).len() == 1,
        json_escape_char(c)[0] == '\\' ==> json_escape_char(c).len() >= 2 && (json_escape_char(c).len()
            == 6 <==> json_escape_char(c)[1] == 'u') && (json_escape_char(c).len() == 2
            <==> json_escape_char(c)[1] != 'u'),
{
}

/// Whether `c` is a control character written as `\u00XX`.
spec fn json_hex_escaped(c: char) -> bool {
    (c as u32) < 0x20 && c != '\x08' && c != '\t' && c != '\n' && c != '\x0C' && c != '\r'
}

proof fn lemma_json_escape_char_injective(a: char, b: char)
    requires
        json_escape_char(a) == json_escape_char(b),
    ensures
        a == b,
{
    let ea = json_escape_char(a);
    let eb = json_escape_char(b);
    lemma_json_escape_char_shape(a);
    lemma_json_escape_char_shape(b);
    if json_hex_escaped(a) || json_hex_escaped(b) {
        assert(ea.len() == 6);
        assert(json_hex_escaped(a) && json_hex_escaped(b));
        assert(ea[4] == eb[4]);
        assert(ea[5] == eb[5]);
        hex_digit_injective(((a as u32) / 16) as int, ((b as u32) / 16) as int);
        hex_digit_injective(((a as u32) % 16) as int, ((b as u32) % 16) as int);
        assert((a as u32) == (b as u32));
        vstd::utf8::char_u32_cast(a, a as u32);
        vstd::utf8::char_u32_cast(b, b as u32);
    } else if json_plain_char(a) || json_plain_char(b) {
        assert(ea.len() == 1);
        assert(ea[0] == a);
        assert(eb[0] == b);
    } else {
        assert(ea.len() == 2);
        assert(ea[1] == eb[1]);
    }
}

proof fn lemma_json_escape_empty(s: Seq<char>)
    ensures
        json_escape(s).len() == 0 <==> s.len() == 0,
    decreases s.len(),
{
    if s.len() > 0 {
        lemma_json_escape_front(s);
        lemma_json_escape_char_shape(s[0]);
    }
}

/// Distinct subjects are written as distinct JSON strings, so the claims'
/// text of an access token determines whose token it is.
pub proof fn json_escape_injective(a: Seq<char>, b: Seq<char>)
    requires
        json_escape(a) == json_escape(b),
    ensures
        a == b,
    decreases a.len(),
{
    lemma_json_escape_empty(a);
    lemma_json_escape_empty(b);
    if a.len() > 0 {
        lemma_json_escape_front(a);
        lemma_json_escape_front(b);
        let ea = json_escape_char(a[0]);
        let eb = json_escape_char(b[0]);
        let all = json_escape(a);
        lemma_json_escape_char_shape(a[0]);
        lemma_json_escape_char_shape(b[0]);
        assert(ea[0] == all[0]);
        assert(eb[0] == all[0]);
        if ea.len() >= 2 {
            assert(ea[1] == all[1]);
        }
        if eb.len() >= 2 {
            assert(eb[1] == all[1]);
        }
        assert(ea.len() == eb.len());
        assert(ea =~= all.subrange(0, ea.len() as int));
        assert(eb =~= all.subrange(0, eb.len() as int));
        lemma_json_escape_char_injective(a[0], b[0]);
        assert(json_escape(a.drop_first()) =~= all.subrange(ea.len() as int, all.len() as int));
        assert(json_escape(b.drop_first()) =~= all.subrange(eb.len() as int, all.len() as int));
        json_escape_injective(a.drop_first(), b.drop_first());
        assert(a =~= seq![a[0]] + a.drop_first());
        assert(b =~= seq![b[0]] + b.drop_first());
    }
}

proof fn lemma_escape_never_starts_with_quote(c: char)
    ensures
        json_escape_char(c).len() >= 1,
        json_escape_char(c)[0] != '"',
{
}

/// The escaped body of a JSON string ends at the first quote that follows it:
/// what comes before that quote determines the string, and what comes after
/// it is the rest.
proof fn lemma_escaped_then_quote(a: Seq<char>, b: Seq<char>, ra: Seq<char>, rb: Seq<char>)
    requires
        json_escape(a) + seq!['"'] + ra == json_escape(b) + seq!['"'] + rb,
    ensures
        a == b,
        ra == rb,
    decreases a.len(),
{
    let x = json_escape(a) + seq!['"'] + ra;
    let y = json_escape(b) + seq!['"'] + rb;
    lemma_json_escape_empty(a);
    lemma_json_escape_empty(b);
    if a.len() == 0 || b.len() == 0 {
        if a.len() > 0 {
            lemma_json_escape_front(a);
            lemma_escape_never_starts_with_quote(a[0]);
            assert(x[0] == json_escape_char(a[0])[0]);
            assert(y[0] == '"');
        } else if b.len() > 0 {
            lemma_json_escape_front(b);
            lemma_escape_never_starts_with_quote(b[0]);
            assert(y[0] == json_escape_char(b[0])[0]);
            assert(x[0] == '"');
        } else {
            assert(ra =~= x.subrange(1, x.len() as int));
            assert(rb =~= y.subrange(1, y.len() as int));
            assert(a =~= b);
        }
    } else {
        lemma_json_escape_front(a);
        lemma_json_escape_front(b);
        let ea = json_escape_char(a[0]);
        let eb = json_escape_char(b[0]);
        lemma_json_escape_char_shape(a[0]);
        lemma_json_escape_char_shape(b[0]);
        assert(x[0] == ea[0]);
        assert(y[0] == eb[0]);
        if ea.len() >= 2 {
            assert(x[1] == ea[1]);
        }
        if eb.len() >= 2 {
            assert(y[1] == eb[1]);
        }
        assert(ea.len() == eb.len());
        assert(ea =~= x.subrange(0, ea.len() as int));
        assert(eb =~= y.subrange(0, eb.len() as int));
        lemma_json_escape_char_injective(a[0], b[0]);
        assert(json_escape(a.drop_first()) + seq!['"'] + ra =~= x.subrange(ea.len() as int, x.len() as int));
        assert(json_escape(b.drop_first()) + seq!['"'] + rb =~= y.subrange(eb.len() as int, y.len() as int));
        lemma_escaped_then_quote(a.drop_first(), b.drop_first(), ra, rb);
        assert(a =~= seq![a[0]] + a.drop_first());
        assert(b =~= seq![b[0]] + b.drop_first());
    }
}

/// Distinct numbers have distinct decimal texts.
pub proof fn decimal_injective(a: nat, b: nat)
    requires
        decimal(a) == decimal(b),
    ensures
        a == b,
    decreases a,
{
    crate::utils::decimal_shape(a / 10);
    crate::utils::decimal_shape(b / 10);
    if a >= 10 && b >= 10 {
        assert(decimal(a).last() == decimal(b).last());
        assert(decimal(a).last() == crate::utils::decimal_digit((a % 10) as int));
        assert(decimal(b).last() == crate::utils::decimal_digit((b % 10) as int));
        assert(a % 10 == b % 10);
        assert(decimal(a).drop_last() =~= decimal(a / 10));
        assert(decimal(b).drop_last() =~= decimal(b / 10));
        decimal_injective(a / 10, b / 10);
        assert(a == 10 * (a / 10) + a % 10);
        assert(b == 10 * (b / 10) + b % 10);
    } else if a >= 10 {
        assert(decimal(a).len() >= 2);
        assert(decimal(b).len() == 1);
    } else if b >= 10 {
        assert(decimal(b).len() >= 2);
        assert(decimal(a).len() == 1);
    } else {
        assert(decimal(a)[0] == crate::utils::decimal_digit(a as int));
        assert(decimal(b)[0] == crate::utils::decimal_digit(b as int));
        assert(decimal(a)[0] == decimal(b)[0]);
    }
}

/// The claims' JSON text determines the subject and the expiry: distinct
/// claims are written as distinct texts.
pub proof fn claims_text_injective(u1: Seq<char>, e1: nat, u2: Seq<char>, e2: nat)
    requires
        claims_text(u1, e1) == claims_text(u2, e2),
    ensures
        u1 == u2,
        e1 == e2,
{
    reveal_strlit("{\"sub\":");
    reveal_strlit(",\"exp\":");
    reveal_strlit("}");
    let head = "{\"sub\":"@ + seq!['"'];
    let t1 = claims_text(u1, e1);
    let t2 = claims_text(u2, e2);
    let r1 = ",\"exp\":"@ + decimal(e1) + "}"@;
    let r2 = ",\"exp\":"@ + decimal(e2) + "}"@;
    assert(t1 =~= head + (json_escape(u1) + seq!['"'] + r1));
    assert(t2 =~= head + (json_escape(u2) + seq!['"'] + r2));
    assert(json_escape(u1) + seq!['"'] + r1 =~= t1.subrange(head.len() as int, t1.len() as int));
    assert(json_escape(u2) + seq!['"'] + r2 =~= t2.subrange(head.len() as int, t2.len() as int));
    lemma_escaped_then_quote(u1, u2, r1, r2);
    assert(decimal(e1) =~= r1.subrange(7, r1.len() - 1));
    assert(decimal(e2) =~= r2.subrange(7, r2.len() - 1));
    decimal_injective(e1, e2);
}

} // verus!
