use vstd::prelude::*;

use argon2::password_hash::{PasswordHasher, PasswordVerifier, SaltString};
use argon2::{Algorithm, Argon2, Params, PasswordHash, Version};
use vstd::string::StringSliceAdditionalSpecFns;

use crate::text::{chars_of, has_prefix};
use crate::utils::{decimal, random_bytes16};

verus! {

/// Memory cost, in KiB, of new password hashes.
pub const MEMORY_COST_KIB: u32 = 65536;

/// Number of passes of new password hashes.
pub const TIME_COST: u32 = 3;

/// Degree of parallelism of new password hashes.
pub const PARALLELISM: u32 = 4;

/// Whether `phc` is a well-formed PHC password-hash string.
pub uninterp spec fn phc_string_parses(phc: Seq<char>) -> bool;

/// Whether the Argon2 verifier accepts `password` against the PHC string `phc`.
pub uninterp spec fn argon2_password_matches(password: Seq<char>, phc: Seq<char>) -> bool;

/// The PHC string that Argon2id (version 0x13) computes for `password` with
/// the B64 salt `salt` and the given costs.
pub uninterp spec fn argon2id_phc(password: Seq<char>, salt: Seq<char>, m_cost: u32, t_cost: u32, p_cost: u32) -> Seq<char>;

/// The character of a value below 64 in the standard Base64 alphabet.
pub open spec fn b64_char(v: int) -> char {
    if v < 26 {
        (65 + v) as char
    } else if v < 52 {
        (71 + v) as char
    } else if v < 62 {
        (v - 4) as char
    } else if v == 62 {
        '+'
    } else {
        '/'
    }
}

/// The B64 text of `bytes` (standard Base64 without padding), as PHC strings
/// write salts: each three bytes as four characters, a tail of one or two
/// bytes as two or three.
pub open spec fn b64_unpadded(bytes: Seq<u8>) -> Seq<char>
    decreases bytes.len(),
{
    let b0 = bytes[0] as int;
    let b1 = bytes[1] as int;
    let b2 = bytes[2] as int;
    if bytes.len() == 0 {
        Seq::empty()
    } else if bytes.len() == 1 {
        seq![b64_char(b0 / 4), b64_char((b0 % 4) * 16)]
    } else if bytes.len() == 2 {
        seq![b64_char(b0 / 4), b64_char((b0 % 4) * 16 + b1 / 16), b64_char((b1 % 16) * 4)]
    } else {
        seq![b64_char(b0 / 4), b64_char((b0 % 4) * 16 + b1 / 16), b64_char((b1 % 16) * 4 + b2 / 64), b64_char(b2 % 64)]
            + b64_unpadded(bytes.subrange(3, bytes.len() as int))
    }
}

/// Whether `salt` is the B64 text of sixteen bytes, the salts this library makes.
pub open spec fn is_sixteen_byte_salt(salt: Seq<char>) -> bool {
    exists|bytes: Seq<u8>| bytes.len() == 16 && salt == #[trigger] b64_unpadded(bytes)
}

/// The start of the PHC string of an Argon2id (version 0x13, written `19`)
/// hash with the given costs and B64 salt, up to the `$` before the hash.
pub open spec fn argon2id_phc_prefix(m_cost: u32, t_cost: u32, p_cost: u32, salt: Seq<char>) -> Seq<char> {
    "$argon2id$v=19$m="@ + decimal(m_cost as nat) + ",t="@ + decimal(t_cost as nat) + ",p="@ + decimal(
        p_cost as nat,
    ) + "$"@ + salt + "$"@
}

/// Calls `SaltString::encode_b64` on sixteen bytes and returns the salt's
/// text. Trusted: the text is the B64 encoding of the bytes, which for sixteen
/// bytes stays within the salt's length limits, so the encoding does not fail.
#[verifier::external_body]
fn salt_from_bytes(bytes: [u8; 16]) -> (salt: String)
    ensures
        salt@ == b64_unpadded(bytes@),
{
    match SaltString::encode_b64(&bytes) {
        Ok(salt) => salt.as_str().to_owned(),
        Err(_) => String::new(),
    }
}

/// Calls `Argon2::hash_password` with Argon2id, version 0x13 and the given
/// costs, on `password` and the B64 salt `salt`, and renders the PHC string.
/// Trusted: where it succeeds the result is [`argon2id_phc`] of the arguments,
/// it parses as a PHC string, the verifier accepts `password` against it
/// (verification recomputes the hash with the algorithm, version, costs and
/// salt that the string records), and it begins with
/// [`argon2id_phc_prefix`] of the costs and salt (`PasswordHash`'s `Display`:
/// algorithm, version, `m`, `t`, `p`, salt, hash). It succeeds on costs that
/// `Params::new` accepts, a salt made by B64-encoding sixteen bytes (decoded
/// within `MIN_SALT_LEN` and `MAX_SALT_LEN`) and a password of at most
/// `MAX_PWD_LEN` bytes.
#[verifier::external_body]
fn argon2id_hash(password: &str, salt: &str, m_cost: u32, t_cost: u32, p_cost: u32) -> (r: Option<String>)
    requires
        p_cost <= 0xFF_FFFF,
    ensures
        r matches Some(h) ==> {
            &&& h@ == argon2id_phc(password@, salt@, m_cost, t_cost, p_cost)
            &&& phc_string_parses(h@)
            &&& argon2_password_matches(password@, h@)
            &&& has_prefix(h@, argon2id_phc_prefix(m_cost, t_cost, p_cost, salt@))
            &&& phc_params(h@) == seq![("m"@, decimal(m_cost as nat)), ("t"@, decimal(t_cost as nat)), ("p"@, decimal(p_cost as nat))]
        },
        (8 <= m_cost && 8 * p_cost <= m_cost && 1 <= t_cost && 1 <= p_cost && is_sixteen_byte_salt(salt@) && password.spec_bytes().len() <= 0xFFFF_FFFF) ==> r is Some,
{
    let params = Params::new(m_cost, t_cost, p_cost, None).ok()?;
    let salt = SaltString::from_b64(salt).ok()?;
    let hasher = Argon2::new(Algorithm::Argon2id, Version::V0x13, params);
    let hash = hasher.hash_password(password.as_bytes(), &salt).ok()?;
    Some(hash.to_string())
}

/// The parameters of the PHC string `phc`, as name and value texts in the
/// order written, where it parses.
pub uninterp spec fn phc_params(phc: Seq<char>) -> Seq<(Seq<char>, Seq<char>)>;

/// The texts of a sequence of name and value pairs.
pub open spec fn pairs_view(pairs: Seq<(String, String)>) -> Seq<(Seq<char>, Seq<char>)> {
    pairs.map_values(|p: (String, String)| (p.0@, p.1@))
}

/// Parses `phc` with `PasswordHash::new` and lists its parameters with
/// `ParamsString::iter`, each name and value as text. Trusted: `None` exactly
/// when `phc` does not parse (in particular when it is empty), else the pairs
/// are [`phc_params`] of the string.
#[verifier::external_body]
fn phc_param_pairs(phc: &str) -> (r: Option<Vec<(String, String)>>)
    ensures
        r is Some <==> phc_string_parses(phc@),
        r matches Some(v) ==> pairs_view(v@) == phc_params(phc@),
        phc@.len() == 0 ==> r is None,
{
    let parsed = PasswordHash::new(phc).ok()?;
    Some(parsed.params.iter().map(|(name, value)| (name.as_str().to_owned(), value.as_str().to_owned())).collect())
}

/// The value of the last parameter named `p` among `pairs`, the one that
/// Argon2 reads as its parallelism.
pub open spec fn last_p_value(pairs: Seq<(Seq<char>, Seq<char>)>) -> Option<Seq<char>>
    decreases pairs.len(),
{
    if pairs.len() == 0 {
        None
    } else if pairs.last().0 == "p"@ {
        Some(pairs.last().1)
    } else {
        last_p_value(pairs.drop_last())
    }
}

/// Whether every character of `s` is a decimal digit.
pub open spec fn all_digits(s: Seq<char>) -> bool {
    forall|i: int| 0 <= i < s.len() ==> '0' <= #[trigger] s[i] <= '9'
}

/// Whether the parallelism among the parameters `pairs` is written with nine
/// or more digits. Such a value is either malformed or at least 10^8, beyond
/// the 2^24 - 1 lanes that Argon2 accepts, so the verifier refuses it; a value
/// of 2^29 or more would overflow its check of the memory cost.
pub open spec fn oversized_parallelism(pairs: Seq<(Seq<char>, Seq<char>)>) -> bool {
    last_p_value(pairs) matches Some(v) && v.len() >= 9 && all_digits(v)
}

/// Calls `Argon2::default().verify_password` on `password` and the parsed
/// PHC string `phc` (parsed with `PasswordHash::new`). Trusted: `None` exactly
/// when `phc` does not parse (in particular when it is empty), else whether the
/// verifier accepts the password. The parallelism must not be written with
/// nine or more digits: `Params::new` multiplies it by 8 in 32 bits before it
/// checks its range.
#[verifier::external_body]
fn argon2_verify(password: &str, phc: &str) -> (r: Option<bool>)
    requires
        !oversized_parallelism(phc_params(phc@)),
    ensures
        r is None <==> !phc_string_parses(phc@),
        r matches Some(b) ==> b == argon2_password_matches(password@, phc@),
        phc@.len() == 0 ==> r is None,
{
    match PasswordHash::new(phc) {
        Ok(parsed) => Some(Argon2::default().verify_password(password.as_bytes(), &parsed).is_ok()),
        Err(_) => None,
    }
}

/// Whether `s` is the single character `p`.
fn is_p(s: &str) -> (r: bool)
    ensures
        r == (s@ == "p"@),
{
    proof {
        reveal_strlit("p");
    }
    let cs = chars_of(s);
    let r = cs.len() == 1 && cs[0] == 'p';
    if r {
        assert(s@ =~= "p"@);
    }
    r
}

/// Whether `s` has nine or more characters, all decimal digits.
fn long_digit_run(s: &str) -> (r: bool)
    ensures
        r == (s@.len() >= 9 && all_digits(s@)),
{
    let cs = chars_of(s);
    if cs.len() < 9 {
        return false;
    }
    let mut i: usize = 0;
    while i < cs.len()
        invariant
            cs@ == s@,
            i <= cs@.len(),
            forall|k: int| 0 <= k < i ==> '0' <= #[trigger] cs@[k] <= '9',
        decreases cs.len() - i,
    {
        if !('0' <= cs[i] && cs[i] <= '9') {
            return false;
        }
        i += 1;
    }
    true
}

/// Whether the parallelism among the parameters `pairs` is written with nine
/// or more digits.
fn has_oversized_parallelism(pairs: &Vec<(String, String)>) -> (r: bool)
    ensures
        r == oversized_parallelism(pairs_view(pairs@)),
{
    let ghost pv = pairs_view(pairs@);
    let mut i: usize = pairs.len();
    assert(pv.take(i as int) =~= pv);
    while i > 0
        invariant
            pv == pairs_view(pairs@),
            i <= pairs@.len(),
            last_p_value(pv.take(i as int)) == last_p_value(pv),
        decreases i,
    {
        let pair = &pairs[i - 1];
        assert(pv.take(i as int).last() == (pair.0@, pair.1@));
        if is_p(pair.0.as_str()) {
            return long_digit_run(pair.1.as_str());
        }
        assert(pv.take(i as int).drop_last() =~= pv.take(i - 1));
        i -= 1;
    }
    false
}

/// Why a password could not be hashed or checked.
#[derive(Debug, PartialEq, Eq, Structural)]
pub enum PasswordError {
    /// Hashing failed: the password is longer than Argon2 accepts.
    HashFailed,
    /// The operating system's random source failed while drawing a salt.
    RandomnessUnavailable,
    /// The stored hash is not a well-formed PHC string.
    MalformedHash,
}

/// The start of every PHC string that [`hash_password`] gives, up to the salt.
pub open spec fn default_hash_prefix() -> Seq<char> {
    "$argon2id$v=19$m=65536,t=3,p=4$"@
}

/// The PHC prefix with the library's costs begins with [`default_hash_prefix`].
proof fn default_costs_prefix(salt: Seq<char>)
    ensures
        has_prefix(argon2id_phc_prefix(MEMORY_COST_KIB, TIME_COST, PARALLELISM, salt), default_hash_prefix()),
{
    reveal_with_fuel(decimal, 6);
    reveal_strlit("$argon2id$v=19$m=");
    reveal_strlit(",t=");
    reveal_strlit(",p=");
    reveal_strlit("$");
    reveal_strlit("$argon2id$v=19$m=65536,t=3,p=4$");
    let full = argon2id_phc_prefix(MEMORY_COST_KIB, TIME_COST, PARALLELISM, salt);
    assert(decimal(65536) =~= seq!['6', '5', '5', '3', '6']);
    assert(decimal(3) =~= seq!['3']);
    assert(decimal(4) =~= seq!['4']);
    assert(full.subrange(0, default_hash_prefix().len() as int) =~= default_hash_prefix());
}

/// Hashes `password` with Argon2id (version 0x13, [`MEMORY_COST_KIB`] KiB,
/// [`TIME_COST`] passes, [`PARALLELISM`] lanes) and a salt of sixteen bytes
/// from the operating system's random source, giving a PHC string that
/// [`verify_password`] accepts for this password. It fails only where the
/// random source fails or the password is longer than Argon2 accepts.
pub fn hash_password(password: &str) -> (r: Result<String, PasswordError>)
    ensures
        r matches Ok(h) ==> {
            &&& exists|salt: Seq<char>|
                is_sixteen_byte_salt(salt) && h@ == #[trigger] argon2id_phc(password@, salt, MEMORY_COST_KIB, TIME_COST, PARALLELISM)
                    && has_prefix(h@, argon2id_phc_prefix(MEMORY_COST_KIB, TIME_COST, PARALLELISM, salt))
            &&& has_prefix(h@, default_hash_prefix())
            &&& phc_string_parses(h@)
            &&& argon2_password_matches(password@, h@)
            &&& phc_params(h@) == seq![("m"@, decimal(MEMORY_COST_KIB as nat)), ("t"@, decimal(TIME_COST as nat)), ("p"@, decimal(PARALLELISM as nat))]
            &&& password_check(password@, h@) == Ok::<bool, PasswordError>(true)
        },
        password.spec_bytes().len() <= 0xFFFF_FFFF ==> (r is Ok || r == Err::<String, PasswordError>(PasswordError::RandomnessUnavailable)),
        r matches Err(e) ==> (e == PasswordError::RandomnessUnavailable || (e == PasswordError::HashFailed && password.spec_bytes().len() > 0xFFFF_FFFF)),
{
    let random = match random_bytes16() {
        Some(b) => b,
        None => return Err(PasswordError::RandomnessUnavailable),
    };
    let salt = salt_from_bytes(random);
    assert(is_sixteen_byte_salt(salt@));
    match argon2id_hash(password, salt.as_str(), MEMORY_COST_KIB, TIME_COST, PARALLELISM) {
        Some(h) => {
            proof {
                hashed_parallelism_accepted(MEMORY_COST_KIB, TIME_COST, PARALLELISM);
                default_costs_prefix(salt@);
                let full = argon2id_phc_prefix(MEMORY_COST_KIB, TIME_COST, PARALLELISM, salt@);
                let short = default_hash_prefix();
                assert(h@.subrange(0, short.len() as int) =~= full.subrange(0, short.len() as int));
            }
            Ok(h)
        },
        None => Err(PasswordError::HashFailed),
    }
}

/// The outcome of checking `password` against the stored PHC string `hash`:
/// an error when the hash is not well formed; a refusal, without running the
/// verifier, when its parallelism is written with nine or more digits (which
/// the verifier refuses too); otherwise whether the verifier accepts it.
pub open spec fn password_check(password: Seq<char>, hash: Seq<char>) -> Result<bool, PasswordError> {
    if !phc_string_parses(hash) {
        Err(PasswordError::MalformedHash)
    } else if oversized_parallelism(phc_params(hash)) {
        Ok(false)
    } else {
        Ok(argon2_password_matches(password, hash))
    }
}

/// Whether `password` matches the stored PHC string `hash`; a stored hash that
/// is not well formed is an error.
pub fn verify_password(password: &str, hash: &str) -> (r: Result<bool, PasswordError>)
    ensures
        r == password_check(password@, hash@),
        hash@.len() == 0 ==> r is Err,
{
    match phc_param_pairs(hash) {
        None => Err(PasswordError::MalformedHash),
        Some(pairs) => {
            if has_oversized_parallelism(&pairs) {
                return Ok(false);
            }
            match argon2_verify(password, hash) {
                Some(b) => Ok(b),
                None => Err(PasswordError::MalformedHash),
            }
        },
    }
}

/// The PHC string of an Argon2id hash with a parallelism below 2^24, as
/// [`hash_password`] writes one, is not refused for its parallelism.
proof fn hashed_parallelism_accepted(m: u32, t: u32, p: u32)
    requires
        p <= 0xFF_FFFF,
    ensures
        !oversized_parallelism(seq![("m"@, decimal(m as nat)), ("t"@, decimal(t as nat)), ("p"@, decimal(p as nat))]),
{
    let pairs = seq![("m"@, decimal(m as nat)), ("t"@, decimal(t as nat)), ("p"@, decimal(p as nat))];
    assert(pairs.last() == ("p"@, decimal(p as nat)));
    assert(last_p_value(pairs) == Some(decimal(p as nat)));
    assert(pow10(8) == 100_000_000) by {
        reveal_with_fuel(pow10, 9);
    }
    decimal_digits_bound(p as nat, 8);
}

/// A number below 10^k has at most k decimal digits.
proof fn decimal_digits_bound(n: nat, k: nat)
    requires
        k >= 1,
        n < pow10(k),
    ensures
        decimal(n).len() <= k,
    decreases k,
{
    if n >= 10 {
        assert(k >= 2) by {
            if k == 1 {
                assert(pow10(1) == 10 * pow10(0));
            }
        }
        assert(n / 10 < pow10((k - 1) as nat)) by {
            assert(pow10(k) == 10 * pow10((k - 1) as nat));
        }
        decimal_digits_bound(n / 10, (k - 1) as nat);
    }
}

/// Ten to the power `k`.
spec fn pow10(k: nat) -> nat
    decreases k,
{
    if k == 0 {
        1
    } else {
        10 * pow10((k - 1) as nat)
    }
}

/// A stored hash is judged by the Argon2 verifier alone, whatever algorithm
/// version, costs and salt it records: for every well-formed PHC string whose
/// parallelism is not written with nine or more digits, a password the
/// verifier accepts is accepted and any other is refused; a hash that is not
/// well formed is an error for every password; and the outcome for one
/// password never depends on another.
pub proof fn password_check_follows_verifier(password: Seq<char>, other: Seq<char>, hash: Seq<char>)
    ensures
        phc_string_parses(hash) && !oversized_parallelism(phc_params(hash)) ==> password_check(password, hash)
            == Ok::<bool, PasswordError>(argon2_password_matches(password, hash)),
        phc_string_parses(hash) && argon2_password_matches(password, hash) && !oversized_parallelism(
            phc_params(hash),
        ) ==> password_check(password, hash) == Ok::<bool, PasswordError>(true),
        phc_string_parses(hash) && !argon2_password_matches(password, hash) ==> password_check(password, hash)
            == Ok::<bool, PasswordError>(false),
        !phc_string_parses(hash) ==> password_check(password, hash) == Err::<bool, PasswordError>(
            PasswordError::MalformedHash,
        ),
        password_check(password, hash) is Err <==> password_check(other, hash) is Err,
        password_check(password, hash) == Ok::<bool, PasswordError>(true) ==> argon2_password_matches(password, hash),
{
}

/// A hash recording a parallelism below 2^24 (at most eight digits) in the
/// last `p` parameter, whatever its other parameters, is never refused for its
/// parallelism: any such stored hash, the library's own or not, is handed to
/// the verifier.
pub proof fn small_parallelism_is_verified(password: Seq<char>, hash: Seq<char>, p: u32)
    requires
        phc_string_parses(hash),
        p <= 0xFF_FFFF,
        last_p_value(phc_params(hash)) == Some(decimal(p as nat)),
    ensures
        password_check(password, hash) == Ok::<bool, PasswordError>(argon2_password_matches(password, hash)),
{
    assert(pow10(8) == 100_000_000) by {
        reveal_with_fuel(pow10, 9);
    }
    decimal_digits_bound(p as nat, 8);
}

/// A hash with no `p` parameter (Argon2 then uses one lane) is handed to
/// the verifier.
pub proof fn default_parallelism_is_verified(password: Seq<char>, hash: Seq<char>)
    requires
        phc_string_parses(hash),
        last_p_value(phc_params(hash)) is None,
    ensures
        password_check(password, hash) == Ok::<bool, PasswordError>(argon2_password_matches(password, hash)),
{
}

/// A hash produced by [`hash_password`] for a password (its parameters are
/// the costs it was made with) is accepted for that password by
/// [`verify_password`].
pub proof fn hashed_password_verifies(password: Seq<char>, hash: Seq<char>)
    requires
        phc_string_parses(hash),
        argon2_password_matches(password, hash),
        phc_params(hash) == seq![("m"@, decimal(MEMORY_COST_KIB as nat)), ("t"@, decimal(TIME_COST as nat)), ("p"@, decimal(PARALLELISM as nat))],
    ensures
        password_check(password, hash) == Ok::<bool, PasswordError>(true),
{
    hashed_parallelism_accepted(MEMORY_COST_KIB, TIME_COST, PARALLELISM);
}

} // verus!
