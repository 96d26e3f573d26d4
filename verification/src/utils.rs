pub mod jwt;
pub mod password;

use vstd::prelude::*;

use crate::error_handler::{ApiError, ApiErrorView, ApiResponse, ErrorDetail, ErrorDetailView, STATUS_OK};
use crate::validators::FieldMessages;
use crate::text::push_char;
use argon2::password_hash::rand_core::{OsRng, RngCore};
use sha2::{Digest, Sha256};
use vstd::string::StringSliceAdditionalSpecFns;

verus! {

/// A successful response carrying `data`.
pub fn ok<T>(data: T) -> (r: (u16, ApiResponse<T>))
    ensures
        r.0 == STATUS_OK,
        r.1.success,
        r.1.data == Some(data),
{
    (STATUS_OK, ApiResponse { success: true, data: Some(data) })
}

/// A failed response with the given code, message and status.
pub fn err(code: &str, message: &str, status: u16) -> (r: (u16, ApiError))
    ensures
        r.0 == status,
        r.1@ == (ApiErrorView {
            success: false,
            error: ErrorDetailView { code: code@, message: Some(message@), fields: None },
        }),
{
    (
        status,
        ApiError {
            success: false,
            error: ErrorDetail { code: code.to_owned(), message: Some(message.to_owned()), fields: None },
        },
    )
}

/// A failed response with the given code, message and status that also
/// reports the messages of each offending field.
pub fn err_with_fields(code: &str, message: &str, fields: Vec<FieldMessages>, status: u16) -> (r: (
    u16,
    ApiError,
))
    ensures
        r.0 == status,
        r.1@ == (ApiErrorView {
            success: false,
            error: ErrorDetailView {
                code: code@,
                message: Some(message@),
                fields: Some(fields@.map_values(|f: FieldMessages| f@)),
            },
        }),
{
    (
        status,
        ApiError {
            success: false,
            error: ErrorDetail {
                code: code.to_owned(),
                message: Some(message.to_owned()),
                fields: Some(fields),
            },
        },
    )
}

/// The decimal digit of a value below ten.
pub open spec fn decimal_digit(v: int) -> char {
    (48 + v) as char
}

/// The decimal text of `n`, without leading zeros.
pub open spec fn decimal(n: nat) -> Seq<char>
    decreases n,
{
    if n < 10 {
        seq![decimal_digit(n as int)]
    } else {
        decimal(n / 10) + seq![decimal_digit((n % 10) as int)]
    }
}

/// The decimal text of a number is non-empty and made of decimal digits.
pub proof fn decimal_shape(n: nat)
    ensures
        decimal(n).len() > 0,
        forall|i: int| 0 <= i < decimal(n).len() ==> '0' <= #[trigger] decimal(n)[i] <= '9',
    decreases n,
{
    if n >= 10 {
        decimal_shape(n / 10);
        assert forall|i: int| 0 <= i < decimal(n).len() implies '0' <= #[trigger] decimal(n)[i] <= '9' by {
            if i < decimal(n / 10).len() {
                assert(decimal(n)[i] == decimal(n / 10)[i]);
            }
        }
    }
}

/// Fills sixteen bytes from the operating system's random source with
/// `OsRng::try_fill_bytes`. Trusted; nothing is stated of the bytes, which are
/// random, and `None` comes back where the source reports a failure.
#[verifier::external_body]
pub(crate) fn random_bytes16() -> (r: Option<[u8; 16]>) {
    let mut bytes = [0u8; 16];
    OsRng.try_fill_bytes(&mut bytes).ok()?;
    Some(bytes)
}

/// The lower-case hexadecimal digit of a value below sixteen.
pub open spec fn hex_digit(v: int) -> char {
    if v < 10 {
        (48 + v) as char
    } else {
        (87 + v) as char
    }
}

/// Lower-case hexadecimal text of `bytes`: two digits per byte, high half first.
pub open spec fn hex_lower(bytes: Seq<u8>) -> Seq<char>
    decreases bytes.len(),
{
    if bytes.len() == 0 {
        Seq::empty()
    } else {
        seq![hex_digit((bytes[0] / 16) as int), hex_digit((bytes[0] % 16) as int)] + hex_lower(bytes.drop_first())
    }
}

/// The SHA-256 digest of `data`.
pub uninterp spec fn sha256(data: Seq<u8>) -> Seq<u8>;

/// Calls `<Sha256 as Digest>::digest`. Trusted: the result is [`sha256`] of
/// the input, and it is 32 bytes long, the output size of SHA-256.
#[verifier::external_body]
fn sha256_digest(data: &[u8]) -> (r: Vec<u8>)
    ensures
        r@ == sha256(data@),
        r@.len() == 32,
{
    Sha256::digest(data).to_vec()
}

/// The lower-case hexadecimal digit of a value below sixteen.
pub fn hex_char(v: u8) -> (c: char)
    requires
        v < 16,
    ensures
        c == hex_digit(v as int),
{
    if v < 10 {
        (48 + v) as char
    } else {
        (87 + v) as char
    }
}

proof fn lemma_hex_lower_push(bytes: Seq<u8>, b: u8)
    ensures
        hex_lower(bytes.push(b)) == hex_lower(bytes) + seq![hex_digit((b / 16) as int), hex_digit((b % 16) as int)],
    decreases bytes.len(),
{
    if bytes.len() == 0 {
        assert(bytes.push(b).drop_first() =~= Seq::<u8>::empty());
        assert(hex_lower(Seq::<u8>::empty()) =~= Seq::<char>::empty());
        assert(hex_lower(bytes.push(b)) =~= seq![hex_digit((b / 16) as int), hex_digit((b % 16) as int)]);
    } else {
        lemma_hex_lower_push(bytes.drop_first(), b);
        assert(bytes.push(b).drop_first() =~= bytes.drop_first().push(b));
    }
}

/// Lower-case hexadecimal text of `bytes`.
pub fn encode_hex(bytes: &[u8]) -> (r: String)
    ensures
        r@ == hex_lower(bytes@),
{
    let mut out = String::new();
    let n = bytes.len();
    let mut i: usize = 0;
    while i < n
        invariant
            n == bytes@.len(),
            i <= n,
            out@ == hex_lower(bytes@.take(i as int)),
        decreases n - i,
    {
        let b = bytes[i];
        proof {
            lemma_hex_lower_push(bytes@.take(i as int), b);
            assert(bytes@.take(i as int).push(b) =~= bytes@.take(i + 1));
        }
        push_char(&mut out, hex_char(b / 16));
        push_char(&mut out, hex_char(b % 16));
        i += 1;
    }
    assert(bytes@.take(n as int) =~= bytes@);
    out
}

/// The digest under which a token is stored: lower-case hexadecimal text of
/// the SHA-256 digest of the token's UTF-8 bytes.
pub fn hash_token(token: &str) -> (r: String)
    ensures
        r@ == hex_lower(sha256(token.spec_bytes())),
        r@.len() == 64,
{
    let digest = sha256_digest(token.as_bytes());
    proof {
        hex_lower_shape(digest@);
    }
    encode_hex(digest.as_slice())
}

/// Whether `c` is a lower-case hexadecimal digit.
pub open spec fn is_hex_digit(c: char) -> bool {
    ('0' <= c && c <= '9') || ('a' <= c && c <= 'f')
}

/// The hexadecimal text of `n` bytes has `2 * n` characters, all of them
/// lower-case hexadecimal digits.
pub proof fn hex_lower_shape(bytes: Seq<u8>)
    ensures
        hex_lower(bytes).len() == 2 * bytes.len(),
        forall|i: int| 0 <= i < hex_lower(bytes).len() ==> is_hex_digit(#[trigger] hex_lower(bytes)[i]),
    decreases bytes.len(),
{
    if bytes.len() > 0 {
        hex_lower_shape(bytes.drop_first());
        let head = seq![hex_digit((bytes[0] / 16) as int), hex_digit((bytes[0] % 16) as int)];
        assert forall|i: int| 0 <= i < hex_lower(bytes).len() implies is_hex_digit(
            #[trigger] hex_lower(bytes)[i],
        ) by {
            if i >= 2 {
                assert(hex_lower(bytes)[i] == hex_lower(bytes.drop_first())[i - 2]);
            }
        }
    }
}

/// Byte `i` is written as the digits at `2 * i` (high half) and `2 * i + 1`
/// (low half) of the hexadecimal text.
pub proof fn hex_lower_index(bytes: Seq<u8>, i: int)
    requires
        0 <= i < bytes.len(),
    ensures
        hex_lower(bytes)[2 * i] == hex_digit((bytes[i] / 16) as int),
        hex_lower(bytes)[2 * i + 1] == hex_digit((bytes[i] % 16) as int),
    decreases i,
{
    if i > 0 {
        hex_lower_index(bytes.drop_first(), i - 1);
        hex_lower_shape(bytes.drop_first());
    }
}

/// Distinct values below sixteen have distinct hexadecimal digits.
pub proof fn hex_digit_injective(a: int, b: int)
    requires
        0 <= a < 16,
        0 <= b < 16,
        hex_digit(a) == hex_digit(b),
    ensures
        a == b,
{
}

/// Distinct byte strings have distinct hexadecimal texts.
pub proof fn hex_lower_injective(a: Seq<u8>, b: Seq<u8>)
    requires
        hex_lower(a) == hex_lower(b),
    ensures
        a == b,
    decreases a.len(),
{
    hex_lower_shape(a);
    hex_lower_shape(b);
    if a.len() > 0 {
        assert(b.len() == a.len());
        assert(hex_lower(a)[0] == hex_digit((a[0] / 16) as int));
        assert(hex_lower(a)[1] == hex_digit((a[0] % 16) as int));
        assert(hex_lower(b)[0] == hex_digit((b[0] / 16) as int));
        assert(hex_lower(b)[1] == hex_digit((b[0] % 16) as int));
        hex_digit_injective((a[0] / 16) as int, (b[0] / 16) as int);
        hex_digit_injective((a[0] % 16) as int, (b[0] % 16) as int);
        assert(a[0] == b[0]);
        assert(hex_lower(a.drop_first()) =~= hex_lower(a).subrange(2, hex_lower(a).len() as int));
        assert(hex_lower(b.drop_first()) =~= hex_lower(b).subrange(2, hex_lower(b).len() as int));
        hex_lower_injective(a.drop_first(), b.drop_first());
        assert(a =~= seq![a[0]] + a.drop_first());
        assert(b =~= seq![b[0]] + b.drop_first());
    }
}

} // verus!
