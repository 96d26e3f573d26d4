use vstd::prelude::*;

use uuid::Builder;
use vstd::string::StringSliceAdditionalSpecFns;
use vstd::utf8::encode_utf8;

use crate::error_handler::{ApiResponse, AppError, STATUS_OK};
use crate::models::{earlier, now_timestamp, RefreshTokenRow, Timestamp, UserRow, LATEST_INSTANT_SECS};
use crate::utils::jwt::{access_expiry, claims_text, create_access_token, hs256_jwt, hs256_jwt_payload};
use crate::utils::password::{
    password_check, verify_password, PasswordError,
};
use crate::utils::{
    hash_token, hex_lower, hex_lower_index, hex_lower_injective, is_hex_digit, ok, random_bytes16, sha256,
};
use crate::validators::{
    email_accepted, length_within, report_well_formed, single_failure, single_field_error, validate_email,
    validate_length, FieldErrors, FieldErrorsView, Validate, ValidationErrorView, ValidationErrors,
};

verus! {

/// The message of every failed check on a login request.
pub const MSG_LOGIN_INVALID: &'static str = "Email và mật khẩu không hợp lệ.";

/// The message of a failed check on a refresh request.
pub const MSG_REFRESH_INVALID: &'static str = "Refresh token không hợp lệ";

/// The message of a failed check on a role's name.
pub const MSG_ROLE_NAME_INVALID: &'static str = "Tên vai trò không được bỏ trống.";

/// The fewest characters a password may have.
pub const PASSWORD_MIN_LEN: u64 = 8;

/// The fewest characters a refresh token may have.
pub const REFRESH_TOKEN_MIN_LEN: u64 = 10;

/// The fewest characters a role's name may have.
pub const ROLE_NAME_MIN_LEN: u64 = 1;

/// The most characters a role's name may have.
pub const ROLE_NAME_MAX_LEN: u64 = 255;

/// The most characters a role's description may have.
pub const ROLE_DESCRIPTION_MAX_LEN: u64 = 500;

/// A request to log in with an e-mail address and a password.
#[derive(Debug)]
pub struct LoginRequest {
    pub email: String,
    pub password: String,
}

/// A request that presents a refresh token.
#[derive(Debug)]
pub struct RefreshRequest {
    pub refresh_token: String,
}

/// A request to create a role with the given permissions.
#[derive(Debug)]
pub struct CreateRoleRequest {
    pub name: String,
    pub description: Option<String>,
    pub permission_ids: Vec<String>,
}

/// The failed checks of a login request, given whether its e-mail address is
/// acceptable: the password must have at least [`PASSWORD_MIN_LEN`] characters.
pub open spec fn login_report_given(email_ok: bool, password: Seq<char>) -> Seq<FieldErrorsView> {
    (if email_ok {
        Seq::empty()
    } else {
        single_failure("email"@, "email"@, Some(MSG_LOGIN_INVALID@))
    }) + (if length_within(password.len(), Some(PASSWORD_MIN_LEN), None) {
        Seq::empty()
    } else {
        single_failure("password"@, "length"@, Some(MSG_LOGIN_INVALID@))
    })
}

/// The failed checks of a login request: the e-mail must be an acceptable
/// address and the password must have at least [`PASSWORD_MIN_LEN`] characters.
pub open spec fn login_report(email: Seq<char>, password: Seq<char>) -> Seq<FieldErrorsView> {
    login_report_given(email_accepted(email), password)
}

/// The failed checks of a refresh request: the token must have at least
/// [`REFRESH_TOKEN_MIN_LEN`] characters.
pub open spec fn refresh_report(token: Seq<char>) -> Seq<FieldErrorsView> {
    if length_within(token.len(), Some(REFRESH_TOKEN_MIN_LEN), None) {
        Seq::empty()
    } else {
        single_failure("refresh_token"@, "length"@, Some(MSG_REFRESH_INVALID@))
    }
}

/// The failed checks of a role creation request: the name must have between
/// [`ROLE_NAME_MIN_LEN`] and [`ROLE_NAME_MAX_LEN`] characters and a description,
/// where given, at most [`ROLE_DESCRIPTION_MAX_LEN`].
pub open spec fn create_role_report(name: Seq<char>, description: Option<Seq<char>>) -> Seq<
    FieldErrorsView,
> {
    (if length_within(name.len(), Some(ROLE_NAME_MIN_LEN), Some(ROLE_NAME_MAX_LEN)) {
        Seq::empty()
    } else {
        single_failure("name"@, "length"@, Some(MSG_ROLE_NAME_INVALID@))
    }) + (match description {
        Some(d) => if length_within(d.len(), None, Some(ROLE_DESCRIPTION_MAX_LEN)) {
            Seq::empty()
        } else {
            single_failure("description"@, "length"@, None)
        },
        None => Seq::empty(),
    })
}

fn report_of(fields: Vec<FieldErrors>) -> (r: Result<(), ValidationErrors>)
    ensures
        r is Ok <==> fields@.len() == 0,
        r matches Err(e) ==> e@ == fields@.map_values(|f: FieldErrors| f@),
{
    if fields.len() == 0 {
        Ok(())
    } else {
        Err(ValidationErrors { fields })
    }
}

/// The checks of a login request, given whether its e-mail address is
/// acceptable.
pub fn login_validation(email_ok: bool, password: &str) -> (r: Result<(), ValidationErrors>)
    ensures
        r is Ok <==> login_report_given(email_ok, password@).len() == 0,
        r matches Err(e) ==> e@ == login_report_given(email_ok, password@),
{
    let mut fields: Vec<FieldErrors> = Vec::new();
    if !email_ok {
        fields.push(single_field_error("email", "email", Some(MSG_LOGIN_INVALID)));
    }
    if !validate_length(password, Some(PASSWORD_MIN_LEN), None) {
        fields.push(single_field_error("password", "length", Some(MSG_LOGIN_INVALID)));
    }
    assert(fields@.map_values(|f: FieldErrors| f@) =~= login_report_given(email_ok, password@));
    report_of(fields)
}

impl Validate for LoginRequest {
    open spec fn validation_report(&self) -> Seq<FieldErrorsView> {
        login_report(self.email@, self.password@)
    }

    fn validate(&self) -> (r: Result<(), ValidationErrors>) {
        let email_ok = validate_email(self.email.as_str());
        login_validation(email_ok, self.password.as_str())
    }
}

impl Validate for RefreshRequest {
    open spec fn validation_report(&self) -> Seq<FieldErrorsView> {
        refresh_report(self.refresh_token@)
    }

    fn validate(&self) -> (r: Result<(), ValidationErrors>) {
        let mut fields: Vec<FieldErrors> = Vec::new();
        if !validate_length(self.refresh_token.as_str(), Some(REFRESH_TOKEN_MIN_LEN), None) {
            fields.push(single_field_error("refresh_token", "length", Some(MSG_REFRESH_INVALID)));
        }
        assert(fields@.map_values(|f: FieldErrors| f@) =~= refresh_report(self.refresh_token@));
        report_of(fields)
    }
}

impl Validate for CreateRoleRequest {
    open spec fn validation_report(&self) -> Seq<FieldErrorsView> {
        create_role_report(
            self.name@,
            match self.description {
                Some(d) => Some(d@),
                None => None,
            },
        )
    }

    fn validate(&self) -> (r: Result<(), ValidationErrors>) {
        let mut fields: Vec<FieldErrors> = Vec::new();
        if !validate_length(self.name.as_str(), Some(ROLE_NAME_MIN_LEN), Some(ROLE_NAME_MAX_LEN)) {
            fields.push(single_field_error("name", "length", Some(MSG_ROLE_NAME_INVALID)));
        }
        match &self.description {
            Some(d) => {
                if !validate_length(d.as_str(), None, Some(ROLE_DESCRIPTION_MAX_LEN)) {
                    fields.push(single_field_error("description", "length", None));
                }
            },
            None => {},
        }
        assert(fields@.map_values(|f: FieldErrors| f@) =~= self.validation_report());
        report_of(fields)
    }
}

/// The message of a successful login.
pub const MSG_LOGIN_OK: &'static str = "Đăng nhập thành công";

/// The message of a successful refresh.
pub const MSG_REFRESH_OK: &'static str = "Refresh token thành công";

/// The message of a successful logout.
pub const MSG_LOGOUT_OK: &'static str = "Đăng xuất thành công";

/// The message with which role changes are acknowledged.
pub const MSG_ACK: &'static str = "oker";

/// The key with which the access tokens handed out on refresh are signed.
pub const REFRESH_SIGNING_SECRET: &'static str = "secret";

/// The body of an authentication response: a message and, where issued, the
/// tokens.
#[derive(Debug)]
pub struct AuthBody {
    pub message: String,
    pub access_token: Option<String>,
    pub refresh_token: Option<String>,
}

/// The outcome of the login check for an existing account, given the result
/// of checking the password against its stored hash: a match logs in, a
/// mismatch is refused as invalid credentials, and a stored hash that could
/// not be read is our failure.
pub open spec fn login_outcome(user: UserRow, verified: Result<bool, PasswordError>) -> Result<
    UserRow,
    AppError,
> {
    match verified {
        Ok(true) => Ok(user),
        Ok(false) => Err(AppError::InvalidCredentials),
        Err(_) => Err(AppError::Internal),
    }
}

/// The login check for an existing account, given the result of checking the
/// password against its stored hash.
pub fn login_decision(user: UserRow, verified: Result<bool, PasswordError>) -> (r: Result<
    UserRow,
    AppError,
>)
    ensures
        r == login_outcome(user, verified),
{
    match verified {
        Ok(true) => Ok(user),
        Ok(false) => Err(AppError::InvalidCredentials),
        Err(_) => Err(AppError::Internal),
    }
}

/// The login check: the account must exist and the password must match its
/// stored hash. A missing account or a wrong password is refused as invalid
/// credentials; a stored hash that is not well formed is our failure.
pub fn check_login(user: Option<UserRow>, password: &str) -> (r: Result<UserRow, AppError>)
    ensures
        match user {
            None => r == Err::<UserRow, AppError>(AppError::InvalidCredentials),
            Some(u) => r == login_outcome(u, password_check(password@, u.password_hash@)),
        },
{
    match user {
        None => Err(AppError::InvalidCredentials),
        Some(u) => {
            let verified = verify_password(password, u.password_hash.as_str());
            login_decision(u, verified)
        },
    }
}

/// An access token for `user_id` signed with `secret`, issued at the current
/// time; a clock that cannot be read is our failure.
pub fn issue_access_token(user_id: &str, secret: &str) -> (r: Result<String, AppError>)
    ensures
        r matches Ok(t) ==> exists|now: i64|
            0 <= now <= LATEST_INSTANT_SECS && t@ == hs256_jwt(
                #[trigger] claims_text(user_id@, access_expiry(now) as nat),
                secret.spec_bytes(),
            ) && hs256_jwt_payload(t@, secret.spec_bytes()) == Some(
                claims_text(user_id@, access_expiry(now) as nat),
            ),
        r is Err ==> r == Err::<String, AppError>(AppError::Internal),
{
    match create_access_token(user_id, secret) {
        Ok(t) => Ok(t),
        Err(_) => Err(AppError::Internal),
    }
}

/// The bytes of a version-4 UUID made from sixteen random bytes: the high half
/// of byte 6 holds the version (4) and the two high bits of byte 8 the
/// RFC 4122 variant (`10`).
pub open spec fn uuid_v4_bytes(random: Seq<u8>) -> Seq<u8> {
    random.update(6, (random[6] % 16 + 64) as u8).update(8, (random[8] % 64 + 128) as u8)
}

/// The hyphenated form of 32 hexadecimal digits, grouped 8-4-4-4-12.
pub open spec fn hyphenated(h: Seq<char>) -> Seq<char> {
    h.subrange(0, 8) + seq!['-'] + h.subrange(8, 12) + seq!['-'] + h.subrange(12, 16) + seq!['-']
        + h.subrange(16, 20) + seq!['-'] + h.subrange(20, 32)
}

/// The text of the version-4 UUID made from sixteen random bytes: its bytes
/// in lower-case hexadecimal, hyphenated.
pub open spec fn uuid_v4_text(random: Seq<u8>) -> Seq<char> {
    hyphenated(hex_lower(uuid_v4_bytes(random)))
}

/// Whether `t` has the shape of a lower-case hyphenated version-4 UUID:
/// 36 characters, hyphens at 8, 13, 18 and 23, hexadecimal digits elsewhere,
/// the version digit `4` and a variant digit among `8`, `9`, `a`, `b`.
pub open spec fn is_uuid_v4_text(t: Seq<char>) -> bool {
    &&& t.len() == 36
    &&& forall|i: int| 0 <= i < 36 ==> (#[trigger] t[i] == '-' <==> (i == 8 || i == 13 || i == 18 || i == 23))
    &&& forall|i: int| 0 <= i < 36 && i != 8 && i != 13 && i != 18 && i != 23 ==> is_hex_digit(#[trigger] t[i])
    &&& t[14] == '4'
    &&& (t[19] == '8' || t[19] == '9' || t[19] == 'a' || t[19] == 'b')
}

/// Calls `Builder::from_random_bytes` (which sets the version and variant
/// bits), `into_uuid` and renders the UUID with `to_string`. Trusted: the text
/// is [`uuid_v4_text`] of the bytes, as the builder and the lower-case
/// hyphenated `Display` of a `Uuid` show.
#[verifier::external_body]
fn uuid_v4_from_bytes(random: [u8; 16]) -> (t: String)
    ensures
        t@ == uuid_v4_text(random@),
{
    Builder::from_random_bytes(random).into_uuid().to_string()
}

/// The text of a version-4 UUID has the shape of one.
pub proof fn uuid_v4_text_shape(random: Seq<u8>)
    requires
        random.len() == 16,
    ensures
        is_uuid_v4_text(uuid_v4_text(random)),
{
    let b = uuid_v4_bytes(random);
    let h = hex_lower(b);
    let t = uuid_v4_text(random);
    crate::utils::hex_lower_shape(b);
    assert(h.len() == 32);
    assert(t.len() == 36);
    assert forall|i: int| 0 <= i < 36 implies (#[trigger] t[i] == '-' <==> (i == 8 || i == 13 || i == 18 || i == 23))
        && ((i != 8 && i != 13 && i != 18 && i != 23) ==> is_hex_digit(t[i])) by {
        if i < 8 {
            assert(t[i] == h[i]);
        } else if i == 8 {
        } else if i < 13 {
            assert(t[i] == h[i - 1]);
        } else if i == 13 {
        } else if i < 18 {
            assert(t[i] == h[i - 2]);
        } else if i == 18 {
        } else if i < 23 {
            assert(t[i] == h[i - 3]);
        } else if i == 23 {
        } else {
            assert(t[i] == h[i - 4]);
        }
    }
    hex_lower_index(b, 6);
    hex_lower_index(b, 8);
    assert(t[14] == h[12]);
    assert(t[19] == h[16]);
    assert(b[6] / 16 == 4);
    assert(8 <= b[8] / 16 <= 11);
}

/// A fresh refresh token and the digest under which it is stored. The token is
/// a lower-case hyphenated version-4 UUID made from sixteen bytes of the
/// operating system's random source; a source that fails is our failure.
pub fn new_refresh_token() -> (r: Result<(String, String), AppError>)
    ensures
        r matches Ok(p) ==> {
            &&& exists|random: Seq<u8>| random.len() == 16 && p.0@ == #[trigger] uuid_v4_text(random)
            &&& is_uuid_v4_text(p.0@)
            &&& p.1@ == hex_lower(sha256(encode_utf8(p.0@)))
            &&& p.1@.len() == 64
        },
        r is Err ==> r == Err::<(String, String), AppError>(AppError::Internal),
{
    match random_bytes16() {
        None => Err(AppError::Internal),
        Some(random) => {
            let token = uuid_v4_from_bytes(random);
            proof {
                uuid_v4_text_shape(random@);
            }
            let digest = hash_token(token.as_str());
            Ok((token, digest))
        },
    }
}

/// The outcome of the refresh check at `now`: a token must be on record, not
/// revoked, and not past its expiry; otherwise the request is unauthorized.
pub open spec fn refresh_decision(record: Option<RefreshTokenRow>, now: Timestamp) -> Result<
    RefreshTokenRow,
    AppError,
> {
    match record {
        None => Err(AppError::Unauthorized),
        Some(rec) => if rec.revoked || earlier(rec.expires_at, now) {
            Err(AppError::Unauthorized)
        } else {
            Ok(rec)
        },
    }
}

/// The refresh check at `now`.
pub fn check_refresh_record(record: Option<RefreshTokenRow>, now: Timestamp) -> (r: Result<
    RefreshTokenRow,
    AppError,
>)
    ensures
        r == refresh_decision(record, now),
{
    match record {
        None => Err(AppError::Unauthorized),
        Some(rec) => {
            if rec.revoked || rec.expires_at.is_before(&now) {
                Err(AppError::Unauthorized)
            } else {
                Ok(rec)
            }
        },
    }
}

/// The refresh check at the current time. A token not on record, or revoked,
/// is refused without reading the clock; otherwise a clock that cannot be read
/// is our failure.
pub fn check_refresh_record_now(record: Option<RefreshTokenRow>) -> (r: Result<
    RefreshTokenRow,
    AppError,
>)
    ensures
        (exists|now: Timestamp| r == #[trigger] refresh_decision(record, now)) || (r == Err::<
            RefreshTokenRow,
            AppError,
        >(AppError::Internal) && (record matches Some(rec) && !rec.revoked)),
        record is None ==> r == Err::<RefreshTokenRow, AppError>(AppError::Unauthorized),
        (record matches Some(rec) && rec.revoked) ==> r == Err::<RefreshTokenRow, AppError>(
            AppError::Unauthorized,
        ),
{
    let ghost epoch = Timestamp { secs: 0, nanos: 0 };
    match record {
        None => {
            assert(refresh_decision(record, epoch) is Err);
            Err(AppError::Unauthorized)
        },
        Some(rec) => {
            if rec.revoked {
                assert(refresh_decision(record, epoch) is Err);
                return Err(AppError::Unauthorized);
            }
            match now_timestamp() {
                None => Err(AppError::Internal),
                Some(now) => check_refresh_record(Some(rec), now),
            }
        },
    }
}

/// The response to a successful login.
pub fn login_response(access_token: String, refresh_token: String) -> (r: (u16, ApiResponse<AuthBody>))
    ensures
        r.0 == STATUS_OK,
        r.1.success,
        r.1.data matches Some(b) && b.message@ == MSG_LOGIN_OK@ && b.access_token == Some(access_token)
            && b.refresh_token == Some(refresh_token),
{
    ok(AuthBody {
        message: MSG_LOGIN_OK.to_owned(),
        access_token: Some(access_token),
        refresh_token: Some(refresh_token),
    })
}

/// The response to a successful refresh.
pub fn refresh_response(access_token: String, refresh_token: String) -> (r: (u16, ApiResponse<AuthBody>))
    ensures
        r.0 == STATUS_OK,
        r.1.success,
        r.1.data matches Some(b) && b.message@ == MSG_REFRESH_OK@ && b.access_token == Some(access_token)
            && b.refresh_token == Some(refresh_token),
{
    ok(AuthBody {
        message: MSG_REFRESH_OK.to_owned(),
        access_token: Some(access_token),
        refresh_token: Some(refresh_token),
    })
}

/// The response to a logout.
pub fn logout_response() -> (r: (u16, ApiResponse<AuthBody>))
    ensures
        r.0 == STATUS_OK,
        r.1.success,
        r.1.data matches Some(b) && b.message@ == MSG_LOGOUT_OK@ && b.access_token is None
            && b.refresh_token is None,
{
    ok(AuthBody { message: MSG_LOGOUT_OK.to_owned(), access_token: None, refresh_token: None })
}

/// The response with which a role change is acknowledged.
pub fn acknowledge_response() -> (r: (u16, ApiResponse<AuthBody>))
    ensures
        r.0 == STATUS_OK,
        r.1.success,
        r.1.data matches Some(b) && b.message@ == MSG_ACK@ && b.access_token is None
            && b.refresh_token is None,
{
    ok(AuthBody { message: MSG_ACK.to_owned(), access_token: None, refresh_token: None })
}

/// The checks of each request report every field at most once, each with at
/// least one failed check.
pub proof fn request_reports_well_formed(
    email: Seq<char>,
    password: Seq<char>,
    token: Seq<char>,
    name: Seq<char>,
    description: Option<Seq<char>>,
)
    ensures
        report_well_formed(login_report(email, password)),
        report_well_formed(refresh_report(token)),
        report_well_formed(create_role_report(name, description)),
{
    reveal_strlit("email");
    reveal_strlit("password");
    reveal_strlit("name");
    reveal_strlit("description");
    assert("email"@ != "password"@) by {
        assert("email"@.len() != "password"@.len());
    }
    assert("name"@ != "description"@) by {
        assert("name"@.len() != "description"@.len());
    }
}

/// A refresh token issued by [`new_refresh_token`] (a version-4 UUID's text)
/// passes the check of a refresh request.
pub proof fn issued_refresh_token_passes_check(token: Seq<char>)
    requires
        is_uuid_v4_text(token),
    ensures
        refresh_report(token).len() == 0,
{
}

/// Whether `report` has an entry for the field `field`.
pub open spec fn reports_field(report: Seq<FieldErrorsView>, field: Seq<char>) -> bool {
    exists|i: int| 0 <= i < report.len() && #[trigger] report[i].field == field
}

/// Whether every entry of `report` for the field `field` holds exactly one
/// failed check, with code `code` and message `message`.
pub open spec fn field_fails_with(
    report: Seq<FieldErrorsView>,
    field: Seq<char>,
    code: Seq<char>,
    message: Option<Seq<char>>,
) -> bool {
    forall|i: int|
        0 <= i < report.len() && #[trigger] report[i].field == field ==> report[i].errors == seq![
            ValidationErrorView { code, message },
        ]
}

/// The checks of a login request: the password is reported exactly when it
/// has fewer than eight characters, however long it is otherwise; the e-mail
/// address exactly when it is not an acceptable address; nothing else is
/// reported, each failure under the login message, and a request passes
/// exactly when neither fails.
pub proof fn login_checks_law(email: Seq<char>, password: Seq<char>)
    ensures
        reports_field(login_report(email, password), "password"@) <==> password.len() < 8,
        reports_field(login_report(email, password), "email"@) <==> !email_accepted(email),
        forall|i: int|
            0 <= i < login_report(email, password).len() ==> (#[trigger] login_report(email, password)[i].field
                == "email"@ || login_report(email, password)[i].field == "password"@),
        field_fails_with(login_report(email, password), "password"@, "length"@, Some(MSG_LOGIN_INVALID@)),
        field_fails_with(login_report(email, password), "email"@, "email"@, Some(MSG_LOGIN_INVALID@)),
        login_report(email, password).len() == 0 <==> (email_accepted(email) && password.len() >= 8),
{
    reveal_strlit("email");
    reveal_strlit("password");
    let rep = login_report(email, password);
    let e = single_failure("email"@, "email"@, Some(MSG_LOGIN_INVALID@));
    let p = single_failure("password"@, "length"@, Some(MSG_LOGIN_INVALID@));
    assert("email"@ != "password"@) by {
        assert("email"@.len() != "password"@.len());
    }
    let e_part = if email_accepted(email) { Seq::<FieldErrorsView>::empty() } else { e };
    let p_part = if password.len() >= 8 { Seq::<FieldErrorsView>::empty() } else { p };
    assert(rep =~= e_part + p_part);
    if !email_accepted(email) {
        assert(rep[0].field == "email"@);
    }
    if password.len() < 8 {
        assert(rep[e_part.len() as int].field == "password"@);
    }
    assert forall|i: int| 0 <= i < rep.len() implies (#[trigger] rep[i] == e[0] || rep[i] == p[0]) && (i
        < e_part.len() ==> rep[i] == e[0]) && (i >= e_part.len() ==> rep[i] == p[0]) by {
        if i < e_part.len() {
            assert(rep[i] == e_part[i]);
        } else {
            assert(rep[i] == p_part[i - e_part.len()]);
        }
    }
}

/// The check of a refresh request: the token is reported exactly when it has
/// fewer than ten characters, under the refresh message, and nothing else is
/// ever reported.
pub proof fn refresh_checks_law(token: Seq<char>)
    ensures
        reports_field(refresh_report(token), "refresh_token"@) <==> token.len() < 10,
        refresh_report(token).len() == 0 <==> token.len() >= 10,
        forall|i: int|
            0 <= i < refresh_report(token).len() ==> #[trigger] refresh_report(token)[i].field == "refresh_token"@,
        field_fails_with(refresh_report(token), "refresh_token"@, "length"@, Some(MSG_REFRESH_INVALID@)),
{
    if token.len() < 10 {
        assert(refresh_report(token)[0].field == "refresh_token"@);
    }
}

/// The checks of a role creation request: the name is reported exactly when
/// it has fewer than one or more than 255 characters (under the role-name
/// message), the description exactly when one is given with more than 500
/// characters (with no message); nothing else is reported, and a request
/// passes exactly when neither fails.
pub proof fn create_role_checks_law(name: Seq<char>, description: Option<Seq<char>>)
    ensures
        reports_field(create_role_report(name, description), "name"@) <==> !(1 <= name.len() <= 255),
        reports_field(create_role_report(name, description), "description"@) <==> (description matches Some(d)
            && d.len() > 500),
        forall|i: int|
            0 <= i < create_role_report(name, description).len() ==> (#[trigger] create_role_report(
                name,
                description,
            )[i].field == "name"@ || create_role_report(name, description)[i].field == "description"@),
        field_fails_with(create_role_report(name, description), "name"@, "length"@, Some(MSG_ROLE_NAME_INVALID@)),
        field_fails_with(create_role_report(name, description), "description"@, "length"@, None),
        create_role_report(name, description).len() == 0 <==> (1 <= name.len() <= 255 && !(description matches Some(
            d,
        ) && d.len() > 500)),
{
    reveal_strlit("name");
    reveal_strlit("description");
    let rep = create_role_report(name, description);
    let n = single_failure("name"@, "length"@, Some(MSG_ROLE_NAME_INVALID@));
    let d = single_failure("description"@, "length"@, None);
    assert("name"@ != "description"@) by {
        assert("name"@.len() != "description"@.len());
    }
    let n_part = if 1 <= name.len() <= 255 { Seq::<FieldErrorsView>::empty() } else { n };
    let d_part = if description matches Some(x) && x.len() > 500 { d } else { Seq::<FieldErrorsView>::empty() };
    assert(rep =~= n_part + d_part);
    if !(1 <= name.len() <= 255) {
        assert(rep[0].field == "name"@);
    }
    if description matches Some(x) && x.len() > 500 {
        assert(rep[n_part.len() as int].field == "description"@);
    }
    assert forall|i: int| 0 <= i < rep.len() implies (#[trigger] rep[i] == n[0] || rep[i] == d[0]) && (i
        < n_part.len() ==> rep[i] == n[0]) && (i >= n_part.len() ==> rep[i] == d[0]) by {
        if i < n_part.len() {
            assert(rep[i] == n_part[i]);
        } else {
            assert(rep[i] == d_part[i - n_part.len()]);
        }
    }
}

/// A stored refresh token that is not revoked is accepted at an instant
/// exactly when its expiry does not come before that instant; an expired one
/// is refused as unauthorized.
pub proof fn refresh_expiry_law(rec: RefreshTokenRow, now: Timestamp)
    requires
        !rec.revoked,
    ensures
        refresh_decision(Some(rec), now) is Ok <==> !earlier(rec.expires_at, now),
        earlier(rec.expires_at, now) ==> refresh_decision(Some(rec), now) == Err::<RefreshTokenRow, AppError>(
            AppError::Unauthorized,
        ),
        !earlier(rec.expires_at, now) ==> refresh_decision(Some(rec), now) == Ok::<RefreshTokenRow, AppError>(rec),
        earlier(rec.expires_at, now) <==> (rec.expires_at.secs < now.secs || (rec.expires_at.secs == now.secs
            && rec.expires_at.nanos < now.nanos)),
{
}

/// A revoked refresh token is refused at every time.
pub proof fn revoked_refresh_token_refused(rec: RefreshTokenRow, now: Timestamp)
    requires
        rec.revoked,
    ensures
        refresh_decision(Some(rec), now) == Err::<RefreshTokenRow, AppError>(AppError::Unauthorized),
{
}

/// A refresh token refused at some time is refused at every later time.
pub proof fn refused_refresh_token_stays_refused(
    record: Option<RefreshTokenRow>,
    t1: Timestamp,
    t2: Timestamp,
)
    requires
        refresh_decision(record, t1) is Err,
        !earlier(t2, t1),
    ensures
        refresh_decision(record, t2) is Err,
{
}

/// A refresh token accepted at some time was accepted at every earlier time.
pub proof fn accepted_refresh_token_was_accepted(
    record: Option<RefreshTokenRow>,
    t1: Timestamp,
    t2: Timestamp,
)
    requires
        refresh_decision(record, t2) is Ok,
        !earlier(t2, t1),
    ensures
        refresh_decision(record, t1) == refresh_decision(record, t2),
{
}

/// The digest under which [`new_refresh_token`] stores a token is the digest
/// that [`hash_token`] computes when that token is presented again, so a
/// presented token finds its record; and distinct digests come from distinct
/// token bytes.
pub proof fn presented_refresh_token_finds_its_record(token: &str, stored: Seq<char>, other: Seq<u8>)
    requires
        stored == hex_lower(sha256(encode_utf8(token@))),
    ensures
        stored == hex_lower(sha256(token.spec_bytes())),
        stored == hex_lower(sha256(other)) ==> sha256(other) == sha256(token.spec_bytes()),
{
    if stored == hex_lower(sha256(other)) {
        hex_lower_injective(sha256(other), sha256(token.spec_bytes()));
    }
}

} // verus!
