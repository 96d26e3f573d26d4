use server::error_handler::AppError;
use server::handlers::{
    acknowledge_response, check_login, login_decision, check_refresh_record, check_refresh_record_now, issue_access_token,
    login_response, logout_response, new_refresh_token, refresh_response, REFRESH_SIGNING_SECRET,
};
use server::middleware::{auth_context, authenticate, bearer_token, current_user_from_row, AuthContext};
use server::models::{now_timestamp, RefreshTokenRow, Timestamp, UserRow, LATEST_INSTANT_SECS};
use server::state::Config;
use server::utils::jwt::{
    access_claims, access_token_at, check_expiry, create_access_token, verify_token, verify_token_at, Claims, TokenError,
    ACCESS_EXP, EXPIRY_LEEWAY_SECS,
};
use server::utils::password::{hash_password, verify_password, PasswordError};
use server::utils::{encode_hex, hash_token};

#[test]
fn bearer_header_round_trip() {
    assert_eq!(bearer_token(Some("Bearer abc.def.ghi")).unwrap(), "abc.def.ghi");
    assert_eq!(bearer_token(Some("Bearer ")).unwrap(), "");
}

#[test]
fn bearer_refuses_other_headers() {
    assert!(matches!(bearer_token(None), Err(AppError::Unauthorized)));
    assert!(matches!(bearer_token(Some("Basic abc")), Err(AppError::Unauthorized)));
    assert!(matches!(bearer_token(Some("bearer abc")), Err(AppError::Unauthorized)));
    assert!(matches!(bearer_token(Some("Bearer")), Err(AppError::Unauthorized)));
}

#[test]
fn auth_context_holds_token() {
    assert_eq!(auth_context(Some("Bearer tok")).unwrap().token, "tok");
    assert!(auth_context(None).is_err());
}

#[test]
fn hash_token_known_vector() {
    assert_eq!(hash_token("abc"), "ba7816bf8f01cfea414140de5dae2223b00361a396177a9cb410ff61f20015ad");
    assert_eq!(hash_token(""), "e3b0c44298fc1c149afbf4c8996fb92427ae41e4649b934ca495991b7852b855");
}

#[test]
fn encode_hex_lower_case() {
    assert_eq!(encode_hex(&[0x00, 0x0f, 0xa5, 0xff]), "000fa5ff");
    assert_eq!(encode_hex(&[]), "");
}

#[test]
fn password_hash_then_verify() {
    let h = hash_password("correct horse").unwrap();
    assert!(h.starts_with("$argon2id$v=19$m=65536,t=3,p=4$"));
    assert!(matches!(verify_password("correct horse", &h), Ok(true)));
    assert!(matches!(verify_password("wrong horse", &h), Ok(false)));
}

#[test]
fn password_hash_carries_a_fresh_sixteen_byte_salt() {
    let h1 = hash_password("same password").unwrap();
    let h2 = hash_password("same password").unwrap();
    let parts: Vec<&str> = h1.split('$').collect();
    assert_eq!(parts.len(), 6);
    assert_eq!((parts[1], parts[2], parts[3]), ("argon2id", "v=19", "m=65536,t=3,p=4"));
    assert_eq!(parts[4].len(), 22);
    assert!(parts[4].chars().all(|c| c.is_ascii_alphanumeric() || c == '+' || c == '/'));
    assert_ne!(h1, h2);
    assert!(!h1.contains("same password"));
    assert!(matches!(verify_password("same password", &h2), Ok(true)));
}

#[test]
fn verify_password_refuses_malformed_hash() {
    assert!(matches!(verify_password("x", ""), Err(PasswordError::MalformedHash)));
    assert!(matches!(verify_password("x", "not a hash"), Err(PasswordError::MalformedHash)));
}

#[test]
fn claims_json_framing() {
    let c = Claims { sub: "user-1".to_string(), exp: 1700000900 };
    assert_eq!(c.to_json(), "{\"sub\":\"user-1\",\"exp\":1700000900}");
    let c = Claims { sub: "a\"b\\c\n\u{1}".to_string(), exp: 0 };
    assert_eq!(c.to_json(), "{\"sub\":\"a\\\"b\\\\c\\n\\u0001\",\"exp\":0}");
}

#[test]
fn claims_json_matches_serde_json() {
    let sub = "tab\there \u{7f} ü \u{1f}";
    let expected = format!("{{\"sub\":{},\"exp\":{}}}", serde_json::to_string(sub).unwrap(), 123);
    assert_eq!(Claims { sub: sub.to_string(), exp: 123 }.to_json(), expected);
}

#[test]
fn access_claims_expire_after_fifteen_minutes() {
    let c = access_claims("u1", 1_000);
    assert_eq!(c.sub, "u1");
    assert_eq!(c.exp, 1_000 + 15 * 60);
    assert_eq!(ACCESS_EXP, 15);
}

#[test]
fn access_token_is_a_signed_jwt() {
    let t = access_token_at("u1", "k", 1_000);
    assert_eq!(t.split('.').count(), 3);
    // deterministic in its arguments
    assert_eq!(t, access_token_at("u1", "k", 1_000));
    assert_ne!(t, access_token_at("u1", "other", 1_000));
}

#[test]
fn access_token_reads_back_as_its_claims() {
    let now = 4_000_000_000;
    let t = access_token_at("user-9", "k", now);
    let expected = access_claims("user-9", now).to_json();
    assert_eq!(expected, "{\"sub\":\"user-9\",\"exp\":4000000900}");
    assert_eq!(verify_token(&t, "k").unwrap(), expected);
    assert!(verify_token(&t, "k2").is_err());
}

#[test]
fn clock_reads_a_time_after_the_epoch() {
    let t = now_timestamp().unwrap();
    assert!(t.secs > 1_600_000_000 && t.secs <= LATEST_INSTANT_SECS);
    assert!(t.nanos < 1_000_000_000);
}

#[test]
fn issued_token_verifies_with_its_secret() {
    let t = create_access_token("user-7", "top-secret").unwrap();
    let claims = verify_token(&t, "top-secret").unwrap();
    let v: serde_json::Value = serde_json::from_str(&claims).unwrap();
    assert_eq!(v["sub"], "user-7");
    let now = now_timestamp().unwrap().secs;
    let exp = v["exp"].as_i64().unwrap();
    assert!(exp >= now + 15 * 60 - 5 && exp <= now + 15 * 60);
    assert!(verify_token(&t, "wrong").is_err());
    assert!(verify_token("garbage", "top-secret").is_err());
}

#[test]
fn expired_token_is_refused() {
    let t = access_token_at("user-7", "s", 1_000);
    assert!(verify_token(&t, "s").is_err());
}

#[test]
fn authenticate_requires_context_and_valid_token() {
    let cfg = Config::new("s".to_string());
    assert!(matches!(authenticate(None, &cfg.jwt_secret), Err(AppError::Unauthorized)));
    let bad = AuthContext { token: "x.y.z".to_string() };
    assert!(matches!(authenticate(Some(&bad), &cfg.jwt_secret), Err(AppError::Unauthorized)));
    let good = AuthContext { token: create_access_token("u", "s").unwrap() };
    let claims = authenticate(Some(&good), &cfg.jwt_secret).unwrap();
    assert!(claims.starts_with("{\"sub\":\"u\",\"exp\":"));
    assert!(matches!(authenticate(Some(&good), "another secret"), Err(AppError::Unauthorized)));
}

fn ts(secs: i64, nanos: u32) -> Timestamp {
    Timestamp { secs, nanos }
}

fn user(hash: &str, deactivated: bool) -> UserRow {
    UserRow {
        id: "u1".to_string(),
        email: "a@b.co".to_string(),
        username: "alice".to_string(),
        password_hash: hash.to_string(),
        status: "ACTIVE".to_string(),
        deactivated_at: if deactivated { Some(ts(5, 0)) } else { None },
        created_at: ts(1, 0),
        updated_at: ts(2, 0),
    }
}

#[test]
fn current_user_from_row_cases() {
    assert!(matches!(current_user_from_row(None), Err(AppError::InvalidCredentials)));
    assert!(matches!(current_user_from_row(Some(user("h", true))), Err(AppError::DeactivatedAccount)));
    let u = current_user_from_row(Some(user("h", false))).unwrap();
    assert_eq!((u.id.as_str(), u.username.as_str(), u.email.as_str(), u.status.as_str()), ("u1", "alice", "a@b.co", "ACTIVE"));
    assert!(u.deactivated_at.is_none());
}

#[test]
fn login_check_cases() {
    let h = hash_password("password1").unwrap();
    assert!(matches!(check_login(None, "password1"), Err(AppError::InvalidCredentials)));
    assert!(matches!(check_login(Some(user(&h, false)), "password2"), Err(AppError::InvalidCredentials)));
    assert!(matches!(check_login(Some(user("garbage", false)), "password1"), Err(AppError::Internal)));
    assert_eq!(check_login(Some(user(&h, false)), "password1").unwrap().id, "u1");
}

#[test]
fn issue_access_token_signs() {
    let t = issue_access_token("u1", REFRESH_SIGNING_SECRET).unwrap();
    let claims = verify_token(&t, "secret").unwrap();
    assert!(claims.starts_with("{\"sub\":\"u1\",\"exp\":"));
}

fn record(revoked: bool, expires: Timestamp) -> RefreshTokenRow {
    RefreshTokenRow { id: "r1".to_string(), user_id: "u1".to_string(), revoked, expires_at: expires }
}

#[test]
fn refresh_record_cases() {
    let now = ts(100, 500);
    assert!(matches!(check_refresh_record(None, ts(100, 500)), Err(AppError::Unauthorized)));
    assert!(matches!(check_refresh_record(Some(record(true, ts(200, 0))), ts(100, 500)), Err(AppError::Unauthorized)));
    assert!(matches!(check_refresh_record(Some(record(false, ts(100, 499))), ts(100, 500)), Err(AppError::Unauthorized)));
    assert_eq!(check_refresh_record(Some(record(false, ts(100, 500))), now).unwrap().id, "r1");
    assert!(check_refresh_record(Some(record(false, ts(101, 0))), ts(100, 500)).is_ok());
}

#[test]
fn refresh_record_now_cases() {
    assert!(matches!(check_refresh_record_now(None), Err(AppError::Unauthorized)));
    assert!(check_refresh_record_now(Some(record(false, ts(0, 0)))).is_err());
    assert!(check_refresh_record_now(Some(record(false, ts(i64::MAX, 0)))).is_ok());
    assert!(check_refresh_record_now(Some(record(true, ts(i64::MAX, 0)))).is_err());
}

#[test]
fn new_refresh_token_is_stored_by_its_digest() {
    let (token, digest) = new_refresh_token().unwrap();
    assert_eq!(token.chars().count(), 36);
    assert_eq!(digest, hash_token(&token));
    assert_eq!(digest.len(), 64);
    let (other, _) = new_refresh_token().unwrap();
    assert_ne!(token, other);
}

#[test]
fn new_refresh_token_is_a_version_4_uuid() {
    for _ in 0..20 {
        let (token, _) = new_refresh_token().unwrap();
        let cs: Vec<char> = token.chars().collect();
        assert_eq!(cs.len(), 36);
        for (i, c) in cs.iter().enumerate() {
            if i == 8 || i == 13 || i == 18 || i == 23 {
                assert_eq!(*c, '-');
            } else {
                assert!(c.is_ascii_digit() || ('a'..='f').contains(c));
            }
        }
        assert_eq!(cs[14], '4');
        assert!(matches!(cs[19], '8' | '9' | 'a' | 'b'));
        assert!(uuid::Uuid::parse_str(&token).is_ok());
    }
}

#[test]
fn auth_responses() {
    let (s, b) = login_response("a".to_string(), "r".to_string());
    let d = b.data.unwrap();
    assert_eq!((s, d.message.as_str(), d.access_token.as_deref(), d.refresh_token.as_deref()), (200, "Đăng nhập thành công", Some("a"), Some("r")));
    let (_, b) = refresh_response("a".to_string(), "r".to_string());
    assert_eq!(b.data.unwrap().message, "Refresh token thành công");
    let (_, b) = logout_response();
    let d = b.data.unwrap();
    assert_eq!((d.message.as_str(), d.access_token, d.refresh_token), ("Đăng xuất thành công", None, None));
    let (_, b) = acknowledge_response();
    assert_eq!(b.data.unwrap().message, "oker");
}

#[test]
fn login_decision_cases() {
    assert_eq!(login_decision(user("h", false), Ok(true)).unwrap().id, "u1");
    assert!(matches!(login_decision(user("h", false), Ok(false)), Err(AppError::InvalidCredentials)));
    assert!(matches!(login_decision(user("h", false), Err(PasswordError::MalformedHash)), Err(AppError::Internal)));
}

#[test]
fn distinct_subjects_give_distinct_payloads() {
    let a = Claims { sub: "a\"".to_string(), exp: 1 }.to_json();
    let b = Claims { sub: "a\\\"".to_string(), exp: 1 }.to_json();
    assert_ne!(a, b);
}

#[test]
fn refused_refresh_token_stays_refused_later() {
    let rec = || Some(record(false, ts(50, 0)));
    assert!(check_refresh_record(rec(), ts(50, 0)).is_ok());
    assert!(check_refresh_record(rec(), ts(50, 1)).is_err());
    assert!(check_refresh_record(rec(), ts(60, 0)).is_err());
}

#[test]
fn token_accepted_until_leeway_past_expiry() {
    let t = access_token_at("user-3", "k", 1_000);
    // expires at 1_900, with 60 s of leeway
    assert_eq!(verify_token_at(&t, "k", 0).unwrap(), "{\"sub\":\"user-3\",\"exp\":1900}");
    assert!(verify_token_at(&t, "k", 1_960).is_ok());
    assert!(matches!(verify_token_at(&t, "k", 1_961), Err(TokenError::Rejected)));
    assert!(matches!(verify_token_at(&t, "other", 1_000), Err(TokenError::Rejected)));
    assert_eq!(EXPIRY_LEEWAY_SECS, 60);
}

#[test]
fn expiry_check_needs_a_numeric_exp() {
    assert!(check_expiry("{\"sub\":\"u\",\"exp\":10}".to_string(), 70).is_ok());
    assert!(matches!(check_expiry("{\"sub\":\"u\",\"exp\":10}".to_string(), 71), Err(TokenError::Rejected)));
    assert!(matches!(check_expiry("{\"sub\":\"u\"}".to_string(), 0), Err(TokenError::Rejected)));
    assert!(matches!(check_expiry("{\"exp\":\"10\"}".to_string(), 0), Err(TokenError::Rejected)));
    assert!(matches!(check_expiry("not json".to_string(), 0), Err(TokenError::Rejected)));
}

#[test]
fn expired_token_is_unauthorized() {
    let ctx = AuthContext { token: access_token_at("u", "s", 1_000) };
    assert!(matches!(authenticate(Some(&ctx), "s"), Err(AppError::Unauthorized)));
}

#[test]
fn stored_hash_with_oversized_parallelism_is_refused() {
    let h = hash_password("pw-12345").unwrap();
    let big = h.replace("p=4", "p=1000000000");
    assert!(matches!(verify_password("pw-12345", &big), Ok(false)));
    let dup = h.replace("p=4", "p=4,p=4294967295");
    assert!(matches!(verify_password("pw-12345", &dup), Ok(false)));
    let eight = h.replace("p=4", "p=16777216");
    assert!(matches!(verify_password("pw-12345", &eight), Ok(false)));
    assert!(matches!(verify_password("pw-12345", &h), Ok(true)));
}
