use plant_manager::auth::{
    bearer_token, user_id_from_header, Claims, LoginResponse, RegisterDTO, SafeUser, TokenError, User,
    TOKEN_LIFETIME_SECS,
};

const SAMPLE_ID: u128 = 0x550e8400_e29b_41d4_a716_446655440000;
const SAMPLE_TEXT: &str = "550e8400-e29b-41d4-a716-446655440000";

fn sample_user() -> User {
    User {
        id: SAMPLE_ID,
        name: "Ana".to_string(),
        email: "ana@example.com".to_string(),
        password: "$2b$12$hash".to_string(),
        city: Some("Bandung".to_string()),
        birth_date: None,
        created_at: Some("2025-07-15".to_string()),
        avatar: None,
        bio: Some("grows chili".to_string()),
    }
}

#[test]
fn bearer_token_takes_text_after_scheme() {
    assert_eq!(bearer_token("Bearer abc.def"), Some("abc.def".to_string()));
    assert_eq!(bearer_token("Bearer "), Some(String::new()));
    assert_eq!(bearer_token("bearer abc"), None);
    assert_eq!(bearer_token("Basic abc"), None);
    assert_eq!(bearer_token("Bearer"), None);
}

#[test]
fn header_with_user_token_names_the_user() {
    let header = format!("Bearer user_{}", SAMPLE_TEXT);
    assert_eq!(user_id_from_header(&header), Ok(SAMPLE_ID));
}

#[test]
fn header_errors() {
    assert_eq!(user_id_from_header("Token user_1"), Err(TokenError::NotBearer));
    assert_eq!(user_id_from_header("Bearer eyJhbGciOi"), Err(TokenError::UnsupportedToken));
    assert_eq!(user_id_from_header("Bearer user_not-a-uuid"), Err(TokenError::InvalidUserId));
    assert_eq!(user_id_from_header("Bearer user_"), Err(TokenError::InvalidUserId));
}

#[test]
fn token_error_messages() {
    assert_eq!(TokenError::MissingHeader.message(), "Authorization header required");
    assert_eq!(TokenError::UnreadableHeader.message(), "Invalid authorization header");
    assert_eq!(TokenError::NotBearer.message(), "Invalid authorization format. Use: Bearer <token>");
    assert_eq!(TokenError::InvalidUserId.message(), "Invalid user ID in token");
    assert_eq!(
        TokenError::UnsupportedToken.message(),
        "Invalid token format. For testing, use: Bearer user_<uuid>"
    );
}

#[test]
fn claims_last_one_day() {
    let c = Claims::for_user(SAMPLE_ID, 1_752_537_600);
    assert_eq!(c.sub, SAMPLE_TEXT);
    assert_eq!(c.iat, 1_752_537_600);
    assert_eq!(c.exp, 1_752_537_600 + 86_400);
    assert_eq!(TOKEN_LIFETIME_SECS, 24 * 60 * 60);
    assert_eq!(c.user_id(), Some(SAMPLE_ID));
}

#[test]
fn claims_with_bad_subject_name_no_user() {
    let c = Claims { sub: "someone".to_string(), exp: 2, iat: 1 };
    assert_eq!(c.user_id(), None);
}

#[test]
fn passwords_must_match() {
    let mut dto = RegisterDTO {
        name: "Ana".to_string(),
        email: "ana@example.com".to_string(),
        password: "secret".to_string(),
        confirm_password: "secret".to_string(),
        city: None,
        birth_date: None,
    };
    assert!(dto.passwords_match());
    dto.confirm_password = "Secret".to_string();
    assert!(!dto.passwords_match());
}

#[test]
fn safe_user_drops_password_only() {
    let u = SafeUser::from(sample_user());
    assert_eq!(u.id, SAMPLE_ID);
    assert_eq!(u.name, "Ana");
    assert_eq!(u.email, "ana@example.com");
    assert_eq!(u.city.as_deref(), Some("Bandung"));
    assert_eq!(u.birth_date, None);
    assert_eq!(u.created_at.as_deref(), Some("2025-07-15"));
    assert_eq!(u.avatar, None);
    assert_eq!(u.bio.as_deref(), Some("grows chili"));
}

#[test]
fn login_response_writes_id_as_text() {
    let r = LoginResponse::for_user(SafeUser::from(sample_user()), "tok".to_string());
    assert_eq!(r.user.id, SAMPLE_TEXT);
    assert_eq!(r.user.name, "Ana");
    assert_eq!(r.user.email, "ana@example.com");
    assert_eq!(r.user.city.as_deref(), Some("Bandung"));
    assert_eq!(r.token, "tok");
}

