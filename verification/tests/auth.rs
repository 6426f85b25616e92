use ferrum::error_chain_fmt;
use ferrum::jwt::{
    authorize_request, candidate_tokens, header_bearer_token, query_bearer_token, AuthorizationError,
    AuthorizationService, Claims, Jwt,
};

#[test]
fn header_token_strips_bearer_prefix() {
    assert_eq!(header_bearer_token(Some("Bearer abc.def.ghi")), Some("abc.def.ghi".to_string()));
    assert_eq!(header_bearer_token(Some("abc")), Some("abc".to_string()));
    assert_eq!(header_bearer_token(Some("Bearer Bearer x")), Some("x".to_string()));
    assert_eq!(header_bearer_token(None), None);
}

#[test]
fn query_token_needs_exactly_one_bearer_parameter() {
    assert_eq!(query_bearer_token("bearer=tok"), Some("tok".to_string()));
    assert_eq!(query_bearer_token("a=1&bearer=tok&b=2"), Some("tok".to_string()));
    assert_eq!(query_bearer_token("bearer=a=b"), Some("a=b".to_string()));
    assert_eq!(query_bearer_token("bearer=1&bearer=2"), None);
    assert_eq!(query_bearer_token("token=1"), None);
    assert_eq!(query_bearer_token("Bearer=1"), None);
}

#[test]
fn claims_authorize_and_missing_claims_do_not() {
    let claims = Claims { id: 7, email: "foo@bar.com".to_string(), iat: 1 };
    let service = AuthorizationService::from_claims(Some(claims)).ok().unwrap();
    assert_eq!(service.claims.id, 7);
    let refused = AuthorizationService::from_claims(None);
    assert!(matches!(refused, Err(AuthorizationError::Unauthorized)));
    let err = AuthorizationError::Unauthorized;
    assert_eq!(err.status_code(), 401);
    assert_eq!(err.message(), "Unauthorized");
}

#[test]
fn jwt_keeps_its_secret() {
    let jwt = Jwt::new("s3cret".to_string());
    assert_eq!(jwt.secret(), "s3cret");
}

#[test]
fn error_chain_report() {
    let report = error_chain_fmt(&vec!["top".to_string()]);
    assert_eq!(report, "top\n\n");
    let report = error_chain_fmt(&vec!["top".to_string(), "middle".to_string(), "root".to_string()]);
    assert_eq!(report, "top\n\nCaused by:\n\tmiddle\nCaused by:\n\troot\n");
}

#[test]
fn query_token_reads_any_query() {
    assert_eq!(query_bearer_token(""), None);
    assert_eq!(query_bearer_token("bearer"), None);
    assert_eq!(query_bearer_token("flag&bearer=tok"), Some("tok".to_string()));
    assert_eq!(query_bearer_token("bearer&bearer=tok"), Some("tok".to_string()));
    assert_eq!(query_bearer_token("&&"), None);
}

#[test]
fn candidate_tokens_try_header_then_query() {
    assert_eq!(
        candidate_tokens(Some("Bearer h"), "bearer=q"),
        vec!["h".to_string(), "q".to_string()]
    );
    assert_eq!(candidate_tokens(None, "bearer=q"), vec!["q".to_string()]);
    assert_eq!(candidate_tokens(Some("Bearer h"), ""), vec!["h".to_string()]);
    assert!(candidate_tokens(None, "").is_empty());
}

#[test]
fn encoded_token_decodes_to_its_claims() {
    let jwt = Jwt::new("secret".to_string());
    let token = jwt.encode(42, "foo@bar.com".to_string(), 1_700_000_000_000);
    assert_eq!(token.split('.').count(), 3);
    let claims = jwt.get_claims(&token).unwrap();
    assert_eq!(claims.id, 42);
    assert_eq!(claims.email, "foo@bar.com");
    assert_eq!(claims.iat, 1_700_000_000_000);
    let other = Jwt::new("other secret".to_string());
    assert!(other.get_claims(&token).is_none());
    assert!(jwt.get_claims("not.a.token").is_none());
    assert!(jwt.get_claims("").is_none());
}

#[test]
fn token_claims_are_in_the_original_order() {
    let jwt = Jwt::new("secret".to_string());
    let token = jwt.encode(1, "a@b.com".to_string(), 5);
    let payload = token.split('.').nth(1).unwrap().to_string();
    // {"id":"00000000-0000-0000-0000-000000000001","email":"a@b.com","iat":5}
    assert_eq!(
        payload,
        "eyJpZCI6IjAwMDAwMDAwLTAwMDAtMDAwMC0wMDAwLTAwMDAwMDAwMDAwMSIsImVtYWlsIjoiYUBiLmNvbSIsImlhdCI6NX0"
    );
}

#[test]
fn authorize_request_tries_header_then_query() {
    let jwt = Jwt::new("secret".to_string());
    let first = jwt.encode(1, "a@b.com".to_string(), 1);
    let second = jwt.encode(2, "c@d.com".to_string(), 2);
    let header = format!("Bearer {first}");
    let query = format!("bearer={second}");
    let service = authorize_request(&jwt, Some(&header), &query).ok().unwrap();
    assert_eq!(service.claims.id, 1);
    let service = authorize_request(&jwt, Some("Bearer garbage"), &query).ok().unwrap();
    assert_eq!(service.claims.id, 2);
    let service = authorize_request(&jwt, None, &query).ok().unwrap();
    assert_eq!(service.claims.id, 2);
    assert!(matches!(authorize_request(&jwt, None, ""), Err(AuthorizationError::Unauthorized)));
    assert!(matches!(authorize_request(&jwt, Some("Bearer garbage"), "bearer"), Err(AuthorizationError::Unauthorized)));
    let stranger = Jwt::new("other".to_string());
    assert!(matches!(authorize_request(&stranger, Some(&header), &query), Err(AuthorizationError::Unauthorized)));
}
