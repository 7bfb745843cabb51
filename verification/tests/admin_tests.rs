use a_icon::admin::AdminService;

#[test]
fn password_check_gates_login() {
    let mut service = AdminService::new("test-password\n");

    let ok = service.verify_password("test-password");
    assert!(ok.is_ok());

    let bad = service.verify_password("wrong-password");
    match bad {
        Err(e) => {
            assert!(matches!(e, a_icon::error::ApiError::Unauthorized(_)));
            assert_eq!(e.message(), "Invalid password");
        },
        Ok(_) => panic!("wrong password must be refused"),
    }
}

#[test]
fn token_lifecycle() {
    let mut service = AdminService::new("test-password\n");

    let (token, _expires_at) = service.verify_password("test-password").unwrap();

    assert!(service.verify_token(&token));

    service.logout(&token);

    assert!(!service.verify_token(&token));
}

#[test]
fn unknown_token_is_invalid() {
    let mut service = AdminService::new("test-password\n");
    assert!(!service.verify_token("invalid-token"));
}

#[test]
fn token_expires_exactly_after_its_hour() {
    let mut service = AdminService::new("s3cret");
    let (token, expires_at) = service.verify_password("s3cret").unwrap();

    // one millisecond before expiry the token is still valid
    assert!(service.verify_token_at(&token, expires_at - 1));
    // re-mint, since the check above swept at an instant where it was live
    let (token, expires_at) = service.verify_password("s3cret").unwrap();
    // at the expiry instant it is gone
    assert!(!service.verify_token_at(&token, expires_at));
}

#[test]
fn distinct_logins_mint_distinct_tokens() {
    let mut service = AdminService::new("pw");
    let (t1, _) = service.verify_password("pw").unwrap();
    let (t2, _) = service.verify_password("pw").unwrap();
    let (t3, _) = service.verify_password("pw").unwrap();
    assert_ne!(t1, t2);
    assert_ne!(t2, t3);
    assert_ne!(t1, t3);
    // the earlier tokens stay valid until they expire or log out
    assert!(service.verify_token(&t1));
    assert!(service.verify_token(&t2));
    assert!(service.verify_token(&t3));
}
