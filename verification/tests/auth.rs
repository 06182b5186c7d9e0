use gitjobs_server::auth::{
    check_password, get_localized_claim, prepare_sign_up, AuthError, GitHubProfile, GitHubUserEmail,
    IdTokenClaims, LocalizedClaim, PasswordCredentials, SignUpError, User, UserSummary,
};

fn summary(password: Option<&str>) -> UserSummary {
    UserSummary {
        email: "jane@example.com".to_string(),
        name: "Jane".to_string(),
        username: "jane".to_string(),
        has_password: None,
        password: password.map(str::to_string),
    }
}

fn user(password: Option<String>) -> User {
    User {
        user_id: 42,
        auth_hash: vec![1, 2, 3],
        email: "jane@example.com".to_string(),
        email_verified: true,
        name: "Jane".to_string(),
        username: "jane".to_string(),
        has_password: Some(password.is_some()),
        password,
    }
}

#[test]
fn sign_up_then_log_in_with_same_password() {
    let signed_up = prepare_sign_up(summary(Some("s3cret!"))).unwrap();
    let hash = signed_up.password.clone().unwrap();
    assert_ne!(hash, "s3cret!");
    assert_eq!(signed_up.email, "jane@example.com");
    assert_eq!(signed_up.username, "jane");

    let logged_in = check_password(Some(user(Some(hash.clone()))), &"s3cret!".to_string()).unwrap();
    assert_eq!(logged_in.user_id, 42);
    assert!(logged_in.password.is_none());

    assert!(check_password(Some(user(Some(hash))), &"wrong".to_string()).is_none());
}

#[test]
fn sign_up_without_password_is_rejected() {
    assert!(matches!(prepare_sign_up(summary(None)), Err(SignUpError::PasswordNotProvided)));
}

#[test]
fn log_in_without_user_or_password_fails() {
    assert!(check_password(None, &"x".to_string()).is_none());
    assert!(check_password(Some(user(None)), &"x".to_string()).is_none());
    assert!(check_password(Some(user(Some("not a hash".to_string()))), &"x".to_string()).is_none());
}

#[test]
fn password_credentials_need_a_job_board() {
    let creds = PasswordCredentials {
        username: "jane".to_string(),
        password: "x".to_string(),
        job_board_id: None,
    };
    assert_eq!(creds.job_board(), Err(AuthError::JobBoardIdMissing));
    assert_eq!(creds.job_board().unwrap_err().message(), "job_board_id missing");
    let creds = PasswordCredentials {
        job_board_id: Some(7),
        ..creds
    };
    assert_eq!(creds.job_board(), Ok(7));
}

#[test]
fn summary_from_user_drops_password() {
    let s: UserSummary = user(Some("hash".to_string())).into();
    assert_eq!(s.email, "jane@example.com");
    assert_eq!(s.name, "Jane");
    assert_eq!(s.username, "jane");
    assert_eq!(s.has_password, Some(true));
    assert!(s.password.is_none());
}

fn email(address: &str, primary: bool, verified: bool) -> GitHubUserEmail {
    GitHubUserEmail {
        email: address.to_string(),
        primary,
        verified,
    }
}

fn profile() -> GitHubProfile {
    GitHubProfile {
        login: "octocat".to_string(),
        name: "The Octocat".to_string(),
    }
}

#[test]
fn github_profile_uses_primary_verified_email() {
    let emails = vec![
        email("a@x.com", false, true),
        email("b@x.com", true, false),
        email("c@x.com", true, true),
        email("d@x.com", true, true),
    ];
    let s = UserSummary::from_github_profile(profile(), emails).unwrap();
    assert_eq!(s.email, "c@x.com");
    assert_eq!(s.name, "The Octocat");
    assert_eq!(s.username, "octocat");
    assert_eq!(s.has_password, Some(false));
    assert!(s.password.is_none());
}

#[test]
fn github_profile_without_usable_email_fails() {
    let emails = vec![email("a@x.com", false, true), email("b@x.com", true, false)];
    let r = UserSummary::from_github_profile(profile(), emails);
    assert!(matches!(r, Err(AuthError::NoValidEmail)));
    assert!(matches!(UserSummary::from_github_profile(profile(), vec![]), Err(AuthError::NoValidEmail)));
    assert_eq!(
        AuthError::NoValidEmail.message(),
        "no valid email found (primary email must be verified)"
    );
}

fn claim(values: &[(Option<&str>, &str)]) -> LocalizedClaim {
    LocalizedClaim {
        untagged: values
            .iter()
            .find(|(l, _)| l.is_none())
            .map(|(_, v)| v.to_string()),
        tagged: values
            .iter()
            .filter_map(|(l, v)| l.map(|l| (l.to_string(), v.to_string())))
            .collect(),
    }
}

fn claims() -> IdTokenClaims {
    IdTokenClaims {
        email_verified: Some(true),
        email: Some("lf@example.org".to_string()),
        name: Some(claim(&[(None, "Linus"), (Some("es"), "Lino")])),
        nickname: Some(claim(&[(None, "torvalds")])),
    }
}

#[test]
fn localized_claim_prefers_untagged_value() {
    assert_eq!(
        get_localized_claim(Some(&claim(&[(Some("en"), "A"), (None, "B")]))),
        Some("B".to_string())
    );
    let tagged_only = claim(&[(Some("en"), "A"), (Some("es"), "C")]);
    let v = get_localized_claim(Some(&tagged_only)).unwrap();
    assert!(v == "A" || v == "C");
    assert_eq!(get_localized_claim(Some(&claim(&[]))), None);
    assert_eq!(get_localized_claim(None), None);
}

#[test]
fn oidc_name_without_untagged_value_uses_a_tagged_one() {
    let mut c = claims();
    c.name = Some(claim(&[(Some("es"), "Lino")]));
    let s = UserSummary::from_oidc_id_token_claims(&c).unwrap();
    assert_eq!(s.name, "Lino");
}

#[test]
fn oidc_claims_give_user_summary() {
    let s = UserSummary::from_oidc_id_token_claims(&claims()).unwrap();
    assert_eq!(s.email, "lf@example.org");
    assert_eq!(s.name, "Linus");
    assert_eq!(s.username, "torvalds");
    assert_eq!(s.has_password, Some(false));
}

#[test]
fn oidc_claims_errors_in_order() {
    let mut c = claims();
    c.email_verified = None;
    c.email = None;
    assert!(matches!(UserSummary::from_oidc_id_token_claims(&c), Err(AuthError::EmailNotVerified)));
    let mut c = claims();
    c.email_verified = Some(false);
    assert!(matches!(UserSummary::from_oidc_id_token_claims(&c), Err(AuthError::EmailNotVerified)));
    let mut c = claims();
    c.email = None;
    c.name = None;
    assert!(matches!(UserSummary::from_oidc_id_token_claims(&c), Err(AuthError::EmailMissing)));
    let mut c = claims();
    c.name = Some(claim(&[]));
    c.nickname = None;
    assert!(matches!(UserSummary::from_oidc_id_token_claims(&c), Err(AuthError::NameMissing)));
    let mut c = claims();
    c.nickname = None;
    assert!(matches!(UserSummary::from_oidc_id_token_claims(&c), Err(AuthError::NicknameMissing)));
    assert_eq!(AuthError::NicknameMissing.message(), "nickname missing");
}

#[test]
fn user_session_identity() {
    let u = user(None);
    assert_eq!(u.id(), 42);
    assert_eq!(u.session_auth_hash(), &[1u8, 2, 3][..]);
}

#[test]
fn sign_up_error_answer() {
    let err = match prepare_sign_up(summary(None)) {
        Err(e) => e,
        Ok(_) => panic!("sign up without password accepted"),
    };
    assert_eq!(err.status(), 400);
    assert_eq!(err.message(), "password not provided");
}
