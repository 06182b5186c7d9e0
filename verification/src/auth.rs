//! Authentication: credentials, users and the decisions taken while logging
//! users in and signing them up.

use vstd::prelude::*;

use crate::config::{OAuth2Provider, OidcProvider};

verus! {

/// Credentials used to authenticate a user.
#[derive(Clone)]
pub enum Credentials {
    OAuth2(OAuth2Credentials),
    Oidc(OidcCredentials),
    Password(PasswordCredentials),
}

/// `OAuth2` credentials.
#[derive(Clone)]
pub struct OAuth2Credentials {
    pub code: String,
    pub job_board_id: u128,
    pub provider: OAuth2Provider,
}

/// `Oidc` credentials.
#[derive(Clone)]
pub struct OidcCredentials {
    pub code: String,
    pub job_board_id: u128,
    pub nonce: String,
    pub provider: OidcProvider,
}

/// Password credentials.
#[derive(Clone)]
pub struct PasswordCredentials {
    pub username: String,
    pub password: String,
    pub job_board_id: Option<u128>,
}

/// User information.
#[derive(Clone)]
pub struct User {
    pub user_id: u128,
    pub auth_hash: Vec<u8>,
    pub email: String,
    pub email_verified: bool,
    pub name: String,
    pub username: String,
    pub has_password: Option<bool>,
    pub password: Option<String>,
}

/// User information summary.
#[derive(Clone)]
pub struct UserSummary {
    pub email: String,
    pub name: String,
    pub username: String,
    pub has_password: Option<bool>,
    pub password: Option<String>,
}

impl User {
    /// The identifier sessions are bound to: the user's id.
    pub fn id(&self) -> (id: u128)
        ensures
            id == self.user_id,
    {
        self.user_id
    }

    /// The hash that invalidates the user's sessions when it changes.
    pub fn session_auth_hash(&self) -> (h: &[u8])
        ensures
            h@ == self.auth_hash@,
    {
        self.auth_hash.as_slice()
    }
}

impl From<User> for UserSummary {
    fn from(user: User) -> (r: Self) {
        UserSummary {
            email: user.email,
            name: user.name,
            username: user.username,
            has_password: user.has_password,
            password: None,
        }
    }
}

impl vstd::std_specs::convert::FromSpecImpl<User> for UserSummary {
    open spec fn obeys_from_spec() -> bool {
        true
    }

    /// A user's summary keeps its email, name, username and whether it has a
    /// password, and never carries the password itself.
    open spec fn from_spec(user: User) -> Self {
        UserSummary {
            email: user.email,
            name: user.name,
            username: user.username,
            has_password: user.has_password,
            password: None,
        }
    }
}

/// Errors raised while authenticating a user.
#[derive(Debug, Clone, Copy, PartialEq, Eq)]
pub enum AuthError {
    /// The `OAuth2` provider is not configured.
    OAuth2ProviderNotFound,
    /// The `Oidc` provider is not configured.
    OidcProviderNotFound,
    /// The `Oidc` token response carries no id token.
    IdTokenMissing,
    /// Password credentials without the job board they belong to.
    JobBoardIdMissing,
    /// No primary, verified email in the GitHub account.
    NoValidEmail,
    /// The `Oidc` claims do not mark the email as verified.
    EmailNotVerified,
    /// The `Oidc` claims carry no email.
    EmailMissing,
    /// The `Oidc` claims carry no name.
    NameMissing,
    /// The `Oidc` claims carry no nickname.
    NicknameMissing,
}

/// The message an authentication error is reported with.
pub open spec fn auth_error_message(e: AuthError) -> Seq<char> {
    match e {
        AuthError::OAuth2ProviderNotFound => "oauth2 provider not found"@,
        AuthError::OidcProviderNotFound => "oidc provider not found"@,
        AuthError::IdTokenMissing => "id token missing"@,
        AuthError::JobBoardIdMissing => "job_board_id missing"@,
        AuthError::NoValidEmail => "no valid email found (primary email must be verified)"@,
        AuthError::EmailNotVerified => "email not verified"@,
        AuthError::EmailMissing => "email missing"@,
        AuthError::NameMissing => "name missing"@,
        AuthError::NicknameMissing => "nickname missing"@,
    }
}

impl AuthError {
    /// The error message.
    pub fn message(&self) -> (m: &'static str)
        ensures
            m@ == auth_error_message(*self),
    {
        match self {
            AuthError::OAuth2ProviderNotFound => "oauth2 provider not found",
            AuthError::OidcProviderNotFound => "oidc provider not found",
            AuthError::IdTokenMissing => "id token missing",
            AuthError::JobBoardIdMissing => "job_board_id missing",
            AuthError::NoValidEmail => "no valid email found (primary email must be verified)",
            AuthError::EmailNotVerified => "email not verified",
            AuthError::EmailMissing => "email missing",
            AuthError::NameMissing => "name missing",
            AuthError::NicknameMissing => "nickname missing",
        }
    }
}

impl PasswordCredentials {
    /// The job board the credentials are for; password credentials cannot be
    /// checked without one.
    pub fn job_board(&self) -> (r: Result<u128, AuthError>)
        ensures
            match self.job_board_id {
                Some(id) => r == Ok::<u128, AuthError>(id),
                None => r matches Err(AuthError::JobBoardIdMissing),
            },
    {
        match self.job_board_id {
            Some(id) => Ok(id),
            None => Err(AuthError::JobBoardIdMissing),
        }
    }
}

/// Whether `password` verifies against the PHC `hash`, as
/// `password_auth::verify_password` decides it.
pub uninterp spec fn password_verifies(password: Seq<char>, hash: Seq<char>) -> bool;

/// Declares `password_auth::VerifyError` to the verifier.
#[verifier::external_type_specification]
#[verifier::external_body]
pub struct ExVerifyError(password_auth::VerifyError);

/// Calls `password_auth::verify_password`. Claims that it succeeds exactly
/// when the password verifies against the hash, a function of the two
/// alone.
#[verifier::external_body]
fn verify_password(password: &str, hash: &str) -> (r: Result<(), password_auth::VerifyError>)
    ensures
        r is Ok == password_verifies(password@, hash@),
{
    password_auth::verify_password(password, hash)
}

/// Calls `password_auth::generate_hash`, which salts the password at random
/// and hashes it (Argon2). Claims that the password verifies against the hash
/// produced, as the crate's own tests check. The hash itself depends on the
/// random salt and is not stated. Argon2 rejects passwords longer than
/// `u32::MAX` bytes (`generate_hash` panics then), hence the requirement.
#[verifier::external_body]
fn generate_hash(password: &str) -> (hash: String)
    requires
        vstd::utf8::encode_utf8(password@).len() <= 0xFFFF_FFFF,
    ensures
        password_verifies(password@, hash@),
{
    password_auth::generate_hash(password)
}

/// The user password credentials authenticate, if any: the user looked up by
/// username, provided it has a password set and the password given verifies
/// against it; the user is returned without its password hash.
pub open spec fn password_check(user: Option<User>, password: Seq<char>) -> Option<User> {
    match user {
        None => None,
        Some(u) => match u.password {
            None => None,
            Some(hash) => if password_verifies(password, hash@) {
                Some(User { password: None, ..u })
            } else {
                None
            },
        },
    }
}

/// The user the password credentials authenticate, if any: the user looked up
/// by username, provided it has a password set and the password given
/// verifies against it. The user is returned without its password hash.
pub fn check_password(user: Option<User>, password: &String) -> (r: Option<User>)
    ensures
        r == password_check(user, password@),
{
    if let Some(mut user) = user {
        // Check if the user's password is set
        let password_hash = match &user.password {
            Some(h) => h.clone(),
            None => return None,
        };

        // Verify the password
        if verify_password(password.as_str(), password_hash.as_str()).is_ok() {
            user.password = None;
            return Some(user);
        }
    }
    None
}

/// Why a sign up request is rejected.
#[derive(Debug, Clone, Copy, PartialEq, Eq)]
pub enum SignUpError {
    /// No password was provided.
    PasswordNotProvided,
}

impl SignUpError {
    /// The HTTP status the sign up is answered with: `400 Bad Request`.
    pub fn status(&self) -> (code: u16)
        ensures
            code == 400,
    {
        400
    }

    /// The error message.
    pub fn message(&self) -> (m: &'static str)
        ensures
            m@ == "password not provided"@,
    {
        "password not provided"
    }
}

/// Prepares a user signing up with a password: the password provided is
/// replaced by its hash; without a password the sign up is rejected.
pub fn prepare_sign_up(user_summary: UserSummary) -> (r: Result<UserSummary, SignUpError>)
    requires
        user_summary.password matches Some(p) ==> vstd::utf8::encode_utf8(p@).len() <= 0xFFFF_FFFF,
    ensures
        match user_summary.password {
            None => r matches Err(SignUpError::PasswordNotProvided),
            Some(p) => r matches Ok(s) && s.email == user_summary.email && s.name
                == user_summary.name && s.username == user_summary.username && s.has_password
                == user_summary.has_password && (s.password matches Some(h)
                && password_verifies(p@, h@)),
        },
{
    let mut user_summary = user_summary;
    let password = match user_summary.password.take() {
        Some(p) => p,
        None => return Err(SignUpError::PasswordNotProvided),
    };
    user_summary.password = Some(generate_hash(password.as_str()));
    Ok(user_summary)
}

/// A user who signed up with a password logs in with that same password: once
/// the password verifies against the stored hash (as [`prepare_sign_up`]
/// guarantees of the hash it stores), the password check authenticates the
/// user, returned without its hash.
pub proof fn law_sign_up_then_log_in(user: User, password: Seq<char>, hash: String)
    requires
        user.password == Some(hash),
        password_verifies(password, hash@),
    ensures
        password_check(Some(user), password) == Some(User { password: None, ..user }),
{
}

/// A user without a password, or an unknown user, is never authenticated by
/// password.
pub proof fn law_no_password_no_log_in(user: Option<User>, password: Seq<char>)
    requires
        user matches Some(u) ==> u.password is None,
    ensures
        password_check(user, password) is None,
{
}

/// GitHub profile information.
#[derive(Debug, Clone)]
pub struct GitHubProfile {
    pub login: String,
    pub name: String,
}

/// GitHub user email.
#[derive(Debug, Clone)]
pub struct GitHubUserEmail {
    pub email: String,
    pub primary: bool,
    pub verified: bool,
}

/// The email is the account's primary one and it is verified.
pub open spec fn usable_github_email(e: GitHubUserEmail) -> bool {
    e.primary && e.verified
}

impl UserSummary {
    /// Creates a `UserSummary` from a GitHub profile and the account's emails:
    /// the first email that is primary and verified is used; without one the
    /// user cannot be signed in.
    pub fn from_github_profile(profile: GitHubProfile, emails: Vec<GitHubUserEmail>) -> (r: Result<
        Self,
        AuthError,
    >)
        ensures
            (exists|i: int| 0 <= i < emails@.len() && usable_github_email(#[trigger] emails@[i]))
                <==> r is Ok,
            r is Err ==> r matches Err(AuthError::NoValidEmail),
            r matches Ok(s) ==> exists|i: int|
                0 <= i < emails@.len() && usable_github_email(#[trigger] emails@[i]) && (forall|j: int|
                    0 <= j < i ==> !usable_github_email(#[trigger] emails@[j])) && s.email
                    == emails@[i].email,
            r matches Ok(s) ==> s.name == profile.name && s.username == profile.login
                && s.has_password == Some(false) && s.password is None,
    {
        let n = emails.len();
        let mut i: usize = 0;
        while i < n
            invariant
                n == emails@.len(),
                i <= n,
                forall|j: int| 0 <= j < i ==> !usable_github_email(#[trigger] emails@[j]),
            decreases n - i,
        {
            if emails[i].primary && emails[i].verified {
                let email = emails[i].email.clone();
                assert(usable_github_email(emails@[i as int]));
                return Ok(
                    UserSummary {
                        email,
                        name: profile.name,
                        username: profile.login,
                        has_password: Some(false),
                        password: None,
                    },
                );
            }
            i = i + 1;
        }
        Err(AuthError::NoValidEmail)
    }
}

/// A claim given in several languages: its value without language tag, if
/// any, and its values tagged with a language (language tag, value), in no
/// particular order.
#[derive(Debug, Clone)]
pub struct LocalizedClaim {
    pub untagged: Option<String>,
    pub tagged: Vec<(String, String)>,
}

/// The `Oidc` id token claims the sign in reads.
#[derive(Debug, Clone)]
pub struct IdTokenClaims {
    pub email_verified: Option<bool>,
    pub email: Option<String>,
    pub name: Option<LocalizedClaim>,
    pub nickname: Option<LocalizedClaim>,
}

/// The claim is present and holds at least one value.
pub open spec fn claim_present(claim: Option<LocalizedClaim>) -> bool {
    match claim {
        Some(c) => c.untagged is Some || c.tagged@.len() > 0,
        None => false,
    }
}

/// `v` is a value the claim is read as: its value without language tag when
/// it has one, otherwise one of its tagged values.
pub open spec fn localized_value(c: LocalizedClaim, v: Seq<char>) -> bool {
    match c.untagged {
        Some(u) => v == u@,
        None => exists|i: int| 0 <= i < c.tagged@.len() && (#[trigger] c.tagged@[i]).1@ == v,
    }
}

/// Get the first localized claim value: the value without language tag when
/// there is one, otherwise one of the tagged values.
pub fn get_localized_claim(claim: Option<&LocalizedClaim>) -> (r: Option<String>)
    ensures
        r is Some <==> claim_present(
            match claim {
                Some(c) => Some(*c),
                None => None,
            },
        ),
        r matches Some(s) ==> (claim matches Some(c) && localized_value(*c, s@)),
{
    match claim {
        Some(c) => match &c.untagged {
            Some(u) => Some(u.clone()),
            None => {
                if c.tagged.len() > 0 {
                    let v = c.tagged[0].1.clone();
                    assert(c.tagged@[0].1@ == v@);
                    Some(v)
                } else {
                    None
                }
            },
        },
        None => None,
    }
}

impl UserSummary {
    /// Creates a `UserSummary` from `Oidc` id token claims. The email must be
    /// marked as verified, and the email, a name and a nickname must be
    /// present (checked in this order).
    pub fn from_oidc_id_token_claims(claims: &IdTokenClaims) -> (r: Result<Self, AuthError>)
        ensures
            claims.email_verified != Some(true) ==> r matches Err(AuthError::EmailNotVerified),
            claims.email_verified == Some(true) && claims.email is None ==> r matches Err(
                AuthError::EmailMissing,
            ),
            claims.email_verified == Some(true) && claims.email is Some && !claim_present(
                claims.name,
            ) ==> r matches Err(AuthError::NameMissing),
            claims.email_verified == Some(true) && claims.email is Some && claim_present(
                claims.name,
            ) && !claim_present(claims.nickname) ==> r matches Err(AuthError::NicknameMissing),
            r matches Ok(s) ==> claims.email_verified == Some(true) && claims.email == Some(
                s.email,
            ) && (claims.name matches Some(n) && localized_value(n, s.name@)) && (
            claims.nickname matches Some(n) && localized_value(n, s.username@))
                && s.has_password == Some(false) && s.password is None,
            claims.email_verified == Some(true) && claims.email is Some && claim_present(
                claims.name,
            ) && claim_present(claims.nickname) ==> r is Ok,
    {
        // Check if the email is verified
        let verified = match claims.email_verified {
            Some(v) => v,
            None => false,
        };
        if !verified {
            return Err(AuthError::EmailNotVerified);
        }

        // Collect some information from the claims
        let email = match &claims.email {
            Some(e) => e.clone(),
            None => return Err(AuthError::EmailMissing),
        };
        let name = match get_localized_claim(claims.name.as_ref()) {
            Some(n) => n,
            None => return Err(AuthError::NameMissing),
        };
        let username = match get_localized_claim(claims.nickname.as_ref()) {
            Some(n) => n,
            None => return Err(AuthError::NicknameMissing),
        };

        Ok(UserSummary { email, name, username, has_password: Some(false), password: None })
    }
}


/// A user's summary, as `UserSummary::from` builds it, keeps the user's
/// email, name, username and `has_password` flag unchanged (whatever the
/// user's password field holds: a user loaded for a session has no hash but
/// may well have a password), and never carries a password.
pub proof fn law_summary_of_user(user: User)
    ensures
        ({
            let s = <UserSummary as vstd::std_specs::convert::FromSpec<User>>::from_spec(user);
            &&& s.has_password == user.has_password
            &&& s.email == user.email
            &&& s.name == user.name
            &&& s.username == user.username
            &&& s.password is None
        }),
        <UserSummary as vstd::std_specs::convert::FromSpec<User>>::obeys_from_spec(),
{
}


/// The messages authentication errors are reported with.
pub proof fn law_auth_error_messages(e: AuthError)
    ensures
        match e {
            AuthError::OAuth2ProviderNotFound => auth_error_message(e) == "oauth2 provider not found"@,
            AuthError::OidcProviderNotFound => auth_error_message(e) == "oidc provider not found"@,
            AuthError::IdTokenMissing => auth_error_message(e) == "id token missing"@,
            AuthError::JobBoardIdMissing => auth_error_message(e) == "job_board_id missing"@,
            AuthError::NoValidEmail => auth_error_message(e)
                == "no valid email found (primary email must be verified)"@,
            AuthError::EmailNotVerified => auth_error_message(e) == "email not verified"@,
            AuthError::EmailMissing => auth_error_message(e) == "email missing"@,
            AuthError::NameMissing => auth_error_message(e) == "name missing"@,
            AuthError::NicknameMissing => auth_error_message(e) == "nickname missing"@,
        },
{
}

} // verus!
