//! Server configuration values the library's decisions read.

use vstd::prelude::*;

verus! {

/// Supported `OAuth2` providers.
#[derive(Debug, Clone, Copy, PartialEq, Eq, Hash)]
pub enum OAuth2Provider {
    GitHub,
}

/// Supported `Oidc` providers.
#[derive(Debug, Clone, Copy, PartialEq, Eq, Hash)]
pub enum OidcProvider {
    LinuxFoundation,
}

/// Login options enabled.
#[derive(Debug, Clone, Copy, PartialEq, Eq)]
pub struct LoginOptions {
    pub email: bool,
    pub github: bool,
    pub linuxfoundation: bool,
}

/// Basic authentication configuration.
#[derive(Clone)]
pub struct BasicAuth {
    pub enabled: bool,
    pub username: String,
    pub password: String,
}

/// Cookie configuration.
#[derive(Debug, Clone, Copy, PartialEq, Eq, Default)]
pub struct CookieConfig {
    pub secure: Option<bool>,
}

/// Whether session cookies are marked secure: as configured, and secure when
/// nothing is configured.
pub fn session_cookie_secure(cookie: &Option<CookieConfig>) -> (r: bool)
    ensures
        r == match cookie {
            Some(c) => match c.secure {
                Some(s) => s,
                None => true,
            },
            None => true,
        },
{
    if let Some(cookie) = cookie {
        match cookie.secure {
            Some(secure) => secure,
            None => true,
        }
    } else {
        true
    }
}

/// Whether requests must carry basic authentication credentials.
pub fn basic_auth_required(basic_auth: &Option<BasicAuth>) -> (r: bool)
    ensures
        r == (basic_auth matches Some(b) && b.enabled),
{
    match basic_auth {
        Some(b) => b.enabled,
        None => false,
    }
}

} // verus!
