use gitjobs_server::config::{basic_auth_required, session_cookie_secure, BasicAuth, CookieConfig, LoginOptions};
use gitjobs_server::router::{
    employer_dashboard_routes, login_routes, routes, EmployerEndpoint, Endpoint, HttpMethod,
    LoginRoute, RouteGuard, RouteKind,
    DEFAULT_CACHE_CONTROL,
};

#[test]
fn session_cookies_are_secure_unless_disabled() {
    assert!(session_cookie_secure(&None));
    assert!(session_cookie_secure(&Some(CookieConfig { secure: None })));
    assert!(session_cookie_secure(&Some(CookieConfig { secure: Some(true) })));
    assert!(!session_cookie_secure(&Some(CookieConfig { secure: Some(false) })));
}

#[test]
fn basic_auth_only_when_enabled() {
    let auth = |enabled| BasicAuth {
        enabled,
        username: "u".to_string(),
        password: "p".to_string(),
    };
    assert!(!basic_auth_required(&None));
    assert!(!basic_auth_required(&Some(auth(false))));
    assert!(basic_auth_required(&Some(auth(true))));
}

#[test]
fn routes_follow_login_options() {
    let none = LoginOptions { email: false, github: false, linuxfoundation: false };
    assert!(login_routes(&none).is_empty());
    let all = LoginOptions { email: true, github: true, linuxfoundation: true };
    let routes = login_routes(&all);
    assert_eq!(
        routes,
        vec![
            LoginRoute::LogIn,
            LoginRoute::SignUp,
            LoginRoute::VerifyEmail,
            LoginRoute::OAuth2Redirect,
            LoginRoute::OAuth2Callback,
            LoginRoute::OidcRedirect,
            LoginRoute::OidcCallback,
        ]
    );
    let github = LoginOptions { email: false, github: true, linuxfoundation: false };
    let routes = login_routes(&github);
    let paths: Vec<(HttpMethod, &str)> = routes.iter().map(|r| (r.method(), r.path())).collect();
    assert_eq!(
        paths,
        vec![
            (HttpMethod::Get, "/log-in/oauth2/{provider}"),
            (HttpMethod::Get, "/log-in/oauth2/{provider}/callback"),
        ]
    );
    assert_eq!(LoginRoute::LogIn.method(), HttpMethod::Post);
    assert_eq!(LoginRoute::SignUp.path(), "/sign-up");
}

#[test]
fn route_table_for_email_log_in_only() {
    let login = LoginOptions { email: true, github: false, linuxfoundation: false };
    let table = routes(&login);
    assert_eq!(table.len(), 8 + 9 + 3 + 7);
    let guarded: Vec<&str> = table
        .iter()
        .filter(|r| r.guard == RouteGuard::LoginRequired)
        .map(|r| r.path)
        .collect();
    assert_eq!(
        guarded,
        vec![
            "/dashboard/account/update/details",
            "/dashboard/account/update/password",
            "/dashboard/employer",
            "/dashboard/images",
            "/dashboard/job-seeker",
            "/dashboard/moderator",
            "/dashboard/members/search",
            "/jobs/{job_id}/apply",
        ]
    );
    let log_in: Vec<(RouteKind, Endpoint)> =
        table.iter().filter(|r| r.path == "/log-in").map(|r| (r.kind, r.endpoint)).collect();
    assert_eq!(
        log_in,
        vec![
            (RouteKind::Get, Endpoint::LogInPage),
            (RouteKind::Post, Endpoint::Login(LoginRoute::LogIn)),
        ]
    );
    assert!(!table.iter().any(|r| r.path.starts_with("/log-in/oauth2")));
    let last = table.last().unwrap();
    assert_eq!((last.kind, last.path), (RouteKind::Get, "/static/{*file}"));
    assert_eq!(DEFAULT_CACHE_CONTROL, "max-age=0");
}

#[test]
fn route_table_without_login_options_keeps_log_in_page() {
    let none = LoginOptions { email: false, github: false, linuxfoundation: false };
    let table = routes(&none);
    assert_eq!(table.len(), 8 + 9 + 7);
    assert!(table.iter().any(|r| r.path == "/log-in" && r.endpoint == Endpoint::LogInPage));
    assert!(!table.iter().any(|r| matches!(r.endpoint, Endpoint::Login(_))));
}

#[test]
fn employer_dashboard_routes_check_ownership() {
    let table = employer_dashboard_routes();
    assert_eq!(table.len(), 24);
    let owns_job: Vec<(RouteKind, &str)> = table
        .iter()
        .filter(|r| r.guard == RouteGuard::OwnsJob)
        .map(|r| (r.kind, r.path))
        .collect();
    assert_eq!(
        owns_job,
        vec![
            (RouteKind::Put, "/jobs/{job_id}/archive"),
            (RouteKind::Delete, "/jobs/{job_id}/delete"),
            (RouteKind::Post, "/jobs/{job_id}/preview"),
            (RouteKind::Put, "/jobs/{job_id}/publish"),
            (RouteKind::Get, "/jobs/{job_id}/update"),
            (RouteKind::Put, "/jobs/{job_id}/update"),
        ]
    );
    let select = table
        .iter()
        .find(|r| r.endpoint == Endpoint::Employer(EmployerEndpoint::SelectEmployer))
        .unwrap();
    assert_eq!(select.guard, RouteGuard::OwnsEmployer);
    let preview = table
        .iter()
        .find(|r| r.endpoint == Endpoint::Employer(EmployerEndpoint::ProfilePreviewPage))
        .unwrap();
    assert_eq!(preview.guard, RouteGuard::ProfileAccess);
    assert_eq!(table[0].path, "/");
}
