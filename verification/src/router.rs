//! The routes the server mounts, and those that depend on the login options
//! enabled.

use vstd::prelude::*;

use crate::config::LoginOptions;

verus! {

/// HTTP methods the optional routes answer.
#[derive(Debug, Clone, Copy, PartialEq, Eq)]
pub enum HttpMethod {
    Get,
    Post,
}

/// Routes mounted only when the login option they serve is enabled.
#[derive(Debug, Clone, Copy, PartialEq, Eq)]
pub enum LoginRoute {
    /// Email and password log in.
    LogIn,
    /// Email and password sign up.
    SignUp,
    /// Email verification link.
    VerifyEmail,
    /// Start of the `OAuth2` (GitHub) log in.
    OAuth2Redirect,
    /// Return from the `OAuth2` provider.
    OAuth2Callback,
    /// Start of the `Oidc` (Linux Foundation) log in.
    OidcRedirect,
    /// Return from the `Oidc` provider.
    OidcCallback,
}

/// The routes each login option adds, in the order they are mounted.
pub open spec fn login_routes_spec(login: LoginOptions) -> Seq<LoginRoute> {
    (if login.email {
        seq![LoginRoute::LogIn, LoginRoute::SignUp, LoginRoute::VerifyEmail]
    } else {
        Seq::empty()
    }) + (if login.github {
        seq![LoginRoute::OAuth2Redirect, LoginRoute::OAuth2Callback]
    } else {
        Seq::empty()
    }) + (if login.linuxfoundation {
        seq![LoginRoute::OidcRedirect, LoginRoute::OidcCallback]
    } else {
        Seq::empty()
    })
}

/// The routes to mount for the login options enabled: email log in, sign up
/// and email verification for `email`; the `OAuth2` redirect and callback
/// for `github`; the `Oidc` redirect and callback for `linuxfoundation`.
pub fn login_routes(login: &LoginOptions) -> (routes: Vec<LoginRoute>)
    ensures
        routes@ == login_routes_spec(*login),
{
    let mut routes: Vec<LoginRoute> = Vec::new();
    if login.email {
        routes.push(LoginRoute::LogIn);
        routes.push(LoginRoute::SignUp);
        routes.push(LoginRoute::VerifyEmail);
    }
    if login.github {
        routes.push(LoginRoute::OAuth2Redirect);
        routes.push(LoginRoute::OAuth2Callback);
    }
    if login.linuxfoundation {
        routes.push(LoginRoute::OidcRedirect);
        routes.push(LoginRoute::OidcCallback);
    }
    assert(routes@ =~= login_routes_spec(*login));
    routes
}

/// The path each route is mounted at.
pub open spec fn route_path(route: LoginRoute) -> Seq<char> {
    match route {
        LoginRoute::LogIn => "/log-in"@,
        LoginRoute::SignUp => "/sign-up"@,
        LoginRoute::VerifyEmail => "/verify-email/{code}"@,
        LoginRoute::OAuth2Redirect => "/log-in/oauth2/{provider}"@,
        LoginRoute::OAuth2Callback => "/log-in/oauth2/{provider}/callback"@,
        LoginRoute::OidcRedirect => "/log-in/oidc/{provider}"@,
        LoginRoute::OidcCallback => "/log-in/oidc/{provider}/callback"@,
    }
}

impl LoginRoute {
    /// The method the route answers.
    pub fn method(&self) -> (m: HttpMethod)
        ensures
            (m is Post) == (*self is LogIn || *self is SignUp),
    {
        match self {
            LoginRoute::LogIn | LoginRoute::SignUp => HttpMethod::Post,
            _ => HttpMethod::Get,
        }
    }

    /// The path the route is mounted at.
    pub fn path(&self) -> (p: &'static str)
        ensures
            p@ == route_path(*self),
    {
        match self {
            LoginRoute::LogIn => "/log-in",
            LoginRoute::SignUp => "/sign-up",
            LoginRoute::VerifyEmail => "/verify-email/{code}",
            LoginRoute::OAuth2Redirect => "/log-in/oauth2/{provider}",
            LoginRoute::OAuth2Callback => "/log-in/oauth2/{provider}/callback",
            LoginRoute::OidcRedirect => "/log-in/oidc/{provider}",
            LoginRoute::OidcCallback => "/log-in/oidc/{provider}/callback",
        }
    }
}

/// How a route is mounted: a handler for one HTTP method, or a nested router
/// serving everything under the path.
#[derive(Debug, Clone, Copy, PartialEq, Eq)]
pub enum RouteKind {
    Get,
    Post,
    Put,
    Delete,
    Nest,
}

/// What a request on a route must carry to get through.
#[derive(Debug, Clone, Copy, PartialEq, Eq)]
pub enum RouteGuard {
    /// Anyone may call it.
    Public,
    /// Only logged in users; others are sent to the log in page, with the URL
    /// they asked for as `next_url`.
    LoginRequired,
    /// Only the users who own the employer named in the path.
    OwnsEmployer,
    /// Only the users who own the job named in the path.
    OwnsJob,
    /// Only the users who may see the job seeker profile named in the path.
    ProfileAccess,
}

/// What serves a route.
#[derive(Debug, Clone, Copy, PartialEq, Eq)]
pub enum Endpoint {
    UpdateUserDetails,
    UpdateUserPassword,
    EmployerDashboard,
    DashboardImages,
    JobSeekerDashboard,
    ModeratorDashboard,
    SearchMembers,
    ApplyToJob,
    JobsPage,
    AboutPage,
    EmbedJobsPage,
    EmbedJobCard,
    HealthCheck,
    JobBoardImages,
    TrackJobView,
    SearchLocations,
    LogInPage,
    Login(LoginRoute),
    LogOut,
    SearchProjects,
    JobSection,
    ResultsSection,
    UserMenuSection,
    SignUpPage,
    StaticFile,
    Employer(EmployerEndpoint),
}

/// What serves a route of the employer dashboard.
#[derive(Debug, Clone, Copy, PartialEq, Eq)]
pub enum EmployerEndpoint {
    HomePage,
    ApplicationsListPage,
    ProfilePreviewPage,
    AddEmployerPage,
    AddEmployer,
    UpdateEmployerPage,
    UpdateEmployer,
    SelectEmployer,
    InvitationsListPage,
    JobsListPage,
    AddJobPage,
    AddJob,
    PreviewNewJob,
    ArchiveJob,
    DeleteJob,
    PreviewJob,
    PublishJob,
    UpdateJobPage,
    UpdateJob,
    AcceptInvitation,
    RejectInvitation,
    AddMember,
    MembersListPage,
    DeleteMember,
}

/// One route of the server.
#[derive(Debug, Clone, Copy, PartialEq, Eq)]
pub struct Route {
    pub kind: RouteKind,
    pub path: &'static str,
    pub guard: RouteGuard,
    pub endpoint: Endpoint,
}

/// The route a login route is mounted as (public, as the path each login
/// route has).
pub open spec fn login_route_entry(r: LoginRoute) -> Route {
    Route {
        kind: match r {
            LoginRoute::LogIn | LoginRoute::SignUp => RouteKind::Post,
            _ => RouteKind::Get,
        },
        path: match r {
            LoginRoute::LogIn => "/log-in",
            LoginRoute::SignUp => "/sign-up",
            LoginRoute::VerifyEmail => "/verify-email/{code}",
            LoginRoute::OAuth2Redirect => "/log-in/oauth2/{provider}",
            LoginRoute::OAuth2Callback => "/log-in/oauth2/{provider}/callback",
            LoginRoute::OidcRedirect => "/log-in/oidc/{provider}",
            LoginRoute::OidcCallback => "/log-in/oidc/{provider}/callback",
        },
        guard: RouteGuard::Public,
        endpoint: Endpoint::Login(r),
    }
}

/// The routes only logged in users reach: account updates, the dashboards
/// and their images, the members search and applying to a job.
pub open spec fn protected_routes() -> Seq<Route> {
    seq![
        Route { kind: RouteKind::Put, path: "/dashboard/account/update/details", guard: RouteGuard::LoginRequired, endpoint: Endpoint::UpdateUserDetails },
        Route { kind: RouteKind::Put, path: "/dashboard/account/update/password", guard: RouteGuard::LoginRequired, endpoint: Endpoint::UpdateUserPassword },
        Route { kind: RouteKind::Nest, path: "/dashboard/employer", guard: RouteGuard::LoginRequired, endpoint: Endpoint::EmployerDashboard },
        Route { kind: RouteKind::Nest, path: "/dashboard/images", guard: RouteGuard::LoginRequired, endpoint: Endpoint::DashboardImages },
        Route { kind: RouteKind::Nest, path: "/dashboard/job-seeker", guard: RouteGuard::LoginRequired, endpoint: Endpoint::JobSeekerDashboard },
        Route { kind: RouteKind::Nest, path: "/dashboard/moderator", guard: RouteGuard::LoginRequired, endpoint: Endpoint::ModeratorDashboard },
        Route { kind: RouteKind::Get, path: "/dashboard/members/search", guard: RouteGuard::LoginRequired, endpoint: Endpoint::SearchMembers },
        Route { kind: RouteKind::Post, path: "/jobs/{job_id}/apply", guard: RouteGuard::LoginRequired, endpoint: Endpoint::ApplyToJob },
    ]
}

/// The public routes mounted before the login routes, the log in page among
/// them whatever the login options.
pub open spec fn public_routes_head() -> Seq<Route> {
    seq![
        Route { kind: RouteKind::Get, path: "/", guard: RouteGuard::Public, endpoint: Endpoint::JobsPage },
        Route { kind: RouteKind::Get, path: "/about", guard: RouteGuard::Public, endpoint: Endpoint::AboutPage },
        Route { kind: RouteKind::Get, path: "/embed", guard: RouteGuard::Public, endpoint: Endpoint::EmbedJobsPage },
        Route { kind: RouteKind::Get, path: "/embed/job/{job_id}/card.svg", guard: RouteGuard::Public, endpoint: Endpoint::EmbedJobCard },
        Route { kind: RouteKind::Get, path: "/health-check", guard: RouteGuard::Public, endpoint: Endpoint::HealthCheck },
        Route { kind: RouteKind::Nest, path: "/jobboard/images", guard: RouteGuard::Public, endpoint: Endpoint::JobBoardImages },
        Route { kind: RouteKind::Post, path: "/jobs/{job_id}/views", guard: RouteGuard::Public, endpoint: Endpoint::TrackJobView },
        Route { kind: RouteKind::Get, path: "/locations/search", guard: RouteGuard::Public, endpoint: Endpoint::SearchLocations },
        Route { kind: RouteKind::Get, path: "/log-in", guard: RouteGuard::Public, endpoint: Endpoint::LogInPage },
    ]
}

/// The public routes mounted after the login routes; the static files come
/// last, outside the session and authentication layers.
pub open spec fn public_routes_tail() -> Seq<Route> {
    seq![
        Route { kind: RouteKind::Get, path: "/log-out", guard: RouteGuard::Public, endpoint: Endpoint::LogOut },
        Route { kind: RouteKind::Get, path: "/projects/search", guard: RouteGuard::Public, endpoint: Endpoint::SearchProjects },
        Route { kind: RouteKind::Get, path: "/section/jobs/{job_id}", guard: RouteGuard::Public, endpoint: Endpoint::JobSection },
        Route { kind: RouteKind::Get, path: "/section/jobs/results", guard: RouteGuard::Public, endpoint: Endpoint::ResultsSection },
        Route { kind: RouteKind::Get, path: "/section/user-menu", guard: RouteGuard::Public, endpoint: Endpoint::UserMenuSection },
        Route { kind: RouteKind::Get, path: "/sign-up", guard: RouteGuard::Public, endpoint: Endpoint::SignUpPage },
        Route { kind: RouteKind::Get, path: "/static/{*file}", guard: RouteGuard::Public, endpoint: Endpoint::StaticFile },
    ]
}

/// Every route the server mounts, in order, for the login options enabled.
pub open spec fn route_table(login: LoginOptions) -> Seq<Route> {
    protected_routes() + public_routes_head() + login_routes_spec(login).map_values(
        |r: LoginRoute| login_route_entry(r),
    ) + public_routes_tail()
}

/// The route a login route is mounted as.
fn login_route(r: LoginRoute) -> (route: Route)
    ensures
        route == login_route_entry(r),
{
    let kind = match r {
        LoginRoute::LogIn | LoginRoute::SignUp => RouteKind::Post,
        _ => RouteKind::Get,
    };
    let path = match r {
        LoginRoute::LogIn => "/log-in",
        LoginRoute::SignUp => "/sign-up",
        LoginRoute::VerifyEmail => "/verify-email/{code}",
        LoginRoute::OAuth2Redirect => "/log-in/oauth2/{provider}",
        LoginRoute::OAuth2Callback => "/log-in/oauth2/{provider}/callback",
        LoginRoute::OidcRedirect => "/log-in/oidc/{provider}",
        LoginRoute::OidcCallback => "/log-in/oidc/{provider}/callback",
    };
    Route { kind, path, guard: RouteGuard::Public, endpoint: Endpoint::Login(r) }
}

/// Every route the server mounts, in order: the routes that need a logged in
/// user, the public routes (the log in page always among them), the routes
/// of the login options enabled, the remaining public routes and the static
/// files.
pub fn routes(login: &LoginOptions) -> (table: Vec<Route>)
    ensures
        table@ == route_table(*login),
{
    let mut table: Vec<Route> = Vec::new();
    table.push(Route { kind: RouteKind::Put, path: "/dashboard/account/update/details", guard: RouteGuard::LoginRequired, endpoint: Endpoint::UpdateUserDetails });
    table.push(Route { kind: RouteKind::Put, path: "/dashboard/account/update/password", guard: RouteGuard::LoginRequired, endpoint: Endpoint::UpdateUserPassword });
    table.push(Route { kind: RouteKind::Nest, path: "/dashboard/employer", guard: RouteGuard::LoginRequired, endpoint: Endpoint::EmployerDashboard });
    table.push(Route { kind: RouteKind::Nest, path: "/dashboard/images", guard: RouteGuard::LoginRequired, endpoint: Endpoint::DashboardImages });
    table.push(Route { kind: RouteKind::Nest, path: "/dashboard/job-seeker", guard: RouteGuard::LoginRequired, endpoint: Endpoint::JobSeekerDashboard });
    table.push(Route { kind: RouteKind::Nest, path: "/dashboard/moderator", guard: RouteGuard::LoginRequired, endpoint: Endpoint::ModeratorDashboard });
    table.push(Route { kind: RouteKind::Get, path: "/dashboard/members/search", guard: RouteGuard::LoginRequired, endpoint: Endpoint::SearchMembers });
    table.push(Route { kind: RouteKind::Post, path: "/jobs/{job_id}/apply", guard: RouteGuard::LoginRequired, endpoint: Endpoint::ApplyToJob });
    table.push(Route { kind: RouteKind::Get, path: "/", guard: RouteGuard::Public, endpoint: Endpoint::JobsPage });
    table.push(Route { kind: RouteKind::Get, path: "/about", guard: RouteGuard::Public, endpoint: Endpoint::AboutPage });
    table.push(Route { kind: RouteKind::Get, path: "/embed", guard: RouteGuard::Public, endpoint: Endpoint::EmbedJobsPage });
    table.push(Route { kind: RouteKind::Get, path: "/embed/job/{job_id}/card.svg", guard: RouteGuard::Public, endpoint: Endpoint::EmbedJobCard });
    table.push(Route { kind: RouteKind::Get, path: "/health-check", guard: RouteGuard::Public, endpoint: Endpoint::HealthCheck });
    table.push(Route { kind: RouteKind::Nest, path: "/jobboard/images", guard: RouteGuard::Public, endpoint: Endpoint::JobBoardImages });
    table.push(Route { kind: RouteKind::Post, path: "/jobs/{job_id}/views", guard: RouteGuard::Public, endpoint: Endpoint::TrackJobView });
    table.push(Route { kind: RouteKind::Get, path: "/locations/search", guard: RouteGuard::Public, endpoint: Endpoint::SearchLocations });
    table.push(Route { kind: RouteKind::Get, path: "/log-in", guard: RouteGuard::Public, endpoint: Endpoint::LogInPage });
    let ghost head = table@;
    assert(head =~= protected_routes() + public_routes_head());

    let optional = login_routes(login);
    let n = optional.len();
    let mut i: usize = 0;
    while i < n
        invariant
            n == optional@.len(),
            i <= n,
            optional@ == login_routes_spec(*login),
            table@ == head + optional@.take(i as int).map_values(
                |r: LoginRoute| login_route_entry(r),
            ),
        decreases n - i,
    {
        let route = login_route(optional[i]);
        table.push(route);
        assert(optional@.take(i + 1) =~= optional@.take(i as int).push(optional@[i as int]));
        assert(table@ =~= head + optional@.take(i + 1).map_values(
            |r: LoginRoute| login_route_entry(r),
        ));
        i = i + 1;
    }
    assert(optional@.take(n as int) =~= optional@);
    let ghost mid = table@;

    table.push(Route { kind: RouteKind::Get, path: "/log-out", guard: RouteGuard::Public, endpoint: Endpoint::LogOut });
    table.push(Route { kind: RouteKind::Get, path: "/projects/search", guard: RouteGuard::Public, endpoint: Endpoint::SearchProjects });
    table.push(Route { kind: RouteKind::Get, path: "/section/jobs/{job_id}", guard: RouteGuard::Public, endpoint: Endpoint::JobSection });
    table.push(Route { kind: RouteKind::Get, path: "/section/jobs/results", guard: RouteGuard::Public, endpoint: Endpoint::ResultsSection });
    table.push(Route { kind: RouteKind::Get, path: "/section/user-menu", guard: RouteGuard::Public, endpoint: Endpoint::UserMenuSection });
    table.push(Route { kind: RouteKind::Get, path: "/sign-up", guard: RouteGuard::Public, endpoint: Endpoint::SignUpPage });
    table.push(Route { kind: RouteKind::Get, path: "/static/{*file}", guard: RouteGuard::Public, endpoint: Endpoint::StaticFile });
    assert(table@ =~= mid + public_routes_tail());
    table
}

/// The routes of the employer dashboard, under `/dashboard/employer` (all
/// of which need a logged in user), in the order they are mounted, with the
/// ownership each route checks: the employer or job named in the path must
/// be the user's, and a job seeker profile must be one the user may see.
pub open spec fn employer_dashboard_table() -> Seq<Route> {
    seq![
        Route { kind: RouteKind::Get, path: "/", guard: RouteGuard::Public, endpoint: Endpoint::Employer(EmployerEndpoint::HomePage) },
        Route { kind: RouteKind::Get, path: "/applications/list", guard: RouteGuard::Public, endpoint: Endpoint::Employer(EmployerEndpoint::ApplicationsListPage) },
        Route { kind: RouteKind::Get, path: "/applications/profile/{profile_id}/preview", guard: RouteGuard::ProfileAccess, endpoint: Endpoint::Employer(EmployerEndpoint::ProfilePreviewPage) },
        Route { kind: RouteKind::Get, path: "/employers/add", guard: RouteGuard::Public, endpoint: Endpoint::Employer(EmployerEndpoint::AddEmployerPage) },
        Route { kind: RouteKind::Post, path: "/employers/add", guard: RouteGuard::Public, endpoint: Endpoint::Employer(EmployerEndpoint::AddEmployer) },
        Route { kind: RouteKind::Get, path: "/employers/update", guard: RouteGuard::Public, endpoint: Endpoint::Employer(EmployerEndpoint::UpdateEmployerPage) },
        Route { kind: RouteKind::Put, path: "/employers/update", guard: RouteGuard::Public, endpoint: Endpoint::Employer(EmployerEndpoint::UpdateEmployer) },
        Route { kind: RouteKind::Put, path: "/employers/{employer_id}/select", guard: RouteGuard::OwnsEmployer, endpoint: Endpoint::Employer(EmployerEndpoint::SelectEmployer) },
        Route { kind: RouteKind::Get, path: "/invitations", guard: RouteGuard::Public, endpoint: Endpoint::Employer(EmployerEndpoint::InvitationsListPage) },
        Route { kind: RouteKind::Get, path: "/jobs/list", guard: RouteGuard::Public, endpoint: Endpoint::Employer(EmployerEndpoint::JobsListPage) },
        Route { kind: RouteKind::Get, path: "/jobs/add", guard: RouteGuard::Public, endpoint: Endpoint::Employer(EmployerEndpoint::AddJobPage) },
        Route { kind: RouteKind::Post, path: "/jobs/add", guard: RouteGuard::Public, endpoint: Endpoint::Employer(EmployerEndpoint::AddJob) },
        Route { kind: RouteKind::Post, path: "/jobs/preview", guard: RouteGuard::Public, endpoint: Endpoint::Employer(EmployerEndpoint::PreviewNewJob) },
        Route { kind: RouteKind::Put, path: "/jobs/{job_id}/archive", guard: RouteGuard::OwnsJob, endpoint: Endpoint::Employer(EmployerEndpoint::ArchiveJob) },
        Route { kind: RouteKind::Delete, path: "/jobs/{job_id}/delete", guard: RouteGuard::OwnsJob, endpoint: Endpoint::Employer(EmployerEndpoint::DeleteJob) },
        Route { kind: RouteKind::Post, path: "/jobs/{job_id}/preview", guard: RouteGuard::OwnsJob, endpoint: Endpoint::Employer(EmployerEndpoint::PreviewJob) },
        Route { kind: RouteKind::Put, path: "/jobs/{job_id}/publish", guard: RouteGuard::OwnsJob, endpoint: Endpoint::Employer(EmployerEndpoint::PublishJob) },
        Route { kind: RouteKind::Get, path: "/jobs/{job_id}/update", guard: RouteGuard::OwnsJob, endpoint: Endpoint::Employer(EmployerEndpoint::UpdateJobPage) },
        Route { kind: RouteKind::Put, path: "/jobs/{job_id}/update", guard: RouteGuard::OwnsJob, endpoint: Endpoint::Employer(EmployerEndpoint::UpdateJob) },
        Route { kind: RouteKind::Put, path: "/team/invitations/{employer_id}/accept", guard: RouteGuard::Public, endpoint: Endpoint::Employer(EmployerEndpoint::AcceptInvitation) },
        Route { kind: RouteKind::Put, path: "/team/invitations/{employer_id}/reject", guard: RouteGuard::Public, endpoint: Endpoint::Employer(EmployerEndpoint::RejectInvitation) },
        Route { kind: RouteKind::Post, path: "/team/members/add", guard: RouteGuard::Public, endpoint: Endpoint::Employer(EmployerEndpoint::AddMember) },
        Route { kind: RouteKind::Get, path: "/team/members/list", guard: RouteGuard::Public, endpoint: Endpoint::Employer(EmployerEndpoint::MembersListPage) },
        Route { kind: RouteKind::Delete, path: "/team/members/{user_id}/delete", guard: RouteGuard::Public, endpoint: Endpoint::Employer(EmployerEndpoint::DeleteMember) },
    ]
}

/// The routes of the employer dashboard, with the ownership each checks.
pub fn employer_dashboard_routes() -> (table: Vec<Route>)
    ensures
        table@ == employer_dashboard_table(),
{
    let mut table: Vec<Route> = Vec::new();
    table.push(Route { kind: RouteKind::Get, path: "/", guard: RouteGuard::Public, endpoint: Endpoint::Employer(EmployerEndpoint::HomePage) });
    table.push(Route { kind: RouteKind::Get, path: "/applications/list", guard: RouteGuard::Public, endpoint: Endpoint::Employer(EmployerEndpoint::ApplicationsListPage) });
    table.push(Route { kind: RouteKind::Get, path: "/applications/profile/{profile_id}/preview", guard: RouteGuard::ProfileAccess, endpoint: Endpoint::Employer(EmployerEndpoint::ProfilePreviewPage) });
    table.push(Route { kind: RouteKind::Get, path: "/employers/add", guard: RouteGuard::Public, endpoint: Endpoint::Employer(EmployerEndpoint::AddEmployerPage) });
    table.push(Route { kind: RouteKind::Post, path: "/employers/add", guard: RouteGuard::Public, endpoint: Endpoint::Employer(EmployerEndpoint::AddEmployer) });
    table.push(Route { kind: RouteKind::Get, path: "/employers/update", guard: RouteGuard::Public, endpoint: Endpoint::Employer(EmployerEndpoint::UpdateEmployerPage) });
    table.push(Route { kind: RouteKind::Put, path: "/employers/update", guard: RouteGuard::Public, endpoint: Endpoint::Employer(EmployerEndpoint::UpdateEmployer) });
    table.push(Route { kind: RouteKind::Put, path: "/employers/{employer_id}/select", guard: RouteGuard::OwnsEmployer, endpoint: Endpoint::Employer(EmployerEndpoint::SelectEmployer) });
    table.push(Route { kind: RouteKind::Get, path: "/invitations", guard: RouteGuard::Public, endpoint: Endpoint::Employer(EmployerEndpoint::InvitationsListPage) });
    table.push(Route { kind: RouteKind::Get, path: "/jobs/list", guard: RouteGuard::Public, endpoint: Endpoint::Employer(EmployerEndpoint::JobsListPage) });
    table.push(Route { kind: RouteKind::Get, path: "/jobs/add", guard: RouteGuard::Public, endpoint: Endpoint::Employer(EmployerEndpoint::AddJobPage) });
    table.push(Route { kind: RouteKind::Post, path: "/jobs/add", guard: RouteGuard::Public, endpoint: Endpoint::Employer(EmployerEndpoint::AddJob) });
    table.push(Route { kind: RouteKind::Post, path: "/jobs/preview", guard: RouteGuard::Public, endpoint: Endpoint::Employer(EmployerEndpoint::PreviewNewJob) });
    table.push(Route { kind: RouteKind::Put, path: "/jobs/{job_id}/archive", guard: RouteGuard::OwnsJob, endpoint: Endpoint::Employer(EmployerEndpoint::ArchiveJob) });
    table.push(Route { kind: RouteKind::Delete, path: "/jobs/{job_id}/delete", guard: RouteGuard::OwnsJob, endpoint: Endpoint::Employer(EmployerEndpoint::DeleteJob) });
    table.push(Route { kind: RouteKind::Post, path: "/jobs/{job_id}/preview", guard: RouteGuard::OwnsJob, endpoint: Endpoint::Employer(EmployerEndpoint::PreviewJob) });
    table.push(Route { kind: RouteKind::Put, path: "/jobs/{job_id}/publish", guard: RouteGuard::OwnsJob, endpoint: Endpoint::Employer(EmployerEndpoint::PublishJob) });
    table.push(Route { kind: RouteKind::Get, path: "/jobs/{job_id}/update", guard: RouteGuard::OwnsJob, endpoint: Endpoint::Employer(EmployerEndpoint::UpdateJobPage) });
    table.push(Route { kind: RouteKind::Put, path: "/jobs/{job_id}/update", guard: RouteGuard::OwnsJob, endpoint: Endpoint::Employer(EmployerEndpoint::UpdateJob) });
    table.push(Route { kind: RouteKind::Put, path: "/team/invitations/{employer_id}/accept", guard: RouteGuard::Public, endpoint: Endpoint::Employer(EmployerEndpoint::AcceptInvitation) });
    table.push(Route { kind: RouteKind::Put, path: "/team/invitations/{employer_id}/reject", guard: RouteGuard::Public, endpoint: Endpoint::Employer(EmployerEndpoint::RejectInvitation) });
    table.push(Route { kind: RouteKind::Post, path: "/team/members/add", guard: RouteGuard::Public, endpoint: Endpoint::Employer(EmployerEndpoint::AddMember) });
    table.push(Route { kind: RouteKind::Get, path: "/team/members/list", guard: RouteGuard::Public, endpoint: Endpoint::Employer(EmployerEndpoint::MembersListPage) });
    table.push(Route { kind: RouteKind::Delete, path: "/team/members/{user_id}/delete", guard: RouteGuard::Public, endpoint: Endpoint::Employer(EmployerEndpoint::DeleteMember) });
    assert(table@ =~= employer_dashboard_table());
    table
}

/// The `Cache-Control` value given to responses that set none: no caching.
pub const DEFAULT_CACHE_CONTROL: &'static str = "max-age=0";


/// Each route of the server is mounted with the method, path and guard of its
/// endpoint: the routes of the dashboards, account updates, the members
/// search and applying to a job need a logged in user; everything else is
/// public; view tracking is `POST /jobs/{job_id}/views`, the log in page
/// `GET /log-in`, a password log in `POST /log-in`, and so on for every
/// endpoint, whatever the login options.
pub proof fn law_route_endpoints_fixed(login: LoginOptions, i: int)
    requires
        0 <= i < route_table(login).len(),
    ensures
        ({
            let r = route_table(login)[i];
            match r.endpoint {
                Endpoint::UpdateUserDetails => r.kind == RouteKind::Put && r.path == "/dashboard/account/update/details" && r.guard == RouteGuard::LoginRequired,
                Endpoint::UpdateUserPassword => r.kind == RouteKind::Put && r.path == "/dashboard/account/update/password" && r.guard == RouteGuard::LoginRequired,
                Endpoint::EmployerDashboard => r.kind == RouteKind::Nest && r.path == "/dashboard/employer" && r.guard == RouteGuard::LoginRequired,
                Endpoint::DashboardImages => r.kind == RouteKind::Nest && r.path == "/dashboard/images" && r.guard == RouteGuard::LoginRequired,
                Endpoint::JobSeekerDashboard => r.kind == RouteKind::Nest && r.path == "/dashboard/job-seeker" && r.guard == RouteGuard::LoginRequired,
                Endpoint::ModeratorDashboard => r.kind == RouteKind::Nest && r.path == "/dashboard/moderator" && r.guard == RouteGuard::LoginRequired,
                Endpoint::SearchMembers => r.kind == RouteKind::Get && r.path == "/dashboard/members/search" && r.guard == RouteGuard::LoginRequired,
                Endpoint::ApplyToJob => r.kind == RouteKind::Post && r.path == "/jobs/{job_id}/apply" && r.guard == RouteGuard::LoginRequired,
                Endpoint::JobsPage => r.kind == RouteKind::Get && r.path == "/" && r.guard == RouteGuard::Public,
                Endpoint::AboutPage => r.kind == RouteKind::Get && r.path == "/about" && r.guard == RouteGuard::Public,
                Endpoint::EmbedJobsPage => r.kind == RouteKind::Get && r.path == "/embed" && r.guard == RouteGuard::Public,
                Endpoint::EmbedJobCard => r.kind == RouteKind::Get && r.path == "/embed/job/{job_id}/card.svg" && r.guard == RouteGuard::Public,
                Endpoint::HealthCheck => r.kind == RouteKind::Get && r.path == "/health-check" && r.guard == RouteGuard::Public,
                Endpoint::JobBoardImages => r.kind == RouteKind::Nest && r.path == "/jobboard/images" && r.guard == RouteGuard::Public,
                Endpoint::TrackJobView => r.kind == RouteKind::Post && r.path == "/jobs/{job_id}/views" && r.guard == RouteGuard::Public,
                Endpoint::SearchLocations => r.kind == RouteKind::Get && r.path == "/locations/search" && r.guard == RouteGuard::Public,
                Endpoint::LogInPage => r.kind == RouteKind::Get && r.path == "/log-in" && r.guard == RouteGuard::Public,
                Endpoint::LogOut => r.kind == RouteKind::Get && r.path == "/log-out" && r.guard == RouteGuard::Public,
                Endpoint::SearchProjects => r.kind == RouteKind::Get && r.path == "/projects/search" && r.guard == RouteGuard::Public,
                Endpoint::JobSection => r.kind == RouteKind::Get && r.path == "/section/jobs/{job_id}" && r.guard == RouteGuard::Public,
                Endpoint::ResultsSection => r.kind == RouteKind::Get && r.path == "/section/jobs/results" && r.guard == RouteGuard::Public,
                Endpoint::UserMenuSection => r.kind == RouteKind::Get && r.path == "/section/user-menu" && r.guard == RouteGuard::Public,
                Endpoint::SignUpPage => r.kind == RouteKind::Get && r.path == "/sign-up" && r.guard == RouteGuard::Public,
                Endpoint::StaticFile => r.kind == RouteKind::Get && r.path == "/static/{*file}" && r.guard == RouteGuard::Public,
                Endpoint::Login(l) => r.guard == RouteGuard::Public && match l {
                LoginRoute::LogIn => r.kind == RouteKind::Post && r.path == "/log-in",
                LoginRoute::SignUp => r.kind == RouteKind::Post && r.path == "/sign-up",
                LoginRoute::VerifyEmail => r.kind == RouteKind::Get && r.path == "/verify-email/{code}",
                LoginRoute::OAuth2Redirect => r.kind == RouteKind::Get && r.path == "/log-in/oauth2/{provider}",
                LoginRoute::OAuth2Callback => r.kind == RouteKind::Get && r.path == "/log-in/oauth2/{provider}/callback",
                LoginRoute::OidcRedirect => r.kind == RouteKind::Get && r.path == "/log-in/oidc/{provider}",
                LoginRoute::OidcCallback => r.kind == RouteKind::Get && r.path == "/log-in/oidc/{provider}/callback",
            },
                Endpoint::Employer(_) => false,
            }
        }),
{
    let p = protected_routes();
    let h = public_routes_head();
    let l = login_routes_spec(login).map_values(|x: LoginRoute| login_route_entry(x));
    let t = public_routes_tail();
    let all = route_table(login);
    assert(all == p + h + l + t);
    if i < 8 {
        assert(all[i] == p[i]);
    } else if i < 17 {
        assert(all[i] == h[i - 8]);
    } else if i < 17 + l.len() {
        assert(all[i] == l[i - 17]);
        assert(l[i - 17] == login_route_entry(login_routes_spec(login)[i - 17]));
    } else {
        assert(all[i] == t[i - 17 - l.len()]);
    }
}

/// The routes each login option adds are mounted exactly when the option is
/// enabled: email log in, sign up and email verification for `email`; the
/// `OAuth2` redirect and callback for `github`; the `Oidc` redirect and
/// callback for `linuxfoundation`.
pub proof fn law_login_routes_follow_options(login: LoginOptions, r: LoginRoute)
    ensures
        login_routes_spec(login).contains(r) == match r {
            LoginRoute::LogIn | LoginRoute::SignUp | LoginRoute::VerifyEmail => login.email,
            LoginRoute::OAuth2Redirect | LoginRoute::OAuth2Callback => login.github,
            LoginRoute::OidcRedirect | LoginRoute::OidcCallback => login.linuxfoundation,
        },
{
    let e: Seq<LoginRoute> = if login.email {
        seq![LoginRoute::LogIn, LoginRoute::SignUp, LoginRoute::VerifyEmail]
    } else {
        Seq::empty()
    };
    let g: Seq<LoginRoute> = if login.github {
        seq![LoginRoute::OAuth2Redirect, LoginRoute::OAuth2Callback]
    } else {
        Seq::empty()
    };
    let o: Seq<LoginRoute> = if login.linuxfoundation {
        seq![LoginRoute::OidcRedirect, LoginRoute::OidcCallback]
    } else {
        Seq::empty()
    };
    let s = login_routes_spec(login);
    assert(s == e + g + o);
    let want = match r {
        LoginRoute::LogIn | LoginRoute::SignUp | LoginRoute::VerifyEmail => login.email,
        LoginRoute::OAuth2Redirect | LoginRoute::OAuth2Callback => login.github,
        LoginRoute::OidcRedirect | LoginRoute::OidcCallback => login.linuxfoundation,
    };
    if s.contains(r) {
        let j = choose|j: int| 0 <= j < s.len() && s[j] == r;
        if j < e.len() {
            assert(s[j] == e[j]);
        } else if j < e.len() + g.len() {
            assert(s[j] == g[j - e.len()]);
        } else {
            assert(s[j] == o[j - e.len() - g.len()]);
        }
    }
    if want {
        match r {
            LoginRoute::LogIn => { assert(s[0] == r); },
            LoginRoute::SignUp => { assert(s[1] == r); },
            LoginRoute::VerifyEmail => { assert(s[2] == r); },
            LoginRoute::OAuth2Redirect => { assert(s[e.len() as int] == r); },
            LoginRoute::OAuth2Callback => { assert(s[(e.len() + 1) as int] == r); },
            LoginRoute::OidcRedirect => { assert(s[(e.len() + g.len()) as int] == r); },
            LoginRoute::OidcCallback => { assert(s[(e.len() + g.len() + 1) as int] == r); },
        }
    }
}

/// Each route of the employer dashboard is mounted with the method, path and
/// ownership check of its endpoint: removing a team member is
/// `DELETE /team/members/{user_id}/delete`, archiving a job
/// `PUT /jobs/{job_id}/archive` for its owner only, and so on.
pub proof fn law_employer_routes_fixed(i: int)
    requires
        0 <= i < employer_dashboard_table().len(),
    ensures
        ({
            let r = employer_dashboard_table()[i];
            match r.endpoint {
                Endpoint::Employer(EmployerEndpoint::HomePage) => r.kind == RouteKind::Get && r.path == "/" && r.guard == RouteGuard::Public,
                Endpoint::Employer(EmployerEndpoint::ApplicationsListPage) => r.kind == RouteKind::Get && r.path == "/applications/list" && r.guard == RouteGuard::Public,
                Endpoint::Employer(EmployerEndpoint::ProfilePreviewPage) => r.kind == RouteKind::Get && r.path == "/applications/profile/{profile_id}/preview" && r.guard == RouteGuard::ProfileAccess,
                Endpoint::Employer(EmployerEndpoint::AddEmployerPage) => r.kind == RouteKind::Get && r.path == "/employers/add" && r.guard == RouteGuard::Public,
                Endpoint::Employer(EmployerEndpoint::AddEmployer) => r.kind == RouteKind::Post && r.path == "/employers/add" && r.guard == RouteGuard::Public,
                Endpoint::Employer(EmployerEndpoint::UpdateEmployerPage) => r.kind == RouteKind::Get && r.path == "/employers/update" && r.guard == RouteGuard::Public,
                Endpoint::Employer(EmployerEndpoint::UpdateEmployer) => r.kind == RouteKind::Put && r.path == "/employers/update" && r.guard == RouteGuard::Public,
                Endpoint::Employer(EmployerEndpoint::SelectEmployer) => r.kind == RouteKind::Put && r.path == "/employers/{employer_id}/select" && r.guard == RouteGuard::OwnsEmployer,
                Endpoint::Employer(EmployerEndpoint::InvitationsListPage) => r.kind == RouteKind::Get && r.path == "/invitations" && r.guard == RouteGuard::Public,
                Endpoint::Employer(EmployerEndpoint::JobsListPage) => r.kind == RouteKind::Get && r.path == "/jobs/list" && r.guard == RouteGuard::Public,
                Endpoint::Employer(EmployerEndpoint::AddJobPage) => r.kind == RouteKind::Get && r.path == "/jobs/add" && r.guard == RouteGuard::Public,
                Endpoint::Employer(EmployerEndpoint::AddJob) => r.kind == RouteKind::Post && r.path == "/jobs/add" && r.guard == RouteGuard::Public,
                Endpoint::Employer(EmployerEndpoint::PreviewNewJob) => r.kind == RouteKind::Post && r.path == "/jobs/preview" && r.guard == RouteGuard::Public,
                Endpoint::Employer(EmployerEndpoint::ArchiveJob) => r.kind == RouteKind::Put && r.path == "/jobs/{job_id}/archive" && r.guard == RouteGuard::OwnsJob,
                Endpoint::Employer(EmployerEndpoint::DeleteJob) => r.kind == RouteKind::Delete && r.path == "/jobs/{job_id}/delete" && r.guard == RouteGuard::OwnsJob,
                Endpoint::Employer(EmployerEndpoint::PreviewJob) => r.kind == RouteKind::Post && r.path == "/jobs/{job_id}/preview" && r.guard == RouteGuard::OwnsJob,
                Endpoint::Employer(EmployerEndpoint::PublishJob) => r.kind == RouteKind::Put && r.path == "/jobs/{job_id}/publish" && r.guard == RouteGuard::OwnsJob,
                Endpoint::Employer(EmployerEndpoint::UpdateJobPage) => r.kind == RouteKind::Get && r.path == "/jobs/{job_id}/update" && r.guard == RouteGuard::OwnsJob,
                Endpoint::Employer(EmployerEndpoint::UpdateJob) => r.kind == RouteKind::Put && r.path == "/jobs/{job_id}/update" && r.guard == RouteGuard::OwnsJob,
                Endpoint::Employer(EmployerEndpoint::AcceptInvitation) => r.kind == RouteKind::Put && r.path == "/team/invitations/{employer_id}/accept" && r.guard == RouteGuard::Public,
                Endpoint::Employer(EmployerEndpoint::RejectInvitation) => r.kind == RouteKind::Put && r.path == "/team/invitations/{employer_id}/reject" && r.guard == RouteGuard::Public,
                Endpoint::Employer(EmployerEndpoint::AddMember) => r.kind == RouteKind::Post && r.path == "/team/members/add" && r.guard == RouteGuard::Public,
                Endpoint::Employer(EmployerEndpoint::MembersListPage) => r.kind == RouteKind::Get && r.path == "/team/members/list" && r.guard == RouteGuard::Public,
                Endpoint::Employer(EmployerEndpoint::DeleteMember) => r.kind == RouteKind::Delete && r.path == "/team/members/{user_id}/delete" && r.guard == RouteGuard::Public,
                _ => false,
            }
        }),
{
}

/// Every route that does not depend on the login options is mounted,
/// whatever the options: the dashboards, the job board pages, view tracking,
/// the log in page, the static files and the rest.
pub proof fn law_fixed_routes_always_mounted(login: LoginOptions)
    ensures
        exists|i: int| 0 <= i < route_table(login).len() && #[trigger] route_table(login)[i].endpoint == Endpoint::UpdateUserDetails,
        exists|i: int| 0 <= i < route_table(login).len() && #[trigger] route_table(login)[i].endpoint == Endpoint::UpdateUserPassword,
        exists|i: int| 0 <= i < route_table(login).len() && #[trigger] route_table(login)[i].endpoint == Endpoint::EmployerDashboard,
        exists|i: int| 0 <= i < route_table(login).len() && #[trigger] route_table(login)[i].endpoint == Endpoint::DashboardImages,
        exists|i: int| 0 <= i < route_table(login).len() && #[trigger] route_table(login)[i].endpoint == Endpoint::JobSeekerDashboard,
        exists|i: int| 0 <= i < route_table(login).len() && #[trigger] route_table(login)[i].endpoint == Endpoint::ModeratorDashboard,
        exists|i: int| 0 <= i < route_table(login).len() && #[trigger] route_table(login)[i].endpoint == Endpoint::SearchMembers,
        exists|i: int| 0 <= i < route_table(login).len() && #[trigger] route_table(login)[i].endpoint == Endpoint::ApplyToJob,
        exists|i: int| 0 <= i < route_table(login).len() && #[trigger] route_table(login)[i].endpoint == Endpoint::JobsPage,
        exists|i: int| 0 <= i < route_table(login).len() && #[trigger] route_table(login)[i].endpoint == Endpoint::AboutPage,
        exists|i: int| 0 <= i < route_table(login).len() && #[trigger] route_table(login)[i].endpoint == Endpoint::EmbedJobsPage,
        exists|i: int| 0 <= i < route_table(login).len() && #[trigger] route_table(login)[i].endpoint == Endpoint::EmbedJobCard,
        exists|i: int| 0 <= i < route_table(login).len() && #[trigger] route_table(login)[i].endpoint == Endpoint::HealthCheck,
        exists|i: int| 0 <= i < route_table(login).len() && #[trigger] route_table(login)[i].endpoint == Endpoint::JobBoardImages,
        exists|i: int| 0 <= i < route_table(login).len() && #[trigger] route_table(login)[i].endpoint == Endpoint::TrackJobView,
        exists|i: int| 0 <= i < route_table(login).len() && #[trigger] route_table(login)[i].endpoint == Endpoint::SearchLocations,
        exists|i: int| 0 <= i < route_table(login).len() && #[trigger] route_table(login)[i].endpoint == Endpoint::LogInPage,
        exists|i: int| 0 <= i < route_table(login).len() && #[trigger] route_table(login)[i].endpoint == Endpoint::LogOut,
        exists|i: int| 0 <= i < route_table(login).len() && #[trigger] route_table(login)[i].endpoint == Endpoint::SearchProjects,
        exists|i: int| 0 <= i < route_table(login).len() && #[trigger] route_table(login)[i].endpoint == Endpoint::JobSection,
        exists|i: int| 0 <= i < route_table(login).len() && #[trigger] route_table(login)[i].endpoint == Endpoint::ResultsSection,
        exists|i: int| 0 <= i < route_table(login).len() && #[trigger] route_table(login)[i].endpoint == Endpoint::UserMenuSection,
        exists|i: int| 0 <= i < route_table(login).len() && #[trigger] route_table(login)[i].endpoint == Endpoint::SignUpPage,
        exists|i: int| 0 <= i < route_table(login).len() && #[trigger] route_table(login)[i].endpoint == Endpoint::StaticFile,
{
    let l = login_routes_spec(login).map_values(|x: LoginRoute| login_route_entry(x));
    let all = route_table(login);
    assert(all == protected_routes() + public_routes_head() + l + public_routes_tail());
    let n: int = (17 + l.len()) as int;
    assert(all[0].endpoint == Endpoint::UpdateUserDetails);
    assert(all[1].endpoint == Endpoint::UpdateUserPassword);
    assert(all[2].endpoint == Endpoint::EmployerDashboard);
    assert(all[3].endpoint == Endpoint::DashboardImages);
    assert(all[4].endpoint == Endpoint::JobSeekerDashboard);
    assert(all[5].endpoint == Endpoint::ModeratorDashboard);
    assert(all[6].endpoint == Endpoint::SearchMembers);
    assert(all[7].endpoint == Endpoint::ApplyToJob);
    assert(all[8].endpoint == Endpoint::JobsPage);
    assert(all[9].endpoint == Endpoint::AboutPage);
    assert(all[10].endpoint == Endpoint::EmbedJobsPage);
    assert(all[11].endpoint == Endpoint::EmbedJobCard);
    assert(all[12].endpoint == Endpoint::HealthCheck);
    assert(all[13].endpoint == Endpoint::JobBoardImages);
    assert(all[14].endpoint == Endpoint::TrackJobView);
    assert(all[15].endpoint == Endpoint::SearchLocations);
    assert(all[16].endpoint == Endpoint::LogInPage);
    assert(all[n + 0].endpoint == Endpoint::LogOut);
    assert(all[n + 1].endpoint == Endpoint::SearchProjects);
    assert(all[n + 2].endpoint == Endpoint::JobSection);
    assert(all[n + 3].endpoint == Endpoint::ResultsSection);
    assert(all[n + 4].endpoint == Endpoint::UserMenuSection);
    assert(all[n + 5].endpoint == Endpoint::SignUpPage);
    assert(all[n + 6].endpoint == Endpoint::StaticFile);
}

/// The route of each login option's endpoint is mounted exactly when its
/// login option is enabled.
pub proof fn law_login_endpoints_follow_options(login: LoginOptions, r: LoginRoute)
    ensures
        (exists|i: int|
            0 <= i < route_table(login).len() && #[trigger] route_table(login)[i].endpoint
                == Endpoint::Login(r)) == match r {
            LoginRoute::LogIn | LoginRoute::SignUp | LoginRoute::VerifyEmail => login.email,
            LoginRoute::OAuth2Redirect | LoginRoute::OAuth2Callback => login.github,
            LoginRoute::OidcRedirect | LoginRoute::OidcCallback => login.linuxfoundation,
        },
{
    law_login_routes_follow_options(login, r);
    let s = login_routes_spec(login);
    let l = s.map_values(|x: LoginRoute| login_route_entry(x));
    let all = route_table(login);
    assert(all == protected_routes() + public_routes_head() + l + public_routes_tail());
    if s.contains(r) {
        let j = choose|j: int| 0 <= j < s.len() && s[j] == r;
        assert(all[17 + j] == l[j]);
        assert(all[17 + j].endpoint == Endpoint::Login(r));
    }
    if exists|i: int| 0 <= i < all.len() && #[trigger] all[i].endpoint == Endpoint::Login(r) {
        let i = choose|i: int| 0 <= i < all.len() && #[trigger] all[i].endpoint == Endpoint::Login(r);
        law_route_endpoints_fixed(login, i);
        if i < 8 {
            assert(all[i] == protected_routes()[i]);
        } else if i < 17 {
            assert(all[i] == public_routes_head()[i - 8]);
        } else if i < 17 + l.len() {
            assert(all[i] == l[i - 17]);
            assert(s[i - 17] == r);
        } else {
            assert(all[i] == public_routes_tail()[i - 17 - l.len()]);
        }
    }
}

/// Every route of the employer dashboard is mounted.
pub proof fn law_employer_routes_all_mounted()
    ensures
        exists|i: int| 0 <= i < employer_dashboard_table().len() && #[trigger] employer_dashboard_table()[i].endpoint == Endpoint::Employer(EmployerEndpoint::HomePage),
        exists|i: int| 0 <= i < employer_dashboard_table().len() && #[trigger] employer_dashboard_table()[i].endpoint == Endpoint::Employer(EmployerEndpoint::ApplicationsListPage),
        exists|i: int| 0 <= i < employer_dashboard_table().len() && #[trigger] employer_dashboard_table()[i].endpoint == Endpoint::Employer(EmployerEndpoint::ProfilePreviewPage),
        exists|i: int| 0 <= i < employer_dashboard_table().len() && #[trigger] employer_dashboard_table()[i].endpoint == Endpoint::Employer(EmployerEndpoint::AddEmployerPage),
        exists|i: int| 0 <= i < employer_dashboard_table().len() && #[trigger] employer_dashboard_table()[i].endpoint == Endpoint::Employer(EmployerEndpoint::AddEmployer),
        exists|i: int| 0 <= i < employer_dashboard_table().len() && #[trigger] employer_dashboard_table()[i].endpoint == Endpoint::Employer(EmployerEndpoint::UpdateEmployerPage),
        exists|i: int| 0 <= i < employer_dashboard_table().len() && #[trigger] employer_dashboard_table()[i].endpoint == Endpoint::Employer(EmployerEndpoint::UpdateEmployer),
        exists|i: int| 0 <= i < employer_dashboard_table().len() && #[trigger] employer_dashboard_table()[i].endpoint == Endpoint::Employer(EmployerEndpoint::SelectEmployer),
        exists|i: int| 0 <= i < employer_dashboard_table().len() && #[trigger] employer_dashboard_table()[i].endpoint == Endpoint::Employer(EmployerEndpoint::InvitationsListPage),
        exists|i: int| 0 <= i < employer_dashboard_table().len() && #[trigger] employer_dashboard_table()[i].endpoint == Endpoint::Employer(EmployerEndpoint::JobsListPage),
        exists|i: int| 0 <= i < employer_dashboard_table().len() && #[trigger] employer_dashboard_table()[i].endpoint == Endpoint::Employer(EmployerEndpoint::AddJobPage),
        exists|i: int| 0 <= i < employer_dashboard_table().len() && #[trigger] employer_dashboard_table()[i].endpoint == Endpoint::Employer(EmployerEndpoint::AddJob),
        exists|i: int| 0 <= i < employer_dashboard_table().len() && #[trigger] employer_dashboard_table()[i].endpoint == Endpoint::Employer(EmployerEndpoint::PreviewNewJob),
        exists|i: int| 0 <= i < employer_dashboard_table().len() && #[trigger] employer_dashboard_table()[i].endpoint == Endpoint::Employer(EmployerEndpoint::ArchiveJob),
        exists|i: int| 0 <= i < employer_dashboard_table().len() && #[trigger] employer_dashboard_table()[i].endpoint == Endpoint::Employer(EmployerEndpoint::DeleteJob),
        exists|i: int| 0 <= i < employer_dashboard_table().len() && #[trigger] employer_dashboard_table()[i].endpoint == Endpoint::Employer(EmployerEndpoint::PreviewJob),
        exists|i: int| 0 <= i < employer_dashboard_table().len() && #[trigger] employer_dashboard_table()[i].endpoint == Endpoint::Employer(EmployerEndpoint::PublishJob),
        exists|i: int| 0 <= i < employer_dashboard_table().len() && #[trigger] employer_dashboard_table()[i].endpoint == Endpoint::Employer(EmployerEndpoint::UpdateJobPage),
        exists|i: int| 0 <= i < employer_dashboard_table().len() && #[trigger] employer_dashboard_table()[i].endpoint == Endpoint::Employer(EmployerEndpoint::UpdateJob),
        exists|i: int| 0 <= i < employer_dashboard_table().len() && #[trigger] employer_dashboard_table()[i].endpoint == Endpoint::Employer(EmployerEndpoint::AcceptInvitation),
        exists|i: int| 0 <= i < employer_dashboard_table().len() && #[trigger] employer_dashboard_table()[i].endpoint == Endpoint::Employer(EmployerEndpoint::RejectInvitation),
        exists|i: int| 0 <= i < employer_dashboard_table().len() && #[trigger] employer_dashboard_table()[i].endpoint == Endpoint::Employer(EmployerEndpoint::AddMember),
        exists|i: int| 0 <= i < employer_dashboard_table().len() && #[trigger] employer_dashboard_table()[i].endpoint == Endpoint::Employer(EmployerEndpoint::MembersListPage),
        exists|i: int| 0 <= i < employer_dashboard_table().len() && #[trigger] employer_dashboard_table()[i].endpoint == Endpoint::Employer(EmployerEndpoint::DeleteMember),
{
    let t = employer_dashboard_table();
    assert(t[0].endpoint == Endpoint::Employer(EmployerEndpoint::HomePage));
    assert(t[1].endpoint == Endpoint::Employer(EmployerEndpoint::ApplicationsListPage));
    assert(t[2].endpoint == Endpoint::Employer(EmployerEndpoint::ProfilePreviewPage));
    assert(t[3].endpoint == Endpoint::Employer(EmployerEndpoint::AddEmployerPage));
    assert(t[4].endpoint == Endpoint::Employer(EmployerEndpoint::AddEmployer));
    assert(t[5].endpoint == Endpoint::Employer(EmployerEndpoint::UpdateEmployerPage));
    assert(t[6].endpoint == Endpoint::Employer(EmployerEndpoint::UpdateEmployer));
    assert(t[7].endpoint == Endpoint::Employer(EmployerEndpoint::SelectEmployer));
    assert(t[8].endpoint == Endpoint::Employer(EmployerEndpoint::InvitationsListPage));
    assert(t[9].endpoint == Endpoint::Employer(EmployerEndpoint::JobsListPage));
    assert(t[10].endpoint == Endpoint::Employer(EmployerEndpoint::AddJobPage));
    assert(t[11].endpoint == Endpoint::Employer(EmployerEndpoint::AddJob));
    assert(t[12].endpoint == Endpoint::Employer(EmployerEndpoint::PreviewNewJob));
    assert(t[13].endpoint == Endpoint::Employer(EmployerEndpoint::ArchiveJob));
    assert(t[14].endpoint == Endpoint::Employer(EmployerEndpoint::DeleteJob));
    assert(t[15].endpoint == Endpoint::Employer(EmployerEndpoint::PreviewJob));
    assert(t[16].endpoint == Endpoint::Employer(EmployerEndpoint::PublishJob));
    assert(t[17].endpoint == Endpoint::Employer(EmployerEndpoint::UpdateJobPage));
    assert(t[18].endpoint == Endpoint::Employer(EmployerEndpoint::UpdateJob));
    assert(t[19].endpoint == Endpoint::Employer(EmployerEndpoint::AcceptInvitation));
    assert(t[20].endpoint == Endpoint::Employer(EmployerEndpoint::RejectInvitation));
    assert(t[21].endpoint == Endpoint::Employer(EmployerEndpoint::AddMember));
    assert(t[22].endpoint == Endpoint::Employer(EmployerEndpoint::MembersListPage));
    assert(t[23].endpoint == Endpoint::Employer(EmployerEndpoint::DeleteMember));
}


/// The path each login route is mounted at, as [`LoginRoute::path`] gives it.
pub proof fn law_login_route_paths(r: LoginRoute)
    ensures
        match r {
            LoginRoute::LogIn => route_path(r) == "/log-in"@,
            LoginRoute::SignUp => route_path(r) == "/sign-up"@,
            LoginRoute::VerifyEmail => route_path(r) == "/verify-email/{code}"@,
            LoginRoute::OAuth2Redirect => route_path(r) == "/log-in/oauth2/{provider}"@,
            LoginRoute::OAuth2Callback => route_path(r) == "/log-in/oauth2/{provider}/callback"@,
            LoginRoute::OidcRedirect => route_path(r) == "/log-in/oidc/{provider}"@,
            LoginRoute::OidcCallback => route_path(r) == "/log-in/oidc/{provider}/callback"@,
        },
{
}

} // verus!
