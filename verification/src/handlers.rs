//! Decisions taken by the HTTP handlers: redirect targets, response headers,
//! static assets, accepted job statuses and dashboard tabs.

use vstd::prelude::*;

use crate::text::{
    has_prefix, i64_to_text, replace, replace_all, signed_decimal, starts_with, strip_one_suffix,
    strip_suffix_char, trim_start, trim_start_char,
};

verus! {

/// Log in URL.
pub const LOG_IN_URL: &'static str = "/log-in";

/// The log in URL, carrying the URL to go back to once logged in.
pub open spec fn log_in_url(next_url: Option<Seq<char>>) -> Seq<char> {
    match next_url {
        Some(n) => "/log-in"@ + "?next_url="@ + n,
        None => "/log-in"@,
    }
}

/// Get the log in url including the next url if provided.
pub fn get_log_in_url(next_url: Option<&String>) -> (url: String)
    ensures
        url@ == log_in_url(
            match next_url {
                Some(n) => Some(n@),
                None => None,
            },
        ),
{
    let mut log_in_url = String::from_str(LOG_IN_URL);
    if let Some(next_url) = next_url {
        log_in_url.append("?next_url=");
        log_in_url.append(next_url.as_str());
    }
    log_in_url
}

/// Where a user is sent once logged in: the next URL requested, or the home
/// page.
pub fn redirect_after_log_in(next_url: Option<&String>) -> (url: String)
    ensures
        url@ == match next_url {
            Some(n) => n@,
            None => "/"@,
        },
{
    match next_url {
        Some(n) => n.clone(),
        None => String::from_str("/"),
    }
}

/// `OAuth2` authorization response.
#[derive(Debug, Clone)]
pub struct OAuth2AuthorizationResponse {
    pub code: String,
    pub state: String,
}

/// Next url to redirect to.
#[derive(Debug, Clone)]
pub struct NextUrl {
    pub next_url: Option<String>,
}

/// Whether the state returned by the `OAuth2` provider is the CSRF state
/// stored in the session when the authorization started; without a stored
/// state the authorization fails.
pub fn oauth2_state_valid(state_in_session: Option<&String>, state: &String) -> (r: bool)
    ensures
        r == (state_in_session matches Some(s) && s@ == state@),
{
    match state_in_session {
        Some(s) => *s == *state,
        None => false,
    }
}

/// The employer selected right after logging in: the first of the user's
/// employers, if any.
pub fn initial_selected_employer(employer_ids: &Vec<u128>) -> (r: Option<u128>)
    ensures
        employer_ids@.len() == 0 ==> r is None,
        employer_ids@.len() > 0 ==> r == Some(employer_ids@[0]),
{
    if employer_ids.len() > 0 {
        Some(employer_ids[0])
    } else {
        None
    }
}

/// The `Cache-Control` value for a cache duration in seconds.
pub open spec fn cache_control(duration_secs: int) -> Seq<char> {
    "max-age="@ + signed_decimal(duration_secs)
}

/// The `Cache-Control` header value for responses cached for
/// `duration_secs` seconds: `max-age=<seconds>`.
pub fn cache_control_value(duration_secs: i64) -> (v: String)
    ensures
        v@ == cache_control(duration_secs as int),
{
    let mut v = String::from_str("max-age=");
    let secs = i64_to_text(duration_secs);
    v.append(secs.as_str());
    v
}

/// The embedded file a static asset URL path names: the path without its
/// leading slashes, with every `static/` removed when it starts with it.
pub open spec fn static_file(uri_path: Seq<char>) -> Seq<char> {
    let path = trim_start(uri_path, '/');
    if has_prefix(path, "static/"@) {
        replace_all(path, "static/"@, Seq::empty())
    } else {
        path
    }
}

/// Extract the embedded file path from a static asset URL path.
pub fn static_file_path(uri_path: &str) -> (path: String)
    ensures
        path@ == static_file(uri_path@),
{
    let trimmed = trim_start_char(uri_path, '/');
    proof {
        reveal_strlit("static/");
        reveal_strlit("");
    }
    if starts_with(trimmed, "static/") {
        assert(""@ =~= Seq::<char>::empty());
        replace(trimmed, "static/", "")
    } else {
        String::from_str(trimmed)
    }
}

/// How long (in seconds) a static asset may be cached: a week for images, a
/// month for vendored files and an hour for anything else.
pub fn static_cache_max_age(path: &str) -> (secs: i64)
    ensures
        has_prefix(path@, "images/"@) ==> secs == 604800,
        !has_prefix(path@, "images/"@) && has_prefix(path@, "vendor/"@) ==> secs == 2592000,
        !has_prefix(path@, "images/"@) && !has_prefix(path@, "vendor/"@) ==> secs == 3600,
{
    if starts_with(path, "images/") {
        60 * 60 * 24 * 7  // 1 week

    } else if starts_with(path, "vendor/") {
        60 * 60 * 24 * 30  // 1 month

    } else {
        // Default cache duration for other static resources
        60 * 60  // 1 hour

    }
}

/// The MIME type `mime_guess` associates with a path's extension
/// (`application/octet-stream` when it knows none).
pub uninterp spec fn mime_type_for_path(path: Seq<char>) -> Seq<char>;

/// Calls `mime_guess::from_path` and takes `first_or_octet_stream` of the
/// guess, rendered as text. Claims only that the result is a function of the
/// path (the guess reads a fixed table of extensions).
#[verifier::external_body]
fn guess_mime_type(path: &str) -> (mime: String)
    ensures
        mime@ == mime_type_for_path(path@),
{
    mime_guess::from_path(path).first_or_octet_stream().to_string()
}

/// Response headers for a static asset.
#[derive(Debug, Clone)]
pub struct StaticAssetHeaders {
    /// Value of the `Content-Type` header.
    pub content_type: String,
    /// Value of the `Cache-Control` header.
    pub cache_control: String,
}

/// Headers for serving the static file at `path` when assets may be cached
/// for `max_age` seconds.
pub fn static_asset_headers(path: &str, max_age: i64) -> (h: StaticAssetHeaders)
    ensures
        h.content_type@ == mime_type_for_path(path@),
        h.cache_control@ == cache_control(max_age as int),
{
    StaticAssetHeaders {
        content_type: guess_mime_type(path),
        cache_control: cache_control_value(max_age),
    }
}

/// The base URL used in embeds: the configured one without a trailing slash.
pub fn embed_base_url(base_url: &str) -> (r: String)
    ensures
        r@ == strip_one_suffix(base_url@, '/'),
{
    String::from_str(strip_suffix_char(base_url, '/'))
}

/// Status of a job in its publication lifecycle.
#[derive(Debug, Clone, Copy, PartialEq, Eq)]
pub enum JobStatus {
    Archived,
    Draft,
    PendingApproval,
    Published,
    Rejected,
}

/// The name a status is stored under.
pub open spec fn job_status_name(s: JobStatus) -> Seq<char> {
    match s {
        JobStatus::Archived => "archived"@,
        JobStatus::Draft => "draft"@,
        JobStatus::PendingApproval => "pending-approval"@,
        JobStatus::Published => "published"@,
        JobStatus::Rejected => "rejected"@,
    }
}

/// Each status is stored under a name of its own, so reading back a stored
/// name gives the status that was stored.
pub proof fn law_job_status_names_distinct(a: JobStatus, b: JobStatus)
    ensures
        job_status_name(a) == job_status_name(b) ==> a == b,
{
    reveal_strlit("archived");
    reveal_strlit("draft");
    reveal_strlit("pending-approval");
    reveal_strlit("published");
    reveal_strlit("rejected");
    if job_status_name(a) == job_status_name(b) && a != b {
        assert(job_status_name(a).len() == job_status_name(b).len());
        assert(job_status_name(a)[0] == job_status_name(b)[0]);
    }
}

impl JobStatus {
    /// The name the status is stored under.
    pub fn as_str(&self) -> (s: &'static str)
        ensures
            s@ == job_status_name(*self),
    {
        match self {
            JobStatus::Archived => "archived",
            JobStatus::Draft => "draft",
            JobStatus::PendingApproval => "pending-approval",
            JobStatus::Published => "published",
            JobStatus::Rejected => "rejected",
        }
    }

    /// Parses a stored status name.
    pub fn parse(value: &str) -> (r: Option<Self>)
        ensures
            r matches Some(s) ==> job_status_name(s) == value@,
            r is None ==> forall|s: JobStatus| job_status_name(s) != value@,
    {
        if crate::text::text_eq(value, "archived") {
            Some(JobStatus::Archived)
        } else if crate::text::text_eq(value, "draft") {
            Some(JobStatus::Draft)
        } else if crate::text::text_eq(value, "pending-approval") {
            Some(JobStatus::PendingApproval)
        } else if crate::text::text_eq(value, "published") {
            Some(JobStatus::Published)
        } else if crate::text::text_eq(value, "rejected") {
            Some(JobStatus::Rejected)
        } else {
            None
        }
    }
}

/// A new job can only be saved as a draft or sent for approval.
pub fn valid_status_for_new_job(status: &JobStatus) -> (r: bool)
    ensures
        r == (*status is Draft || *status is PendingApproval),
{
    match status {
        JobStatus::Draft | JobStatus::PendingApproval => true,
        _ => false,
    }
}

/// An existing job can only be updated as archived, as a draft or sent for
/// approval.
pub fn valid_status_for_job_update(status: &JobStatus) -> (r: bool)
    ensures
        r == (*status is Archived || *status is Draft || *status is PendingApproval),
{
    match status {
        JobStatus::Archived | JobStatus::Draft | JobStatus::PendingApproval => true,
        _ => false,
    }
}

/// A successful answer to an htmx request: its HTTP status and the event the
/// `HX-Trigger` header fires.
#[derive(Debug, Clone, Copy, PartialEq, Eq)]
pub struct HtmxAnswer {
    pub status: u16,
    pub trigger: &'static str,
}

/// Event that makes the jobs table refresh.
pub const REFRESH_JOBS_TABLE: &'static str = "refresh-jobs-table";

/// What adding a job with `status` comes to: a job is saved only as a draft
/// or sent for approval, answered with `201` and the jobs table refresh;
/// any other status is refused with `422 invalid status` and nothing is
/// saved.
pub fn add_job_decision(status: &JobStatus) -> (r: Result<HtmxAnswer, Rejection>)
    ensures
        (*status is Draft || *status is PendingApproval) ==> r == Ok::<HtmxAnswer, Rejection>(
            HtmxAnswer { status: 201, trigger: REFRESH_JOBS_TABLE },
        ),
        !(*status is Draft || *status is PendingApproval) ==> (r matches Err(rej) && rej.status
            == 422 && rej.message@ == "invalid status"@),
{
    if valid_status_for_new_job(status) {
        Ok(HtmxAnswer { status: 201, trigger: REFRESH_JOBS_TABLE })
    } else {
        Err(Rejection { status: 422, message: "invalid status" })
    }
}

/// What updating a job to `status` comes to: a job is updated only as
/// archived, as a draft or sent for approval, answered with `204` and the
/// jobs table refresh; any other status is refused with `422 invalid status`
/// and nothing is updated.
pub fn update_job_decision(status: &JobStatus) -> (r: Result<HtmxAnswer, Rejection>)
    ensures
        (*status is Archived || *status is Draft || *status is PendingApproval) ==> r == Ok::<
            HtmxAnswer,
            Rejection,
        >(HtmxAnswer { status: 204, trigger: REFRESH_JOBS_TABLE }),
        !(*status is Archived || *status is Draft || *status is PendingApproval) ==> (
        r matches Err(rej) && rej.status == 422 && rej.message@ == "invalid status"@),
{
    if valid_status_for_job_update(status) {
        Ok(HtmxAnswer { status: 204, trigger: REFRESH_JOBS_TABLE })
    } else {
        Err(Rejection { status: 422, message: "invalid status" })
    }
}

/// A job form that could not be read is refused with `422` and the reading
/// error's text; nothing is saved.
pub fn job_form_rejected(error: String) -> (r: (u16, String))
    ensures
        r.0 == 422,
        r.1@ == error@,
{
    (422, error)
}

/// Tabs of the employer dashboard.
#[derive(Debug, Clone, Copy, PartialEq, Eq)]
pub enum EmployerDashboardTab {
    Account,
    EmployerInitialSetup,
    Jobs,
    Profile,
}

/// The tab the employer dashboard shows: the one requested, except that
/// without a selected employer every tab but the account one gives way to the
/// employer initial setup.
pub fn employer_dashboard_tab(requested: EmployerDashboardTab, employer_selected: bool) -> (tab:
    EmployerDashboardTab)
    ensures
        (requested is Account || employer_selected) ==> tab == requested,
        !(requested is Account) && !employer_selected ==> tab is EmployerInitialSetup,
{
    match requested {
        EmployerDashboardTab::Account => requested,
        _ => if employer_selected {
            requested
        } else {
            EmployerDashboardTab::EmployerInitialSetup
        },
    }
}

/// What the employer dashboard page shows: without a logged in user the
/// request is forbidden (`403`); otherwise the tab [`employer_dashboard_tab`]
/// picks, so the jobs and profile tabs are only shown with an employer
/// selected.
pub fn employer_dashboard_page(
    logged_in: bool,
    requested: EmployerDashboardTab,
    employer_selected: bool,
) -> (r: Result<EmployerDashboardTab, u16>)
    ensures
        !logged_in ==> r == Err::<EmployerDashboardTab, u16>(403),
        logged_in && (requested is Account || employer_selected) ==> r == Ok::<
            EmployerDashboardTab,
            u16,
        >(requested),
        logged_in && !(requested is Account) && !employer_selected ==> r == Ok::<
            EmployerDashboardTab,
            u16,
        >(EmployerDashboardTab::EmployerInitialSetup),
        r matches Ok(tab) && (tab is Jobs || tab is Profile) ==> employer_selected,
{
    if !logged_in {
        return Err(403);
    }
    Ok(employer_dashboard_tab(requested, employer_selected))
}

/// A request rejected by an extractor: HTTP status code and message.
#[derive(Debug, Clone, Copy, PartialEq, Eq)]
pub struct Rejection {
    pub status: u16,
    pub message: &'static str,
}

/// The selected employer stored in the session, if any. `session` is `None`
/// when the request has no session (the user is not logged in, `401`), and
/// `Some(Err(()))` when the session could not be read (`500`).
pub fn selected_employer_optional(session: Option<Result<Option<u128>, ()>>) -> (r: Result<
    Option<u128>,
    Rejection,
>)
    ensures
        match session {
            None => r matches Err(rej) && rej.status == 401 && rej.message@
                == "user not logged in"@,
            Some(Err(())) => r matches Err(rej) && rej.status == 500 && rej.message@
                == "error getting selected employer from session"@,
            Some(Ok(stored)) => r == Ok::<Option<u128>, Rejection>(stored),
        },
{
    match session {
        None => Err(Rejection { status: 401, message: "user not logged in" }),
        Some(Err(())) => Err(
            Rejection { status: 500, message: "error getting selected employer from session" },
        ),
        Some(Ok(stored)) => Ok(stored),
    }
}

/// Kind of the external identity provider a log in route works with.
#[derive(Debug, Clone, Copy, PartialEq, Eq)]
pub enum ProviderFamily {
    OAuth2,
    Oidc,
}

/// The provider details a log in route works with. The checks come in this
/// order, each rejected with `400`: the provider named in the path must be
/// known ("missing oauth2 provider" / "missing oidc provider"), the request
/// must carry an authentication session ("missing auth session"), and the
/// provider must be configured ("oauth2 provider not supported" / "oidc
/// provider not supported"). `details` are the configured provider's details.
pub fn provider_details<D>(
    family: ProviderFamily,
    provider_in_path: bool,
    auth_session: bool,
    details: Option<D>,
) -> (r: Result<D, Rejection>)
    ensures
        r is Err ==> r->Err_0.status == 400,
        !provider_in_path ==> r is Err && r->Err_0.message@ == match family {
            ProviderFamily::OAuth2 => "missing oauth2 provider"@,
            ProviderFamily::Oidc => "missing oidc provider"@,
        },
        provider_in_path && !auth_session ==> r is Err && r->Err_0.message@
            == "missing auth session"@,
        provider_in_path && auth_session && details is None ==> r is Err && r->Err_0.message@
            == match family {
            ProviderFamily::OAuth2 => "oauth2 provider not supported"@,
            ProviderFamily::Oidc => "oidc provider not supported"@,
        },
        provider_in_path && auth_session && details is Some ==> r == Ok::<D, Rejection>(
            details->0,
        ),
{
    if !provider_in_path {
        let message = match family {
            ProviderFamily::OAuth2 => "missing oauth2 provider",
            ProviderFamily::Oidc => "missing oidc provider",
        };
        return Err(Rejection { status: 400, message });
    }
    if !auth_session {
        return Err(Rejection { status: 400, message: "missing auth session" });
    }
    match details {
        Some(d) => Ok(d),
        None => {
            let message = match family {
                ProviderFamily::OAuth2 => "oauth2 provider not supported",
                ProviderFamily::Oidc => "oidc provider not supported",
            };
            Err(Rejection { status: 400, message })
        },
    }
}

/// The selected employer a handler requires: the one in the session, or a
/// `400 missing employer id` rejection when none is selected. A rejection
/// raised while reading the session is passed on.
pub fn require_selected_employer(selected: Result<Option<u128>, Rejection>) -> (r: Result<
    u128,
    Rejection,
>)
    ensures
        match selected {
            Ok(Some(id)) => r == Ok::<u128, Rejection>(id),
            Ok(None) => r matches Err(rej) && rej.status == 400 && rej.message@
                == "missing employer id"@,
            Err(rej) => r == Err::<u128, Rejection>(rej),
        },
{
    match selected {
        Ok(Some(employer_id)) => Ok(employer_id),
        Ok(None) => Err(Rejection { status: 400, message: "missing employer id" }),
        Err(err) => Err(err),
    }
}

/// Outcome of an authorization check on a resource.
#[derive(Debug, Clone, Copy, PartialEq, Eq)]
pub enum AccessDecision {
    /// Let the request through.
    Allow,
    /// Answer `403 Forbidden`.
    Forbidden,
    /// Answer `500 Internal Server Error`.
    InternalError,
}

/// Whether a request on an employer or a job goes through: only a logged in
/// user who owns it gets in; when ownership cannot be checked the request
/// fails. `owns` is `None` when the ownership check failed.
pub fn owner_access(logged_in: bool, owns: Option<bool>) -> (d: AccessDecision)
    ensures
        !logged_in ==> d is Forbidden,
        logged_in && owns is None ==> d is InternalError,
        logged_in && owns == Some(false) ==> d is Forbidden,
        logged_in && owns == Some(true) ==> d is Allow,
{
    if !logged_in {
        return AccessDecision::Forbidden;
    }
    match owns {
        None => AccessDecision::InternalError,
        Some(false) => AccessDecision::Forbidden,
        Some(true) => AccessDecision::Allow,
    }
}

/// Message shown when an `OAuth2` log in fails.
pub const OAUTH2_AUTHORIZATION_FAILED: &'static str = "OAuth2 authorization failed";

/// Message shown when a password log in fails.
pub const INVALID_CREDENTIALS: &'static str = "Invalid credentials";

/// Where a log in stands, between two calls to the session, the
/// authentication backend or the database.
#[derive(Debug, Clone, PartialEq, Eq)]
pub enum LogInStep {
    /// An `OAuth2` provider sent the user back with `code` and `state`; the
    /// CSRF state stored in the session is being taken out.
    CheckOAuth2State { code: String, state: String },
    /// The state matched; the next URL stored in the session is being taken
    /// out.
    ReadNextUrl { code: String },
    /// The credentials are being checked; `failure` is the message shown when
    /// no user matches them.
    Authenticate { next_url: Option<String>, failure: &'static str },
    /// The user is being logged in to the session.
    LogIn { next_url: Option<String> },
    /// The user's employers are being listed.
    SelectEmployer { next_url: Option<String> },
}

/// What the session, the authentication backend or the database answered.
#[derive(Debug, Clone, PartialEq, Eq)]
pub enum LogInEvent {
    /// The CSRF state taken out of the session.
    StoredState(Option<String>),
    /// The next URL taken out of the session.
    StoredNextUrl(Option<String>),
    /// Whether the credentials matched a user.
    UserFound(bool),
    /// The user was logged in to the session.
    LoggedIn,
    /// The user's employers, in the order the database lists them.
    Employers(Vec<u128>),
}

/// What to do next.
#[derive(Debug, Clone, PartialEq, Eq)]
pub enum LogInAction {
    /// Take the CSRF state out of the session.
    TakeStoredState,
    /// Take the next URL out of the session.
    TakeNextUrl,
    /// Check password credentials.
    AuthenticatePassword,
    /// Exchange the `OAuth2` authorization code and check the user.
    AuthenticateOAuth2 { code: String },
    /// Log the user found in.
    LogUserIn,
    /// List the user's employers.
    ListEmployers,
    /// Store the employer as the selected one, then redirect to `url`.
    SelectEmployerAndRedirect { employer_id: u128, url: String },
    /// Redirect to `url`.
    Redirect { url: String },
    /// Show `message` and redirect to `url`.
    Fail { message: &'static str, url: String },
}

/// The answer fits the step: it is the answer to the step's action.
pub open spec fn log_in_event_fits(step: LogInStep, event: LogInEvent) -> bool {
    match step {
        LogInStep::CheckOAuth2State { .. } => event is StoredState,
        LogInStep::ReadNextUrl { .. } => event is StoredNextUrl,
        LogInStep::Authenticate { .. } => event is UserFound,
        LogInStep::LogIn { .. } => event is LoggedIn,
        LogInStep::SelectEmployer { .. } => event is Employers,
    }
}

/// The view of an optional text.
pub open spec fn opt_view(o: Option<String>) -> Option<Seq<char>> {
    match o {
        Some(s) => Some(s@),
        None => None,
    }
}

/// Where a user goes once logged in: the next URL, or the home page.
pub open spec fn after_log_in_url(next_url: Option<Seq<char>>) -> Seq<char> {
    match next_url {
        Some(n) => n,
        None => "/"@,
    }
}

/// Starts a password log in: the credentials are checked, and a failure
/// sends the user back to the log in page with "Invalid credentials".
pub fn start_password_log_in(next_url: Option<String>) -> (r: (LogInStep, LogInAction))
    ensures
        r.0 == (LogInStep::Authenticate { next_url, failure: INVALID_CREDENTIALS }),
        r.1 == LogInAction::AuthenticatePassword,
{
    (LogInStep::Authenticate { next_url, failure: INVALID_CREDENTIALS }, LogInAction::AuthenticatePassword)
}

/// Starts the return from an `OAuth2` provider: the CSRF state stored in the
/// session is taken out first.
pub fn start_oauth2_callback(code: String, state: String) -> (r: (LogInStep, LogInAction))
    ensures
        r.0 == (LogInStep::CheckOAuth2State { code, state }),
        r.1 == LogInAction::TakeStoredState,
{
    (LogInStep::CheckOAuth2State { code, state }, LogInAction::TakeStoredState)
}

/// One step of a log in (by password or through an `OAuth2` provider):
/// - a missing or different CSRF state fails with "OAuth2 authorization
///   failed" and sends the user to the log in page;
/// - once the state matches, the next URL is taken out of the session and the
///   code is exchanged;
/// - when no user matches, the failure message is shown and the user is sent
///   to the log in page carrying the next URL;
/// - a user found is logged in and its employers listed; the first one, if
///   any, becomes the selected employer; the user is then sent to the next
///   URL, or to the home page.
pub fn log_in_step(step: LogInStep, event: LogInEvent) -> (r: (Option<LogInStep>, LogInAction))
    requires
        log_in_event_fits(step, event),
    ensures
        match (step, event) {
            (LogInStep::CheckOAuth2State { code, state }, LogInEvent::StoredState(stored)) => {
                if stored matches Some(s) && s@ == state@ {
                    r.0 == Some(LogInStep::ReadNextUrl { code }) && r.1 == LogInAction::TakeNextUrl
                } else {
                    r.0 is None && (r.1 matches LogInAction::Fail { message, url } && message@
                        == OAUTH2_AUTHORIZATION_FAILED@ && url@ == LOG_IN_URL@)
                }
            },
            (LogInStep::ReadNextUrl { code }, LogInEvent::StoredNextUrl(next_url)) => {
                &&& r.0 == Some(
                    LogInStep::Authenticate { next_url, failure: OAUTH2_AUTHORIZATION_FAILED },
                )
                &&& r.1 == (LogInAction::AuthenticateOAuth2 { code })
            },
            (LogInStep::Authenticate { next_url, failure }, LogInEvent::UserFound(found)) => {
                if found {
                    r.0 == Some(LogInStep::LogIn { next_url }) && r.1 == LogInAction::LogUserIn
                } else {
                    r.0 is None && (r.1 matches LogInAction::Fail { message, url } && message
                        == failure && url@ == log_in_url(opt_view(next_url)))
                }
            },
            (LogInStep::LogIn { next_url }, LogInEvent::LoggedIn) => {
                r.0 == Some(LogInStep::SelectEmployer { next_url }) && r.1
                    == LogInAction::ListEmployers
            },
            (LogInStep::SelectEmployer { next_url }, LogInEvent::Employers(ids)) => {
                &&& r.0 is None
                &&& ids@.len() > 0 ==> (r.1 matches LogInAction::SelectEmployerAndRedirect {
                    employer_id,
                    url,
                } && employer_id == ids@[0] && url@ == after_log_in_url(opt_view(next_url)))
                &&& ids@.len() == 0 ==> (r.1 matches LogInAction::Redirect { url } && url@
                    == after_log_in_url(opt_view(next_url)))
            },
            _ => false,
        },
{
    match step {
        LogInStep::CheckOAuth2State { code, state } => {
            let stored = match event {
                LogInEvent::StoredState(stored) => stored,
                _ => Option::None,
            };
            if oauth2_state_valid(stored.as_ref(), &state) {
                (Some(LogInStep::ReadNextUrl { code }), LogInAction::TakeNextUrl)
            } else {
                (
                    None,
                    LogInAction::Fail {
                        message: OAUTH2_AUTHORIZATION_FAILED,
                        url: String::from_str(LOG_IN_URL),
                    },
                )
            }
        },
        LogInStep::ReadNextUrl { code } => {
            let next_url = match event {
                LogInEvent::StoredNextUrl(next_url) => next_url,
                _ => Option::None,
            };
            (
                Some(LogInStep::Authenticate { next_url, failure: OAUTH2_AUTHORIZATION_FAILED }),
                LogInAction::AuthenticateOAuth2 { code },
            )
        },
        LogInStep::Authenticate { next_url, failure } => {
            let found = match event {
                LogInEvent::UserFound(found) => found,
                _ => false,
            };
            if found {
                (Some(LogInStep::LogIn { next_url }), LogInAction::LogUserIn)
            } else {
                let url = get_log_in_url(next_url.as_ref());
                (None, LogInAction::Fail { message: failure, url })
            }
        },
        LogInStep::LogIn { next_url } => {
            (Some(LogInStep::SelectEmployer { next_url }), LogInAction::ListEmployers)
        },
        LogInStep::SelectEmployer { next_url } => {
            let ids = match event {
                LogInEvent::Employers(ids) => ids,
                _ => Vec::new(),
            };
            let url = redirect_after_log_in(next_url.as_ref());
            match initial_selected_employer(&ids) {
                Some(employer_id) => (None, LogInAction::SelectEmployerAndRedirect { employer_id, url }),
                None => (None, LogInAction::Redirect { url }),
            }
        },
    }
}


/// The names job statuses are stored under in the database: `archived`,
/// `draft`, `pending-approval`, `published` and `rejected`.
pub proof fn law_job_status_stored_names(s: JobStatus)
    ensures
        match s {
            JobStatus::Archived => job_status_name(s) == "archived"@,
            JobStatus::Draft => job_status_name(s) == "draft"@,
            JobStatus::PendingApproval => job_status_name(s) == "pending-approval"@,
            JobStatus::Published => job_status_name(s) == "published"@,
            JobStatus::Rejected => job_status_name(s) == "rejected"@,
        },
{
}

/// Reading back a stored status name gives the status stored under it:
/// `archived` reads as archived, `rejected` as rejected, and so on.
pub proof fn law_job_status_read_back(s: JobStatus, value: Seq<char>)
    requires
        value == job_status_name(s),
    ensures
        forall|t: JobStatus| job_status_name(t) == value ==> t == s,
{
    assert forall|t: JobStatus| job_status_name(t) == value implies t == s by {
        law_job_status_names_distinct(t, s);
    }
}


/// The log in URL is `/log-in`, followed by `?next_url=` and the URL to go
/// back to when there is one.
pub proof fn law_log_in_url_text(next_url: Option<Seq<char>>)
    ensures
        match next_url {
            Some(n) => log_in_url(next_url) == "/log-in?next_url="@ + n,
            None => log_in_url(next_url) == "/log-in"@,
        },
        LOG_IN_URL@ == "/log-in"@,
{
    reveal_strlit("/log-in");
    reveal_strlit("?next_url=");
    reveal_strlit("/log-in?next_url=");
    assert("/log-in"@ + "?next_url="@ =~= "/log-in?next_url="@);
    if let Some(n) = next_url {
        assert("/log-in"@ + "?next_url="@ + n =~= "/log-in?next_url="@ + n);
    }
}

} // verus!
