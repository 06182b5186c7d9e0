use gitjobs_server::handlers::{
    cache_control_value, embed_base_url, employer_dashboard_page, employer_dashboard_tab,
    get_log_in_url,
    initial_selected_employer, oauth2_state_valid, owner_access, provider_details,
    redirect_after_log_in, require_selected_employer, selected_employer_optional,
    static_asset_headers, static_cache_max_age, static_file_path, valid_status_for_job_update,
    valid_status_for_new_job, AccessDecision, EmployerDashboardTab, JobStatus, ProviderFamily,
    Rejection, LOG_IN_URL,
};
use gitjobs_server::handlers::{
    add_job_decision, job_form_rejected, update_job_decision, HtmxAnswer, REFRESH_JOBS_TABLE,
    log_in_step, start_oauth2_callback, start_password_log_in, LogInAction, LogInEvent,
    LogInStep, INVALID_CREDENTIALS, OAUTH2_AUTHORIZATION_FAILED,
};

#[test]
fn log_in_url_without_next_url() {
    assert_eq!(LOG_IN_URL, "/log-in");
    assert_eq!(get_log_in_url(None), "/log-in");
}

#[test]
fn log_in_url_with_next_url() {
    let next = "/dashboard/employer".to_string();
    assert_eq!(get_log_in_url(Some(&next)), "/log-in?next_url=/dashboard/employer");
    assert_eq!(get_log_in_url(Some(&String::new())), "/log-in?next_url=");
}

#[test]
fn redirect_after_log_in_defaults_to_home() {
    assert_eq!(redirect_after_log_in(None), "/");
    assert_eq!(redirect_after_log_in(Some(&"/jobs".to_string())), "/jobs");
}

#[test]
fn oauth2_state_must_match_session() {
    let state = "abc".to_string();
    assert!(oauth2_state_valid(Some(&"abc".to_string()), &state));
    assert!(!oauth2_state_valid(Some(&"abd".to_string()), &state));
    assert!(!oauth2_state_valid(None, &state));
}

#[test]
fn first_employer_is_selected_after_log_in() {
    assert_eq!(initial_selected_employer(&vec![]), None);
    assert_eq!(initial_selected_employer(&vec![9, 3]), Some(9));
}

#[test]
fn cache_control_values() {
    assert_eq!(cache_control_value(3600), "max-age=3600");
    assert_eq!(cache_control_value(0), "max-age=0");
    assert_eq!(cache_control_value(600), "max-age=600");
    assert_eq!(cache_control_value(-5), "max-age=-5");
    assert_eq!(cache_control_value(i64::MAX), format!("max-age={}", i64::MAX));
    assert_eq!(cache_control_value(i64::MIN), format!("max-age={}", i64::MIN));
}

#[test]
fn static_paths() {
    assert_eq!(static_file_path("/static/js/app.js"), "js/app.js");
    assert_eq!(static_file_path("static/css/styles.css"), "css/styles.css");
    assert_eq!(static_file_path("//static/images/static/logo.png"), "images/logo.png");
    assert_eq!(static_file_path("/images/logo.png"), "images/logo.png");
    assert_eq!(static_file_path("/vendor/static/x.js"), "vendor/static/x.js");
    assert_eq!(static_file_path("/"), "");
}

#[test]
fn static_cache_durations() {
    assert_eq!(static_cache_max_age("images/logo.png"), 604800);
    assert_eq!(static_cache_max_age("vendor/htmx.js"), 2592000);
    assert_eq!(static_cache_max_age("js/app.js"), 3600);
    assert_eq!(static_cache_max_age("image/logo.png"), 3600);
}

#[test]
fn static_headers() {
    let h = static_asset_headers("css/styles.css", 3600);
    assert_eq!(h.content_type, "text/css");
    assert_eq!(h.cache_control, "max-age=3600");
    let h = static_asset_headers("images/logo.png", 0);
    assert_eq!(h.content_type, "image/png");
    assert_eq!(h.cache_control, "max-age=0");
    let h = static_asset_headers("unknown.zzzz", 1);
    assert_eq!(h.content_type, "application/octet-stream");
}

#[test]
fn embed_base_urls() {
    assert_eq!(embed_base_url("https://jobs.example.org/"), "https://jobs.example.org");
    assert_eq!(embed_base_url("https://jobs.example.org"), "https://jobs.example.org");
    assert_eq!(embed_base_url("https://jobs.example.org//"), "https://jobs.example.org/");
    assert_eq!(embed_base_url(""), "");
}

#[test]
fn job_status_names_round_trip() {
    let all = [
        JobStatus::Archived,
        JobStatus::Draft,
        JobStatus::PendingApproval,
        JobStatus::Published,
        JobStatus::Rejected,
    ];
    for s in all {
        assert_eq!(JobStatus::parse(s.as_str()), Some(s));
    }
    assert_eq!(JobStatus::PendingApproval.as_str(), "pending-approval");
    assert_eq!(JobStatus::parse("pending_approval"), None);
    assert_eq!(JobStatus::parse("Draft"), None);
}

#[test]
fn job_statuses_accepted_by_handlers() {
    assert!(valid_status_for_new_job(&JobStatus::Draft));
    assert!(valid_status_for_new_job(&JobStatus::PendingApproval));
    assert!(!valid_status_for_new_job(&JobStatus::Archived));
    assert!(!valid_status_for_new_job(&JobStatus::Published));
    assert!(!valid_status_for_new_job(&JobStatus::Rejected));
    assert!(valid_status_for_job_update(&JobStatus::Archived));
    assert!(valid_status_for_job_update(&JobStatus::Draft));
    assert!(valid_status_for_job_update(&JobStatus::PendingApproval));
    assert!(!valid_status_for_job_update(&JobStatus::Published));
    assert!(!valid_status_for_job_update(&JobStatus::Rejected));
}

#[test]
fn employer_dashboard_tabs() {
    assert_eq!(employer_dashboard_tab(EmployerDashboardTab::Account, false), EmployerDashboardTab::Account);
    assert_eq!(employer_dashboard_tab(EmployerDashboardTab::Jobs, false), EmployerDashboardTab::EmployerInitialSetup);
    assert_eq!(employer_dashboard_tab(EmployerDashboardTab::Profile, false), EmployerDashboardTab::EmployerInitialSetup);
    assert_eq!(employer_dashboard_tab(EmployerDashboardTab::Jobs, true), EmployerDashboardTab::Jobs);
    assert_eq!(employer_dashboard_tab(EmployerDashboardTab::Profile, true), EmployerDashboardTab::Profile);
}

#[test]
fn selected_employer_required() {
    assert_eq!(require_selected_employer(Ok(Some(5))), Ok(5));
    assert_eq!(
        require_selected_employer(Ok(None)),
        Err(Rejection {
            status: 400,
            message: "missing employer id"
        })
    );
    let rej = Rejection {
        status: 401,
        message: "user not logged in",
    };
    assert_eq!(require_selected_employer(Err(rej)), Err(rej));
}

#[test]
fn ownership_checks() {
    assert_eq!(owner_access(false, Some(true)), AccessDecision::Forbidden);
    assert_eq!(owner_access(true, None), AccessDecision::InternalError);
    assert_eq!(owner_access(true, Some(false)), AccessDecision::Forbidden);
    assert_eq!(owner_access(true, Some(true)), AccessDecision::Allow);
}

#[test]
fn selected_employer_from_session() {
    assert_eq!(selected_employer_optional(Some(Ok(Some(9)))), Ok(Some(9)));
    assert_eq!(selected_employer_optional(Some(Ok(None))), Ok(None));
    assert_eq!(
        selected_employer_optional(None),
        Err(Rejection {
            status: 401,
            message: "user not logged in"
        })
    );
    assert_eq!(
        selected_employer_optional(Some(Err(()))),
        Err(Rejection {
            status: 500,
            message: "error getting selected employer from session"
        })
    );
    // The required extractor passes the optional one's rejections on.
    let rejected = selected_employer_optional(None).map_err(|r| r);
    assert_eq!(
        require_selected_employer(rejected),
        Err(Rejection {
            status: 401,
            message: "user not logged in"
        })
    );
}

#[test]
fn provider_details_checks_in_order() {
    let fam = ProviderFamily::OAuth2;
    assert_eq!(provider_details(fam, true, true, Some("github")), Ok("github"));
    assert_eq!(
        provider_details(fam, false, false, Some("github")),
        Err(Rejection {
            status: 400,
            message: "missing oauth2 provider"
        })
    );
    assert_eq!(
        provider_details(fam, true, false, Some("github")),
        Err(Rejection {
            status: 400,
            message: "missing auth session"
        })
    );
    assert_eq!(
        provider_details::<&str>(fam, true, true, None),
        Err(Rejection {
            status: 400,
            message: "oauth2 provider not supported"
        })
    );
    let oidc = ProviderFamily::Oidc;
    assert_eq!(
        provider_details::<&str>(oidc, false, true, None),
        Err(Rejection {
            status: 400,
            message: "missing oidc provider"
        })
    );
    assert_eq!(
        provider_details::<&str>(oidc, true, true, None),
        Err(Rejection {
            status: 400,
            message: "oidc provider not supported"
        })
    );
}

#[test]
fn employer_dashboard_page_needs_a_user() {
    assert_eq!(employer_dashboard_page(false, EmployerDashboardTab::Jobs, true), Err(403));
    assert_eq!(
        employer_dashboard_page(true, EmployerDashboardTab::Jobs, false),
        Ok(EmployerDashboardTab::EmployerInitialSetup)
    );
    assert_eq!(
        employer_dashboard_page(true, EmployerDashboardTab::Profile, true),
        Ok(EmployerDashboardTab::Profile)
    );
}

#[test]
fn oauth2_callback_logs_in_and_selects_first_employer() {
    let (step, action) = start_oauth2_callback("c0de".to_string(), "st4te".to_string());
    assert_eq!(action, LogInAction::TakeStoredState);
    let (step, action) = log_in_step(step, LogInEvent::StoredState(Some("st4te".to_string())));
    assert_eq!(action, LogInAction::TakeNextUrl);
    let (step, action) =
        log_in_step(step.unwrap(), LogInEvent::StoredNextUrl(Some("/dashboard".to_string())));
    assert_eq!(action, LogInAction::AuthenticateOAuth2 { code: "c0de".to_string() });
    let (step, action) = log_in_step(step.unwrap(), LogInEvent::UserFound(true));
    assert_eq!(action, LogInAction::LogUserIn);
    let (step, action) = log_in_step(step.unwrap(), LogInEvent::LoggedIn);
    assert_eq!(action, LogInAction::ListEmployers);
    let (step, action) = log_in_step(step.unwrap(), LogInEvent::Employers(vec![7, 9]));
    assert!(step.is_none());
    assert_eq!(
        action,
        LogInAction::SelectEmployerAndRedirect { employer_id: 7, url: "/dashboard".to_string() }
    );
}

#[test]
fn oauth2_callback_with_wrong_or_missing_state_fails() {
    for stored in [None, Some("other".to_string())] {
        let (step, _) = start_oauth2_callback("c".to_string(), "s".to_string());
        let (next, action) = log_in_step(step, LogInEvent::StoredState(stored));
        assert!(next.is_none());
        assert_eq!(
            action,
            LogInAction::Fail { message: OAUTH2_AUTHORIZATION_FAILED, url: "/log-in".to_string() }
        );
    }
}

#[test]
fn oauth2_user_not_found_goes_back_to_log_in_with_next_url() {
    let step = LogInStep::ReadNextUrl { code: "c".to_string() };
    let (step, _) = log_in_step(step, LogInEvent::StoredNextUrl(Some("/jobs".to_string())));
    let (next, action) = log_in_step(step.unwrap(), LogInEvent::UserFound(false));
    assert!(next.is_none());
    assert_eq!(
        action,
        LogInAction::Fail {
            message: OAUTH2_AUTHORIZATION_FAILED,
            url: "/log-in?next_url=/jobs".to_string()
        }
    );
}

#[test]
fn password_log_in_paths() {
    let (step, action) = start_password_log_in(None);
    assert_eq!(action, LogInAction::AuthenticatePassword);
    let (next, action) = log_in_step(step.clone(), LogInEvent::UserFound(false));
    assert!(next.is_none());
    assert_eq!(
        action,
        LogInAction::Fail { message: INVALID_CREDENTIALS, url: "/log-in".to_string() }
    );
    assert_eq!(INVALID_CREDENTIALS, "Invalid credentials");
    let (step, _) = log_in_step(step, LogInEvent::UserFound(true));
    let (step, _) = log_in_step(step.unwrap(), LogInEvent::LoggedIn);
    let (_, action) = log_in_step(step.unwrap(), LogInEvent::Employers(vec![]));
    assert_eq!(action, LogInAction::Redirect { url: "/".to_string() });
}

#[test]
fn add_and_update_job_answers() {
    let created = HtmxAnswer { status: 201, trigger: "refresh-jobs-table" };
    assert_eq!(REFRESH_JOBS_TABLE, "refresh-jobs-table");
    assert_eq!(add_job_decision(&JobStatus::Draft), Ok(created));
    assert_eq!(add_job_decision(&JobStatus::PendingApproval), Ok(created));
    let invalid = Rejection { status: 422, message: "invalid status" };
    assert_eq!(add_job_decision(&JobStatus::Published), Err(invalid));
    assert_eq!(add_job_decision(&JobStatus::Archived), Err(invalid));
    let updated = HtmxAnswer { status: 204, trigger: "refresh-jobs-table" };
    assert_eq!(update_job_decision(&JobStatus::Archived), Ok(updated));
    assert_eq!(update_job_decision(&JobStatus::Rejected), Err(invalid));
    assert_eq!(job_form_rejected("missing field `title`".to_string()), (422, "missing field `title`".to_string()));
}
