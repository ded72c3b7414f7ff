use status_page::auth::{extract_session_token, hash_password};
use status_page::error::AppError;
use status_page::models::service::{Service, FULL_UPTIME_BITS, ZERO_BITS};
use status_page::models::settings::{FooterLink, SiteSettings};
use status_page::models::uptime::DailyAggregate;
use status_page::probes::ProbeCommand;
use status_page::views::admin::{
    check_onboarding, check_settings_form, edited_incident, edited_maintenance, edited_service,
    login_attempt, login_redirect, new_incident, new_incident_update, new_maintenance,
    new_service, plan_import, setup_redirect, start_command, ImportPayload, ImportService,
    IncidentForm, IncidentUpdateForm, LoginOutcome, MaintenanceForm, OnboardingForm,
    OnboardingTemplate, ServiceForm, SettingsForm, SettingsTemplate,
};
use status_page::views::public::{
    day_dates, expand_days, expand_days_for, overall_status, status_counts, ServiceCard,
};

fn svc(name: &str, status: &str) -> Service {
    Service {
        id: format!("id-{name}"),
        name: name.to_string(),
        category: "Edge Network".to_string(),
        url: "https://example.com".to_string(),
        probe_type: "http".to_string(),
        probe_config: "{}".to_string(),
        interval_secs: 60,
        status: status.to_string(),
        uptime_pct_bits: FULL_UPTIME_BITS,
        avg_latency_ms_bits: 42.0f64.to_bits(),
        region: "eu".to_string(),
        is_public: true,
        enabled: true,
        sort_order: 1,
        created_at: String::new(),
        updated_at: String::new(),
    }
}

fn agg(date: &str, total: i64, ok: i64) -> DailyAggregate {
    DailyAggregate {
        service_id: "s1".to_string(),
        date: date.to_string(),
        total_checks: total,
        ok_checks: ok,
        avg_latency_ms_bits: 10.0f64.to_bits(),
    }
}

fn is_uuid(s: &str) -> bool {
    let b: Vec<char> = s.chars().collect();
    b.len() == 36
        && b.iter().enumerate().all(|(i, c)| {
            if i == 8 || i == 13 || i == 18 || i == 23 {
                *c == '-'
            } else {
                c.is_ascii_hexdigit() && !c.is_ascii_uppercase()
            }
        })
        && b[14] == '4'
        && matches!(b[19], '8' | '9' | 'a' | 'b')
}

#[test]
fn overall_status_priorities() {
    assert_eq!(overall_status(&vec![]), "ok");
    assert_eq!(overall_status(&vec![svc("a", "ok"), svc("b", "unknown")]), "ok");
    assert_eq!(overall_status(&vec![svc("a", "ok"), svc("b", "degraded")]), "degraded");
    assert_eq!(
        overall_status(&vec![svc("a", "degraded"), svc("b", "down"), svc("c", "ok")]),
        "down"
    );
}

#[test]
fn status_counting() {
    let services = vec![
        svc("a", "ok"),
        svc("b", "ok"),
        svc("c", "degraded"),
        svc("d", "down"),
        svc("e", "paused"),
    ];
    let c = status_counts(&services);
    assert_eq!(c.ok, 2);
    assert_eq!(c.degraded, 1);
    assert_eq!(c.down, 1);
}

#[test]
fn card_lowercases() {
    let card = ServiceCard { service: svc("Main API", "ok"), days: vec![], uptime_pct_90d_bits: 0 };
    assert_eq!(card.category_lower(), "edge network");
    assert_eq!(card.name_lower(), "main api");
}

#[test]
fn history_fills_gaps_and_keeps_the_latest_entry() {
    let sparse = vec![agg("2024-03-02", 10, 10), agg("2024-03-04", 5, 1), agg("2024-03-02", 20, 19)];
    let dates: Vec<String> =
        ["2024-03-01", "2024-03-02", "2024-03-03", "2024-03-04"].iter().map(|s| s.to_string()).collect();
    let out = expand_days_for("s1", &sparse, &dates);
    assert_eq!(out.len(), 4);
    for (slot, date) in out.iter().zip(dates.iter()) {
        assert_eq!(&slot.date, date);
    }
    assert_eq!(out[0].total_checks, 0);
    assert_eq!(out[0].service_id, "s1");
    assert_eq!(out[0].status(), "nodata");
    assert_eq!(out[1].total_checks, 20);
    assert_eq!(out[1].ok_checks, 19);
    assert_eq!(out[2].total_checks, 0);
    assert_eq!(out[3].total_checks, 5);
    assert_eq!(f64::from_bits(out[3].avg_latency_ms_bits), 10.0);
}

#[test]
fn history_dates_end_today() {
    // Day 738886 of the Common Era is 2024-01-01.
    let dates = day_dates(738_886, 3).unwrap();
    assert_eq!(dates, vec!["2023-12-30", "2023-12-31", "2024-01-01"]);
    assert!(day_dates(i32::MIN + 1, 5).is_none());
}

#[test]
fn history_of_ninety_days() {
    let out = expand_days("s1", &vec![], 90).unwrap();
    assert_eq!(out.len(), 90);
    assert!(out.iter().all(|d| d.total_checks == 0 && d.service_id == "s1"));
    let mut dates: Vec<&str> = out.iter().map(|d| d.date.as_str()).collect();
    let sorted = {
        let mut s = dates.clone();
        s.sort();
        s
    };
    assert_eq!(dates, sorted);
    dates.dedup();
    assert_eq!(dates.len(), 90);
}

#[test]
fn login_pages_redirect_around_onboarding() {
    assert_eq!(setup_redirect(false), Some("/admin/setup"));
    assert_eq!(setup_redirect(true), None);
    assert_eq!(login_redirect(true), Some("/admin/login"));
    assert_eq!(login_redirect(false), None);
}

#[test]
fn login_without_stored_hash_is_unauthorized() {
    assert!(matches!(login_attempt("pw", None), Err(AppError::Unauthorized)));
}

#[test]
fn login_with_broken_hash_is_internal() {
    assert!(matches!(login_attempt("pw", Some("garbage")), Err(AppError::Internal(_))));
}

#[test]
fn login_with_wrong_password() {
    let h = hash_password("right password").unwrap();
    match login_attempt("wrong password", Some(&h)) {
        Ok(LoginOutcome::Rejected(t)) => assert_eq!(t.error.as_deref(), Some("Invalid password")),
        other => panic!("{other:?}"),
    }
}

#[test]
fn login_with_right_password() {
    let h = hash_password("right password").unwrap();
    match login_attempt("right password", Some(&h)) {
        Ok(LoginOutcome::Accepted { token, set_cookie }) => {
            assert!(is_uuid(&token));
            assert_eq!(
                set_cookie,
                format!("session={token}; Path=/; HttpOnly; SameSite=Strict; Max-Age=604800")
            );
            let back = format!("session={token}");
            assert_eq!(extract_session_token(&back), Some(token));
        }
        other => panic!("{other:?}"),
    }
}

fn onboarding(pw: &str, confirm: &str) -> OnboardingForm {
    OnboardingForm {
        site_name: "Acme Status".to_string(),
        password: pw.to_string(),
        password_confirm: confirm.to_string(),
        footer_links_json: String::new(),
    }
}

fn links() -> Vec<FooterLink> {
    vec![FooterLink { label: "Docs".to_string(), url: "https://docs".to_string() }]
}

#[test]
fn onboarding_rejects_mismatched_passwords() {
    match check_onboarding(onboarding("password1", "password2"), links()) {
        Err(t) => {
            assert_eq!(t.error.as_deref(), Some("Passwords don't match"));
            assert_eq!(t.site_name, "Acme Status");
            assert_eq!(t.footer_links.len(), 1);
        }
        Ok(_) => panic!("accepted"),
    }
}

#[test]
fn onboarding_rejects_short_passwords() {
    match check_onboarding(onboarding("short", "short"), vec![]) {
        Err(t) => assert_eq!(t.error.as_deref(), Some("Password must be at least 8 characters")),
        Ok(_) => panic!("accepted"),
    }
    // Seven characters, but nine bytes of UTF-8: accepted.
    assert!(check_onboarding(onboarding("pässwör", "pässwör"), vec![]).is_ok());
    assert!(check_onboarding(onboarding("1234567", "1234567"), vec![]).is_err());
}

#[test]
fn onboarding_accepts() {
    match check_onboarding(onboarding("longenough", "longenough"), links()) {
        Ok(setup) => {
            assert_eq!(setup.password, "longenough");
            assert_eq!(setup.settings.site_name, "Acme Status");
            assert_eq!(setup.settings.footer_links[0].label, "Docs");
        }
        Err(t) => panic!("{t:?}"),
    }
}

#[test]
fn blank_onboarding_page() {
    let t = OnboardingTemplate::blank();
    assert!(t.error.is_none());
    assert!(t.site_name.is_empty());
    assert!(t.footer_links.is_empty());
}

#[test]
fn settings_site_name_is_trimmed() {
    let ok = check_settings_form(&SettingsForm {
        site_name: "  My Status \n".to_string(),
        footer_links_json: String::new(),
    });
    assert_eq!(ok, Ok("My Status".to_string()));
    let err = check_settings_form(&SettingsForm {
        site_name: " \t\u{3000} ".to_string(),
        footer_links_json: String::new(),
    });
    assert_eq!(err, Err("Site name cannot be empty".to_string()));
}

#[test]
fn settings_template() {
    let t = SettingsTemplate::new(
        SiteSettings::from_stored(Some("X".to_string()), None),
        Some("Settings saved successfully".to_string()),
        None,
    );
    assert_eq!(t.site_name, "X");
    assert_eq!(t.settings.site_name, "X");
    assert_eq!(t.success.as_deref(), Some("Settings saved successfully"));
}

fn service_form(enabled: bool) -> ServiceForm {
    ServiceForm {
        name: "API".to_string(),
        category: "Core".to_string(),
        url: "https://api".to_string(),
        probe_type: "http".to_string(),
        interval_secs: 5,
        region: "us".to_string(),
        is_public: Some("on".to_string()),
        enabled: if enabled { Some("on".to_string()) } else { None },
        sort_order: 3,
    }
}

#[test]
fn new_service_from_form() {
    let s = new_service(service_form(true));
    assert!(is_uuid(&s.id));
    assert_eq!(s.name, "API");
    assert_eq!(s.interval_secs, 5);
    assert_eq!(s.status, "unknown");
    assert_eq!(s.probe_config, "{}");
    assert_eq!(f64::from_bits(s.uptime_pct_bits), 100.0);
    assert_eq!(f64::from_bits(s.avg_latency_ms_bits), 0.0);
    assert!(s.is_public);
    assert!(s.enabled);
    assert_eq!(s.sort_order, 3);
    assert!(matches!(start_command(s), Some(ProbeCommand::Add(_))));
    let off = new_service(service_form(false));
    assert!(!off.enabled);
    assert!(start_command(off).is_none());
}

#[test]
fn edited_service_from_form() {
    let s = edited_service("svc-1".to_string(), service_form(false));
    assert_eq!(s.id, "svc-1");
    assert_eq!(s.status, "");
    assert_eq!(s.uptime_pct_bits, ZERO_BITS);
    assert!(!s.enabled);
}

fn import(name: &str) -> ImportService {
    ImportService {
        name: name.to_string(),
        category: None,
        url: "https://x".to_string(),
        probe_type: "http".to_string(),
        probe_config: None,
        interval_secs: None,
        region: None,
        is_public: None,
        enabled: None,
        sort_order: None,
    }
}

#[test]
fn import_skips_existing_names_ignoring_case() {
    let existing = vec![svc("Main API", "ok")];
    let mut dup_within = import("New");
    dup_within.interval_secs = Some(3);
    let mut full = import("Other");
    full.category = Some("Cat".to_string());
    full.probe_config = Some(r#"{"timeout":1}"#.to_string());
    full.interval_secs = Some(120);
    full.region = Some("ap".to_string());
    full.is_public = Some(false);
    full.enabled = Some(false);
    full.sort_order = Some(9);
    let plan = plan_import(
        &existing,
        ImportPayload { services: vec![import("main api"), import("New"), dup_within, full] },
    );
    assert_eq!(plan.response.imported, 3);
    assert_eq!(plan.response.skipped, 1);
    assert!(plan.response.error.is_none());
    assert_eq!(plan.services.len(), 3);
    let a = &plan.services[0];
    assert_eq!(a.name, "New");
    assert_eq!(a.category, "");
    assert_eq!(a.probe_config, "{}");
    assert_eq!(a.interval_secs, 60);
    assert_eq!(a.status, "unknown");
    assert!(a.is_public && a.enabled);
    assert_eq!(a.sort_order, 0);
    assert!(is_uuid(&a.id));
    assert_eq!(plan.services[1].interval_secs, 10);
    let c = &plan.services[2];
    assert_eq!(c.category, "Cat");
    assert_eq!(c.probe_config, r#"{"timeout":1}"#);
    assert_eq!(c.interval_secs, 120);
    assert_eq!(c.region, "ap");
    assert!(!c.is_public && !c.enabled);
    assert_eq!(c.sort_order, 9);
    assert_ne!(plan.services[0].id, plan.services[1].id);
}

#[test]
fn empty_import() {
    let plan = plan_import(&vec![], ImportPayload { services: vec![] });
    assert_eq!(plan.response.imported, 0);
    assert_eq!(plan.response.skipped, 0);
}

fn incident_form(message: Option<&str>) -> IncidentForm {
    IncidentForm {
        title: "Login failing".to_string(),
        severity: "down".to_string(),
        status: "investigating".to_string(),
        service_ids: vec!["s1".to_string()],
        message: message.map(|m| m.to_string()),
    }
}

#[test]
fn new_incident_with_first_update() {
    let d = new_incident(&incident_form(Some("  We are looking into it ")));
    assert!(is_uuid(&d.incident.id));
    assert_eq!(d.incident.title, "Login failing");
    assert_eq!(d.incident.status, "investigating");
    assert_eq!(d.incident.severity, "down");
    assert!(d.incident.is_public);
    assert!(d.incident.resolved_at.is_none());
    let u = d.first_update.unwrap();
    assert_eq!(u.incident_id, d.incident.id);
    assert_eq!(u.status, "investigating");
    assert_eq!(u.message, "  We are looking into it ");
    assert_eq!(u.created_by, "admin");
}

#[test]
fn new_incident_without_message() {
    assert!(new_incident(&incident_form(None)).first_update.is_none());
    assert!(new_incident(&incident_form(Some("   \n "))).first_update.is_none());
}

#[test]
fn edited_incident_and_update() {
    let inc = edited_incident("inc-7".to_string(), &incident_form(None));
    assert_eq!(inc.id, "inc-7");
    assert!(inc.is_public);
    let u = new_incident_update(
        "inc-7".to_string(),
        IncidentUpdateForm { status: "resolved".to_string(), message: "Fixed".to_string() },
    );
    assert_eq!(u.incident_id, "inc-7");
    assert_eq!(u.status, "resolved");
    assert_eq!(u.message, "Fixed");
    assert_eq!(u.created_by, "admin");
    assert!(is_uuid(&u.id));
}

#[test]
fn maintenance_from_form() {
    let form = MaintenanceForm {
        title: "DB upgrade".to_string(),
        status: "scheduled".to_string(),
        start_time: "2024-05-01T10:00".to_string(),
        end_time: "2024-05-01T12:00".to_string(),
        impact: "degraded".to_string(),
        notes: "Read-only".to_string(),
        service_ids: vec![],
    };
    let m = new_maintenance(&form);
    assert!(is_uuid(&m.id));
    assert_eq!(m.title, "DB upgrade");
    assert_eq!(m.impact_class(), "warn");
    let e = edited_maintenance("m-1".to_string(), &form);
    assert_eq!(e.id, "m-1");
    assert_eq!(e.notes, "Read-only");
    assert_eq!(e.created_at, "");
}
