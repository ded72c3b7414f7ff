//! The decisions behind the admin pages: the login and onboarding checks,
//! the site settings form, and the records built from the service,
//! incident and maintenance forms and from an import.
use crate::auth::{
    argon2_accepts, is_plain_token, lemma_uuid_is_plain, phc_string_parses, session_attributes,
    session_cookie, session_prefix, session_token_of, verify_password, law_session_token_round_trip,
};
use crate::error::AppError;
use crate::ids::{is_uuid_text, lemma_uuid_text_chars, new_uuid};
use crate::models::incident::{Incident, IncidentUpdate, IncidentWithUpdates};
use crate::models::maintenance::{Maintenance, MaintenanceWithServices};
use crate::models::service::{Service, FULL_UPTIME_BITS, ZERO_BITS};
use crate::models::settings::{FooterLink, SiteSettings};
use crate::probes::ProbeCommand;
use crate::text::{is_blank, spec_to_lowercase, text_eq, to_lowercase, trim, trimmed};
use vstd::prelude::*;
use vstd::utf8::encode_utf8;

verus! {

// ── Login ───────────────────────────────────────────────────

/// The login page, with the error of a failed attempt.
#[derive(Debug)]
pub struct LoginTemplate {
    pub error: Option<String>,
}

/// What the login form sends.
#[derive(Debug)]
pub struct LoginForm {
    pub password: String,
}

/// The page the login pages send a visitor to while onboarding is not
/// complete: the setup page.
pub fn setup_redirect(onboarding_complete: bool) -> (r: Option<&'static str>)
    ensures
        match r {
            Some(p) => !onboarding_complete && p@ == "/admin/setup"@,
            None => onboarding_complete,
        },
{
    if onboarding_complete {
        None
    } else {
        Some("/admin/setup")
    }
}

/// The page the onboarding pages send a visitor to once onboarding is
/// complete: the login page.
pub fn login_redirect(onboarding_complete: bool) -> (r: Option<&'static str>)
    ensures
        match r {
            Some(p) => onboarding_complete && p@ == "/admin/login"@,
            None => !onboarding_complete,
        },
{
    if onboarding_complete {
        Some("/admin/login")
    } else {
        None
    }
}

/// How a login attempt ends when the stored hash could be checked.
#[derive(Debug)]
pub enum LoginOutcome {
    /// The password is wrong: show the login page again with an error.
    Rejected(LoginTemplate),
    /// The password is right: start a session with this token, and send
    /// this `Set-Cookie` value.
    Accepted { token: String, set_cookie: String },
}

/// A login attempt against the stored admin password hash: without a stored
/// hash the visitor is unauthorized; a stored hash that is not a PHC string
/// is an internal error; a wrong password shows the login page with
/// "Invalid password"; a right one starts a session with a fresh random
/// token, whose cookie gives the token back.
pub fn login_attempt(password: &str, stored_hash: Option<&str>) -> (r: Result<
    LoginOutcome,
    AppError,
>)
    ensures
        match stored_hash {
            None => r matches Err(e) && e is Unauthorized,
            Some(h) => {
                &&& !phc_string_parses(h@) <==> r is Err
                &&& r matches Err(e) ==> e is Internal
                &&& r matches Ok(o) ==> (argon2_accepts(password@, h@) <==> o is Accepted)
                &&& r matches Ok(LoginOutcome::Rejected(t)) ==> (t.error matches Some(m) && m@
                    == "Invalid password"@)
                &&& r matches Ok(LoginOutcome::Accepted { token, set_cookie }) ==> {
                    &&& is_uuid_text(token@)
                    &&& set_cookie@ == session_prefix() + token@ + session_attributes()
                    &&& session_token_of(session_prefix() + token@) == Some(token@)
                }
            },
        },
{
    let hash = match stored_hash {
        Some(h) => h,
        None => return Err(AppError::Unauthorized),
    };
    let valid = match verify_password(password, hash) {
        Ok(b) => b,
        Err(e) => return Err(e),
    };
    if !valid {
        return Ok(
            LoginOutcome::Rejected(LoginTemplate { error: Some(String::from_str("Invalid password")) }),
        );
    }
    let token = new_uuid();
    proof {
        lemma_uuid_text_chars(token@);
        lemma_uuid_is_plain(token@);
        law_session_token_round_trip(token@);
    }
    let set_cookie = session_cookie(token.as_str());
    Ok(LoginOutcome::Accepted { token, set_cookie })
}

// ── Onboarding ─────────────────────────────────────────────

/// The onboarding page, with the values entered so far and the error that
/// stopped them.
#[derive(Debug)]
pub struct OnboardingTemplate {
    pub error: Option<String>,
    pub site_name: String,
    pub footer_links: Vec<FooterLink>,
}

/// What the onboarding form sends; the footer links come as JSON text.
#[derive(Debug)]
pub struct OnboardingForm {
    pub site_name: String,
    pub password: String,
    pub password_confirm: String,
    pub footer_links_json: String,
}

/// What onboarding stores once its form is accepted.
#[derive(Debug)]
pub struct OnboardingSetup {
    pub settings: SiteSettings,
    pub password: String,
}

impl OnboardingTemplate {
    /// The empty onboarding page.
    pub fn blank() -> (r: OnboardingTemplate)
        ensures
            r.error is None,
            r.site_name@.len() == 0,
            r.footer_links@.len() == 0,
    {
        OnboardingTemplate { error: None, site_name: String::new(), footer_links: Vec::new() }
    }
}

/// Checks the onboarding form: the two passwords must agree, and the
/// password must have at least 8 bytes of UTF-8; otherwise the page is
/// shown again with the entered name and links and the first failure.
pub fn check_onboarding(form: OnboardingForm, footer_links: Vec<FooterLink>) -> (r: Result<
    OnboardingSetup,
    OnboardingTemplate,
>)
    ensures
        match r {
            Ok(setup) => form.password@ == form.password_confirm@ && encode_utf8(
                form.password@,
            ).len() >= 8 && setup.password == form.password && setup.settings.site_name
                == form.site_name && setup.settings.footer_links == footer_links,
            Err(t) => t.site_name == form.site_name && t.footer_links == footer_links && (
            t.error matches Some(m) && m@ == (if form.password@ != form.password_confirm@ {
                "Passwords don't match"@
            } else {
                "Password must be at least 8 characters"@
            })) && (form.password@ != form.password_confirm@ || encode_utf8(form.password@).len()
                < 8),
        },
{
    if !text_eq(form.password.as_str(), form.password_confirm.as_str()) {
        return Err(
            OnboardingTemplate {
                error: Some(String::from_str("Passwords don't match")),
                site_name: form.site_name,
                footer_links,
            },
        );
    }
    if form.password.as_str().as_bytes().len() < 8 {
        return Err(
            OnboardingTemplate {
                error: Some(String::from_str("Password must be at least 8 characters")),
                site_name: form.site_name,
                footer_links,
            },
        );
    }
    Ok(
        OnboardingSetup {
            settings: SiteSettings { site_name: form.site_name, footer_links },
            password: form.password,
        },
    )
}

// ── Site settings ──────────────────────────────────────────

/// The settings page, with the outcome of the last save.
#[derive(Debug)]
pub struct SettingsTemplate {
    pub site_name: String,
    pub settings: SiteSettings,
    pub success: Option<String>,
    pub error: Option<String>,
}

/// What the settings form sends; the footer links come as JSON text.
#[derive(Debug)]
pub struct SettingsForm {
    pub site_name: String,
    pub footer_links_json: String,
}

impl SettingsTemplate {
    /// The settings page for these settings, titled with their site name.
    pub fn new(settings: SiteSettings, success: Option<String>, error: Option<String>) -> (r:
        SettingsTemplate)
        ensures
            r.site_name == settings.site_name,
            r.settings == settings,
            r.success == success,
            r.error == error,
    {
        SettingsTemplate { site_name: settings.site_name.clone(), settings, success, error }
    }
}

/// The site name that the settings form asks for, trimmed of whitespace; a
/// name that is empty once trimmed is refused with "Site name cannot be
/// empty".
pub fn check_settings_form(form: &SettingsForm) -> (r: Result<String, String>)
    ensures
        match r {
            Ok(n) => n@ == trim(form.site_name@) && n@.len() > 0,
            Err(m) => trim(form.site_name@).len() == 0 && m@ == "Site name cannot be empty"@,
        },
{
    if is_blank(form.site_name.as_str()) {
        Err(String::from_str("Site name cannot be empty"))
    } else {
        Ok(trimmed(form.site_name.as_str()))
    }
}

// ── Services ────────────────────────────────────────────────

/// What the service form sends; the check boxes are present when ticked.
#[derive(Debug)]
pub struct ServiceForm {
    pub name: String,
    pub category: String,
    pub url: String,
    pub probe_type: String,
    pub interval_secs: i64,
    pub region: String,
    pub is_public: Option<String>,
    pub enabled: Option<String>,
    pub sort_order: i64,
}

/// `svc` carries what the form entered: name, category, URL, probe type,
/// interval, region, sort order, and the two check boxes; its probe
/// configuration is empty (`{}`) and its timestamps are left to storage.
pub open spec fn carries_form(svc: Service, form: ServiceForm) -> bool {
    &&& svc.name == form.name
    &&& svc.category == form.category
    &&& svc.url == form.url
    &&& svc.probe_type == form.probe_type
    &&& svc.probe_config@ == "{}"@
    &&& svc.interval_secs == form.interval_secs
    &&& svc.region == form.region
    &&& svc.is_public == form.is_public is Some
    &&& svc.enabled == form.enabled is Some
    &&& svc.sort_order == form.sort_order
    &&& svc.created_at@.len() == 0
    &&& svc.updated_at@.len() == 0
}

/// A new service from the form: a fresh random id, status `unknown`, 100 %
/// uptime and no latency yet.
pub fn new_service(form: ServiceForm) -> (r: Service)
    ensures
        carries_form(r, form),
        is_uuid_text(r.id@),
        r.status@ == "unknown"@,
        r.uptime_pct_bits == FULL_UPTIME_BITS,
        r.avg_latency_ms_bits == ZERO_BITS,
{
    Service {
        id: new_uuid(),
        name: form.name,
        category: form.category,
        url: form.url,
        probe_type: form.probe_type,
        probe_config: String::from_str("{}"),
        interval_secs: form.interval_secs,
        status: String::from_str("unknown"),
        uptime_pct_bits: FULL_UPTIME_BITS,
        avg_latency_ms_bits: ZERO_BITS,
        region: form.region,
        is_public: form.is_public.is_some(),
        enabled: form.enabled.is_some(),
        sort_order: form.sort_order,
        created_at: String::new(),
        updated_at: String::new(),
    }
}

/// The service `id` as the edit form leaves it; status and figures are not
/// part of an edit and stay empty.
pub fn edited_service(id: String, form: ServiceForm) -> (r: Service)
    ensures
        carries_form(r, form),
        r.id == id,
        r.status@.len() == 0,
        r.uptime_pct_bits == ZERO_BITS,
        r.avg_latency_ms_bits == ZERO_BITS,
{
    Service {
        id,
        name: form.name,
        category: form.category,
        url: form.url,
        probe_type: form.probe_type,
        probe_config: String::from_str("{}"),
        interval_secs: form.interval_secs,
        status: String::new(),
        uptime_pct_bits: ZERO_BITS,
        avg_latency_ms_bits: ZERO_BITS,
        region: form.region,
        is_public: form.is_public.is_some(),
        enabled: form.enabled.is_some(),
        sort_order: form.sort_order,
        created_at: String::new(),
        updated_at: String::new(),
    }
}

/// The scheduler request for a service that was just stored: start probing
/// it when it is enabled.
pub fn start_command(svc: Service) -> (r: Option<ProbeCommand>)
    ensures
        svc.enabled ==> r == Some(ProbeCommand::Add(svc)),
        !svc.enabled ==> r is None,
{
    if svc.enabled {
        Some(ProbeCommand::Add(svc))
    } else {
        None
    }
}

// ── Import ──────────────────────────────────────────────────

/// A list of services to import.
#[derive(Debug)]
pub struct ImportPayload {
    pub services: Vec<ImportService>,
}

/// A service to import; what is left out takes its default.
#[derive(Debug)]
pub struct ImportService {
    pub name: String,
    pub category: Option<String>,
    pub url: String,
    pub probe_type: String,
    pub probe_config: Option<String>,
    pub interval_secs: Option<i64>,
    pub region: Option<String>,
    pub is_public: Option<bool>,
    pub enabled: Option<bool>,
    pub sort_order: Option<i64>,
}

/// The answer to an import.
#[derive(Debug)]
pub struct ImportResponse {
    pub imported: usize,
    pub skipped: usize,
    pub error: Option<String>,
}

/// The services to store for an import, in order, and the answer to give
/// once they are stored.
#[derive(Debug)]
pub struct ImportPlan {
    pub services: Vec<Service>,
    pub response: ImportResponse,
}

/// Some existing service has this name, ignoring case.
pub open spec fn name_taken(existing: Seq<Service>, name: Seq<char>) -> bool {
    exists|i: int|
        0 <= i < existing.len() && spec_to_lowercase((#[trigger] existing[i]).name@)
            == spec_to_lowercase(name)
}

/// The imported services whose names no existing service has, in order.
/// Two imported services with the same name are both kept.
pub open spec fn kept_imports(existing: Seq<Service>, payload: Seq<ImportService>) -> Seq<
    ImportService,
>
    decreases payload.len(),
{
    if payload.len() == 0 {
        Seq::empty()
    } else if name_taken(existing, payload.last().name@) {
        kept_imports(existing, payload.drop_last())
    } else {
        kept_imports(existing, payload.drop_last()).push(payload.last())
    }
}

/// The text of an optional string, or the empty text.
pub open spec fn text_or_empty(s: Option<String>) -> Seq<char> {
    match s {
        Some(t) => t@,
        None => Seq::empty(),
    }
}

/// `svc` is the service stored for `imp`: a fresh random id; the given
/// fields, with an empty category and region, an empty configuration
/// (`{}`), an interval of 60 s, public, enabled and sort order 0 where they
/// are left out; an interval of at least 10 s; status `unknown`, 100 %
/// uptime and no latency yet.
pub open spec fn is_import_of(svc: Service, imp: ImportService) -> bool {
    let interval = match imp.interval_secs {
        Some(i) => i,
        None => 60,
    };
    &&& is_uuid_text(svc.id@)
    &&& svc.name@ == imp.name@
    &&& svc.category@ == text_or_empty(imp.category)
    &&& svc.url@ == imp.url@
    &&& svc.probe_type@ == imp.probe_type@
    &&& svc.probe_config@ == (match imp.probe_config {
        Some(c) => c@,
        None => "{}"@,
    })
    &&& svc.interval_secs == (if interval < 10 {
        10
    } else {
        interval
    })
    &&& svc.status@ == "unknown"@
    &&& svc.uptime_pct_bits == FULL_UPTIME_BITS
    &&& svc.avg_latency_ms_bits == ZERO_BITS
    &&& svc.region@ == text_or_empty(imp.region)
    &&& svc.is_public == (match imp.is_public {
        Some(b) => b,
        None => true,
    })
    &&& svc.enabled == (match imp.enabled {
        Some(b) => b,
        None => true,
    })
    &&& svc.sort_order == (match imp.sort_order {
        Some(o) => o,
        None => 0,
    })
    &&& svc.created_at@.len() == 0
    &&& svc.updated_at@.len() == 0
}

/// What an import stores for each of its services: the given name, URL and
/// probe type; a fresh id; status `unknown`; a probe interval of at least
/// 10 s; and the `enabled` and `is_public` flags each as given, `true` when
/// left out, neither depending on the other.
pub proof fn law_import_fields(svc: Service, imp: ImportService)
    requires
        is_import_of(svc, imp),
    ensures
        svc.name@ == imp.name@,
        svc.url@ == imp.url@,
        svc.probe_type@ == imp.probe_type@,
        is_uuid_text(svc.id@),
        svc.status@ == "unknown"@,
        svc.interval_secs >= 10,
        imp.interval_secs matches Some(i) ==> (i >= 10 ==> svc.interval_secs == i),
        imp.enabled matches Some(b) ==> svc.enabled == b,
        imp.enabled is None ==> svc.enabled,
        imp.is_public matches Some(b) ==> svc.is_public == b,
        imp.is_public is None ==> svc.is_public,
{
}

/// Every service that an import plans to store is enabled as its own entry
/// says, or enabled when the entry leaves it out.
pub proof fn law_import_enables_as_given(
    existing: Seq<Service>,
    payload: Seq<ImportService>,
    stored: Seq<Service>,
    k: int,
)
    requires
        stored.len() == kept_imports(existing, payload).len(),
        forall|j: int|
            0 <= j < stored.len() ==> is_import_of(
                #[trigger] stored[j],
                kept_imports(existing, payload)[j],
            ),
        0 <= k < stored.len(),
    ensures
        stored[k].enabled == (kept_imports(existing, payload)[k].enabled is None
            || kept_imports(existing, payload)[k].enabled == Some(true)),
{
    law_import_fields(stored[k], kept_imports(existing, payload)[k]);
}

fn copy_or_empty(s: &Option<String>) -> (r: String)
    ensures
        r@ == text_or_empty(*s),
{
    match s {
        Some(t) => t.clone(),
        None => String::new(),
    }
}

fn import_service(imp: &ImportService) -> (r: Service)
    ensures
        is_import_of(r, *imp),
{
    let interval = match imp.interval_secs {
        Some(i) => i,
        None => 60,
    };
    let probe_config = match &imp.probe_config {
        Some(c) => c.clone(),
        None => String::from_str("{}"),
    };
    Service {
        id: new_uuid(),
        name: imp.name.clone(),
        category: copy_or_empty(&imp.category),
        url: imp.url.clone(),
        probe_type: imp.probe_type.clone(),
        probe_config,
        interval_secs: if interval < 10 {
            10
        } else {
            interval
        },
        status: String::from_str("unknown"),
        uptime_pct_bits: FULL_UPTIME_BITS,
        avg_latency_ms_bits: ZERO_BITS,
        region: copy_or_empty(&imp.region),
        is_public: match imp.is_public {
            Some(b) => b,
            None => true,
        },
        enabled: match imp.enabled {
            Some(b) => b,
            None => true,
        },
        sort_order: match imp.sort_order {
            Some(o) => o,
            None => 0,
        },
        created_at: String::new(),
        updated_at: String::new(),
    }
}

fn lowered_names(existing: &Vec<Service>) -> (r: Vec<String>)
    ensures
        r@.len() == existing@.len(),
        forall|i: int|
            0 <= i < r@.len() ==> (#[trigger] r@[i])@ == spec_to_lowercase(existing@[i].name@),
{
    let mut r: Vec<String> = Vec::new();
    let n = existing.len();
    let mut i: usize = 0;
    while i < n
        invariant
            n == existing@.len(),
            i <= n,
            r@.len() == i,
            forall|k: int|
                0 <= k < i ==> (#[trigger] r@[k])@ == spec_to_lowercase(existing@[k].name@),
        decreases n - i,
    {
        r.push(to_lowercase(existing[i].name.as_str()));
        i = i + 1;
    }
    r
}

fn is_taken(lowered: &Vec<String>, existing: &Vec<Service>, name: &str) -> (r: bool)
    requires
        lowered@.len() == existing@.len(),
        forall|i: int|
            0 <= i < lowered@.len() ==> (#[trigger] lowered@[i])@ == spec_to_lowercase(
                existing@[i].name@,
            ),
    ensures
        r == name_taken(existing@, name@),
{
    let key = to_lowercase(name);
    let n = lowered.len();
    let mut i: usize = 0;
    while i < n
        invariant
            n == lowered@.len(),
            n == existing@.len(),
            i <= n,
            key@ == spec_to_lowercase(name@),
            forall|k: int|
                0 <= k < n ==> (#[trigger] lowered@[k])@ == spec_to_lowercase(existing@[k].name@),
            forall|k: int|
                0 <= k < i ==> spec_to_lowercase((#[trigger] existing@[k]).name@) != key@,
        decreases n - i,
    {
        if text_eq(lowered[i].as_str(), key.as_str()) {
            assert(spec_to_lowercase(existing@[i as int].name@) == spec_to_lowercase(name@));
            return true;
        }
        assert(lowered@[i as int]@ == spec_to_lowercase(existing@[i as int].name@));
        i = i + 1;
    }
    false
}

proof fn lemma_kept_len(existing: Seq<Service>, payload: Seq<ImportService>)
    ensures
        kept_imports(existing, payload).len() <= payload.len(),
    decreases payload.len(),
{
    if payload.len() > 0 {
        lemma_kept_len(existing, payload.drop_last());
    }
}

/// Plans an import: every imported service whose name (ignoring case) no
/// existing service has is stored, in order, and counted as imported; the
/// others are skipped. Names within the import are not checked against
/// each other.
pub fn plan_import(existing: &Vec<Service>, payload: ImportPayload) -> (r: ImportPlan)
    ensures
        r.services@.len() == kept_imports(existing@, payload.services@).len(),
        forall|k: int|
            0 <= k < r.services@.len() ==> is_import_of(
                #[trigger] r.services@[k],
                kept_imports(existing@, payload.services@)[k],
            ),
        r.response.imported == r.services@.len(),
        r.response.imported + r.response.skipped == payload.services@.len(),
        r.response.error is None,
{
    let lowered = lowered_names(existing);
    let items = &payload.services;
    let n = items.len();
    let mut services: Vec<Service> = Vec::new();
    let mut skipped: usize = 0;
    let mut i: usize = 0;
    assert(items@.take(0) =~= Seq::<ImportService>::empty());
    while i < n
        invariant
            n == items@.len(),
            i <= n,
            lowered@.len() == existing@.len(),
            forall|k: int|
                0 <= k < lowered@.len() ==> (#[trigger] lowered@[k])@ == spec_to_lowercase(
                    existing@[k].name@,
                ),
            services@.len() == kept_imports(existing@, items@.take(i as int)).len(),
            forall|k: int|
                0 <= k < services@.len() ==> is_import_of(
                    #[trigger] services@[k],
                    kept_imports(existing@, items@.take(i as int))[k],
                ),
            services@.len() + skipped == i,
        decreases n - i,
    {
        let imp = &items[i];
        proof {
            let p = items@.take(i + 1);
            assert(p.drop_last() =~= items@.take(i as int));
            assert(p.last() == items@[i as int]);
        }
        if is_taken(&lowered, existing, imp.name.as_str()) {
            skipped = skipped + 1;
        } else {
            let ghost before = services@;
            services.push(import_service(imp));
            proof {
                let kept = kept_imports(existing@, items@.take(i + 1));
                assert(kept == kept_imports(existing@, items@.take(i as int)).push(items@[i as int]));
                assert forall|k: int| 0 <= k < services@.len() implies is_import_of(
                    #[trigger] services@[k],
                    kept[k],
                ) by {
                    if k < before.len() {
                        assert(services@[k] == before[k]);
                    }
                }
            }
        }
        i = i + 1;
    }
    assert(items@.take(n as int) =~= items@);
    let imported = services.len();
    ImportPlan { services, response: ImportResponse { imported, skipped, error: None } }
}

/// An import never stores a service whose name an existing service has,
/// ignoring case.
pub proof fn law_import_skips_taken_names(
    existing: Seq<Service>,
    payload: Seq<ImportService>,
    k: int,
)
    requires
        0 <= k < kept_imports(existing, payload).len(),
    ensures
        !name_taken(existing, kept_imports(existing, payload)[k].name@),
    decreases payload.len(),
{
    if payload.len() > 0 {
        let p = payload.drop_last();
        if k < kept_imports(existing, p).len() {
            law_import_skips_taken_names(existing, p, k);
        }
    }
}

// ── Incidents ───────────────────────────────────────────────

/// The list of incidents.
#[derive(Debug)]
pub struct IncidentsListTemplate {
    pub site_name: String,
    pub incidents: Vec<IncidentWithUpdates>,
}

/// What the incident form sends.
#[derive(Debug)]
pub struct IncidentForm {
    pub title: String,
    pub severity: String,
    pub status: String,
    pub service_ids: Vec<String>,
    pub message: Option<String>,
}

/// What the incident update form sends.
#[derive(Debug)]
pub struct IncidentUpdateForm {
    pub status: String,
    pub message: String,
}

/// A new incident, with the first update posted with it if any.
#[derive(Debug)]
pub struct IncidentDraft {
    pub incident: Incident,
    pub first_update: Option<IncidentUpdate>,
}

/// `inc` carries what the incident form entered: title, status and
/// severity; it is public, and its times are left to storage.
pub open spec fn carries_incident_form(inc: Incident, form: IncidentForm) -> bool {
    &&& inc.title@ == form.title@
    &&& inc.status@ == form.status@
    &&& inc.severity@ == form.severity@
    &&& inc.started_at@.len() == 0
    &&& inc.resolved_at is None
    &&& inc.is_public
    &&& inc.created_at@.len() == 0
}

/// A new incident from the form, with a fresh random id. A message that is
/// not blank becomes its first update, posted by `admin` with the form's
/// status and the message as entered.
pub fn new_incident(form: &IncidentForm) -> (r: IncidentDraft)
    ensures
        carries_incident_form(r.incident, *form),
        is_uuid_text(r.incident.id@),
        match form.message {
            Some(m) => if trim(m@).len() == 0 {
                r.first_update is None
            } else {
                r.first_update matches Some(u) && is_uuid_text(u.id@) && u.incident_id@
                    == r.incident.id@ && u.status@ == form.status@ && u.message@ == m@
                    && u.created_by@ == "admin"@ && u.created_at@.len() == 0
            },
            None => r.first_update is None,
        },
{
    let incident = Incident {
        id: new_uuid(),
        title: form.title.clone(),
        status: form.status.clone(),
        severity: form.severity.clone(),
        started_at: String::new(),
        resolved_at: None,
        is_public: true,
        created_at: String::new(),
    };
    let first_update = match &form.message {
        Some(msg) => if is_blank(msg.as_str()) {
            None
        } else {
            Some(
                IncidentUpdate {
                    id: new_uuid(),
                    incident_id: incident.id.clone(),
                    status: form.status.clone(),
                    message: msg.clone(),
                    created_by: String::from_str("admin"),
                    created_at: String::new(),
                },
            )
        },
        None => None,
    };
    IncidentDraft { incident, first_update }
}

/// The incident `id` as the edit form leaves it.
pub fn edited_incident(id: String, form: &IncidentForm) -> (r: Incident)
    ensures
        carries_incident_form(r, *form),
        r.id == id,
{
    Incident {
        id,
        title: form.title.clone(),
        status: form.status.clone(),
        severity: form.severity.clone(),
        started_at: String::new(),
        resolved_at: None,
        is_public: true,
        created_at: String::new(),
    }
}

/// An update on incident `incident_id`, posted by `admin` with a fresh
/// random id.
pub fn new_incident_update(incident_id: String, form: IncidentUpdateForm) -> (r: IncidentUpdate)
    ensures
        is_uuid_text(r.id@),
        r.incident_id == incident_id,
        r.status == form.status,
        r.message == form.message,
        r.created_by@ == "admin"@,
        r.created_at@.len() == 0,
{
    IncidentUpdate {
        id: new_uuid(),
        incident_id,
        status: form.status,
        message: form.message,
        created_by: String::from_str("admin"),
        created_at: String::new(),
    }
}

// ── Maintenance ─────────────────────────────────────────────

/// The list of maintenance windows.
#[derive(Debug)]
pub struct MaintenanceListTemplate {
    pub site_name: String,
    pub items: Vec<MaintenanceWithServices>,
}

/// What the maintenance form sends.
#[derive(Debug)]
pub struct MaintenanceForm {
    pub title: String,
    pub status: String,
    pub start_time: String,
    pub end_time: String,
    pub impact: String,
    pub notes: String,
    pub service_ids: Vec<String>,
}

/// `m` carries what the maintenance form entered; its creation time is
/// left to storage.
pub open spec fn carries_maintenance_form(m: Maintenance, form: MaintenanceForm) -> bool {
    &&& m.title@ == form.title@
    &&& m.status@ == form.status@
    &&& m.start_time@ == form.start_time@
    &&& m.end_time@ == form.end_time@
    &&& m.impact@ == form.impact@
    &&& m.notes@ == form.notes@
    &&& m.created_at@.len() == 0
}

fn maintenance_with_id(id: String, form: &MaintenanceForm) -> (r: Maintenance)
    ensures
        carries_maintenance_form(r, *form),
        r.id == id,
{
    Maintenance {
        id,
        title: form.title.clone(),
        status: form.status.clone(),
        start_time: form.start_time.clone(),
        end_time: form.end_time.clone(),
        impact: form.impact.clone(),
        notes: form.notes.clone(),
        created_at: String::new(),
    }
}

/// A new maintenance window from the form, with a fresh random id.
pub fn new_maintenance(form: &MaintenanceForm) -> (r: Maintenance)
    ensures
        carries_maintenance_form(r, *form),
        is_uuid_text(r.id@),
{
    maintenance_with_id(new_uuid(), form)
}

/// The maintenance window `id` as the edit form leaves it.
pub fn edited_maintenance(id: String, form: &MaintenanceForm) -> (r: Maintenance)
    ensures
        carries_maintenance_form(r, *form),
        r.id == id,
{
    maintenance_with_id(id, form)
}

} // verus!
