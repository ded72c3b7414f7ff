use status_page::assets::{asset_key, asset_lookup};
use status_page::config::{
    parse_u16, port_from_env, server_config, startup_step, StartupStep, DEFAULT_PORT,
};
use status_page::models::settings::onboarding_flag;
use status_page::models::uptime::ok_increment;
use status_page::sketchy::{seed_from_str, Rng};

#[test]
fn seeds() {
    assert_eq!(seed_from_str(""), 1);
    assert_eq!(seed_from_str("a"), 97);
    assert_eq!(seed_from_str("ab"), 97 * 31 + 98);
    assert_eq!(seed_from_str("é"), 195 * 31 + 169);
}

#[test]
fn seed_matches_wrapping_polynomial() {
    let s = "a fairly long service name that overflows the hash many times";
    let mut h: u64 = 0;
    for b in s.bytes() {
        h = h.wrapping_mul(31).wrapping_add(b as u64);
    }
    assert_eq!(seed_from_str(s), if h == 0 { 1 } else { h });
}

#[test]
fn rng_steps() {
    let mut rng = Rng::new(0);
    assert_eq!(rng.next_sample(), 8257);
    let mut state: u64 = 1;
    state ^= state << 13;
    state ^= state >> 7;
    state ^= state << 17;
    let mut expect = state;
    expect ^= expect << 13;
    expect ^= expect >> 7;
    expect ^= expect << 17;
    assert_eq!(rng.next_sample() as u64, expect & 0xFFFF);
}

#[test]
fn rng_wraps_the_seed() {
    let mut rng = Rng::new(u64::MAX);
    assert_eq!(rng.next_sample(), 0);
    assert_eq!(rng.next_sample(), 0);
}

#[test]
fn samples_stay_below_65536() {
    let mut rng = Rng::new(seed_from_str("api.example.com"));
    for _ in 0..1000 {
        assert!(rng.next_sample() < 65536);
    }
}

#[test]
fn u16_parsing() {
    assert_eq!(parse_u16("8080"), Some(8080));
    assert_eq!(parse_u16("0"), Some(0));
    assert_eq!(parse_u16("65535"), Some(65535));
    assert_eq!(parse_u16("00080"), Some(80));
    assert_eq!(parse_u16("+443"), Some(443));
    assert_eq!(parse_u16("65536"), None);
    assert_eq!(parse_u16("99999999999999999999"), None);
    assert_eq!(parse_u16(""), None);
    assert_eq!(parse_u16("+"), None);
    assert_eq!(parse_u16("-"), None);
    assert_eq!(parse_u16("-1"), None);
    assert_eq!(parse_u16(" 80"), None);
    assert_eq!(parse_u16("80 "), None);
    assert_eq!(parse_u16("8o"), None);
    assert_eq!(parse_u16("٣"), None);
}

#[test]
fn u16_parsing_agrees_with_std() {
    for s in ["1", "12", "+0", "++1", "1+", "65534", "070000", "4294967296", "a", "١٢"] {
        assert_eq!(parse_u16(s), s.parse::<u16>().ok(), "{s}");
    }
}

#[test]
fn ports_from_environment() {
    assert_eq!(port_from_env(None), DEFAULT_PORT);
    assert_eq!(port_from_env(Some("3000")), 3000);
    assert_eq!(port_from_env(Some("http")), 8080);
    assert_eq!(port_from_env(Some("70000")), 8080);
}

#[test]
fn onboarding_flags() {
    assert!(onboarding_flag(Some("true")));
    assert!(!onboarding_flag(Some("TRUE")));
    assert!(!onboarding_flag(Some("false")));
    assert!(!onboarding_flag(Some("")));
    assert!(!onboarding_flag(None));
}

#[test]
fn ok_increments() {
    assert_eq!(ok_increment("ok"), 1);
    assert_eq!(ok_increment("down"), 0);
    assert_eq!(ok_increment("OK"), 0);
}

#[test]
fn startup_steps() {
    assert_eq!(startup_step(true, true), StartupStep::Ready);
    assert_eq!(startup_step(true, false), StartupStep::Ready);
    assert_eq!(startup_step(false, true), StartupStep::SeedFromEnv);
    assert_eq!(startup_step(false, false), StartupStep::CheckStoredHash);
}

#[test]
fn server_config_defaults() {
    let c = server_config(None, None, None, None);
    assert_eq!(c.host, "0.0.0.0");
    assert_eq!(c.port, DEFAULT_PORT);
    assert_eq!(c.database_path, "data/status.db");
    assert_eq!(c.admin_password, None);
}

#[test]
fn server_config_given_values() {
    let c = server_config(
        Some("127.0.0.1".to_string()),
        Some("3000"),
        Some("/var/lib/status.db".to_string()),
        Some("hunter22".to_string()),
    );
    assert_eq!(c.host, "127.0.0.1");
    assert_eq!(c.port, 3000);
    assert_eq!(c.database_path, "/var/lib/status.db");
    assert_eq!(c.admin_password.as_deref(), Some("hunter22"));
    assert_eq!(server_config(None, Some("99999"), None, None).port, DEFAULT_PORT);
}

#[test]
fn asset_keys_strip_every_static_prefix() {
    assert_eq!(asset_key("/static/app.css"), "app.css");
    assert_eq!(asset_key("/static//static/js/x.js"), "/static/js/x.js".trim_start_matches("/static/"));
    assert_eq!(asset_key("/static//static/js/x.js"), "js/x.js");
    assert_eq!(asset_key("/static/"), "");
    assert_eq!(asset_key("/other/a.png"), "/other/a.png");
    assert_eq!(asset_key("/stat"), "/stat");
}

#[test]
fn asset_content_types() {
    let css = asset_lookup("/static/style.css");
    assert_eq!(css.key, "style.css");
    assert_eq!(css.content_type, "text/css");
    let svg = asset_lookup("/static/logo.svg");
    assert_eq!(svg.content_type, "image/svg+xml");
    let unknown = asset_lookup("/static/blob.zzzunknown");
    assert_eq!(unknown.content_type, "application/octet-stream");
}
