use rustzen_auth::AuthError;
use rustzen_auth::audit::LoginAuditRecord;
use rustzen_auth::config::{Config, DatabaseConfig};
use rustzen_auth::digits::u64_to_decimal;
use rustzen_auth::permission::str_eq;
use rustzen_auth::time_utils::TimeUtils;
use rustzen_auth::vo::{LoginVo, UserInfoVo};
use rustzen_auth::web_embed::{
    EmbeddedRoute, classify_embedded_path, get_content_type, is_static_resource_path,
};

#[test]
fn decimal_rendering() {
    assert_eq!(u64_to_decimal(0), "0");
    assert_eq!(u64_to_decimal(7), "7");
    assert_eq!(u64_to_decimal(10), "10");
    assert_eq!(u64_to_decimal(90061), "90061");
    assert_eq!(u64_to_decimal(u64::MAX), "18446744073709551615");
}

#[test]
fn duration_formatting() {
    assert_eq!(TimeUtils::format_duration(0), "0分钟");
    assert_eq!(TimeUtils::format_duration(59), "0分钟");
    assert_eq!(TimeUtils::format_duration(60), "1分钟");
    assert_eq!(TimeUtils::format_duration(3661), "1小时1分钟");
    assert_eq!(TimeUtils::format_duration(18180), "5小时3分钟");
    assert_eq!(TimeUtils::format_duration(90061), "1天1小时");
    assert_eq!(TimeUtils::format_duration(86400 * 3), "3天0小时");
}

#[test]
fn relative_time_formatting() {
    let now = 1_700_000_000;
    assert_eq!(TimeUtils::relative_time(now, now), "刚刚");
    assert_eq!(TimeUtils::relative_time(now, now + 500), "刚刚");
    assert_eq!(TimeUtils::relative_time(now, now - 59), "刚刚");
    assert_eq!(TimeUtils::relative_time(now, now - 60), "1分钟前");
    assert_eq!(TimeUtils::relative_time(now, now - 7200), "2小时前");
    assert_eq!(TimeUtils::relative_time(now, now - 86400 * 9), "9天前");
}

#[test]
fn clock_readings_are_non_negative() {
    assert!(TimeUtils::now_timestamp() >= 0);
    assert!(TimeUtils::now_timestamp_ms() >= 0);
    // The two clocks agree to within a generous margin.
    let s = TimeUtils::now_timestamp();
    let ms = TimeUtils::now_timestamp_ms();
    assert!((ms / 1000 - s).abs() <= 1);
}

#[test]
fn config_defaults() {
    let c = Config::default();
    assert_eq!(c.app_port, 8000);
    assert_eq!(c.app_host, "0.0.0.0");
    assert_eq!(c.db_url, "sqlite://rustzen.db");
    assert_eq!(c.db_max_conn, 10);
    assert_eq!(c.db_min_conn, 1);
    assert_eq!(c.db_conn_timeout, 10);
    assert_eq!(c.db_idle_timeout, 0);
    assert_eq!(c.jwt_secret, "rustzen-admin-secret-key");
    assert_eq!(c.jwt_expiration, 3600);
    assert!(!c.web_embed_enabled);
}

#[test]
fn server_addr_rendering() {
    let mut c = Config::default();
    assert_eq!(c.server_addr(), "0.0.0.0:8000");
    c.app_host = String::from("127.0.0.1");
    c.app_port = 9443;
    assert_eq!(c.server_addr(), "127.0.0.1:9443");
}

#[test]
fn jwt_config_from_settings() {
    let c = Config::default();
    let j = c.jwt_config();
    assert_eq!(j.secret, "rustzen-admin-secret-key");
    assert_eq!(j.expiration, 3600);
}

#[test]
fn database_config_from_settings() {
    let d = DatabaseConfig::default();
    assert_eq!(d.url, "sqlite://rustzen.db");
    assert_eq!(d.max_connections, 10);
    assert_eq!(d.min_connections, 1);
    assert_eq!(d.connect_timeout_secs, 10);
    assert_eq!(d.idle_timeout_secs, 0);
}

#[test]
fn static_resource_paths() {
    assert!(is_static_resource_path("favicon.ico"));
    assert!(is_static_resource_path("deep/nested/file.js"));
    assert!(is_static_resource_path("assets/logo"));
    assert!(is_static_resource_path("static/x"));
    assert!(is_static_resource_path("public/x"));
    assert!(is_static_resource_path("images/x"));
    assert!(is_static_resource_path("css/x"));
    assert!(is_static_resource_path("js/x"));
    assert!(!is_static_resource_path("dashboard"));
    assert!(!is_static_resource_path("users/42/detail"));
    assert!(!is_static_resource_path(""));
}

#[test]
fn content_types_by_extension() {
    assert_eq!(get_content_type("index.html"), "text/html; charset=utf-8");
    assert_eq!(get_content_type("style.css"), "text/css; charset=utf-8");
    assert_eq!(get_content_type("app.js"), "application/javascript; charset=utf-8");
    assert_eq!(get_content_type("app.mjs"), "application/javascript; charset=utf-8");
    assert_eq!(get_content_type("view.jsx"), "application/javascript; charset=utf-8");
    assert_eq!(get_content_type("mod.ts"), "application/typescript; charset=utf-8");
    assert_eq!(get_content_type("data.json"), "application/json; charset=utf-8");
    assert_eq!(get_content_type("bundle.js.map"), "application/json; charset=utf-8");
    assert_eq!(get_content_type("logo.png"), "image/png");
    assert_eq!(get_content_type("photo.jpg"), "image/jpeg");
    assert_eq!(get_content_type("photo.jpeg"), "image/jpeg");
    assert_eq!(get_content_type("anim.gif"), "image/gif");
    assert_eq!(get_content_type("icon.svg"), "image/svg+xml");
    assert_eq!(get_content_type("favicon.ico"), "image/x-icon");
    assert_eq!(get_content_type("font.woff"), "font/woff");
    assert_eq!(get_content_type("font.woff2"), "font/woff2");
    assert_eq!(get_content_type("font.ttf"), "font/ttf");
    assert_eq!(get_content_type("font.eot"), "application/vnd.ms-fontobject");
    assert_eq!(get_content_type("pic.webp"), "image/webp");
    assert_eq!(get_content_type("clip.mp4"), "video/mp4");
    assert_eq!(get_content_type("clip.webm"), "video/webm");
    assert_eq!(get_content_type("doc.pdf"), "application/pdf");
    assert_eq!(get_content_type("feed.xml"), "application/xml; charset=utf-8");
    assert_eq!(get_content_type("note.txt"), "text/plain; charset=utf-8");
    assert_eq!(get_content_type("archive.bin"), "application/octet-stream");
    assert_eq!(get_content_type("no-extension"), "application/octet-stream");
    // Extension matching ignores ASCII case, as the original lowercased it.
    assert_eq!(get_content_type("INDEX.HTML"), "text/html; charset=utf-8");
    assert_eq!(get_content_type("Logo.PnG"), "image/png");
}

#[test]
fn embedded_routing() {
    assert_eq!(classify_embedded_path(""), EmbeddedRoute::Index);
    assert_eq!(classify_embedded_path("index.html"), EmbeddedRoute::Index);
    assert_eq!(classify_embedded_path("assets/app.js"), EmbeddedRoute::Asset);
    assert_eq!(classify_embedded_path("logo.png"), EmbeddedRoute::Asset);
    assert_eq!(classify_embedded_path("dashboard"), EmbeddedRoute::Index);
    assert_eq!(classify_embedded_path("users/42"), EmbeddedRoute::Index);
}

#[test]
fn string_equality_helper() {
    assert!(str_eq("", ""));
    assert!(str_eq("abc", "abc"));
    assert!(str_eq("日本語", "日本語"));
    assert!(!str_eq("abc", "abd"));
    assert!(!str_eq("abc", "ab"));
}

#[test]
fn audit_record_for_success() {
    let vo = LoginVo {
        token: String::from("tok"),
        user_info: UserInfoVo {
            id: 42,
            username: String::from("alice"),
            real_name: None,
            email: None,
            avatar_url: None,
            is_system: false,
            permissions: Vec::new(),
        },
    };
    let r = LoginAuditRecord::from_outcome("alice", &Ok(vo), 12, "10.0.0.1", "curl/8");
    assert_eq!(r.user_id, 42);
    assert_eq!(r.username, "alice");
    assert_eq!(r.action, "AUTH_LOGIN");
    assert_eq!(r.outcome, "SUCCESS");
    assert_eq!(r.detail, "User login successful");
    assert_eq!(r.duration_ms, 12);
    assert_eq!(r.ip_address, "10.0.0.1");
    assert_eq!(r.user_agent, "curl/8");
}

#[test]
fn audit_record_for_failure() {
    let r = LoginAuditRecord::from_outcome(
        "mallory",
        &Err(AuthError::InvalidCredentials),
        3,
        "10.0.0.2",
        "Unknown",
    );
    assert_eq!(r.user_id, 0);
    assert_eq!(r.outcome, "FAIL");
    assert_eq!(r.detail, "Invalid username or password");
    assert_eq!(r.username, "mallory");
}
