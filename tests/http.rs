use ren_flow::http::{check_json, follow_redirect, is_html};
use ren_flow::system::{log_level_for, platform_name, LogLevel, SystemInfo};

#[test]
fn redirects_stop_at_one_hundred() {
    assert!(follow_redirect(0));
    assert!(follow_redirect(99));
    assert!(!follow_redirect(100));
}

#[test]
fn html_is_recognised_by_content_type() {
    assert!(is_html(&Some("text/html; charset=utf-8".to_string())));
    assert!(!is_html(&Some("application/json".to_string())));
    assert!(!is_html(&None));
}

#[test]
fn json_check_reports_error() {
    assert_eq!(check_json(&Some("application/json".to_string())), Ok(()));
    assert_eq!(check_json(&Some("text/plain".to_string())), Err("Response is not JSON".to_string()));
    assert_eq!(check_json(&None), Err("Response is not JSON".to_string()));
}

#[test]
fn log_levels_from_setting() {
    assert_eq!(log_level_for(&Some("err".to_string())), LogLevel::Error);
    assert_eq!(log_level_for(&Some("debug".to_string())), LogLevel::Debug);
    assert_eq!(log_level_for(&Some("all".to_string())), LogLevel::Debug);
    assert_eq!(log_level_for(&Some("info".to_string())), LogLevel::Info);
    assert_eq!(log_level_for(&Some("verbose".to_string())), LogLevel::Info);
    assert_eq!(log_level_for(&None), LogLevel::Info);
}

#[test]
fn system_info_keeps_fields() {
    let s = SystemInfo::new("macOS 14.1".to_string(), "aarch64".to_string());
    assert_eq!(s.release(), "macOS 14.1");
    assert_eq!(s.arch(), "aarch64");
}

#[test]
fn platform_names() {
    assert_eq!(platform_name("windows"), "win32");
    assert_eq!(platform_name("macos"), "darwin");
    assert_eq!(platform_name("linux"), "linux");
    assert_eq!(platform_name("freebsd"), "linux");
}
