use midday_desktop::{app_url_for, starts_with, text_equals, Environment};

#[test]
fn environment_names() {
    assert_eq!(Environment::from_name("development"), Some(Environment::Development));
    assert_eq!(Environment::from_name("dev"), Some(Environment::Development));
    assert_eq!(Environment::from_name("staging"), Some(Environment::Staging));
    assert_eq!(Environment::from_name("production"), Some(Environment::Production));
    assert_eq!(Environment::from_name("prod"), Some(Environment::Production));
    assert_eq!(Environment::from_name("Production"), None);
    assert_eq!(Environment::from_name(""), None);
}

#[test]
fn app_urls_per_environment() {
    assert_eq!(app_url_for("dev"), ("http://localhost:3001", true));
    assert_eq!(app_url_for("staging"), ("https://beta.midday.ai", true));
    assert_eq!(app_url_for("prod"), ("https://app.midday.ai", true));
}

#[test]
fn unknown_environment_falls_back_to_development() {
    assert_eq!(app_url_for("qa"), ("http://localhost:3001", false));
}

#[test]
fn text_helpers() {
    assert!(text_equals("ß", "ß"));
    assert!(!text_equals("ab", "abc"));
    assert!(starts_with("abc", ""));
    assert!(starts_with("abc", "ab"));
    assert!(!starts_with("ab", "abc"));
    assert!(!starts_with("xbc", "ab"));
}
