use api_client::generate::{
    basic_new_from_env, env_constructor_with_prefix, generate_client_generic_token, CLIENT_AFTER_CONSENT_ENDPOINT,
    CLIENT_AFTER_TOKEN_ENDPOINT, CLIENT_HEAD, CLIENT_TAIL, GOOGLE_NEW_FROM_ENV,
};

#[test]
fn environment_constructor_uses_upper_case_name() {
    let s = basic_new_from_env("Ramp");
    assert!(s.contains("env::var(\"RAMP_CLIENT_ID\")"));
    assert!(s.contains("env::var(\"RAMP_CLIENT_SECRET\")"));
    assert!(s.contains("env::var(\"RAMP_REDIRECT_URI\")"));
    assert!(!s.contains("Ramp_"));
    assert_eq!(s, env_constructor_with_prefix("RAMP"));
}

#[test]
fn generic_client_for_other_services() {
    let s = generate_client_generic_token("Ramp", "https://api.ramp.com/v1/public/customer/token", "app.ramp.com/v1/authorize");
    let expected = format!(
        "{}{}{}{}{}{}{}",
        CLIENT_HEAD,
        "api.ramp.com/v1/public/customer/token",
        CLIENT_AFTER_TOKEN_ENDPOINT,
        "app.ramp.com/v1/authorize",
        CLIENT_AFTER_CONSENT_ENDPOINT,
        basic_new_from_env("Ramp"),
        CLIENT_TAIL
    );
    assert_eq!(s, expected);
    assert!(s.contains("const TOKEN_ENDPOINT: &str = \"https://api.ramp.com/v1/public/customer/token\";"));
    assert!(s.contains("const USER_CONSENT_ENDPOINT: &str = \"https://app.ramp.com/v1/authorize\";"));
    assert!(s.contains("let auth = format!(\"Bearer {}\", self.token);"));
}

#[test]
fn generic_client_for_google_services() {
    let s = generate_client_generic_token(
        "GoogleDrive",
        "https://oauth2.googleapis.com/token",
        "https://accounts.google.com/o/oauth2/v2/auth",
    );
    assert!(s.contains(GOOGLE_NEW_FROM_ENV));
    assert!(s.contains("GOOGLE_KEY_ENCODED"));
    assert!(!s.contains("GOOGLEDRIVE_CLIENT_ID"));
    assert!(s.contains("const TOKEN_ENDPOINT: &str = \"https://oauth2.googleapis.com/token\";"));
}
