use google_oauth::secret::override_var;
use google_oauth::{ClientSecret, WebClientSecret};

fn sample() -> ClientSecret {
    ClientSecret {
        web: WebClientSecret {
            client_id: "id".to_string(),
            project_id: "project".to_string(),
            auth_uri: "https://accounts.example/auth".to_string(),
            token_uri: "https://oauth2.example/token".to_string(),
            auth_provider_x509_cert_url: "https://certs.example".to_string(),
            client_secret: "SECRET-REDACTED".to_string(),
        },
    }
}

fn env(pairs: &[(&str, &str)]) -> Vec<(String, String)> {
    pairs
        .iter()
        .map(|(k, v)| (k.to_string(), v.to_string()))
        .collect()
}

#[test]
fn env_override_replaces_only_client_id() {
    let vars = env(&[("OVERRIDE_CLIENT_ID", "xyz"), ("PATH", "/bin")]);
    let s = sample().override_from_env(None, &vars);
    let mut expected = sample();
    expected.web.client_id = "xyz".to_string();
    assert_eq!(s, expected);
}

#[test]
fn env_override_with_infix() {
    let vars = env(&[
        ("OVERRIDE_CLIENT_ID", "plain"),
        ("OVERRIDE_TEST_TOKEN_URI", "http://localhost/token"),
        ("OVERRIDE_TEST_AUTH_PROVIDER_X509_CERT_URL", "http://localhost/certs"),
    ]);
    let s = sample().override_from_env(Some("TEST"), &vars);
    let mut expected = sample();
    expected.web.token_uri = "http://localhost/token".to_string();
    expected.web.auth_provider_x509_cert_url = "http://localhost/certs".to_string();
    assert_eq!(s, expected);
}

#[test]
fn env_override_ignores_empty_values() {
    let vars = env(&[("OVERRIDE_CLIENT_SECRET", ""), ("OVERRIDE_PROJECT_ID", "p2")]);
    let s = sample().web.override_from_env(None, &vars);
    assert_eq!(s.client_secret, "SECRET-REDACTED");
    assert_eq!(s.project_id, "p2");
}

#[test]
fn env_override_first_entry_wins() {
    let vars = env(&[("OVERRIDE_AUTH_URI", "first"), ("OVERRIDE_AUTH_URI", "second")]);
    let s = sample().web.override_from_env(None, &vars);
    assert_eq!(s.auth_uri, "first");
}

#[test]
fn override_variable_names() {
    assert_eq!(override_var(None, "CLIENT_ID"), "OVERRIDE_CLIENT_ID");
    assert_eq!(override_var(Some("DEV"), "TOKEN_URI"), "OVERRIDE_DEV_TOKEN_URI");
}
