use dbhandle::config::{resolve_secret, Config};
use dbhandle::text::{push_decimal, quote_debug, trim};

fn sample(password: Option<&str>, password_file: Option<&str>) -> Config {
    Config {
        name: "orders".to_string(),
        host: "db.internal".to_string(),
        port: 5432,
        user: "app".to_string(),
        pool_size: 16,
        password: password.map(|p| p.to_string()),
        password_file: password_file.map(|p| p.to_string()),
        ca_cert_file: None,
        client_cert_file: None,
        client_key_file: None,
    }
}

#[test]
fn secret_absent_without_password_or_file() {
    assert_eq!(resolve_secret(None, None), None);
}

#[test]
fn secret_file_text_wins_and_is_trimmed() {
    let r = resolve_secret(Some("inline".to_string()), Some("  from-file \n".to_string()));
    assert_eq!(r, Some("from-file".to_string()));
}

#[test]
fn secret_file_only_is_trimmed() {
    let r = resolve_secret(None, Some("\tpw\r\n".to_string()));
    assert_eq!(r, Some("pw".to_string()));
}

#[test]
fn secret_inline_is_kept_untrimmed() {
    let r = resolve_secret(Some("  spaced  ".to_string()), None);
    assert_eq!(r, Some("  spaced  ".to_string()));
}

#[test]
fn trim_matches_std_on_unicode_space() {
    for s in ["", "   ", "a", " a b ", "\u{3000}x\u{a0}", "\u{85}\u{2028}y\u{200a}\t", "\u{200b}z"] {
        assert_eq!(trim(s), s.trim());
    }
}

#[test]
fn decimal_rendering() {
    for n in [0u64, 7, 10, 99, 5432, 65535, u64::MAX] {
        let mut out = String::from("n=");
        push_decimal(&mut out, n);
        assert_eq!(out, format!("n={}", n));
    }
}

#[test]
fn quote_debug_escapes() {
    assert_eq!(quote_debug("a\"b\n"), "\"a\\\"b\\n\"");
}

#[test]
fn debug_string_redacts_password() {
    let c = sample(Some("hunter2"), Some("/run/secrets/db"));
    let s = c.debug_string();
    assert!(!s.contains("hunter2"));
    assert!(s.contains("[REDACTED]"));
    assert_eq!(
        s,
        "Config { name: \"orders\", host: \"db.internal\", port: 5432, user: \"app\", pool_size: 16, password: Some(\"[REDACTED]\"), password_file: Some(\"/run/secrets/db\"), ca_cert_file: None, client_cert_file: None, client_key_file: None }"
    );
}

#[test]
fn debug_string_without_password() {
    let c = sample(None, None);
    let s = c.debug_string();
    assert!(s.contains("password: None"));
    assert!(!s.contains("[REDACTED]"));
}

#[test]
fn debug_string_independent_of_password_value() {
    let a = sample(Some("one"), None).debug_string();
    let b = sample(Some("two-other"), None).debug_string();
    assert_eq!(a, b);
}

#[test]
fn tls_files_need_all_three() {
    let mut c = sample(None, None);
    assert!(c.tls_files().is_none());
    c.ca_cert_file = Some("ca.pem".to_string());
    c.client_cert_file = Some("client.pem".to_string());
    assert!(c.tls_files().is_none());
    c.client_key_file = Some("client.key".to_string());
    let f = c.tls_files().unwrap();
    assert_eq!(f.ca_cert_file, "ca.pem");
    assert_eq!(f.client_cert_file, "client.pem");
    assert_eq!(f.client_key_file, "client.key");
}

#[test]
fn nul_in_tls_path_is_detected() {
    let mut c = sample(None, None);
    assert!(c.has_usable_tls_paths());
    c.client_key_file = Some("bad\0key".to_string());
    assert!(!c.has_usable_tls_paths());
}
