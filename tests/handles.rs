use dbhandle::config::Config;
use dbhandle::postgres::{CreateHandleError, Handle};
use dbhandle::su_sqlite;

fn pg_config(name: &str) -> Config {
    Config {
        name: name.to_string(),
        host: "localhost".to_string(),
        port: 5432,
        user: "app".to_string(),
        pool_size: 4,
        password: Some("secret".to_string()),
        password_file: None,
        ca_cert_file: None,
        client_cert_file: None,
        client_key_file: None,
    }
}

#[test]
fn postgres_handle_with_inline_password() {
    let h = Handle::new(pg_config("orders"), None).ok().unwrap();
    assert_eq!(h.settings().password, Some("secret".to_string()));
    assert_eq!(h.settings().max_size, 4);
    assert_eq!(h.settings().recycling, deadpool_postgres::RecyclingMethod::Fast);
    assert!(!h.has_tls());
    assert_eq!(h.pool().inner.status().max_size, 4);
}

#[test]
fn postgres_handle_uses_trimmed_file_text() {
    let mut c = pg_config("orders");
    c.password_file = Some("/run/secrets/pg".to_string());
    let h = Handle::new(c, Some(Ok(" from-file\n".to_string()))).ok().unwrap();
    assert_eq!(h.settings().password, Some("from-file".to_string()));
}

#[test]
fn postgres_handle_ignores_text_without_file() {
    let h = Handle::new(pg_config("orders"), Some(Ok("other".to_string()))).ok().unwrap();
    assert_eq!(h.settings().password, Some("secret".to_string()));
}

#[test]
fn postgres_handle_unreadable_password_file() {
    let mut c = pg_config("orders");
    c.password_file = Some("/no/such/file".to_string());
    let read = std::io::Error::new(std::io::ErrorKind::NotFound, "no such file");
    let r = Handle::new(c, Some(Err(read)));
    match r {
        Err(CreateHandleError::Io(e)) => assert_eq!(e.kind(), std::io::ErrorKind::NotFound),
        _ => panic!("expected the read error"),
    }
}

#[test]
fn postgres_handle_empty_name_is_pool_error() {
    let r = Handle::new(pg_config(""), None);
    assert!(matches!(r, Err(CreateHandleError::Pool(_))));
}

#[test]
fn postgres_handle_missing_tls_file_is_ssl_error() {
    let mut c = pg_config("orders");
    c.ca_cert_file = Some("/no/such/ca.pem".to_string());
    c.client_cert_file = Some("/no/such/client.pem".to_string());
    c.client_key_file = Some("/no/such/client.key".to_string());
    let r = Handle::new(c, None);
    assert!(matches!(r, Err(CreateHandleError::Ssl(_))));
}

#[test]
fn postgres_handle_partial_tls_is_plain() {
    let mut c = pg_config("orders");
    c.ca_cert_file = Some("/no/such/ca.pem".to_string());
    c.client_cert_file = Some("/no/such/client.pem".to_string());
    let h = Handle::new(c, None).ok().unwrap();
    assert!(!h.has_tls());
    assert!(h.connector().is_none());
}

#[test]
fn write_pool_is_bounded_to_one() {
    let mut sizing = su_sqlite::HandleBuilder::new("unused.db".to_string());
    assert_eq!(sizing.write_pool_max_size(), 1);
    sizing = sizing.set_read_pool_max_size(12);
    assert_eq!(sizing.read_pool_max_size(), 12);
    assert_eq!(sizing.write_pool_max_size(), 1);
    let h = sizing.build().ok().unwrap();
    assert_eq!(h.write_pool_max_size(), 1);
    assert_eq!(h.read_pool_max_size(), 12);
}

#[test]
fn requested_write_size_is_overridden() {
    let pool_config = Some(dbhandle::pool::PoolSizing {
        max_size: 9,
        timeouts: deadpool_sqlite::Timeouts::wait_millis(250),
        queue_mode: deadpool_sqlite::QueueMode::Lifo,
    });
    let config = su_sqlite::Config { name: "app.db".to_string(), pool_config };
    let builder = su_sqlite::HandleBuilder::from_config(config);
    assert_eq!(builder.read_pool_max_size(), 9);
    assert_eq!(builder.write_pool_max_size(), 1);
    let h = builder.build().ok().unwrap();
    let write = h.pool_for(su_sqlite::Role::Write);
    let read = h.pool_for(su_sqlite::Role::Read);
    assert_eq!(write.inner.status().max_size, 1);
    assert_eq!(read.inner.status().max_size, 9);
}

#[test]
fn default_builder_sizes_reads_above_one() {
    let b = su_sqlite::Handle::builder("app.db".to_string());
    assert!(b.read_pool_max_size() >= 2);
    assert_eq!(b.write_pool_max_size(), 1);
}

#[test]
fn single_pool_sqlite_handle() {
    let config = su_sqlite::Config { name: "app.db".to_string(), pool_config: None };
    let h = dbhandle::sqlite::Handle::new(config).ok().unwrap();
    assert!(h.pool.inner.status().max_size >= 2);
}

#[test]
fn postgres_handle_partial_tls_ignores_unusable_path() {
    let mut c = pg_config("orders");
    c.ca_cert_file = Some("bad\0ca.pem".to_string());
    let h = Handle::new(c, None).ok().unwrap();
    assert!(!h.has_tls());
}

#[test]
fn postgres_handle_with_empty_user() {
    let mut c = pg_config("orders");
    c.user = String::new();
    let h = Handle::new(c, None).ok().unwrap();
    assert_eq!(h.settings().user, "");
    assert_eq!(h.pool().inner.status().max_size, 4);
}
