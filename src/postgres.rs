//! The PostgreSQL handle: one pool, sized and authenticated by a
//! configuration, over TLS where the configuration names TLS files.
use vstd::prelude::*;

use crate::config::{config_secret, resolve_secret, tls_paths_usable, Config};
use crate::tls::{build_connector, setup_for, Connector, TlsSetup};

verus! {

#[verifier::external_type_specification]
#[verifier::external_body]
pub struct ExIoError(std::io::Error);

#[verifier::external_type_specification]
#[verifier::external_body]
pub struct ExPgConfigError(deadpool_postgres::ConfigError);

#[verifier::external_type_specification]
pub struct ExRecyclingMethod(deadpool_postgres::RecyclingMethod);

/// The statement that a health check prepares and runs.
pub const HEALTH_CHECK_STATEMENT: &'static str = "SELECT 1";

/// What the pool is created with.
pub struct PoolSettings {
    pub dbname: String,
    pub user: String,
    pub host: String,
    pub port: u16,
    pub password: Option<String>,
    pub max_size: usize,
    pub recycling: deadpool_postgres::RecyclingMethod,
}

/// A pool of PostgreSQL connections. deadpool's `Pool` is held in a struct of
/// this crate because its type parameters are bound by deadpool's `Manager`
/// trait, which a type declaration cannot name.
#[verifier::external_body]
pub struct PgPool {
    pub inner: deadpool_postgres::Pool,
}

/// The settings that `p` connects with.
pub uninterp spec fn pg_pool_settings(p: PgPool) -> PoolSettings;

/// Whether a pool that connects with `made` was created from `s`: the same
/// in every respect, except that an empty user leaves the user to the pool
/// library, which takes it from the process's `USER` variable.
pub open spec fn made_from(made: PoolSettings, s: PoolSettings) -> bool {
    if s.user@.len() > 0 {
        made == s
    } else {
        made == (PoolSettings { user: made.user, ..s })
    }
}

/// The TLS connector that `p` makes its connections with, if any.
pub uninterp spec fn pg_pool_tls(p: PgPool) -> Option<TlsSetup>;

/// Relies on `deadpool_postgres::Config::create_pool` without TLS: with no
/// URL set, the only configuration error is a missing or empty database
/// name, and building with a runtime does not fail. An empty user is
/// replaced by the process's `USER` variable where that is set.
#[verifier::external_body]
fn create_plain_pool(s: &PoolSettings) -> (r: Result<PgPool, deadpool_postgres::CreatePoolError>)
    ensures
        r is Err <==> s.dbname@.len() == 0,
        r is Ok ==> made_from(pg_pool_settings(r->Ok_0), *s) && pg_pool_tls(r->Ok_0) is None,
{
    let mut c = deadpool_postgres::Config::new();
    c.dbname = Some(s.dbname.clone());
    c.user = Some(s.user.clone());
    c.host = Some(s.host.clone());
    c.port = Some(s.port);
    c.password = s.password.clone();
    c.manager = Some(deadpool_postgres::ManagerConfig { recycling_method: s.recycling.clone() });
    c.pool = Some(deadpool_postgres::PoolConfig::new(s.max_size));
    c.create_pool(Some(deadpool_postgres::Runtime::Tokio1), tokio_postgres::NoTls).map(
        |inner| PgPool { inner },
    )
}

/// Relies on `deadpool_postgres::Config::create_pool` with a TLS connector:
/// with no URL set, the only configuration error is a missing or empty
/// database name, and building with a runtime does not fail. An empty user
/// is replaced by the process's `USER` variable where that is set.
#[verifier::external_body]
fn create_tls_pool(s: &PoolSettings, tls: &Connector) -> (r: Result<
    PgPool,
    deadpool_postgres::CreatePoolError,
>)
    ensures
        r is Err <==> s.dbname@.len() == 0,
        r is Ok ==> made_from(pg_pool_settings(r->Ok_0), *s) && pg_pool_tls(r->Ok_0) == Some(
            tls@,
        ),
{
    let mut c = deadpool_postgres::Config::new();
    c.dbname = Some(s.dbname.clone());
    c.user = Some(s.user.clone());
    c.host = Some(s.host.clone());
    c.port = Some(s.port);
    c.password = s.password.clone();
    c.manager = Some(deadpool_postgres::ManagerConfig { recycling_method: s.recycling.clone() });
    c.pool = Some(deadpool_postgres::PoolConfig::new(s.max_size));
    c.create_pool(Some(deadpool_postgres::Runtime::Tokio1), tls.inner.clone()).map(
        |inner| PgPool { inner },
    )
}

/// The error that stops a handle from being built.
pub enum CreateHandleError {
    /// The pool library refused the configuration.
    Pool(deadpool_postgres::CreatePoolError),
    /// The password file could not be read.
    Io(std::io::Error),
    /// A TLS file could not be loaded.
    Ssl(openssl::error::ErrorStack),
}

/// What reading the password file gave, counted only where `c` names one.
pub open spec fn file_read(c: Config, read: Option<Result<String, std::io::Error>>) -> Option<
    Result<String, std::io::Error>,
> {
    if c.password_file is Some {
        read
    } else {
        None
    }
}

/// The text of the password file, where it was read.
pub open spec fn file_text(read: Option<Result<String, std::io::Error>>) -> Option<Seq<char>> {
    match read {
        Some(Ok(text)) => Some(text@),
        _ => None,
    }
}

/// Whether `s` is what a pool for `c` with secret `secret` is created with:
/// the configuration's target and size, the secret, and connections
/// recycled by the fast check (only testing that a connection is open).
pub open spec fn settings_for(s: PoolSettings, c: Config, secret: Option<Seq<char>>) -> bool {
    &&& s.dbname@ == c.name@
    &&& s.user@ == c.user@
    &&& s.host@ == c.host@
    &&& s.port == c.port
    &&& s.password.deep_view() == secret
    &&& s.max_size == c.pool_size as usize
    &&& s.recycling == deadpool_postgres::RecyclingMethod::Fast
}

/// Whether `config` names all three TLS files.
pub open spec fn names_tls(config: Config) -> bool {
    config.ca_cert_file is Some && config.client_cert_file is Some && config.client_key_file is Some
}

/// What building a handle from `config` gives: `Io` carrying the read's own
/// error exactly where reading the configured password file failed; `Ssl`
/// only where TLS files are named (loading them may fail); `Pool` only where
/// the database name is empty, and where no TLS is asked for, a handle
/// exactly where it is not empty. A handle's pool was created with the
/// configuration and the resolved secret (an empty user is left to the
/// process's `USER` variable), and over TLS exactly where all
/// three TLS files are named, with those files handed to OpenSSL.
pub open spec fn built_from(
    r: Result<Handle, CreateHandleError>,
    config: Config,
    password_file_text: Option<Result<String, std::io::Error>>,
    verify_hostname: bool,
) -> bool {
    let read = file_read(config, password_file_text);
    &&& (r is Err && r->Err_0 is Io) <==> (read matches Some(Err(_)))
    &&& (read matches Some(Err(e)) ==> r == Err::<Handle, CreateHandleError>(
        CreateHandleError::Io(e),
    ))
    &&& r is Err && r->Err_0 is Ssl ==> names_tls(config)
    &&& r is Err && r->Err_0 is Pool ==> config.name@.len() == 0
    &&& !(read matches Some(Err(_))) && !names_tls(config) ==> (r is Ok <==> config.name@.len() > 0)
    &&& r is Ok ==> {
        let h = r->Ok_0@;
        &&& settings_for(h.settings, config, config_secret(config, file_text(read)))
        &&& made_from(pg_pool_settings(h.pool), h.settings)
        &&& pg_pool_tls(h.pool) == h.tls
        &&& (h.tls is Some <==> names_tls(config))
        &&& (names_tls(config) ==> h.tls == Some(
            setup_for(
                crate::config::TlsFiles {
                    ca_cert_file: config.ca_cert_file->Some_0,
                    client_cert_file: config.client_cert_file->Some_0,
                    client_key_file: config.client_key_file->Some_0,
                },
                verify_hostname,
            ),
        ))
    }
}

/// What a handle holds: its pool, the settings the pool was created with,
/// and the TLS setup of its connector, if any.
pub struct HandleView {
    pub pool: PgPool,
    pub settings: PoolSettings,
    pub tls: Option<TlsSetup>,
}

/// A pool on one PostgreSQL database, with the TLS connector it was built
/// with, if any.
pub struct Handle {
    pool: PgPool,
    connector: Option<Connector>,
    settings: PoolSettings,
}

/// The setup of an optional connector.
pub open spec fn connector_setup(c: Option<Connector>) -> Option<TlsSetup> {
    match c {
        Some(c) => Some(c@),
        None => None,
    }
}

impl View for Handle {
    type V = HandleView;

    closed spec fn view(&self) -> HandleView {
        HandleView {
            pool: self.pool,
            settings: self.settings,
            tls: connector_setup(self.connector),
        }
    }
}

impl Handle {
    #[verifier::type_invariant]
    spec fn inv(&self) -> bool {
        &&& made_from(pg_pool_settings(self.pool), self.settings)
        &&& pg_pool_tls(self.pool) == connector_setup(self.connector)
    }

    /// Builds a handle from `config`, with TLS connections that accept a
    /// host name that the server's certificate does not name (the chain of
    /// trust is still checked). See [`Handle::with_hostname_check`].
    pub fn new(config: Config, password_file_text: Option<Result<String, std::io::Error>>) -> (r:
        Result<Handle, CreateHandleError>)
        requires
            names_tls(config) ==> tls_paths_usable(config),
            config.password_file is Some ==> password_file_text is Some,
        ensures
            built_from(r, config, password_file_text, false),
    {
        Handle::with_hostname_check(config, password_file_text, false)
    }

    /// Builds a handle from `config`. `password_file_text` is what reading
    /// the configured password file gave; it is used only where a password
    /// file is configured. Where TLS is used, `verify_hostname` says whether
    /// the server's certificate must name the host.
    pub fn with_hostname_check(
        config: Config,
        password_file_text: Option<Result<String, std::io::Error>>,
        verify_hostname: bool,
    ) -> (r: Result<Handle, CreateHandleError>)
        requires
            names_tls(config) ==> tls_paths_usable(config),
            config.password_file is Some ==> password_file_text is Some,
        ensures
            built_from(r, config, password_file_text, verify_hostname),
    {
        let text = if config.password_file.is_some() {
            match password_file_text {
                Some(Ok(text)) => Some(text),
                Some(Err(e)) => return Err(CreateHandleError::Io(e)),
                None => None,
            }
        } else {
            None
        };
        let files = config.tls_files();
        let password = resolve_secret(config.password, text);
        let settings = PoolSettings {
            dbname: config.name,
            user: config.user,
            host: config.host,
            port: config.port,
            password,
            max_size: config.pool_size as usize,
            recycling: deadpool_postgres::RecyclingMethod::Fast,
        };
        match files {
            Some(files) => {
                let connector = match build_connector(files, verify_hostname) {
                    Ok(c) => c,
                    Err(e) => return Err(CreateHandleError::Ssl(e)),
                };
                match create_tls_pool(&settings, &connector) {
                    Ok(pool) => Ok(Handle { pool, connector: Some(connector), settings }),
                    Err(e) => Err(CreateHandleError::Pool(e)),
                }
            },
            None => match create_plain_pool(&settings) {
                Ok(pool) => Ok(Handle { pool, connector: None, settings }),
                Err(e) => Err(CreateHandleError::Pool(e)),
            },
        }
    }

    /// The pool that clients are drawn from; it was created with this
    /// handle's settings and connector.
    pub fn pool(&self) -> (r: &PgPool)
        ensures
            *r == self@.pool,
            made_from(pg_pool_settings(*r), self@.settings),
            pg_pool_tls(*r) == self@.tls,
    {
        proof {
            use_type_invariant(self);
        }
        &self.pool
    }

    /// The settings the pool was created with.
    pub fn settings(&self) -> (r: &PoolSettings)
        ensures
            *r == self@.settings,
    {
        &self.settings
    }

    /// The TLS connector the pool was created with, if any.
    pub fn connector(&self) -> (r: Option<&Connector>)
        ensures
            r is Some <==> self@.tls is Some,
            r is Some ==> Some(r->Some_0@) == self@.tls,
    {
        match &self.connector {
            Some(c) => Some(c),
            None => None,
        }
    }

    /// Whether connections are made over TLS.
    pub fn has_tls(&self) -> (r: bool)
        ensures
            r == self@.tls is Some,
    {
        self.connector.is_some()
    }
}

} // verus!
