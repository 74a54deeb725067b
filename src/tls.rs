//! Building the TLS connector of a PostgreSQL handle from a CA file, a client
//! certificate and a client key.
use vstd::prelude::*;

use crate::config::{free_of_nul, TlsFiles};

verus! {

#[verifier::external_type_specification]
#[verifier::external_body]
pub struct ExErrorStack(openssl::error::ErrorStack);

#[verifier::external_type_specification]
#[verifier::external_body]
pub struct ExSslConnectorBuilder(openssl::ssl::SslConnectorBuilder);

#[verifier::external_type_specification]
#[verifier::external_body]
pub struct ExSslConnector(openssl::ssl::SslConnector);

#[verifier::external_type_specification]
#[verifier::external_body]
pub struct ExConnectConfiguration(openssl::ssl::ConnectConfiguration);

#[verifier::external_type_specification]
#[verifier::external_body]
pub struct ExMakeTlsConnector(postgres_openssl::MakeTlsConnector);

/// Whether a connection's TLS configuration checks that the server's
/// certificate names the host.
pub uninterp spec fn hostname_checked(config: openssl::ssl::ConnectConfiguration) -> bool;

pub assume_specification[ openssl::ssl::ConnectConfiguration::set_verify_hostname ](
    config: &mut openssl::ssl::ConnectConfiguration,
    verify_hostname: bool,
)
    ensures
        hostname_checked(*final(config)) == verify_hostname,
;

/// What has been handed to OpenSSL for a connector: the file that each
/// loader was given, and whether host names are checked.
pub struct TlsSetup {
    pub ca_file: Option<Seq<char>>,
    pub cert_file: Option<Seq<char>>,
    pub key_file: Option<Seq<char>>,
    pub verify_hostname: bool,
}

/// The setup of a fresh context: no file loaded, host names checked.
pub open spec fn fresh_setup() -> TlsSetup {
    TlsSetup { ca_file: None, cert_file: None, key_file: None, verify_hostname: true }
}

/// A TLS context being built, with what has been handed to it so far.
struct PendingTls {
    inner: openssl::ssl::SslConnectorBuilder,
    setup: Ghost<TlsSetup>,
}

/// A finished TLS context, with what was handed to it.
struct ReadyTls {
    inner: openssl::ssl::SslConnector,
    setup: Ghost<TlsSetup>,
}

/// Relies on `SslConnector::builder` with the general TLS method: a fresh
/// client context, or the error that OpenSSL gave.
#[verifier::external_body]
fn connector_builder() -> (r: Result<PendingTls, openssl::error::ErrorStack>)
    ensures
        r is Ok ==> r->Ok_0.setup@ == fresh_setup(),
{
    let r = openssl::ssl::SslConnector::builder(openssl::ssl::SslMethod::tls());
    r.map(|inner| PendingTls { inner, setup: Ghost(fresh_setup()) })
}

/// Relies on `SslContextBuilder::set_ca_file`, which reads the CA file; it
/// panics on a path with a NUL character.
#[verifier::external_body]
fn load_ca_file(builder: &mut PendingTls, path: &str) -> (r: Result<
    (),
    openssl::error::ErrorStack,
>)
    requires
        free_of_nul(path@),
    ensures
        final(builder).setup@ == (TlsSetup { ca_file: Some(path@), ..old(builder).setup@ }),
{
    builder.inner.set_ca_file(path)
}

/// Relies on `SslContextBuilder::set_certificate_file` with a PEM file; it
/// panics on a path with a NUL character.
#[verifier::external_body]
fn load_certificate_file(builder: &mut PendingTls, path: &str) -> (r: Result<
    (),
    openssl::error::ErrorStack,
>)
    requires
        free_of_nul(path@),
    ensures
        final(builder).setup@ == (TlsSetup { cert_file: Some(path@), ..old(builder).setup@ }),
{
    builder.inner.set_certificate_file(path, openssl::ssl::SslFiletype::PEM)
}

/// Relies on `SslContextBuilder::set_private_key_file` with a PEM file; it
/// panics on a path with a NUL character.
#[verifier::external_body]
fn load_private_key_file(builder: &mut PendingTls, path: &str) -> (r: Result<
    (),
    openssl::error::ErrorStack,
>)
    requires
        free_of_nul(path@),
    ensures
        final(builder).setup@ == (TlsSetup { key_file: Some(path@), ..old(builder).setup@ }),
{
    builder.inner.set_private_key_file(path, openssl::ssl::SslFiletype::PEM)
}

/// Relies on `SslConnectorBuilder::build`, which finishes the context.
#[verifier::external_body]
fn finish_builder(builder: PendingTls) -> (r: ReadyTls)
    ensures
        r.setup@ == builder.setup@,
{
    ReadyTls { inner: builder.inner.build(), setup: builder.setup }
}

/// Relies on `MakeTlsConnector::new`, which makes the context usable by the
/// PostgreSQL driver and leaves each connection's configuration as it is.
#[verifier::external_body]
fn make_tls_connector(ready: ReadyTls) -> (r: Connector)
    ensures
        r@ == ready.setup@,
{
    Connector { inner: postgres_openssl::MakeTlsConnector::new(ready.inner), setup: ready.setup }
}

/// Per connection: keeps checking the server's certificate chain but stops
/// comparing the certificate's subject with the host name.
fn skip_hostname_check(config: &mut openssl::ssl::ConnectConfiguration, _domain: &str) -> (r:
    Result<(), openssl::error::ErrorStack>)
    ensures
        r is Ok,
        !hostname_checked(*final(config)),
{
    config.set_verify_hostname(false);
    Ok(())
}

/// Relies on `MakeTlsConnector::set_callback`, which runs the given function
/// on the configuration of every connection before it is made; the function
/// given is `skip_hostname_check`.
#[verifier::external_body]
fn relax_hostname_check(connector: &mut Connector)
    ensures
        final(connector)@ == (TlsSetup { verify_hostname: false, ..old(connector)@ }),
{
    connector.inner.set_callback(|config, domain| skip_hostname_check(config, domain))
}

/// A TLS connector for the PostgreSQL driver, with what was handed to
/// OpenSSL to build it.
pub struct Connector {
    pub(crate) inner: postgres_openssl::MakeTlsConnector,
    setup: Ghost<TlsSetup>,
}

impl View for Connector {
    type V = TlsSetup;

    closed spec fn view(&self) -> TlsSetup {
        self.setup@
    }
}

impl Connector {
    /// A rendering for debugging that shows none of the key material.
    pub fn debug_string(&self) -> (r: String)
        ensures
            r@ == "[MakeTlsConnector]"@,
    {
        String::from_str("[MakeTlsConnector]")
    }
}

/// The setup of a connector built from `files`.
pub open spec fn setup_for(files: TlsFiles, verify_hostname: bool) -> TlsSetup {
    TlsSetup {
        ca_file: Some(files.ca_cert_file@),
        cert_file: Some(files.client_cert_file@),
        key_file: Some(files.client_key_file@),
        verify_hostname,
    }
}

/// Builds a connector that trusts the CA file and authenticates with the
/// client certificate and key. Where `verify_hostname` is false, the chain of
/// trust is still checked but a host name that the server's certificate does
/// not name is accepted (for connections by address, or through a balancer).
/// A file that cannot be loaded gives OpenSSL's error.
pub fn build_connector(files: TlsFiles, verify_hostname: bool) -> (r: Result<
    Connector,
    openssl::error::ErrorStack,
>)
    requires
        free_of_nul(files.ca_cert_file@),
        free_of_nul(files.client_cert_file@),
        free_of_nul(files.client_key_file@),
    ensures
        r is Ok ==> r->Ok_0@ == setup_for(files, verify_hostname),
{
    let mut builder = match connector_builder() {
        Ok(b) => b,
        Err(e) => return Err(e),
    };
    if let Err(e) = load_ca_file(&mut builder, files.ca_cert_file.as_str()) {
        return Err(e);
    }
    if let Err(e) = load_certificate_file(&mut builder, files.client_cert_file.as_str()) {
        return Err(e);
    }
    if let Err(e) = load_private_key_file(&mut builder, files.client_key_file.as_str()) {
        return Err(e);
    }
    let mut connector = make_tls_connector(finish_builder(builder));
    if !verify_hostname {
        relax_hostname_check(&mut connector);
    }
    Ok(connector)
}

} // verus!
