//! Construction of the transport-security negotiator.
//!
//! The negotiator is built once at startup from the identity credential (a
//! PKCS#12 archive and its passphrase) and is then shared read-only by every
//! worker. Only its construction is logic of this library; wrapping an
//! individual accepted stream is socket I/O and stays with the process
//! around the library, which calls the negotiator directly.

use vstd::prelude::*;
use crate::errors::ServerError;

verus! {

/// std's I/O error type, opaque here; carried inside `ServerError` so that
/// diagnostics keep the cause of a failure.
#[verifier::external_type_specification]
#[verifier::external_body]
pub struct ExIoError(std::io::Error);

/// native_tls's error type, opaque here; carried inside `ServerError` so
/// that diagnostics keep the cause of a failure.
#[verifier::external_type_specification]
#[verifier::external_body]
pub struct ExTlsError(native_tls::Error);

/// native_tls's identity credential: the parsed certificate chain and
/// private key the server authenticates with.
#[verifier::external_type_specification]
#[verifier::external_body]
pub struct ExIdentity(native_tls::Identity);

/// native_tls's server-side negotiator: wraps an accepted raw stream with an
/// authenticated, encrypted stream.
#[verifier::external_type_specification]
#[verifier::external_body]
pub struct ExTlsAcceptor(native_tls::TlsAcceptor);

/// Relies on native_tls::Identity::from_pkcs12: parses a PKCS#12 archive and
/// its passphrase into an identity credential, or fails. Which archives are
/// accepted depends on the platform's TLS backend, so nothing is stated
/// beyond the shape of the call.
pub assume_specification[ native_tls::Identity::from_pkcs12 ](
    der: &[u8],
    password: &str,
) -> Result<native_tls::Identity, native_tls::Error>;

/// Relies on native_tls::TlsAcceptor::new: builds the negotiator, with
/// default settings, from an identity credential, or fails. Whether it fails
/// depends on the platform's TLS backend, so nothing is stated beyond the
/// shape of the call.
pub assume_specification[ native_tls::TlsAcceptor::new ](
    identity: native_tls::Identity,
) -> Result<native_tls::TlsAcceptor, native_tls::Error>;

/// Builds the security negotiator from the archive bytes and passphrase read
/// at startup. On failure the error says which of the two construction steps
/// failed, and carries the underlying cause; both failures are fatal at
/// startup.
pub fn build_negotiator(pkcs12_der: &[u8], passphrase: &str) -> (r: Result<
    native_tls::TlsAcceptor,
    ServerError,
>)
    ensures
        r matches Err(e) ==> {
            &&& e is CreateTLSIdentity || e is CreateTLSAcceptor
            &&& e.spec_is_fatal_at_startup()
        },
{
    let identity = match native_tls::Identity::from_pkcs12(pkcs12_der, passphrase) {
        Ok(identity) => identity,
        Err(cause) => {
            return Err(ServerError::CreateTLSIdentity(cause));
        },
    };
    match native_tls::TlsAcceptor::new(identity) {
        Ok(acceptor) => Ok(acceptor),
        Err(cause) => Err(ServerError::CreateTLSAcceptor(cause)),
    }
}

} // verus!
