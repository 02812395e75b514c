use vstd::prelude::*;
use crate::config::Config;

verus! {

/// The shared mail transport: an opaque handle on lettre's configured
/// SMTP client, bound for its whole life to one host, port, credential
/// pair and TLS policy. The client is internally thread-safe, so one
/// handle serves all concurrent requests. The handle is opaque to the
/// proofs; the host process reaches the client through `client` to
/// perform deliveries.
#[verifier::external_body]
pub struct MailTransport {
    pub client: lettre::AsyncSmtpTransport<lettre::Tokio1Executor>,
}

/// The one failure of transport construction: the host could not be
/// turned into a TLS-capable relay configuration.
#[derive(Debug)]
pub enum TransportError {
    TlsSetup,
}

/// Whether the TLS parameters can be set up for `host`: the outcome of
/// `AsyncSmtpTransport::relay`, which assembles an in-memory TLS
/// configuration from the host string alone — no lookup, no network.
pub uninterp spec fn tls_setup_ok(host: Seq<char>) -> bool;

/// Relies on `AsyncSmtpTransport::<Tokio1Executor>::relay` and on
/// `AsyncSmtpTransportBuilder::{port, credentials, build}`: builds a
/// transport that enforces an encrypted connection to `host:port` with
/// the given credentials; `relay` fails exactly when the TLS parameters
/// cannot be set up for `host` — a function of the host string alone,
/// named `tls_setup_ok` — and that failure comes back as `None`.
/// Must run inside the async executor's runtime: `build` spawns the
/// connection pool's upkeep task on it.
#[verifier::external_body]
fn build_tls_transport(
    host: &str,
    port: u16,
    username: String,
    password: String,
) -> (r: Option<MailTransport>)
    ensures
        r is Some <==> tls_setup_ok(host@),
{
    let credentials = lettre::transport::smtp::authentication::Credentials::new(username, password);
    match lettre::AsyncSmtpTransport::<lettre::Tokio1Executor>::relay(host) {
        Ok(builder) => Some(
            MailTransport { client: builder.port(port).credentials(credentials).build() },
        ),
        Err(_) => None,
    }
}

/// Relies on `AsyncSmtpTransport::<Tokio1Executor>::builder_dangerous`
/// and on `AsyncSmtpTransportBuilder::{port, credentials, build}`:
/// builds a transport to `host:port` that does not enforce TLS; this
/// construction has no failure path. Must run inside the async
/// executor's runtime: `build` spawns the connection pool's upkeep
/// task on it.
#[verifier::external_body]
fn build_plain_transport(
    host: &str,
    port: u16,
    username: String,
    password: String,
) -> MailTransport {
    let credentials = lettre::transport::smtp::authentication::Credentials::new(username, password);
    MailTransport {
        client: lettre::AsyncSmtpTransport::<lettre::Tokio1Executor>::builder_dangerous(host)
            .port(port)
            .credentials(credentials)
            .build(),
    }
}

/// Builds the shared SMTP transport that the configuration calls for:
/// one that enforces an encrypted connection when `smtp_tls` is set,
/// otherwise one for trusted relays that are spoken to in the clear.
/// Construction without TLS always succeeds; with TLS it succeeds
/// exactly when the TLS parameters can be set up for the configured
/// host, and the one failure is `TlsSetup`. Construction is local — no
/// network round-trip — but must run inside the async executor's
/// runtime, which the connection pool's upkeep task is spawned on.
pub fn build_mailer(cfg: &Config) -> (r: Result<MailTransport, TransportError>)
    ensures
        !cfg.smtp_tls ==> r is Ok,
        cfg.smtp_tls ==> ((r is Ok) <==> tls_setup_ok(cfg.smtp_host@)),
        r is Err ==> cfg.smtp_tls && r->Err_0 is TlsSetup,
{
    if cfg.smtp_tls {
        match build_tls_transport(
            cfg.smtp_host.as_str(),
            cfg.smtp_port,
            cfg.smtp_username.clone(),
            cfg.smtp_password.clone(),
        ) {
            Some(t) => Ok(t),
            None => Err(TransportError::TlsSetup),
        }
    } else {
        Ok(
            build_plain_transport(
                cfg.smtp_host.as_str(),
                cfg.smtp_port,
                cfg.smtp_username.clone(),
                cfg.smtp_password.clone(),
            ),
        )
    }
}

} // verus!
