use vstd::prelude::*;
use crate::mailbox::is_valid_mailbox;
use crate::mailbox::parse_mailbox;
use crate::text::bool_token_spec;
use crate::text::lemma_bool_token_maybe;
use crate::text::lemma_bool_token_off;
use crate::text::parse_bool_token;
use crate::text::parse_u16;
use crate::text::parse_u16_spec;

verus! {

/// The raw environment readings that configuration is loaded from: for
/// each variable, the value it had, or `None` where it was not set. The
/// host process fills this in; loading itself touches nothing outside.
pub struct EnvValues {
    pub http_bind: Option<String>,
    pub smtp_host: Option<String>,
    pub smtp_port: Option<String>,
    pub smtp_username: Option<String>,
    pub smtp_password: Option<String>,
    pub smtp_from: Option<String>,
    pub smtp_tls: Option<String>,
}

/// A startup failure of configuration loading, naming the variable that
/// was absent or unreadable.
#[derive(Debug)]
pub enum ConfigError {
    MissingVariable(String),
    InvalidValue(String),
}

/// The immutable deployment settings: where to listen, which relay to
/// speak to and as whom, and whether the connection must be encrypted.
pub struct Config {
    pub http_bind: String,
    pub smtp_host: String,
    pub smtp_port: u16,
    pub smtp_username: String,
    pub smtp_password: String,
    pub smtp_from: lettre::message::Mailbox,
    pub smtp_tls: bool,
}

/// Whether `r` reports the variable `name` as missing.
pub open spec fn missing_err(r: Result<Config, ConfigError>, name: Seq<char>) -> bool {
    &&& r is Err
    &&& r->Err_0 is MissingVariable
    &&& r->Err_0->MissingVariable_0@ == name
}

/// Whether `r` reports the variable `name` as present but unreadable.
pub open spec fn invalid_err(r: Result<Config, ConfigError>, name: Seq<char>) -> bool {
    &&& r is Err
    &&& r->Err_0 is InvalidValue
    &&& r->Err_0->InvalidValue_0@ == name
}

/// The TLS policy a setting chooses: an unset variable and an
/// unrecognized token both fall back to enforcing TLS; a recognized
/// boolean token decides.
pub open spec fn tls_enabled_of(v: Option<String>) -> bool {
    match v {
        Some(s) => match bool_token_spec(s@) {
            Some(b) => b,
            None => true,
        },
        None => true,
    }
}

/// The SMTP port a setting chooses: an unset variable defaults to 587;
/// a set one must read as a decimal `u16`.
pub open spec fn port_of(v: Option<String>) -> Option<u16> {
    match v {
        Some(s) => parse_u16_spec(s@),
        None => Some(587u16),
    }
}

/// The HTTP bind address a setting chooses, defaulting to the local
/// loopback on port 8080.
pub open spec fn bind_of(v: Option<String>) -> Seq<char> {
    match v {
        Some(s) => s@,
        None => "127.0.0.1:8080"@,
    }
}

/// What loading must produce from the readings `input`: the first
/// failure in loading order wins — sender missing, then sender not a
/// mailbox, then a bad port, then each further required variable
/// missing — and otherwise a configuration whose every field is the
/// read or defaulted value.
pub open spec fn load_outcome(input: EnvValues, r: Result<Config, ConfigError>) -> bool {
    if input.smtp_from is None {
        missing_err(r, "SMTP_FROM"@)
    } else if !is_valid_mailbox(input.smtp_from->0@) {
        invalid_err(r, "SMTP_FROM"@)
    } else if port_of(input.smtp_port) is None {
        invalid_err(r, "SMTP_PORT"@)
    } else if input.smtp_host is None {
        missing_err(r, "SMTP_HOST"@)
    } else if input.smtp_username is None {
        missing_err(r, "SMTP_USERNAME"@)
    } else if input.smtp_password is None {
        missing_err(r, "SMTP_PASSWORD"@)
    } else {
        &&& r is Ok
        &&& r->Ok_0.http_bind@ == bind_of(input.http_bind)
        &&& r->Ok_0.smtp_host@ == input.smtp_host->0@
        &&& r->Ok_0.smtp_port == port_of(input.smtp_port)->0
        &&& r->Ok_0.smtp_username@ == input.smtp_username->0@
        &&& r->Ok_0.smtp_password@ == input.smtp_password->0@
        &&& r->Ok_0.smtp_tls == tls_enabled_of(input.smtp_tls)
    }
}

/// The TLS-policy law of configuration loading: whenever loading gets
/// past the sender, port and required-presence checks, it succeeds,
/// and the TLS flag follows the `SMTP_TLS` reading — absent defaults
/// to enabled, a recognized boolean token decides, and an unrecognized
/// token falls back to enabled rather than failing. In particular the
/// token `off` disables TLS and the word `maybe` leaves it enabled.
pub proof fn lemma_tls_policy(input: EnvValues, r: Result<Config, ConfigError>)
    requires
        load_outcome(input, r),
        input.smtp_from is Some,
        is_valid_mailbox(input.smtp_from->0@),
        port_of(input.smtp_port) is Some,
        input.smtp_host is Some,
        input.smtp_username is Some,
        input.smtp_password is Some,
    ensures
        r is Ok,
        match input.smtp_tls {
            None => r->Ok_0.smtp_tls == true,
            Some(t) => match bool_token_spec(t@) {
                Some(b) => r->Ok_0.smtp_tls == b,
                None => r->Ok_0.smtp_tls == true,
            },
        },
        input.smtp_tls matches Some(t) && t@ == "off"@ ==> r->Ok_0.smtp_tls == false,
        input.smtp_tls matches Some(t) && t@ == "maybe"@ ==> r->Ok_0.smtp_tls == true,
{
    lemma_bool_token_off();
    lemma_bool_token_maybe();
}

/// Loads the configuration from the environment readings, validating
/// required presence and value shapes; `load_outcome` states the result
/// exactly. The sender mailbox itself is parsed by the address grammar
/// of the mail library.
pub fn load_config(input: EnvValues) -> (r: Result<Config, ConfigError>)
    ensures
        load_outcome(input, r),
{
    let smtp_from = match input.smtp_from {
        None => {
            return Err(ConfigError::MissingVariable("SMTP_FROM".to_owned()));
        },
        Some(f) => match parse_mailbox(f.as_str()) {
            None => {
                return Err(ConfigError::InvalidValue("SMTP_FROM".to_owned()));
            },
            Some(mailbox) => mailbox,
        },
    };
    let smtp_port: u16 = match input.smtp_port {
        None => 587,
        Some(p) => match parse_u16(p.as_str()) {
            None => {
                return Err(ConfigError::InvalidValue("SMTP_PORT".to_owned()));
            },
            Some(v) => v,
        },
    };
    let smtp_host = match input.smtp_host {
        None => {
            return Err(ConfigError::MissingVariable("SMTP_HOST".to_owned()));
        },
        Some(h) => h,
    };
    let smtp_username = match input.smtp_username {
        None => {
            return Err(ConfigError::MissingVariable("SMTP_USERNAME".to_owned()));
        },
        Some(u) => u,
    };
    let smtp_password = match input.smtp_password {
        None => {
            return Err(ConfigError::MissingVariable("SMTP_PASSWORD".to_owned()));
        },
        Some(p) => p,
    };
    let http_bind = match input.http_bind {
        None => "127.0.0.1:8080".to_owned(),
        Some(b) => b,
    };
    let smtp_tls = match input.smtp_tls {
        None => true,
        Some(t) => match parse_bool_token(t.as_str()) {
            Some(b) => b,
            None => true,
        },
    };
    Ok(
        Config {
            http_bind,
            smtp_host,
            smtp_port,
            smtp_username,
            smtp_password,
            smtp_from,
            smtp_tls,
        },
    )
}

} // verus!
