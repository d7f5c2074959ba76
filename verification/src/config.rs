use vstd::prelude::*;

use crate::text::{eq_ignoring_ascii_case, parse_u16, parsed_u16};

verus! {

/// Settings of the pool for transactional statements.
#[derive(Debug, Clone)]
pub struct Transactions {
    pub url: String,
    pub connections: u32,
}

/// Settings of the relational store.
#[derive(Debug, Clone)]
pub struct Database {
    pub url: String,
    pub connections: u32,
    pub transactions: Transactions,
}

/// The secret that session tokens are signed with.
#[derive(Debug, Clone)]
pub struct Jwt {
    pub secret: String,
}

/// Settings of the SMS gateway.
#[derive(Debug, Clone)]
pub struct Sms {
    pub enable: bool,
    pub account: String,
    pub token: String,
    pub from: String,
}

/// Settings of the SMTP relay.
#[derive(Debug, Clone)]
pub struct Smtp {
    pub server: String,
    pub username: String,
    pub password: String,
    pub port: String,
    pub encryption: String,
    pub from: String,
}

/// The configuration of one process. It is built once at startup and handed
/// by reference to whatever needs it.
#[derive(Debug, Clone)]
pub struct Config {
    pub env: String,
    pub host: String,
    pub domain: String,
    pub port: u16,
    pub database: Database,
    pub jwt: Jwt,
    pub cors: String,
    pub sms: Sms,
    pub smtp: Smtp,
}

/// How the connection to the SMTP relay is secured.
#[derive(Debug, Clone, Copy, PartialEq, Eq, Structural)]
pub enum SmtpEncryption {
    /// A plain connection that is upgraded by STARTTLS.
    StartTls,
    /// TLS from the first byte.
    Tls,
    /// No encryption.
    Plain,
}

/// The port of the relay where the configured one cannot be read.
pub const DEFAULT_SMTP_PORT: u16 = 1025;

/// The mode that a configured name selects: `starttls` or `tls`, in any
/// mix of upper and lower case; anything else selects none.
pub open spec fn smtp_encryption_of(name: Seq<char>) -> SmtpEncryption {
    if eq_ignoring_ascii_case(name, "starttls"@) {
        SmtpEncryption::StartTls
    } else if eq_ignoring_ascii_case(name, "tls"@) {
        SmtpEncryption::Tls
    } else {
        SmtpEncryption::Plain
    }
}

/// The port that a configured text selects: the number it denotes, or the
/// default where it denotes none.
pub open spec fn smtp_port_of(text: Seq<char>) -> u16 {
    match parsed_u16(text) {
        Some(port) => port,
        None => DEFAULT_SMTP_PORT,
    }
}

impl Smtp {
    pub fn encryption_mode(&self) -> (mode: SmtpEncryption)
        ensures
            mode == smtp_encryption_of(self.encryption@),
    {
        if self.encryption.as_str().eq_ignore_ascii_case("starttls") {
            SmtpEncryption::StartTls
        } else if self.encryption.as_str().eq_ignore_ascii_case("tls") {
            SmtpEncryption::Tls
        } else {
            SmtpEncryption::Plain
        }
    }

    pub fn port_number(&self) -> (port: u16)
        ensures
            port == smtp_port_of(self.port@),
    {
        match parse_u16(self.port.as_str()) {
            Some(port) => port,
            None => DEFAULT_SMTP_PORT,
        }
    }
}

/// Whether an environment name selects production mode: it reads
/// `production`, in any mix of upper and lower case.
pub open spec fn is_production_env(env: Seq<char>) -> bool {
    eq_ignoring_ascii_case(env, "production"@)
}

impl Jwt {
    /// Whether there is a secret to sign with. A process without one must
    /// not start.
    pub fn is_configured(&self) -> (configured: bool)
        ensures
            configured == (self.secret@.len() > 0),
    {
        !self.secret.as_str().is_empty()
    }
}

impl Config {
    /// Whether the process runs in production mode.
    pub fn is_production(&self) -> (production: bool)
        ensures
            production == is_production_env(self.env@),
    {
        self.env.as_str().eq_ignore_ascii_case("production")
    }
}

} // verus!
