//! Mail transport settings: the IMAP and SMTP client configurations. The
//! connections themselves are the host's.
use vstd::prelude::*;

verus! {

/// A message in a mailbox listing.
#[derive(Debug)]
pub struct EmailSummary {
    pub id: String,
    pub from: String,
    pub subject: String,
    pub date: Option<String>,
}

/// TLS mode of an IMAP connection.
#[derive(Debug, Clone, Copy, PartialEq, Eq, Structural)]
pub enum ImapTlsMode {
    /// TLS from the start (port 993).
    Implicit,
    /// Plain connect, then STARTTLS (port 143).
    StartTls,
}

impl Default for ImapTlsMode {
    fn default() -> (m: Self)
        ensures
            m == ImapTlsMode::Implicit,
    {
        ImapTlsMode::Implicit
    }
}

/// Settings of an IMAP client.
#[derive(Debug)]
pub struct ImapClient {
    host: String,
    port: u16,
    user: String,
    password: String,
    tls_mode: ImapTlsMode,
}

impl ImapClient {
    /// A client with implicit TLS.
    pub fn new(host: &str, port: u16, user: &str, password: &str) -> (c: Self)
        ensures
            c.host()@ == host@,
            c.port() == port,
            c.user()@ == user@,
            c.password()@ == password@,
            c.tls_mode_spec() == ImapTlsMode::Implicit,
    {
        ImapClient {
            host: host.to_owned(),
            port,
            user: user.to_owned(),
            password: password.to_owned(),
            tls_mode: ImapTlsMode::default(),
        }
    }

    /// The same client with another TLS mode.
    pub fn with_tls_mode(self, mode: ImapTlsMode) -> (c: Self)
        ensures
            c.tls_mode_spec() == mode,
            c.host() == self.host(),
            c.port() == self.port(),
            c.user() == self.user(),
            c.password() == self.password(),
    {
        ImapClient { tls_mode: mode, ..self }
    }

    /// The TLS mode, by spec.
    pub closed spec fn tls_mode_spec(&self) -> ImapTlsMode {
        self.tls_mode
    }

    /// The TLS mode.
    pub fn tls_mode(&self) -> (m: ImapTlsMode)
        ensures
            m == self.tls_mode_spec(),
    {
        self.tls_mode
    }

    /// The server host.
    #[verifier::when_used_as_spec(host_spec)]
    pub fn host(&self) -> (h: &String)
        ensures
            h == self.host_spec(),
    {
        &self.host
    }

    /// The server host, by spec.
    pub closed spec fn host_spec(&self) -> &String {
        &self.host
    }

    /// The server port.
    #[verifier::when_used_as_spec(port_spec)]
    pub fn port(&self) -> (p: u16)
        ensures
            p == self.port_spec(),
    {
        self.port
    }

    /// The server port, by spec.
    pub closed spec fn port_spec(&self) -> u16 {
        self.port
    }

    /// The account.
    #[verifier::when_used_as_spec(user_spec)]
    pub fn user(&self) -> (u: &String)
        ensures
            u == self.user_spec(),
    {
        &self.user
    }

    /// The account, by spec.
    pub closed spec fn user_spec(&self) -> &String {
        &self.user
    }

    /// The password.
    #[verifier::when_used_as_spec(password_spec)]
    pub fn password(&self) -> (p: &String)
        ensures
            p == self.password_spec(),
    {
        &self.password
    }

    /// The password, by spec.
    pub closed spec fn password_spec(&self) -> &String {
        &self.password
    }
}

/// TLS mode of an SMTP connection.
#[derive(Debug, Clone, Copy, PartialEq, Eq, Structural)]
pub enum SmtpTlsMode {
    /// Plain connect, then STARTTLS (port 587).
    StartTls,
    /// TLS from the start (port 465).
    Implicit,
}

impl Default for SmtpTlsMode {
    fn default() -> (m: Self)
        ensures
            m == SmtpTlsMode::StartTls,
    {
        SmtpTlsMode::StartTls
    }
}

/// Settings of an SMTP client.
#[derive(Debug)]
pub struct SmtpClient {
    host: String,
    port: u16,
    user: String,
    password: String,
    tls_mode: SmtpTlsMode,
}

impl SmtpClient {
    /// A client with STARTTLS.
    pub fn new(host: &str, port: u16, user: &str, password: &str) -> (c: Self)
        ensures
            c.host()@ == host@,
            c.port() == port,
            c.user()@ == user@,
            c.password()@ == password@,
            c.tls_mode_spec() == SmtpTlsMode::StartTls,
    {
        SmtpClient {
            host: host.to_owned(),
            port,
            user: user.to_owned(),
            password: password.to_owned(),
            tls_mode: SmtpTlsMode::default(),
        }
    }

    /// The same client with another TLS mode.
    pub fn with_tls_mode(self, mode: SmtpTlsMode) -> (c: Self)
        ensures
            c.tls_mode_spec() == mode,
            c.host() == self.host(),
            c.port() == self.port(),
            c.user() == self.user(),
            c.password() == self.password(),
    {
        SmtpClient { tls_mode: mode, ..self }
    }

    /// The TLS mode, by spec.
    pub closed spec fn tls_mode_spec(&self) -> SmtpTlsMode {
        self.tls_mode
    }

    /// The TLS mode.
    pub fn tls_mode(&self) -> (m: SmtpTlsMode)
        ensures
            m == self.tls_mode_spec(),
    {
        self.tls_mode
    }

    /// The server host.
    #[verifier::when_used_as_spec(host_spec)]
    pub fn host(&self) -> (h: &String)
        ensures
            h == self.host_spec(),
    {
        &self.host
    }

    /// The server host, by spec.
    pub closed spec fn host_spec(&self) -> &String {
        &self.host
    }

    /// The server port.
    #[verifier::when_used_as_spec(port_spec)]
    pub fn port(&self) -> (p: u16)
        ensures
            p == self.port_spec(),
    {
        self.port
    }

    /// The server port, by spec.
    pub closed spec fn port_spec(&self) -> u16 {
        self.port
    }

    /// The account.
    #[verifier::when_used_as_spec(user_spec)]
    pub fn user(&self) -> (u: &String)
        ensures
            u == self.user_spec(),
    {
        &self.user
    }

    /// The account, by spec.
    pub closed spec fn user_spec(&self) -> &String {
        &self.user
    }

    /// The password.
    #[verifier::when_used_as_spec(password_spec)]
    pub fn password(&self) -> (p: &String)
        ensures
            p == self.password_spec(),
    {
        &self.password
    }

    /// The password, by spec.
    pub closed spec fn password_spec(&self) -> &String {
        &self.password
    }
}

} // verus!
