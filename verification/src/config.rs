//! The settings that the process is started with, and what follows from them
//! before the first request: where the server listens, how the mail
//! transport is set up, and the settings that every request is handled with.

use crate::decimal::push_i64;
use crate::orchestrator::model::Settings;
use crate::report::ReportAttachmentDimensions;
use vstd::prelude::*;
use vstd::string::*;

verus! {

/// All settings.
#[derive(Clone, Debug)]
pub struct Config {
    pub auth: Auth,
    pub http: Http,
    pub grpc: Grpc,
    pub common: Common,
    pub smtp: Smtp,
    pub chrome: Chrome,
    pub tokio_console: TokioConsole,
}

/// Where the runtime's console listens.
#[derive(Clone, Debug)]
pub struct TokioConsole {
    pub tokio_console_server_addr: String,
    pub tokio_console_server_port: u16,
    pub tokio_console_retention: u64,
}

/// The browser.
#[derive(Clone, Debug)]
pub struct Chrome {
    /// The executable; empty to look for one.
    pub chrome_path: String,
    /// Whether to look for an executable in the usual places before one is
    /// downloaded.
    pub chrome_check_default: bool,
    /// Where a downloaded browser and diagnostic screenshots go.
    pub chrome_download_path: String,
    pub chrome_no_sandbox: bool,
    pub chrome_with_head: bool,
    /// How many seconds the data of a dashboard may take to load.
    pub chrome_sleep_secs: u16,
    pub chrome_window_width: u32,
    pub chrome_window_height: u32,
    /// More arguments for the browser, separated by commas.
    pub chrome_additional_args: String,
    pub chrome_disable_default_args: bool,
}

/// The mail server.
#[derive(Clone, Debug)]
pub struct Smtp {
    pub smtp_host: String,
    pub smtp_port: u16,
    pub smtp_username: String,
    pub smtp_password: String,
    pub smtp_reply_to: String,
    pub smtp_from_email: String,
    /// `starttls`, `ssltls`, or anything else for none.
    pub smtp_encryption: String,
}

/// The account under which dashboards are opened.
#[derive(Clone, Debug)]
pub struct Auth {
    pub user_email: String,
    pub user_password: String,
}

/// Where the server listens.
#[derive(Clone, Debug)]
pub struct Http {
    pub port: u16,
    pub addr: String,
    pub ipv6_enabled: bool,
}

/// The gRPC endpoint of the platform.
#[derive(Clone, Debug)]
pub struct Grpc {
    pub port: u16,
    pub addr: String,
    pub internal_grpc_token: String,
    /// In megabytes.
    pub max_message_size: usize,
}

/// What the deployment is called and where its web application is.
#[derive(Clone, Debug)]
pub struct Common {
    pub app_name: String,
    pub o2_web_uri: String,
    pub local_mode: bool,
}

/// How the connection to the mail server is secured.
#[derive(Clone, Copy, Debug, PartialEq, Eq, Structural)]
pub enum TlsMode {
    /// Not at all.
    Plain,
    /// Upgraded after the greeting; refused where the server cannot.
    StartTls,
    /// Wrapped in TLS from the first byte.
    Wrapper,
}

/// How the mail transport is set up.
#[derive(Clone, Debug, PartialEq, Eq)]
pub struct TransportPlan {
    pub host: String,
    pub port: u16,
    pub tls: TlsMode,
    /// The user name and the password to log in with, if any.
    pub credentials: Option<(String, String)>,
}

/// How a value of `smtp_encryption` secures the connection.
pub open spec fn tls_mode(encryption: Seq<char>) -> TlsMode {
    if encryption == "starttls"@ {
        TlsMode::StartTls
    } else if encryption == "ssltls"@ {
        TlsMode::Wrapper
    } else {
        TlsMode::Plain
    }
}

/// The address that the server binds to: every address of IPv6, or the
/// configured address of IPv4, or every address of IPv4 where none is
/// configured; then a colon and the port.
pub open spec fn bind_text(http: Http) -> Seq<char> {
    if http.ipv6_enabled {
        "[::]:"@ + crate::decimal::decimal(http.port as int)
    } else if http.addr@.len() > 0 {
        http.addr@ + ":"@ + crate::decimal::decimal(http.port as int)
    } else {
        "0.0.0.0:"@ + crate::decimal::decimal(http.port as int)
    }
}

impl Auth {
    /// Whether there is an account to open dashboards with: the server does
    /// not start without a name and a password.
    pub fn is_complete(&self) -> (r: bool)
        ensures
            r == (self.user_email@.len() > 0 && self.user_password@.len() > 0),
    {
        !self.user_email.as_str().is_empty() && !self.user_password.as_str().is_empty()
    }
}

impl Http {
    /// The address that the server binds to.
    pub fn bind_address(&self) -> (r: String)
        ensures
            r@ == bind_text(*self),
    {
        let mut out = String::new();
        if self.ipv6_enabled {
            out.append("[::]:");
        } else if !self.addr.as_str().is_empty() {
            out.append(self.addr.as_str());
            out.append(":");
        } else {
            out.append("0.0.0.0:");
        }
        push_i64(&mut out, self.port as i64);
        out
    }
}

impl Smtp {
    /// How the connection to the mail server is secured.
    pub fn tls(&self) -> (r: TlsMode)
        ensures
            r == tls_mode(self.smtp_encryption@),
    {
        if self.smtp_encryption == "starttls".to_owned() {
            TlsMode::StartTls
        } else if self.smtp_encryption == "ssltls".to_owned() {
            TlsMode::Wrapper
        } else {
            TlsMode::Plain
        }
    }

    /// How the mail transport is set up: the host and the port as they are
    /// configured, the security that `smtp_encryption` names, and a login
    /// where both a user name and a password are configured.
    pub fn transport_plan(&self) -> (r: TransportPlan)
        ensures
            r.host@ == self.smtp_host@,
            r.port == self.smtp_port,
            r.tls == tls_mode(self.smtp_encryption@),
            self.smtp_username@.len() > 0 && self.smtp_password@.len() > 0 ==> r.credentials
                is Some && r.credentials->Some_0.0@ == self.smtp_username@
                && r.credentials->Some_0.1@ == self.smtp_password@,
            !(self.smtp_username@.len() > 0 && self.smtp_password@.len() > 0) ==> r.credentials
                is None,
    {
        let credentials = if !self.smtp_username.as_str().is_empty()
            && !self.smtp_password.as_str().is_empty() {
            Some((self.smtp_username.clone(), self.smtp_password.clone()))
        } else {
            None
        };
        TransportPlan {
            host: self.smtp_host.clone(),
            port: self.smtp_port,
            tls: self.tls(),
            credentials,
        }
    }
}

impl Chrome {
    /// The size in which a dashboard is captured that names none.
    pub fn default_dimensions(&self) -> (d: ReportAttachmentDimensions)
        ensures
            d.width == self.chrome_window_width,
            d.height == self.chrome_window_height,
    {
        ReportAttachmentDimensions::from_window(
            self.chrome_window_width,
            self.chrome_window_height,
        )
    }
}

impl Config {
    /// The settings that every request is handled with.
    pub fn settings(&self) -> (r: Settings)
        ensures
            r.user_email@ == self.auth.user_email@,
            r.user_password@ == self.auth.user_password@,
            r.data_timeout_secs == self.chrome.chrome_sleep_secs,
            r.from_email@ == self.smtp.smtp_from_email@,
            r.reply_to@ == self.smtp.smtp_reply_to@,
    {
        Settings {
            user_email: self.auth.user_email.clone(),
            user_password: self.auth.user_password.clone(),
            data_timeout_secs: self.chrome.chrome_sleep_secs,
            from_email: self.smtp.smtp_from_email.clone(),
            reply_to: self.smtp.smtp_reply_to.clone(),
        }
    }
}

} // verus!
