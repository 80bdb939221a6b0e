//! The command line: its commands and options, and the text and requests
//! built from them.

use vstd::prelude::*;
use vstd::string::StringExecFns;
use crate::text::{trim_string, trimmed};


pub mod auth;
pub mod output;
pub mod webhooks;


verus! {

/// How non-interactive commands print their results.
#[derive(Clone, Copy, Debug, PartialEq, Eq, Structural)]
pub enum OutputFormat {
    /// Aligned, human-readable columns.
    Table,
    /// Pretty-printed JSON.
    Json,
}

/// The parsed command line.
#[derive(Debug)]
pub struct Cli {
    /// Which API environment to use (`sandbox` unless set).
    pub profile: String,
    /// Print every HTTP exchange.
    pub debug: bool,
    pub output: OutputFormat,
    pub command: Option<Command>,
}

/// The top-level commands.
#[derive(Debug)]
pub enum Command {
    /// The interactive dashboard.
    Tui,
    Auth(AuthCommand),
    /// Poll the delivery logs and forward each new successful delivery to a
    /// local URL.
    Listen { forward_to: String },
    Webhooks(WebhooksCommand),
    /// Self-update from the release page.
    Update,
}

/// Credential commands.
#[derive(Clone, Copy, Debug, PartialEq, Eq, Structural)]
pub enum AuthCommand {
    /// Store client credentials in the OS keychain.
    Login,
    /// Remove the stored credentials of the profile.
    Logout,
    /// Print a bearer token (`token` is kept as an alias).
    Keys,
    /// Report the profile and whether its credentials are accepted.
    Status,
}

/// The webhook API commands.
#[derive(Debug)]
pub enum WebhooksCommand {
    Endpoints(EndpointsCommand),
    EventTypes(EventTypesCommand),
    Deliveries(DeliveriesCommand),
}

/// Endpoint commands.
#[derive(Debug)]
pub enum EndpointsCommand {
    List,
    Get { id: String },
    /// Create an endpoint; its signing secret is shown exactly once.
    Create { url: String, events: Vec<String>, name: Option<String> },
    /// Change an endpoint; fields not given keep their current values.
    Update {
        id: String,
        url: Option<String>,
        events: Option<Vec<String>>,
        name: Option<String>,
        status: Option<EndpointStatusArg>,
    },
    /// Delete an endpoint; without `yes` the user must confirm.
    Delete { id: String, yes: bool },
    Ping { id: String },
}

/// Endpoint status as given on the command line.
#[derive(Clone, Copy, Debug, PartialEq, Eq, Structural)]
pub enum EndpointStatusArg {
    Active,
    Inactive,
}

/// Event-type commands.
#[derive(Clone, Copy, Debug, PartialEq, Eq, Structural)]
pub enum EventTypesCommand {
    List,
}

/// Delivery commands.
#[derive(Debug)]
pub enum DeliveriesCommand {
    List { endpoint_id: Option<String>, status: Option<DeliveryStatusArg>, limit: u32 },
    Get { id: String },
    Retry { id: String },
}

/// Delivery status as given on the command line.
#[derive(Clone, Copy, Debug, PartialEq, Eq, Structural)]
pub enum DeliveryStatusArg {
    Success,
    Failed,
    /// A retry scheduled but not yet attempted.
    Pending,
}


/// Whether `cmd` skips the startup update check: `update` and the `auth`
/// commands are short, focused tasks.
pub fn skips_update_check(cmd: &Command) -> (r: bool)
    ensures
        r == (cmd is Update || cmd is Auth),
{
    match cmd {
        Command::Update => true,
        Command::Auth(_) => true,
        _ => false,
    }
}

/// Whether a failed command prints the JSON error envelope on stdout (and
/// exits with status 1): only under `--output json`, never in the
/// dashboard.
pub fn reports_error_as_json(failed: bool, output: OutputFormat, is_tui: bool) -> (r: bool)
    ensures
        r == (failed && output == OutputFormat::Json && !is_tui),
{
    failed && output == OutputFormat::Json && !is_tui
}


/// Where log records go.
#[derive(Clone, Copy, Debug, PartialEq, Eq, Structural)]
pub enum LogTarget {
    /// `flute-webhook.log` in the settings directory (the dashboard owns
    /// the terminal).
    File,
    Stdout,
    Stderr,
}

/// Where log records go: to a file for the dashboard, to stdout for
/// `--debug` commands, else to stderr.
pub fn log_target(is_tui: bool, debug: bool) -> (r: LogTarget)
    ensures
        r == (if is_tui { LogTarget::File } else if debug { LogTarget::Stdout } else { LogTarget::Stderr }),
{
    if is_tui {
        LogTarget::File
    } else if debug {
        LogTarget::Stdout
    } else {
        LogTarget::Stderr
    }
}

/// The log filter used when `RUST_LOG` is not set.
pub fn default_log_filter(debug: bool) -> (r: &'static str)
    ensures
        r@ == (if debug { "debug,flute_webhook=debug,reqwest=debug,hyper=info"@ } else { "warn,flute_webhook=info"@ }),
{
    if debug {
        "debug,flute_webhook=debug,reqwest=debug,hyper=info"
    } else {
        "warn,flute_webhook=info"
    }
}

/// Client credentials typed at `auth login`: both trimmed, and refused
/// when either is blank.
pub fn login_credentials(id: &str, secret: &str) -> (r: Result<(String, String), String>)
    ensures
        (trimmed(id@).len() == 0 || trimmed(secret@).len() == 0) ==> (r matches Err(m) && m@
            == "client_id and client_secret are both required"@),
        (trimmed(id@).len() > 0 && trimmed(secret@).len() > 0) ==> (r matches Ok(p) && p.0@
            == trimmed(id@) && p.1@ == trimmed(secret@)),
{
    let i = trim_string(id);
    let s = trim_string(secret);
    if i.as_str().is_empty() || s.as_str().is_empty() {
        Err(String::from_str("client_id and client_secret are both required"))
    } else {
        Ok((i, s))
    }
}

} // verus!
