//! How the Hydra services reach the queue-runner: connection options and
//! the decisions made from them.

use vstd::prelude::*;
use vstd::string::StringExecFns;

use crate::text::{strip_prefix, strip_prefix_of, trim, trimmed};

verus! {

/// Connection options shared by the Hydra services. Paths are file paths.
#[derive(Debug)]
pub struct GrpcOpts {
    pub gateway_endpoint: String,
    pub authorization_file: Option<String>,
    pub mtls: bool,
    pub server_root_ca_cert_path: Option<String>,
    pub client_cert_path: Option<String>,
    pub client_key_path: Option<String>,
    pub domain_name: Option<String>,
}

/// Command line of the evaluator: connection options and a config file.
#[derive(Debug)]
pub struct Cli {
    pub grpc: GrpcOpts,
    pub config_path: String,
}

/// Command line of the build tracker: connection options, a config file,
/// and optionally a file of events to replay instead of the queue-runner's,
/// with the delay between replayed events in seconds.
#[derive(Debug)]
pub struct TrackerCli {
    pub grpc: GrpcOpts,
    pub config_path: String,
    pub replay: Option<String>,
    pub replay_delay_secs: u64,
}

/// Mutual TLS is configured correctly when it is on and every one of its
/// four settings is given, or off and none of them is.
pub open spec fn spec_mtls_configured_correctly(o: GrpcOpts) -> bool {
    if o.mtls {
        o.server_root_ca_cert_path is Some && o.client_cert_path is Some && o.client_key_path is Some
            && o.domain_name is Some
    } else {
        o.server_root_ca_cert_path is None && o.client_cert_path is None && o.client_key_path is None
            && o.domain_name is None
    }
}

/// The files and name mutual TLS is set up from.
#[derive(Debug)]
pub struct MtlsSettings {
    pub server_root_ca_cert_path: String,
    pub client_cert_path: String,
    pub client_key_path: String,
    pub domain_name: String,
}

/// How to open the channel to the queue-runner.
#[derive(Debug)]
pub enum ConnectionPlan {
    /// Mutual TLS with the given certificates.
    Mtls { endpoint: String, settings: MtlsSettings },
    /// A Unix socket at `path`.
    UnixSocket { path: String },
    /// TLS with the system roots, for an `https://` endpoint, checked
    /// against the endpoint's domain name.
    Tls { endpoint: String, domain: String },
    /// Plain HTTP/2.
    Plain { endpoint: String },
}

impl GrpcOpts {
    /// Whether mutual TLS is asked for.
    pub fn mtls_enabled(&self) -> (r: bool)
        ensures
            r == self.mtls,
    {
        self.mtls
    }

    /// Whether the mutual TLS settings agree with the switch.
    pub fn mtls_configured_correctly(&self) -> (r: bool)
        ensures
            r == spec_mtls_configured_correctly(*self),
    {
        if self.mtls {
            self.server_root_ca_cert_path.is_some() && self.client_cert_path.is_some()
                && self.client_key_path.is_some() && self.domain_name.is_some()
        } else {
            self.server_root_ca_cert_path.is_none() && self.client_cert_path.is_none()
                && self.client_key_path.is_none() && self.domain_name.is_none()
        }
    }

    /// The mutual TLS settings, or the message naming the first one missing.
    pub fn get_mtls(&self) -> (r: Result<MtlsSettings, String>)
        ensures
            match r {
                Ok(m) => self.server_root_ca_cert_path == Some(m.server_root_ca_cert_path)
                    && self.client_cert_path == Some(m.client_cert_path) && self.client_key_path
                    == Some(m.client_key_path) && self.domain_name == Some(m.domain_name),
                Err(e) => if self.server_root_ca_cert_path is None {
                    e@ == "server_root_ca_cert_path not provided"@
                } else if self.client_cert_path is None {
                    e@ == "client_cert_path not provided"@
                } else if self.client_key_path is None {
                    e@ == "client_key_path not provided"@
                } else {
                    self.domain_name is None && e@ == "domain_name not provided"@
                },
            },
    {
        let server_root_ca_cert_path = match &self.server_root_ca_cert_path {
            Some(p) => p.clone(),
            None => {
                return Err("server_root_ca_cert_path not provided".to_owned());
            },
        };
        let client_cert_path = match &self.client_cert_path {
            Some(p) => p.clone(),
            None => {
                return Err("client_cert_path not provided".to_owned());
            },
        };
        let client_key_path = match &self.client_key_path {
            Some(p) => p.clone(),
            None => {
                return Err("client_key_path not provided".to_owned());
            },
        };
        let domain_name = match &self.domain_name {
            Some(p) => p.clone(),
            None => {
                return Err("domain_name not provided".to_owned());
            },
        };
        Ok(MtlsSettings { server_root_ca_cert_path, client_cert_path, client_key_path, domain_name })
    }
}

/// The domain name of the URL `s` as the `url` crate reads it: `None` when
/// `s` is no URL, `Some(None)` when its host is no domain (an IP address,
/// or no host at all).
pub uninterp spec fn url_domain_of(s: Seq<char>) -> Option<Option<Seq<char>>>;

/// Parses `s` with `url::Url::parse` (`str::parse::<url::Url>`) and takes
/// its domain (`Url::domain`).
#[verifier::external_body]
fn url_domain(s: &str) -> (r: Option<Option<String>>)
    ensures
        match r {
            None => url_domain_of(s@) is None,
            Some(None) => url_domain_of(s@) == Some(None::<Seq<char>>),
            Some(Some(d)) => url_domain_of(s@) == Some(Some(d@)),
        },
{
    match s.parse::<url::Url>() {
        Ok(u) => Some(u.domain().map(|d| d.to_owned())),
        Err(_) => None,
    }
}

/// The plan for the `https://` endpoint `endpoint`, given what reading it
/// as a URL gave (`url_domain`): TLS checked against its domain, or the
/// error for an endpoint that is no URL or has no domain name.
pub fn tls_plan(endpoint: &str, parsed: Option<Option<String>>) -> (r: Result<ConnectionPlan, String>)
    ensures
        match parsed {
            None => r matches Err(e) && e@ == "Failed to parse gateway_endpoint"@,
            Some(None) => r matches Err(e) && e@ == "No domain_name found for gateway_endpoint"@,
            Some(Some(d)) => r matches Ok(ConnectionPlan::Tls { endpoint: p, domain })
                && p@ == endpoint@ && domain@ == d@,
        },
{
    match parsed {
        None => Err("Failed to parse gateway_endpoint".to_owned()),
        Some(None) => Err("No domain_name found for gateway_endpoint".to_owned()),
        Some(Some(domain)) => Ok(ConnectionPlan::Tls { endpoint: endpoint.to_owned(), domain }),
    }
}

/// Decides how to reach the queue-runner. Options whose mutual TLS settings
/// disagree with the switch are refused with `Configuration issue`; an
/// `https://` endpoint that is no URL, or whose host is no domain name, is
/// refused too.
pub fn connection_plan(opts: &GrpcOpts) -> (r: Result<ConnectionPlan, String>)
    ensures
        !spec_mtls_configured_correctly(*opts) ==> (r matches Err(e) && e@
            == "Configuration issue"@),
        spec_mtls_configured_correctly(*opts) && opts.mtls ==> (r matches Ok(
            ConnectionPlan::Mtls { endpoint, settings },
        ) && endpoint == opts.gateway_endpoint && opts.server_root_ca_cert_path == Some(
            settings.server_root_ca_cert_path,
        ) && opts.client_cert_path == Some(settings.client_cert_path) && opts.client_key_path
            == Some(settings.client_key_path) && opts.domain_name == Some(settings.domain_name)),
        spec_mtls_configured_correctly(*opts) && !opts.mtls ==> match strip_prefix_of(
            opts.gateway_endpoint@,
            "unix://"@,
        ) {
            Some(path) => r matches Ok(ConnectionPlan::UnixSocket { path: p }) && p@ == path,
            None => if strip_prefix_of(opts.gateway_endpoint@, "https://"@) is Some {
                match url_domain_of(opts.gateway_endpoint@) {
                    None => r matches Err(e) && e@ == "Failed to parse gateway_endpoint"@,
                    Some(None) => r matches Err(e) && e@
                        == "No domain_name found for gateway_endpoint"@,
                    Some(Some(d)) => r matches Ok(ConnectionPlan::Tls { endpoint, domain })
                        && endpoint@ == opts.gateway_endpoint@ && domain@ == d,
                }
            } else {
                r matches Ok(ConnectionPlan::Plain { endpoint }) && endpoint
                    == opts.gateway_endpoint
            },
        },
{
    if !opts.mtls_configured_correctly() {
        return Err("Configuration issue".to_owned());
    }
    if opts.mtls_enabled() {
        return match opts.get_mtls() {
            Ok(settings) => Ok(
                ConnectionPlan::Mtls { endpoint: opts.gateway_endpoint.clone(), settings },
            ),
            Err(e) => Err(e),
        };
    }
    if let Some(path) = strip_prefix(opts.gateway_endpoint.as_str(), "unix://") {
        return Ok(ConnectionPlan::UnixSocket { path });
    }
    if strip_prefix(opts.gateway_endpoint.as_str(), "https://").is_some() {
        let parsed = url_domain(opts.gateway_endpoint.as_str());
        tls_plan(opts.gateway_endpoint.as_str(), parsed)
    } else {
        Ok(ConnectionPlan::Plain { endpoint: opts.gateway_endpoint.clone() })
    }
}

/// The value of the `authorization` metadata sent with a token.
pub fn bearer_value(token: &str) -> (r: String)
    ensures
        r@ == "Bearer "@ + token@,
{
    let mut r = "Bearer ".to_owned();
    r.append(token);
    r
}

/// The string stored under the top-level key `key` in `content` read as a
/// TOML document, as the `toml` crate reads it; `None` when `content` is no
/// TOML document or has no string under `key`.
pub uninterp spec fn toml_string(content: Seq<char>, key: Seq<char>) -> Option<Seq<char>>;

/// Reads `content` as a TOML document with the `toml` crate
/// (`str::parse::<toml::Value>`) and takes the string under `key`
/// (`Value::get`, `Value::as_str`).
#[verifier::external_body]
fn toml_string_field(content: &str, key: &str) -> (r: Option<String>)
    ensures
        match r {
            Some(t) => toml_string(content@, key@) == Some(t@),
            None => toml_string(content@, key@) is None,
        },
{
    match content.parse::<toml::Value>() {
        Ok(v) => v.get(key).and_then(toml::Value::as_str).map(|t| t.to_string()),
        Err(_) => None,
    }
}

/// The bearer token held by a token file with content `content`: the
/// `token` string when the file is TOML with one, otherwise the whole
/// content, trimmed.
pub open spec fn token_of_file(content: Seq<char>) -> Seq<char> {
    match toml_string(content, "token"@) {
        Some(t) => t,
        None => trimmed(content),
    }
}

impl GrpcOpts {
    /// The bearer token to send: none without a token file, otherwise the
    /// one held by `token_file_content`, the content of that file.
    pub fn get_authorization_token(&self, token_file_content: Option<&str>) -> (r: Option<String>)
        ensures
            self.authorization_file is None ==> r is None,
            self.authorization_file is Some ==> match token_file_content {
                None => r is None,
                Some(c) => r matches Some(t) && t@ == token_of_file(c@),
            },
    {
        match &self.authorization_file {
            None => None,
            Some(_) => authorization_token(token_file_content),
        }
    }
}

/// The bearer token to send: none without a token file, otherwise the one
/// its content `file_content` holds.
pub fn authorization_token(file_content: Option<&str>) -> (r: Option<String>)
    ensures
        match file_content {
            None => r is None,
            Some(c) => r matches Some(t) && t@ == token_of_file(c@),
        },
{
    match file_content {
        None => None,
        Some(content) => match toml_string_field(content, "token") {
            Some(t) => Some(t),
            None => Some(trim(content)),
        },
    }
}

} // verus!
