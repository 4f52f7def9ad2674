//! The bot's configuration and what is derived from it.

use vstd::prelude::*;
use vstd::string::StringExecFns;

use crate::acl::{names, spec_can_build_unrestricted, Acl};
use crate::nix::Nix;
use crate::text::{clone_strings, join, joined, trim, trimmed, unicode_lowercase};

verus! {

/// The configuration of every service; each service reads its own part.
#[derive(Debug)]
pub struct Config {
    pub github_webhook_receiver: Option<GithubWebhookConfig>,
    pub log_api_config: Option<LogApiConfig>,
    pub evaluation_filter: Option<EvaluationFilter>,
    pub github_comment_filter: Option<GithubCommentFilter>,
    pub github_comment_poster: Option<GitHubCommentPoster>,
    pub mass_rebuilder: Option<MassRebuilder>,
    pub hydra_evaluator: Option<HydraEvaluatorConfig>,
    pub log_message_collector: Option<LogMessageCollector>,
    pub stats: Option<Stats>,
    pub runner: RunnerConfig,
    pub checkout: CheckoutConfig,
    pub nix: NixConfig,
    pub github_app: Option<GithubAppConfig>,
}

/// The webhook receiver: where it listens, the file holding the webhook
/// secret, and its broker.
#[derive(Debug)]
pub struct GithubWebhookConfig {
    pub listen: String,
    pub webhook_secret_file: String,
    pub rabbitmq: RabbitMqConfig,
}

/// Where the log server keeps logs when the configuration names no path.
pub fn default_logs_path() -> (r: String)
    ensures
        r@ == "/var/log/ofborg"@,
{
    "/var/log/ofborg".to_owned()
}

/// Where logs are served when the configuration names no root.
pub fn default_serve_root() -> (r: String)
    ensures
        r@ == "https://logs.ofborg.org/logfile"@,
{
    "https://logs.ofborg.org/logfile".to_owned()
}

/// The log server: where it listens, where logs are kept and served from.
#[derive(Debug)]
pub struct LogApiConfig {
    pub listen: String,
    pub logs_path: String,
    pub serve_root: String,
}

/// The evaluation filter's broker.
#[derive(Debug)]
pub struct EvaluationFilter {
    pub rabbitmq: RabbitMqConfig,
}

/// The comment filter's broker.
#[derive(Debug)]
pub struct GithubCommentFilter {
    pub rabbitmq: RabbitMqConfig,
}

/// The comment poster's broker.
#[derive(Debug)]
pub struct GitHubCommentPoster {
    pub rabbitmq: RabbitMqConfig,
}

/// The mass rebuilder's broker.
#[derive(Debug)]
pub struct MassRebuilder {
    pub rabbitmq: RabbitMqConfig,
}

/// The Hydra integration: its broker, the queue-runner endpoint and the
/// jobset that receives builds.
#[derive(Debug)]
pub struct HydraEvaluatorConfig {
    pub rabbitmq: RabbitMqConfig,
    pub gateway_endpoint: String,
    pub jobset_id: i32,
}

/// The log collector: its broker and where logs are written.
#[derive(Debug)]
pub struct LogMessageCollector {
    pub rabbitmq: RabbitMqConfig,
    pub logs_path: String,
}

/// The statistics exporter: where it listens and its broker.
#[derive(Debug)]
pub struct Stats {
    pub listen: String,
    pub rabbitmq: RabbitMqConfig,
}

/// A connection to a RabbitMQ broker. The password is read from
/// `password_file`, with surrounding whitespace stripped.
#[derive(Debug)]
pub struct RabbitMqConfig {
    pub ssl: bool,
    pub host: String,
    pub virtualhost: Option<String>,
    pub username: String,
    pub password_file: String,
}

/// How Nix runs: the platforms served (the first is the main one), the
/// store, the build timeout, the initial heap size, and package listing
/// settings.
#[derive(Debug)]
pub struct NixConfig {
    pub system: Vec<String>,
    pub remote: String,
    pub build_timeout_seconds: u16,
    pub initial_heap_size: Option<String>,
    pub list_cores: Option<u64>,
    pub list_chunk_size: Option<u64>,
    pub list_system: Option<String>,
}

/// The GitHub App the bot acts as.
#[derive(Debug)]
pub struct GithubAppConfig {
    pub app_id: u64,
    pub private_key: String,
    pub oauth_client_id: String,
    pub oauth_client_secret_file: String,
}

/// The instance number of a runner when the configuration names none.
pub fn default_instance() -> (r: u8)
    ensures
        r == 1,
{
    1
}

/// Who this runner is and whom it serves.
#[derive(Debug)]
pub struct RunnerConfig {
    pub instance: u8,
    pub identity: String,
    pub repos: Option<Vec<String>>,
    pub disable_trusted_users: bool,
    pub trusted_users: Option<Vec<String>>,
    pub build_all_jobs: Option<bool>,
}

/// Where repositories are checked out.
#[derive(Debug)]
pub struct CheckoutConfig {
    pub root: String,
}

/// The least build timeout the bot runs with, in seconds.
pub open spec fn min_build_timeout() -> u16 {
    1200
}


impl Config {
    /// The runner's name: its identity, a dash, and the platforms it serves
    /// joined with commas.
    pub fn whoami(&self) -> (r: String)
        ensures
            r@ == self.runner.identity@ + "-"@ + joined(names(self.nix.system@), ","@),
    {
        let mut r = self.runner.identity.clone();
        r.append("-");
        let systems = join(&self.nix.system, ",");
        r.append(systems.as_str());
        r
    }

    /// The access list of the runner. The repositories must be configured,
    /// and the trusted users too unless they are disabled, in which case
    /// everybody is trusted.
    pub fn acl(&self) -> (a: Acl)
        requires
            self.runner.repos is Some,
            !self.runner.disable_trusted_users ==> self.runner.trusted_users is Some,
        ensures
            a@.repos == names(self.runner.repos->0@),
            self.runner.disable_trusted_users ==> a@.trusted_users is None,
            self.runner.disable_trusted_users ==> forall|user: Seq<char>, repo: Seq<char>|
                spec_can_build_unrestricted(a@, user, repo),
            !self.runner.disable_trusted_users ==> (a@.trusted_users matches Some(t) && t == names(
                self.runner.trusted_users->0@,
            ).map_values(|n: Seq<char>| unicode_lowercase(n))),
    {
        let repos = match &self.runner.repos {
            Some(r) => clone_strings(r),
            None => Vec::new(),
        };
        let trusted_users = if self.runner.disable_trusted_users {
            None
        } else {
            match &self.runner.trusted_users {
                Some(u) => Some(clone_strings(u)),
                None => None,
            }
        };
        Acl::new(repos, trusted_users)
    }

    /// The Nix settings of the runner's main platform. The build timeout
    /// must be at least 1200 seconds and at least one platform configured.
    pub fn nix(&self) -> (n: Nix)
        requires
            self.nix.build_timeout_seconds >= min_build_timeout(),
            self.nix.system.len() > 0,
        ensures
            n.system == self.nix.system@[0],
            n.remote == self.nix.remote,
            n.build_timeout == self.nix.build_timeout_seconds,
            n.initial_heap_size == self.nix.initial_heap_size,
    {
        Nix::new(
            self.nix.system[0].clone(),
            self.nix.remote.clone(),
            self.nix.build_timeout_seconds,
            self.nix.initial_heap_size.clone(),
        )
    }
}

/// The URI of a broker: scheme by TLS, user, password, host and virtual
/// host (`/` when none is configured).
pub open spec fn broker_uri(
    ssl: bool,
    username: Seq<char>,
    password: Seq<char>,
    host: Seq<char>,
    vhost: Seq<char>,
) -> Seq<char> {
    (if ssl {
        "amqps"@
    } else {
        "amqp"@
    }) + "://"@ + username + ":"@ + password + "@"@ + host + "/"@ + vhost
}

impl RabbitMqConfig {
    /// The broker URI, given the content of the password file; the password
    /// is the content with surrounding whitespace stripped.
    pub fn as_uri(&self, password_file_content: &str) -> (r: String)
        ensures
            r@ == broker_uri(
                self.ssl,
                self.username@,
                trimmed(password_file_content@),
                self.host@,
                match self.virtualhost {
                    Some(v) => v@,
                    None => "/"@,
                },
            ),
    {
        let mut r = if self.ssl {
            "amqps".to_owned()
        } else {
            "amqp".to_owned()
        };
        r.append("://");
        r.append(self.username.as_str());
        r.append(":");
        let password = trim(password_file_content);
        r.append(password.as_str());
        r.append("@");
        r.append(self.host.as_str());
        r.append("/");
        match &self.virtualhost {
            Some(v) => r.append(v.as_str()),
            None => r.append("/"),
        }
        r
    }
}

} // verus!
