//! Configuration of the IRC bot.

use vstd::prelude::*;
use vstd::string::StringExecFns;

use crate::config::broker_uri;
use crate::text::clone_strings;

verus! {

/// The IRC bot's configuration: its nicknames and password, the channels
/// it joins, its broker and the file of factoids it answers with.
#[derive(Debug)]
pub struct Config {
    pub nickname: String,
    pub alternate_nicknames: Vec<String>,
    pub password: String,
    pub channels: Vec<String>,
    pub rabbitmq: RabbitMQConfig,
    pub factoid_toml: String,
}

/// A broker connection with the password given inline.
#[derive(Debug)]
pub struct RabbitMQConfig {
    pub ssl: bool,
    pub host: String,
    pub vhost: String,
    pub username: String,
    pub password: String,
}

/// Canned answers, by name.
#[derive(Debug)]
pub struct Factoids {
    pub factoids: Vec<(String, String)>,
}

impl RabbitMQConfig {
    /// The broker URI: scheme by TLS, user, password, host, virtual host.
    pub fn as_uri(&self) -> (r: String)
        ensures
            r@ == broker_uri(self.ssl, self.username@, self.password@, self.host@, self.vhost@),
    {
        let mut r = if self.ssl {
            "amqps".to_owned()
        } else {
            "amqp".to_owned()
        };
        r.append("://");
        r.append(self.username.as_str());
        r.append(":");
        r.append(self.password.as_str());
        r.append("@");
        r.append(self.host.as_str());
        r.append("/");
        r.append(self.vhost.as_str());
        r
    }
}

/// The settings the IRC client connects with.
#[derive(Debug)]
pub struct IrcSettings {
    pub nickname: String,
    pub nick_password: String,
    pub server: String,
    pub port: u16,
    pub use_ssl: bool,
    pub should_ghost: bool,
    pub user_info: String,
    pub source: String,
    pub version: String,
    pub username: String,
    pub realname: String,
    pub channels: Vec<String>,
    pub alt_nicks: Vec<String>,
    pub ghost_sequence: Vec<String>,
    pub max_messages_in_burst: u32,
    pub burst_window_length: u32,
    pub ping_time: u32,
    pub ping_timeout: u32,
    pub use_mock_connection: bool,
    pub password: String,
}


impl Config {
    /// The path of the factoid file.
    pub fn factoids_path(&self) -> (r: &str)
        ensures
            r@ == self.factoid_toml@,
    {
        self.factoid_toml.as_str()
    }

    /// The client settings: the configured nicknames, password and
    /// channels on `chat.freenode.net:6697` over TLS, with the bot's fixed
    /// identity and flood limits.
    pub fn irc_config(&self) -> (s: IrcSettings)
        ensures
            s.nickname == self.nickname,
            s.nick_password == self.password,
            s.server@ == "chat.freenode.net"@,
            s.port == 6697,
            s.use_ssl,
            s.should_ghost,
            s.user_info@ == "a bot by Graham"@,
            s.source@ == "https://github.com/grahamc/ofborg"@,
            s.version@ == "lolidunno"@,
            s.username@ == "graham"@,
            s.realname@ == "Graham Christensen"@,
            s.channels@ == self.channels@,
            s.alt_nicks@ == self.alternate_nicknames@,
            s.ghost_sequence.len() == 2,
            s.ghost_sequence@[0]@ == "RECOVER"@,
            s.ghost_sequence@[1]@ == "RELEASE"@,
            s.max_messages_in_burst == 5,
            s.burst_window_length == 5,
            s.ping_time == 180,
            s.ping_timeout == 10,
            !s.use_mock_connection,
            s.password@ == ""@,
    {
        let mut ghost_sequence: Vec<String> = Vec::new();
        ghost_sequence.push("RECOVER".to_owned());
        ghost_sequence.push("RELEASE".to_owned());
        IrcSettings {
            nickname: self.nickname.clone(),
            nick_password: self.password.clone(),
            server: "chat.freenode.net".to_owned(),
            port: 6697,
            use_ssl: true,
            should_ghost: true,
            user_info: "a bot by Graham".to_owned(),
            source: "https://github.com/grahamc/ofborg".to_owned(),
            version: "lolidunno".to_owned(),
            username: "graham".to_owned(),
            realname: "Graham Christensen".to_owned(),
            channels: clone_strings(&self.channels),
            alt_nicks: clone_strings(&self.alternate_nicknames),
            ghost_sequence,
            max_messages_in_burst: 5,
            burst_window_length: 5,
            ping_time: 180,
            ping_timeout: 10,
            use_mock_connection: false,
            password: "".to_owned(),
        }
    }
}

} // verus!
