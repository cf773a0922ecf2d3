//! Settings of the bridge, with the defaults that stand in for what a
//! configuration source leaves out.

use vstd::prelude::*;

verus! {

/// Broker settings as contracts speak of them.
pub struct MqttConfigView {
    pub host: Seq<char>,
    pub port: u16,
    pub username: Option<Seq<char>>,
    pub password: Option<Seq<char>>,
}

/// Settings as contracts speak of them.
pub struct SettingsView {
    pub mqtt: MqttConfigView,
    pub loglevel: Seq<char>,
}

/// The text of an optional string.
pub open spec fn text_of(value: Option<String>) -> Option<Seq<char>> {
    match value {
        Some(text) => Some(text@),
        None => None,
    }
}

/// Settings of the bridge.
#[derive(Debug, Clone)]
pub struct Settings {
    mqtt: MqttConfig,
    loglevel: String,
}

/// Where the broker is, and how to log in.
#[derive(Debug, Clone)]
pub struct MqttConfig {
    host: String,
    port: u16,
    username: Option<String>,
    password: Option<String>,
}

impl View for MqttConfig {
    type V = MqttConfigView;

    closed spec fn view(&self) -> MqttConfigView {
        MqttConfigView {
            host: self.host@,
            port: self.port,
            username: text_of(self.username),
            password: text_of(self.password),
        }
    }
}

impl View for Settings {
    type V = SettingsView;

    closed spec fn view(&self) -> SettingsView {
        SettingsView { mqtt: self.mqtt@, loglevel: self.loglevel@ }
    }
}

impl Settings {
    /// Settings from what a configuration source gave. A log level that was
    /// left out is `info`.
    pub fn new(mqtt: MqttConfig, loglevel: Option<String>) -> (settings: Settings)
        ensures
            settings@.mqtt == mqtt@,
            settings@.loglevel == (match loglevel {
                Some(level) => level@,
                None => "info"@,
            }),
    {
        let loglevel = match loglevel {
            Some(level) => level,
            None => Self::default_log_level(),
        };
        Settings { mqtt, loglevel }
    }

    /// The log level used when none is configured.
    pub fn default_log_level() -> (level: String)
        ensures
            level@ == "info"@,
    {
        "info".to_owned()
    }

    /// The broker settings.
    pub fn mqtt(&self) -> (mqtt: &MqttConfig)
        ensures
            mqtt@ == self@.mqtt,
    {
        &self.mqtt
    }

    /// The log level.
    pub fn log_level(&self) -> (level: &str)
        ensures
            level@ == self@.loglevel,
    {
        self.loglevel.as_str()
    }

    /// Replaces the log level and leaves the rest as it is.
    pub fn set_log_level(&mut self, level: String)
        ensures
            final(self)@ == (SettingsView { loglevel: level@, ..old(self)@ }),
    {
        self.loglevel = level;
    }
}

impl MqttConfig {
    /// Broker settings from what a configuration source gave. A host that
    /// was left out is `localhost`, a port that was left out is 1883.
    pub fn new(
        host: Option<String>,
        port: Option<u16>,
        username: Option<String>,
        password: Option<String>,
    ) -> (config: MqttConfig)
        ensures
            config@.host == (match host {
                Some(name) => name@,
                None => "localhost"@,
            }),
            config@.port == (match port {
                Some(number) => number,
                None => 1883u16,
            }),
            config@.username == text_of(username),
            config@.password == text_of(password),
    {
        let host = match host {
            Some(name) => name,
            None => Self::default_host(),
        };
        let port = match port {
            Some(number) => number,
            None => Self::default_port(),
        };
        MqttConfig { host, port, username, password }
    }

    /// Host name of the broker.
    pub fn host(&self) -> (host: &str)
        ensures
            host@ == self@.host,
    {
        self.host.as_str()
    }

    /// Port of the broker.
    pub fn port(&self) -> (port: u16)
        ensures
            port == self@.port,
    {
        self.port
    }

    /// User name to log in with, if one is configured.
    pub fn username(&self) -> (username: Option<&str>)
        ensures
            match username {
                Some(name) => self@.username == Some(name@),
                None => self@.username is None,
            },
    {
        match &self.username {
            Some(name) => Some(name.as_str()),
            None => None,
        }
    }

    /// Password to log in with, if one is configured.
    pub fn password(&self) -> (password: Option<&str>)
        ensures
            match password {
                Some(secret) => self@.password == Some(secret@),
                None => self@.password is None,
            },
    {
        match &self.password {
            Some(secret) => Some(secret.as_str()),
            None => None,
        }
    }

    /// The port used when none is configured.
    pub fn default_port() -> (port: u16)
        ensures
            port == 1883,
    {
        1883
    }

    /// The host used when none is configured.
    pub fn default_host() -> (host: String)
        ensures
            host@ == "localhost"@,
    {
        "localhost".to_owned()
    }
}

} // verus!
