use vstd::prelude::*;
use crate::webclient::WebError;

verus! {

/// The settings of an agent, each as far as it was given.
#[derive(Debug)]
pub struct ClientConfig {
    pub server: Option<String>,
    pub name: Option<String>,
    pub id: Option<String>,
    pub token: Option<String>,
    pub log_dir: Option<String>,
    pub log_level: Option<String>,
    pub log_stdout: Option<bool>,
}

/// The settings of the server, each as far as it was given.
#[derive(Debug)]
pub struct ServerConfig {
    pub cert: Option<String>,
    pub key: Option<String>,
    pub listen: Option<String>,
    pub pg_params: Option<String>,
    pub log_dir: Option<String>,
    pub log_level: Option<String>,
    pub log_stdout: Option<bool>,
    pub https: Option<bool>,
}

/// A setting that the server is started with.
#[derive(Debug, Clone, Copy, PartialEq, Eq, Structural)]
pub enum Setting {
    Cert,
    Key,
    Listen,
    PgParams,
}

impl Setting {
    /// The key under which the setting is given.
    pub fn key(&self) -> (key: &'static str)
        ensures
            key@ == match self {
                Setting::Cert => "cert"@,
                Setting::Key => "key"@,
                Setting::Listen => "listen"@,
                Setting::PgParams => "pg_params"@,
            },
    {
        match self {
            Setting::Cert => crate::constants::CONFIG_SERVER_CERT,
            Setting::Key => crate::constants::CONFIG_SERVER_KEY,
            Setting::Listen => crate::constants::CONFIG_SERVER_LISTEN,
            Setting::PgParams => crate::constants::CONFIG_PG_PARAMS,
        }
    }
}

/// A setting as text, or the error that names the missing setting.
pub fn required(value: &Option<String>, key: &str) -> (r: Result<String, WebError>)
    ensures
        match value {
            Some(v) => r matches Ok(s) && s@ == v@,
            None => r matches Err(WebError::Config(k)) && k@ == key@,
        },
{
    match value {
        Some(v) => Ok(v.clone()),
        None => Err(WebError::Config(key.to_owned())),
    }
}

/// A setting as text, or `fallback` where it was not given.
pub fn or_default(value: &Option<String>, fallback: &str) -> (r: String)
    ensures
        r@ == match value {
            Some(v) => v@,
            None => fallback@,
        },
{
    match value {
        Some(v) => v.clone(),
        None => fallback.to_owned(),
    }
}

impl ClientConfig {
    /// Whether a setting is missing without which an agent cannot start:
    /// the server, the agent's name, its identifier or its secret.
    pub fn config_missing(&self) -> (missing: bool)
        ensures
            missing == (self.server is None || self.name is None || self.id is None
                || self.token is None),
    {
        self.server.is_none() || self.name.is_none() || self.id.is_none() || self.token.is_none()
    }

    /// The base URL of the server.
    pub fn get_server(&self) -> (r: Result<String, WebError>)
        ensures
            match self.server {
                Some(v) => r matches Ok(s) && s@ == v@,
                None => r matches Err(WebError::Config(k)) && k@ == "server"@,
            },
    {
        required(&self.server, crate::constants::CONFIG_SERVER)
    }

    /// The identifier of the agent.
    pub fn get_id(&self) -> (r: Result<String, WebError>)
        ensures
            match self.id {
                Some(v) => r matches Ok(s) && s@ == v@,
                None => r matches Err(WebError::Config(k)) && k@ == "id"@,
            },
    {
        required(&self.id, crate::constants::CONFIG_ID)
    }

    /// The secret of the agent.
    pub fn get_token(&self) -> (r: Result<String, WebError>)
        ensures
            match self.token {
                Some(v) => r matches Ok(s) && s@ == v@,
                None => r matches Err(WebError::Config(k)) && k@ == "token"@,
            },
    {
        required(&self.token, crate::constants::CONFIG_TOKEN)
    }

    /// The directory for log files: `logs/` where none was given.
    pub fn get_log_dir(&self) -> (dir: String)
        ensures
            dir@ == match self.log_dir {
                Some(v) => v@,
                None => "logs/"@,
            },
    {
        or_default(&self.log_dir, "logs/")
    }

    /// The log level: `info` where none was given.
    pub fn get_log_level(&self) -> (level: String)
        ensures
            level@ == match self.log_level {
                Some(v) => v@,
                None => "info"@,
            },
    {
        or_default(&self.log_level, "info")
    }

    /// Whether log lines also go to the terminal: only where that was
    /// asked for.
    pub fn get_log_stdout(&self) -> (on: bool)
        ensures
            on == (self.log_stdout == Some(true)),
    {
        match self.log_stdout {
            Some(on) => on,
            None => false,
        }
    }
}

impl ServerConfig {
    /// The missing ones among the settings that the server is started
    /// with, in the order certificate, key, address, database parameters.
    pub open spec fn missing_settings(self) -> Seq<Setting> {
        (if self.cert is None {
            seq![Setting::Cert]
        } else {
            Seq::empty()
        }) + (if self.key is None {
            seq![Setting::Key]
        } else {
            Seq::empty()
        }) + (if self.listen is None {
            seq![Setting::Listen]
        } else {
            Seq::empty()
        }) + (if self.pg_params is None {
            seq![Setting::PgParams]
        } else {
            Seq::empty()
        })
    }

    /// The missing ones among the settings that the server is started
    /// with.
    pub fn check_config(&self) -> (missing: Vec<Setting>)
        ensures
            missing@ == self.missing_settings(),
    {
        let mut missing: Vec<Setting> = Vec::new();
        if self.cert.is_none() {
            missing.push(Setting::Cert);
        }
        if self.key.is_none() {
            missing.push(Setting::Key);
        }
        if self.listen.is_none() {
            missing.push(Setting::Listen);
        }
        if self.pg_params.is_none() {
            missing.push(Setting::PgParams);
        }
        assert(missing@ =~= self.missing_settings());
        missing
    }

    /// The certificate file of the server.
    pub fn get_server_cert(&self) -> (r: Result<String, WebError>)
        ensures
            match self.cert {
                Some(v) => r matches Ok(s) && s@ == v@,
                None => r matches Err(WebError::Config(k)) && k@ == "cert"@,
            },
    {
        required(&self.cert, crate::constants::CONFIG_SERVER_CERT)
    }

    /// The private key file of the server.
    pub fn get_server_cert_key(&self) -> (r: Result<String, WebError>)
        ensures
            match self.key {
                Some(v) => r matches Ok(s) && s@ == v@,
                None => r matches Err(WebError::Config(k)) && k@ == "key"@,
            },
    {
        required(&self.key, crate::constants::CONFIG_SERVER_KEY)
    }

    /// The directory for log files: `logs/` where none was given.
    pub fn get_log_dir(&self) -> (dir: String)
        ensures
            dir@ == match self.log_dir {
                Some(v) => v@,
                None => "logs/"@,
            },
    {
        or_default(&self.log_dir, "logs/")
    }

    /// The log level: `info` where none was given.
    pub fn get_log_level(&self) -> (level: String)
        ensures
            level@ == match self.log_level {
                Some(v) => v@,
                None => "info"@,
            },
    {
        or_default(&self.log_level, "info")
    }

    /// Whether log lines also go to the terminal: only where that was
    /// asked for.
    pub fn get_log_stdout(&self) -> (on: bool)
        ensures
            on == (self.log_stdout == Some(true)),
    {
        match self.log_stdout {
            Some(on) => on,
            None => false,
        }
    }

    /// The address that the server listens on.
    pub fn get_server_listen(&self) -> (r: Result<String, WebError>)
        ensures
            match self.listen {
                Some(v) => r matches Ok(s) && s@ == v@,
                None => r matches Err(WebError::Config(k)) && k@ == "listen"@,
            },
    {
        required(&self.listen, crate::constants::CONFIG_SERVER_LISTEN)
    }

    /// The connection parameters of the database.
    pub fn get_pg_params(&self) -> (r: Result<String, WebError>)
        ensures
            match self.pg_params {
                Some(v) => r matches Ok(s) && s@ == v@,
                None => r matches Err(WebError::Config(k)) && k@ == "pg_params"@,
            },
    {
        required(&self.pg_params, crate::constants::CONFIG_PG_PARAMS)
    }

    /// Whether the server speaks HTTPS: only where that was asked for.
    pub fn get_use_https(&self) -> (on: bool)
        ensures
            on == (self.https == Some(true)),
    {
        match self.https {
            Some(on) => on,
            None => false,
        }
    }
}

} // verus!
