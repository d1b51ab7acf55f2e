//! What a connection to the SQL server is opened with.
use crate::config::{
    fresh, held, set_application_name, set_database, set_encryption, set_host, set_login,
    trust_certificate, ConfigView, Trust,
};
use ssql::prelude::tiberius::Config;
use vstd::prelude::*;
use vstd::string::*;

verus! {

/// How much of the traffic with the server is encrypted.
#[derive(Debug, Clone, Copy, PartialEq, Eq, Structural)]
pub enum Encryption {
    /// Only the login is encrypted.
    Off,
    /// Everything is encrypted if the server can.
    On,
    /// Nothing is encrypted.
    NotSupported,
    /// Everything is encrypted, or the connection fails.
    Required,
}

/// The parameters of a connection that authenticates with a SQL-server login.
pub struct SqlSettings {
    /// Host name or address of the server.
    pub host: String,
    /// The name under which the connection shows on the server.
    pub application_name: String,
    /// The database to connect to.
    pub database: String,
    /// Login name.
    pub username: String,
    /// Login password.
    pub password: String,
    /// Encryption asked of the connection.
    pub encryption: Encryption,
    /// Whether the server's certificate is accepted as it comes, without
    /// validation.
    pub trust_certificate: bool,
}

/// A [`SqlSettings`] as contracts see it.
pub struct SqlSettingsView {
    pub host: Seq<char>,
    pub application_name: Seq<char>,
    pub database: Seq<char>,
    pub username: Seq<char>,
    pub password: Seq<char>,
    pub encryption: Encryption,
    pub trust_certificate: bool,
}

impl View for SqlSettings {
    type V = SqlSettingsView;

    open spec fn view(&self) -> SqlSettingsView {
        SqlSettingsView {
            host: self.host@,
            application_name: self.application_name@,
            database: self.database@,
            username: self.username@,
            password: self.password@,
            encryption: self.encryption,
            trust_certificate: self.trust_certificate,
        }
    }
}

impl SqlSettingsView {
    /// What the configuration made from these parameters holds: the five
    /// texts, the encryption, and the trust asked for; no port, no instance
    /// name and no read-only intent.
    pub open spec fn config(self) -> ConfigView {
        ConfigView {
            host: Some(self.host),
            port: None,
            database: Some(self.database),
            instance_name: None,
            application_name: Some(self.application_name),
            encryption: self.encryption,
            trust: if self.trust_certificate {
                Trust::All
            } else {
                Trust::SystemStore
            },
            login: Some((self.username, self.password)),
            readonly: false,
        }
    }
}

impl SqlSettings {
    /// The configuration that a tiberius client connects with.
    pub fn to_config(&self) -> (config: Config)
        ensures
            held(config) == self@.config(),
    {
        let mut config = fresh();
        set_host(&mut config, self.host.as_str());
        set_application_name(&mut config, self.application_name.as_str());
        set_database(&mut config, self.database.as_str());
        set_login(&mut config, self.username.as_str(), self.password.as_str());
        set_encryption(&mut config, self.encryption);
        if self.trust_certificate {
            trust_certificate(&mut config);
        }
        config
    }
}

} // verus!
