//! The configuration that a tiberius client connects with.
//!
//! Nothing here is proved: the items of this file say what the library takes
//! on trust from `tiberius`, which `ssql` hands on.
use crate::database::Encryption;
use ssql::prelude::tiberius::{AuthMethod, Config, EncryptionLevel};
use vstd::prelude::*;

verus! {

/// `tiberius::Config`. Its fields are not public; [`held`] stands for them.
#[verifier::external_type_specification]
#[verifier::external_body]
pub struct ExConfig(ssql::prelude::tiberius::Config);

/// How a `Config` has the server's certificate dealt with.
pub enum Trust {
    /// It is validated against the system's store.
    SystemStore,
    /// It is accepted as it comes.
    All,
    /// It is validated against a certificate named by a path as well.
    CaCertificate,
}

/// What a `Config` holds, field for field. A text that was never set is
/// `None`; so is the login of a `Config` that does not authenticate with a
/// SQL-server login, which is a pair of user name and password.
pub struct ConfigView {
    pub host: Option<Seq<char>>,
    pub port: Option<u16>,
    pub database: Option<Seq<char>>,
    pub instance_name: Option<Seq<char>>,
    pub application_name: Option<Seq<char>>,
    pub encryption: Encryption,
    pub trust: Trust,
    pub login: Option<(Seq<char>, Seq<char>)>,
    pub readonly: bool,
}

/// What `config` holds.
pub uninterp spec fn held(config: Config) -> ConfigView;

/// Calls `Config::new`. Taken on trust: nothing is set in the new value, the
/// certificate is validated against the system's store, there is no login
/// and no read-only intent. Its encryption depends on how tiberius was built
/// and is not stated.
#[verifier::external_body]
pub(crate) fn fresh() -> (config: Config)
    ensures
        held(config).host is None,
        held(config).port is None,
        held(config).database is None,
        held(config).instance_name is None,
        held(config).application_name is None,
        held(config).trust is SystemStore,
        held(config).login is None,
        !held(config).readonly,
{
    Config::new()
}

/// Calls `Config::host`. Taken on trust: it stores the text as the host and
/// changes nothing else.
#[verifier::external_body]
pub(crate) fn set_host(config: &mut Config, host: &str)
    ensures
        held(*final(config)) == (ConfigView { host: Some(host@), ..held(*old(config)) }),
{
    config.host(host)
}

/// Calls `Config::application_name`. Taken on trust: it stores the text as
/// the application's name and changes nothing else.
#[verifier::external_body]
pub(crate) fn set_application_name(config: &mut Config, name: &str)
    ensures
        held(*final(config)) == (ConfigView {
            application_name: Some(name@),
            ..held(*old(config))
        }),
{
    config.application_name(name)
}

/// Calls `Config::database`. Taken on trust: it stores the text as the
/// database's name and changes nothing else.
#[verifier::external_body]
pub(crate) fn set_database(config: &mut Config, database: &str)
    ensures
        held(*final(config)) == (ConfigView { database: Some(database@), ..held(*old(config)) }),
{
    config.database(database)
}

/// Calls `Config::authentication` with what `AuthMethod::sql_server` makes of
/// the two texts. Taken on trust: the `Config` then authenticates with that
/// SQL-server login, and nothing else in it has changed.
#[verifier::external_body]
pub(crate) fn set_login(config: &mut Config, user: &str, password: &str)
    ensures
        held(*final(config)) == (ConfigView {
            login: Some((user@, password@)),
            ..held(*old(config))
        }),
{
    config.authentication(AuthMethod::sql_server(user, password))
}

/// Calls `Config::encryption` with the level of the same name. Taken on
/// trust: it stores the level and changes nothing else.
#[verifier::external_body]
pub(crate) fn set_encryption(config: &mut Config, level: Encryption)
    ensures
        held(*final(config)) == (ConfigView { encryption: level, ..held(*old(config)) }),
{
    config.encryption(match level {
        Encryption::Off => EncryptionLevel::Off,
        Encryption::On => EncryptionLevel::On,
        Encryption::NotSupported => EncryptionLevel::NotSupported,
        Encryption::Required => EncryptionLevel::Required,
    })
}

/// Calls `Config::trust_cert`, which panics where a certificate path was set
/// before. Taken on trust: elsewhere it makes the `Config` accept the server's
/// certificate as it comes and changes nothing else.
#[verifier::external_body]
pub(crate) fn trust_certificate(config: &mut Config)
    requires
        !(held(*old(config)).trust is CaCertificate),
    ensures
        held(*final(config)) == (ConfigView { trust: Trust::All, ..held(*old(config)) }),
{
    config.trust_cert()
}

} // verus!
