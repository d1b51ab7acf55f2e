//! The settings record and how it is loaded.
use crate::config::held;
use crate::database::{Encryption, SqlSettings, SqlSettingsView};
use crate::document::{parse, parsed, text_member, text_members};
use crate::destinations::{gather, gathered, gathered_view, ruling_view, ruling_views};
use crate::entries::{split, split_entries, texts};
use crate::error::{SettingsError, SettingsErrorView};
use crate::mail::{address, address_for};
use sendgrid::v3::Email;
use serde_json::Value;
use ssql::prelude::tiberius::Config;
use vstd::prelude::*;
use vstd::string::*;

verus! {

/// The environment variable that carries the settings text.
pub const SECRET_BLOB: &'static str = "SecretBlob";

/// Name of the member that holds the database server. Like the eight names
/// after it, it is matched letter for letter: capitals count.
pub const DATABASE_SERVER: &'static str = "DatabaseServer";

/// Name of the member that holds the database's name.
pub const DATABASE_NAME: &'static str = "DatabaseName";

/// Name of the member that holds the database login.
pub const DATABASE_USERNAME: &'static str = "DatabaseUsername";

/// Name of the member that holds the database password.
pub const DATABASE_PASSWORD: &'static str = "DatabasePassword";

/// Name of the member that holds the address log entries go to.
pub const LOG_WEBHOOK_URI: &'static str = "LogWebhookUri";

/// Name of the member that holds the mail service's credential.
pub const SENDGRID_API_KEY: &'static str = "SendgridApiKey";

/// Name of the member that holds the sender's display name.
pub const EMAIL_FROM_NAME: &'static str = "EmailFromName";

/// Name of the member that holds the sender's address.
pub const EMAIL_FROM_ADDRESS: &'static str = "EmailFromAddress";

/// Name of the member that holds the destination list.
pub const EMAIL_TO_ADDRESSES: &'static str = "EmailToAddresses";

/// How the message starts when the environment gave no text.
pub const NO_VARIABLE: &'static str = "Error getting env variable: ";

/// Why the environment gave no text: the variable is not set.
pub const NOT_PRESENT: &'static str = "environment variable not found";

/// Why the environment gave no text: what the variable holds is not Unicode.
pub const NOT_UNICODE: &'static str = "environment variable was not valid unicode";

/// How the message starts when the text does not describe settings.
pub const NOT_SETTINGS: &'static str = "Could not deserialize settings blob: ";

/// What stands before the name of a member that is missing or is no JSON
/// string.
pub const BEFORE_MEMBER: &'static str = "member `";

/// What stands after that name.
pub const AFTER_MEMBER: &'static str = "` is missing or is not a string";

/// What the process environment holds under [`SECRET_BLOB`].
#[derive(Debug)]
pub enum Lookup {
    /// The variable is set, to this text.
    Present(String),
    /// The variable is not set.
    NotPresent,
    /// The variable is set, but not to Unicode text.
    NotUnicode,
}

/// A [`Lookup`] as contracts see it.
pub enum LookupView {
    Present(Seq<char>),
    NotPresent,
    NotUnicode,
}

impl View for Lookup {
    type V = LookupView;

    open spec fn view(&self) -> LookupView {
        match self {
            Lookup::Present(text) => LookupView::Present(text@),
            Lookup::NotPresent => LookupView::NotPresent,
            Lookup::NotUnicode => LookupView::NotUnicode,
        }
    }
}

/// The application's settings. Set once when loaded, read-only afterwards.
#[derive(Debug)]
pub struct Settings {
    database_server: String,
    database_name: String,
    database_username: String,
    database_password: String,
    log_webhook_uri: String,
    sendgrid_api_key: String,
    email_from_name: String,
    email_from_address: String,
    email_to_addresses: String,
}

/// A [`Settings`] as contracts see it: the characters of each field.
pub struct SettingsView {
    pub database_server: Seq<char>,
    pub database_name: Seq<char>,
    pub database_username: Seq<char>,
    pub database_password: Seq<char>,
    pub log_webhook_uri: Seq<char>,
    pub sendgrid_api_key: Seq<char>,
    pub email_from_name: Seq<char>,
    pub email_from_address: Seq<char>,
    pub email_to_addresses: Seq<char>,
}

impl View for Settings {
    type V = SettingsView;

    closed spec fn view(&self) -> SettingsView {
        SettingsView {
            database_server: self.database_server@,
            database_name: self.database_name@,
            database_username: self.database_username@,
            database_password: self.database_password@,
            log_webhook_uri: self.log_webhook_uri@,
            sendgrid_api_key: self.sendgrid_api_key@,
            email_from_name: self.email_from_name@,
            email_from_address: self.email_from_address@,
            email_to_addresses: self.email_to_addresses@,
        }
    }
}

impl SettingsView {
    /// The connection parameters for an application of the given name: the
    /// stored server, database and login; encryption off; the server's
    /// certificate trusted without validation.
    pub open spec fn sql_settings(self, application_name: Seq<char>) -> SqlSettingsView {
        SqlSettingsView {
            host: self.database_server,
            application_name,
            database: self.database_name,
            username: self.database_username,
            password: self.database_password,
            encryption: Encryption::Off,
            trust_certificate: true,
        }
    }

    /// The entries of the destination list, in order and as they stand:
    /// nothing is trimmed, and an entry that occurs twice is there twice.
    pub open spec fn email_entries(self) -> Seq<Seq<char>> {
        split(self.email_to_addresses)
    }

    /// What the mail client's address type makes of each entry of the
    /// destination list, in the entries' order.
    pub open spec fn rulings(self) -> Seq<Result<Email<'static>, Seq<char>>> {
        self.email_entries().map_values(|entry: Seq<char>| address_for(entry))
    }
}

/// The names of the required members, in the order of the record's fields.
pub open spec fn member_names() -> Seq<Seq<char>> {
    seq![
        DATABASE_SERVER@,
        DATABASE_NAME@,
        DATABASE_USERNAME@,
        DATABASE_PASSWORD@,
        LOG_WEBHOOK_URI@,
        SENDGRID_API_KEY@,
        EMAIL_FROM_NAME@,
        EMAIL_FROM_ADDRESS@,
        EMAIL_TO_ADDRESSES@,
    ]
}

/// What a document gives for each required member, in the order of
/// [`member_names`]: the text, or nothing where the member is missing or is no
/// JSON string.
pub open spec fn lookups(members: Map<Seq<char>, Seq<char>>) -> Seq<Option<Seq<char>>> {
    member_names().map_values(
        |name: Seq<char>|
            if members.contains_key(name) {
                Some(members[name])
            } else {
                None
            },
    )
}

/// Whether `index` is the first place at which `found` holds nothing.
pub open spec fn is_first_gap(found: Seq<Option<Seq<char>>>, index: int) -> bool {
    &&& 0 <= index < found.len()
    &&& found[index] is None
    &&& forall|earlier: int| 0 <= earlier < index ==> (#[trigger] found[earlier]) is Some
}

/// The first place at which `found` holds nothing, where there is one.
pub open spec fn first_gap(found: Seq<Option<Seq<char>>>) -> int {
    choose|index: int| is_first_gap(found, index)
}

/// The failure for a member that is missing or is no JSON string.
pub open spec fn member_error(name: Seq<char>) -> SettingsErrorView {
    SettingsErrorView::ConfigurationError(
        NOT_SETTINGS@ + BEFORE_MEMBER@ + name + AFTER_MEMBER@,
    )
}

/// The settings that nine found texts make, or the failure that names the
/// first member for which nothing was found.
pub open spec fn assembled(found: Seq<Option<Seq<char>>>) -> Result<
    SettingsView,
    SettingsErrorView,
>
    recommends
        found.len() == member_names().len(),
{
    if forall|index: int| 0 <= index < found.len() ==> (#[trigger] found[index]) is Some {
        Ok(
            SettingsView {
                database_server: found[0]->0,
                database_name: found[1]->0,
                database_username: found[2]->0,
                database_password: found[3]->0,
                log_webhook_uri: found[4]->0,
                sendgrid_api_key: found[5]->0,
                email_from_name: found[6]->0,
                email_from_address: found[7]->0,
                email_to_addresses: found[8]->0,
            },
        )
    } else {
        Err(member_error(member_names()[first_gap(found)]))
    }
}

/// What loading makes of a settings text.
pub open spec fn loaded_from_text(text: Seq<char>) -> Result<SettingsView, SettingsErrorView> {
    match parsed(text) {
        Ok(document) => assembled(lookups(text_members(document))),
        Err(message) => Err(SettingsErrorView::ConfigurationError(NOT_SETTINGS@ + message)),
    }
}

/// What loading makes of what the environment holds.
pub open spec fn loaded(lookup: LookupView) -> Result<SettingsView, SettingsErrorView> {
    match lookup {
        LookupView::Present(text) => loaded_from_text(text),
        LookupView::NotPresent => Err(
            SettingsErrorView::ConfigurationError(NO_VARIABLE@ + NOT_PRESENT@),
        ),
        LookupView::NotUnicode => Err(
            SettingsErrorView::ConfigurationError(NO_VARIABLE@ + NOT_UNICODE@),
        ),
    }
}

/// The outcome of a load as contracts see it.
pub open spec fn outcome_view(outcome: Result<Settings, SettingsError>) -> Result<
    SettingsView,
    SettingsErrorView,
> {
    match outcome {
        Ok(settings) => Ok(settings@),
        Err(error) => Err(error@),
    }
}

/// The text of an optional string.
pub open spec fn text_of(value: Option<String>) -> Option<Seq<char>> {
    match value {
        Some(text) => Some(text@),
        None => None,
    }
}

/// A document that holds every required member as a JSON string loads, and
/// each field is then the text of the member of its name, unchanged.
pub proof fn lemma_complete_document_loads(members: Map<Seq<char>, Seq<char>>)
    requires
        forall|index: int|
            0 <= index < member_names().len() ==> members.contains_key(
                #[trigger] member_names()[index],
            ),
    ensures
        assembled(lookups(members)) == Ok::<SettingsView, SettingsErrorView>(
            SettingsView {
                database_server: members[DATABASE_SERVER@],
                database_name: members[DATABASE_NAME@],
                database_username: members[DATABASE_USERNAME@],
                database_password: members[DATABASE_PASSWORD@],
                log_webhook_uri: members[LOG_WEBHOOK_URI@],
                sendgrid_api_key: members[SENDGRID_API_KEY@],
                email_from_name: members[EMAIL_FROM_NAME@],
                email_from_address: members[EMAIL_FROM_ADDRESS@],
                email_to_addresses: members[EMAIL_TO_ADDRESSES@],
            },
        ),
{
    let found = lookups(members);
    assert forall|index: int| 0 <= index < found.len() implies (#[trigger] found[index]) is Some by {
        assert(members.contains_key(member_names()[index]));
    }
}

/// A document that lacks a required member, or holds it as something other
/// than a JSON string, does not load: the failure is a configuration error
/// that names the first such member.
pub proof fn lemma_incomplete_document_fails(members: Map<Seq<char>, Seq<char>>, index: int)
    requires
        0 <= index < member_names().len(),
        !members.contains_key(member_names()[index]),
        forall|earlier: int|
            0 <= earlier < index ==> members.contains_key(#[trigger] member_names()[earlier]),
    ensures
        assembled(lookups(members)) == Err::<SettingsView, SettingsErrorView>(
            member_error(member_names()[index]),
        ),
{
    let found = lookups(members);
    assert forall|earlier: int| 0 <= earlier < index implies (#[trigger] found[earlier]) is Some by {
        assert(members.contains_key(member_names()[earlier]));
    }
    lemma_first_gap_is(found, index);
}

/// Loading fails in one way only: whatever the environment holds, a failure
/// is a configuration error.
pub proof fn lemma_load_fails_with_configuration_error(lookup: LookupView)
    ensures
        loaded(lookup) matches Err(error) ==> error is ConfigurationError,
{
}

/// Where a first gap is found, it is the one [`first_gap`] speaks of.
pub proof fn lemma_first_gap_is(found: Seq<Option<Seq<char>>>, index: int)
    requires
        is_first_gap(found, index),
    ensures
        first_gap(found) == index,
{
    let chosen = first_gap(found);
    assert(is_first_gap(found, chosen));
    if chosen < index {
        assert(found[chosen] is Some);
    } else if index < chosen {
        assert(found[index] is Some);
    }
}

impl Settings {
    /// Loads the settings from what the environment holds under
    /// [`SECRET_BLOB`]. Without a text there are no settings; with one, see
    /// [`Settings::from_json`].
    pub fn new(secret_blob: Lookup) -> (outcome: Result<Settings, SettingsError>)
        ensures
            outcome_view(outcome) == loaded(secret_blob@),
    {
        match secret_blob {
            Lookup::Present(text) => Settings::from_json(text.as_str()),
            Lookup::NotPresent => Err(
                SettingsError::ConfigurationError(String::from_str(NO_VARIABLE).concat(NOT_PRESENT)),
            ),
            Lookup::NotUnicode => Err(
                SettingsError::ConfigurationError(String::from_str(NO_VARIABLE).concat(NOT_UNICODE)),
            ),
        }
    }

    /// Loads the settings from a JSON text. A text that is not JSON fails
    /// with the parser's message; a JSON document loads as
    /// [`Settings::from_document`] says.
    pub fn from_json(text: &str) -> (outcome: Result<Settings, SettingsError>)
        ensures
            outcome_view(outcome) == loaded_from_text(text@),
    {
        match parse(text) {
            Ok(document) => Settings::from_document(&document),
            Err(message) => Err(
                SettingsError::ConfigurationError(
                    String::from_str(NOT_SETTINGS).concat(message.as_str()),
                ),
            ),
        }
    }

    /// Loads the settings from a parsed document: looks up each required
    /// member by its name and assembles what was found. Members of other
    /// names are not looked at.
    pub fn from_document(document: &Value) -> (outcome: Result<Settings, SettingsError>)
        ensures
            outcome_view(outcome) == assembled(lookups(text_members(*document))),
    {
        let database_server = owned(text_member(document, DATABASE_SERVER));
        let database_name = owned(text_member(document, DATABASE_NAME));
        let database_username = owned(text_member(document, DATABASE_USERNAME));
        let database_password = owned(text_member(document, DATABASE_PASSWORD));
        let log_webhook_uri = owned(text_member(document, LOG_WEBHOOK_URI));
        let sendgrid_api_key = owned(text_member(document, SENDGRID_API_KEY));
        let email_from_name = owned(text_member(document, EMAIL_FROM_NAME));
        let email_from_address = owned(text_member(document, EMAIL_FROM_ADDRESS));
        let email_to_addresses = owned(text_member(document, EMAIL_TO_ADDRESSES));
        assert(lookups(text_members(*document)) =~= seq![
            text_of(database_server),
            text_of(database_name),
            text_of(database_username),
            text_of(database_password),
            text_of(log_webhook_uri),
            text_of(sendgrid_api_key),
            text_of(email_from_name),
            text_of(email_from_address),
            text_of(email_to_addresses),
        ]);
        Settings::from_found(
            database_server,
            database_name,
            database_username,
            database_password,
            log_webhook_uri,
            sendgrid_api_key,
            email_from_name,
            email_from_address,
            email_to_addresses,
        )
    }

    /// Assembles the settings from what was found for each required member.
    /// All nine make the settings, each field the text that was found for it.
    /// Otherwise the failure names the first member, in the order of the
    /// parameters, for which nothing was found.
    pub fn from_found(
        database_server: Option<String>,
        database_name: Option<String>,
        database_username: Option<String>,
        database_password: Option<String>,
        log_webhook_uri: Option<String>,
        sendgrid_api_key: Option<String>,
        email_from_name: Option<String>,
        email_from_address: Option<String>,
        email_to_addresses: Option<String>,
    ) -> (outcome: Result<Settings, SettingsError>)
        ensures
            outcome_view(outcome) == assembled(
                seq![
                    text_of(database_server),
                    text_of(database_name),
                    text_of(database_username),
                    text_of(database_password),
                    text_of(log_webhook_uri),
                    text_of(sendgrid_api_key),
                    text_of(email_from_name),
                    text_of(email_from_address),
                    text_of(email_to_addresses),
                ],
            ),
    {
        let ghost found = seq![
            text_of(database_server),
            text_of(database_name),
            text_of(database_username),
            text_of(database_password),
            text_of(log_webhook_uri),
            text_of(sendgrid_api_key),
            text_of(email_from_name),
            text_of(email_from_address),
            text_of(email_to_addresses),
        ];
        let database_server = match database_server {
            Some(text) => text,
            None => {
                proof {
                    lemma_first_gap_is(found, 0);
                }
                return Err(missing(DATABASE_SERVER));
            },
        };
        let database_name = match database_name {
            Some(text) => text,
            None => {
                proof {
                    lemma_first_gap_is(found, 1);
                }
                return Err(missing(DATABASE_NAME));
            },
        };
        let database_username = match database_username {
            Some(text) => text,
            None => {
                proof {
                    lemma_first_gap_is(found, 2);
                }
                return Err(missing(DATABASE_USERNAME));
            },
        };
        let database_password = match database_password {
            Some(text) => text,
            None => {
                proof {
                    lemma_first_gap_is(found, 3);
                }
                return Err(missing(DATABASE_PASSWORD));
            },
        };
        let log_webhook_uri = match log_webhook_uri {
            Some(text) => text,
            None => {
                proof {
                    lemma_first_gap_is(found, 4);
                }
                return Err(missing(LOG_WEBHOOK_URI));
            },
        };
        let sendgrid_api_key = match sendgrid_api_key {
            Some(text) => text,
            None => {
                proof {
                    lemma_first_gap_is(found, 5);
                }
                return Err(missing(SENDGRID_API_KEY));
            },
        };
        let email_from_name = match email_from_name {
            Some(text) => text,
            None => {
                proof {
                    lemma_first_gap_is(found, 6);
                }
                return Err(missing(EMAIL_FROM_NAME));
            },
        };
        let email_from_address = match email_from_address {
            Some(text) => text,
            None => {
                proof {
                    lemma_first_gap_is(found, 7);
                }
                return Err(missing(EMAIL_FROM_ADDRESS));
            },
        };
        let email_to_addresses = match email_to_addresses {
            Some(text) => text,
            None => {
                proof {
                    lemma_first_gap_is(found, 8);
                }
                return Err(missing(EMAIL_TO_ADDRESSES));
            },
        };
        Ok(
            Settings {
                database_server,
                database_name,
                database_username,
                database_password,
                log_webhook_uri,
                sendgrid_api_key,
                email_from_name,
                email_from_address,
                email_to_addresses,
            },
        )
    }
}

impl Settings {
    /// The parameters of a connection to the database for an application of
    /// the given name, which the server shows for the connection. Any name
    /// will do. The login is a SQL-server login; encryption is off and the
    /// server's certificate is trusted without validation. Neither can be
    /// set from the settings text.
    pub fn sql_settings(&self, application_name: &str) -> (parameters: SqlSettings)
        ensures
            parameters@ == self@.sql_settings(application_name@),
    {
        SqlSettings {
            host: self.database_server.clone(),
            application_name: String::from_str(application_name),
            database: self.database_name.clone(),
            username: self.database_username.clone(),
            password: self.database_password.clone(),
            encryption: Encryption::Off,
            trust_certificate: true,
        }
    }

    /// The configuration that a tiberius client connects with, made from
    /// [`Settings::sql_settings`]: it holds the stored server as host, the
    /// given application name, the stored database and login, encryption off
    /// and trust in any certificate. There is no input on which this fails.
    pub fn get_sql_settings(&self, application_name: &str) -> (outcome: Result<
        Config,
        SettingsError,
    >)
        ensures
            outcome matches Ok(config) && held(config) == self@.sql_settings(
                application_name@,
            ).config(),
    {
        Ok(self.sql_settings(application_name).to_config())
    }

    /// The entries of the destination list: the stored text split at every
    /// comma, in order, nothing trimmed and nothing dropped.
    pub fn email_entries(&self) -> (entries: Vec<&str>)
        ensures
            texts(entries@) == self@.email_entries(),
    {
        split_entries(self.email_to_addresses.as_str())
    }

    /// The destinations of a notification. Every entry of the destination
    /// list, as it stands, is handed to the mail client's address type. Where
    /// that accepts them all, the outcome is the addresses in the entries'
    /// order. Where it refuses one, the outcome is no address at all and the
    /// failure that carries the message of the first refusal.
    pub fn get_email_destinations(&self) -> (outcome: Result<Vec<Email<'_>>, SettingsError>)
        ensures
            gathered_view(outcome) == gathered(self@.rulings()),
    {
        let entries = self.email_entries();
        let mut rulings: Vec<Result<Email<'_>, String>> = Vec::new();
        let count: usize = entries.len();
        for index in 0..count
            invariant
                count == entries.len(),
                texts(entries@) == self@.email_entries(),
                ruling_views(rulings@) == self@.rulings().take(index as int),
        {
            assert(entries[index as int]@ == self@.email_entries()[index as int]) by {
                assert(texts(entries@)[index as int] == entries[index as int]@);
            }
            let ghost before = ruling_views(rulings@);
            let ruling = address(entries[index]);
            assert(ruling_view(ruling) == self@.rulings()[index as int]);
            rulings.push(ruling);
            assert(ruling_views(rulings@) =~= before.push(ruling_view(ruling)));
            assert(ruling_views(rulings@) =~= self@.rulings().take(index + 1));
        }
        assert(self@.rulings().take(count as int) =~= self@.rulings());
        gather(rulings)
    }

    /// Host name or address of the database server.
    pub fn database_server(&self) -> (text: &str)
        ensures
            text@ == self@.database_server,
    {
        self.database_server.as_str()
    }

    /// Name of the database.
    pub fn database_name(&self) -> (text: &str)
        ensures
            text@ == self@.database_name,
    {
        self.database_name.as_str()
    }

    /// Login name for the database.
    pub fn database_username(&self) -> (text: &str)
        ensures
            text@ == self@.database_username,
    {
        self.database_username.as_str()
    }

    /// Login password for the database.
    pub fn database_password(&self) -> (text: &str)
        ensures
            text@ == self@.database_password,
    {
        self.database_password.as_str()
    }

    /// Where log entries are delivered.
    pub fn log_webhook_uri(&self) -> (text: &str)
        ensures
            text@ == self@.log_webhook_uri,
    {
        self.log_webhook_uri.as_str()
    }

    /// The credential for the mail delivery service.
    pub fn sendgrid_api_key(&self) -> (text: &str)
        ensures
            text@ == self@.sendgrid_api_key,
    {
        self.sendgrid_api_key.as_str()
    }

    /// The sender's display name.
    pub fn email_from_name(&self) -> (text: &str)
        ensures
            text@ == self@.email_from_name,
    {
        self.email_from_name.as_str()
    }

    /// The sender's address.
    pub fn email_from_address(&self) -> (text: &str)
        ensures
            text@ == self@.email_from_address,
    {
        self.email_from_address.as_str()
    }

    /// The destination list as it was given: addresses with commas between.
    pub fn email_to_addresses(&self) -> (text: &str)
        ensures
            text@ == self@.email_to_addresses,
    {
        self.email_to_addresses.as_str()
    }
}

/// The failure for a member that is missing or is no JSON string.
fn missing(name: &str) -> (error: SettingsError)
    ensures
        error@ == member_error(name@),
{
    SettingsError::ConfigurationError(
        String::from_str(NOT_SETTINGS).concat(BEFORE_MEMBER).concat(name).concat(AFTER_MEMBER),
    )
}

/// A copy of the text that was found, to keep.
fn owned(found: Option<&str>) -> (kept: Option<String>)
    ensures
        text_of(kept) == match found {
            Some(text) => Some(text@),
            None => None,
        },
{
    match found {
        Some(text) => Some(String::from_str(text)),
        None => None,
    }
}

} // verus!
