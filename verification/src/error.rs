//! The two ways in which loading or reading the settings can fail.
use vstd::prelude::*;
use vstd::string::*;

verus! {

/// A failure, with a message meant for a person.
#[derive(Debug)]
pub enum SettingsError {
    /// The settings text could not be had, or it does not describe settings.
    ConfigurationError(String),
    /// An entry of the destination list was refused as a mail address. The
    /// message says which.
    EmailAddressError(String),
}

/// A [`SettingsError`] as contracts see it: the kind and the message's characters.
pub enum SettingsErrorView {
    ConfigurationError(Seq<char>),
    EmailAddressError(Seq<char>),
}

impl View for SettingsError {
    type V = SettingsErrorView;

    open spec fn view(&self) -> SettingsErrorView {
        match self {
            SettingsError::ConfigurationError(message) => SettingsErrorView::ConfigurationError(
                message@,
            ),
            SettingsError::EmailAddressError(message) => SettingsErrorView::EmailAddressError(
                message@,
            ),
        }
    }
}

impl SettingsErrorView {
    /// The message, whatever the kind.
    pub open spec fn message(self) -> Seq<char> {
        match self {
            SettingsErrorView::ConfigurationError(message) => message,
            SettingsErrorView::EmailAddressError(message) => message,
        }
    }
}

impl SettingsError {
    /// The message that describes the failure.
    pub fn message(&self) -> (text: &str)
        ensures
            text@ == self@.message(),
    {
        match self {
            SettingsError::ConfigurationError(message) => message.as_str(),
            SettingsError::EmailAddressError(message) => message.as_str(),
        }
    }

    /// Whether the settings text was missing or unusable.
    pub fn is_configuration_error(&self) -> (yes: bool)
        ensures
            yes == (self@ is ConfigurationError),
    {
        match self {
            SettingsError::ConfigurationError(_) => true,
            SettingsError::EmailAddressError(_) => false,
        }
    }

    /// Whether a destination entry was refused as a mail address.
    pub fn is_email_address_error(&self) -> (yes: bool)
        ensures
            yes == (self@ is EmailAddressError),
    {
        match self {
            SettingsError::ConfigurationError(_) => false,
            SettingsError::EmailAddressError(_) => true,
        }
    }
}

} // verus!
