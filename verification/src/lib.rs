//! Application settings delivered as one JSON text: database connection
//! parameters, mail notification parameters and a log webhook address.
//!
//! [`settings::Settings`] is built from the text once and never changes. Two
//! accessors turn parts of it into what a database client and a mail client
//! take as input.
pub mod config;
pub mod database;
pub mod destinations;
pub mod document;
pub mod entries;
pub mod error;
pub mod mail;
pub mod settings;
