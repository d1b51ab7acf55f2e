//! The mail client's address type, which `sendgrid` provides.
//!
//! Nothing here is proved: the items of this file say what the library takes
//! on trust from `sendgrid`.
use sendgrid::v3::Email;
use vstd::prelude::*;

verus! {

/// `sendgrid::v3::Email`, an address with an optional display name. Its
/// inside is not looked at.
#[verifier::external_type_specification]
#[verifier::external_body]
pub struct ExEmail<'a>(sendgrid::v3::Email<'a>);

/// What the mail client's address type makes of an entry: the address, or the
/// message with which it refuses the entry.
pub uninterp spec fn address_for(entry: Seq<char>) -> Result<Email<'static>, Seq<char>>;

/// Calls `Email::new` on the entry and hands on what it made. Taken on trust:
/// the outcome is a function of the entry's characters alone, named
/// [`address_for`]. Which entries are refused is the address type's to say and
/// is not stated here; the `Email::new` that this is built with refuses none.
#[verifier::external_body]
pub(crate) fn address<'a>(entry: &'a str) -> (outcome: Result<Email<'a>, String>)
    ensures
        match outcome {
            Ok(made) => address_for(entry@) == Ok::<Email<'static>, Seq<char>>(made),
            Err(message) => address_for(entry@) == Err::<Email<'static>, Seq<char>>(message@),
        },
{
    Ok(Email::new(entry))
}

} // verus!
