//! Command identifiers: 128-bit values, written as UUID text on the wire.

use vstd::prelude::*;

verus! {

/// The identifier of a command: the 128 bits of a UUID, most significant
/// byte first.
#[derive(Clone, Copy, Debug, PartialEq, Eq, Structural)]
pub struct CommandId {
    pub value: u128,
}

/// The value that `uuid::Uuid::parse_str` reads from a text, or `None` where
/// it rejects the text. It depends on the text alone.
pub uninterp spec fn uuid_text_value(text: Seq<char>) -> Option<u128>;

/// Calls `uuid::Uuid::parse_str` on `text` and `Uuid::as_u128` on what it
/// accepts. The contract gives the outcome the name [`uuid_text_value`]; it
/// claims nothing about which texts are accepted.
#[verifier::external_body]
fn parse_uuid(text: &str) -> (parsed: Option<u128>)
    ensures
        parsed == uuid_text_value(text@),
{
    match uuid::Uuid::parse_str(text) {
        Ok(id) => Some(id.as_u128()),
        Err(_) => None,
    }
}

impl CommandId {
    /// The identifier that `text` denotes, if it is the text of a UUID.
    pub fn parse(text: &str) -> (id: Option<CommandId>)
        ensures
            id == Self::spec_parse(text@),
    {
        match parse_uuid(text) {
            Some(value) => Some(CommandId { value }),
            None => None,
        }
    }

    /// The identifier that a text denotes, over what the UUID parser reads
    /// from it.
    pub open spec fn spec_parse(text: Seq<char>) -> Option<CommandId> {
        match uuid_text_value(text) {
            Some(value) => Some(CommandId { value }),
            None => None,
        }
    }
}

} // verus!
