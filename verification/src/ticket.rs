//! Tickets: the redeemable text that a share produces and a fetch consumes.

use iroh_base::ticket::BlobTicket;
use std::str::FromStr;
use vstd::prelude::*;

verus! {

/// The ticket type of `iroh_base`, carried through this library unopened.
#[verifier::external_type_specification]
#[verifier::external_body]
pub struct ExBlobTicket(BlobTicket);

/// Why a text is not a ticket.
#[derive(Clone, Copy, Debug, PartialEq, Eq, Structural)]
pub enum TicketParseError {
    /// The text does not start with the ticket prefix.
    WrongPrefix,
    /// What follows the prefix is not base32.
    Undecodable,
    /// The decoded bytes are not a serialized ticket.
    Malformed,
    /// The decoded ticket failed the check that follows deserialization:
    /// it names no way to reach its provider.
    Unaddressed,
}

/// What `BlobTicket::from_str` makes of a text.
pub uninterp spec fn ticket_decoding(text: Seq<char>) -> Result<BlobTicket, TicketParseError>;

/// The text that `BlobTicket::to_string` gives for a ticket.
pub uninterp spec fn ticket_text(ticket: BlobTicket) -> Seq<char>;

/// Whether a text starts with the four characters that every ticket text
/// starts with.
pub open spec fn has_ticket_prefix(text: Seq<char>) -> bool {
    &&& text.len() >= 4
    &&& text[0] == 'b'
    &&& text[1] == 'l'
    &&& text[2] == 'o'
    &&& text[3] == 'b'
}

/// Calls `BlobTicket::from_str` of `iroh_base` and tells its four errors
/// apart. The contract names the result and claims one thing more of it:
/// the prefix error comes for the texts that do not start with `blob`, and
/// for no others.
#[verifier::external_body]
fn decode_ticket(text: &str) -> (r: Result<BlobTicket, TicketParseError>)
    ensures
        r == ticket_decoding(text@),
        (r matches Err(TicketParseError::WrongPrefix)) <==> !has_ticket_prefix(text@),
{
    match BlobTicket::from_str(text) {
        Ok(ticket) => Ok(ticket),
        Err(iroh_base::ticket::Error::Kind { .. }) => Err(TicketParseError::WrongPrefix),
        Err(iroh_base::ticket::Error::Encoding(_)) => Err(TicketParseError::Undecodable),
        Err(iroh_base::ticket::Error::Postcard(_)) => Err(TicketParseError::Malformed),
        Err(iroh_base::ticket::Error::Verify(_)) => Err(TicketParseError::Unaddressed),
    }
}

/// Calls `BlobTicket::to_string` of `iroh_base`. The contract names the
/// result and claims that it starts with `blob`.
#[verifier::external_body]
fn encode_ticket(ticket: &BlobTicket) -> (r: String)
    ensures
        r@ == ticket_text(*ticket),
        has_ticket_prefix(r@),
{
    ticket.to_string()
}

/// Calls `BlobTicket::clone` of `iroh_base`, which the type derives. The
/// contract claims that the copy equals the ticket it was made from.
#[verifier::external_body]
pub(crate) fn clone_ticket(ticket: &BlobTicket) -> (r: BlobTicket)
    ensures
        r == *ticket,
{
    ticket.clone()
}

/// Parses a ticket from its text form. Text without the ticket prefix is
/// rejected as such, and nothing else is.
pub fn parse_ticket(text: &str) -> (r: Result<BlobTicket, TicketParseError>)
    ensures
        r == ticket_decoding(text@),
        (r matches Err(TicketParseError::WrongPrefix)) <==> !has_ticket_prefix(text@),
{
    decode_ticket(text)
}

/// Writes a ticket in its text form.
pub fn render_ticket(ticket: &BlobTicket) -> (r: String)
    ensures
        r@ == ticket_text(*ticket),
        has_ticket_prefix(r@),
{
    encode_ticket(ticket)
}

/// Parses the text form of a ticket again. Whatever comes of it, the prefix
/// of a rendered ticket is never what is wrong.
pub fn reparse_ticket(ticket: &BlobTicket) -> (r: Result<BlobTicket, TicketParseError>)
    ensures
        r == ticket_decoding(ticket_text(*ticket)),
        !(r matches Err(TicketParseError::WrongPrefix)),
{
    let text = render_ticket(ticket);
    parse_ticket(text.as_str())
}

} // verus!
