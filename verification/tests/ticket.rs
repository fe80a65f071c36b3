use iroh_base::hash::BlobFormat;
use iroh_base::key::PublicKey;
use iroh_base::node_addr::NodeAddr;
use iroh_base::ticket::BlobTicket;
use sendme_worker::ticket::{parse_ticket, render_ticket, reparse_ticket, TicketParseError};
use std::str::FromStr;

const NODE: &str = "ae58ff8833241ac82d6ff7611046ed67b5072d142c588d0063e942d9a75502b6";
const HASH: &str = "0b84d358e4c8be6c38626b2182ff575818ba6bd3f4b90464994be14cb354a072";

fn ticket(addresses: &[&str], format: BlobFormat) -> BlobTicket {
    let node = PublicKey::from_str(NODE).unwrap();
    let addresses = addresses.iter().map(|a| a.parse().unwrap()).collect();
    let hash = iroh_base::hash::Hash::from_str(HASH).unwrap();
    BlobTicket::new(NodeAddr::from_parts(node, None, addresses), hash, format).unwrap()
}

fn wire_bytes_without_addresses() -> Vec<u8> {
    let mut bytes = vec![0u8];
    bytes.extend_from_slice(PublicKey::from_str(NODE).unwrap().as_bytes());
    bytes.extend_from_slice(&[0, 0, 0]);
    bytes.extend_from_slice(iroh_base::hash::Hash::from_str(HASH).unwrap().as_bytes());
    bytes
}

#[test]
fn text_without_the_prefix_is_rejected_as_such() {
    assert_eq!(parse_ticket("not-a-ticket"), Err(TicketParseError::WrongPrefix));
    assert_eq!(parse_ticket(""), Err(TicketParseError::WrongPrefix));
    assert_eq!(parse_ticket("blo"), Err(TicketParseError::WrongPrefix));
    assert_eq!(parse_ticket("BLOBaaaa"), Err(TicketParseError::WrongPrefix));
    assert_eq!(parse_ticket(" blob"), Err(TicketParseError::WrongPrefix));
    assert_eq!(parse_ticket("nodeaaaa"), Err(TicketParseError::WrongPrefix));
}

#[test]
fn text_that_is_not_base32_is_undecodable() {
    assert_eq!(parse_ticket("blob!!!!"), Err(TicketParseError::Undecodable));
    assert_eq!(parse_ticket("blob0189"), Err(TicketParseError::Undecodable));
    assert_eq!(parse_ticket("blob-a-ticket"), Err(TicketParseError::Undecodable));
}

#[test]
fn bytes_that_are_no_ticket_are_malformed() {
    assert_eq!(parse_ticket("blob"), Err(TicketParseError::Malformed));
    let text = format!("blob{}", iroh_base::base32::fmt([7u8, 7, 7]));
    assert_eq!(parse_ticket(&text), Err(TicketParseError::Malformed));
}

#[test]
fn truncated_ticket_is_rejected() {
    let text = render_ticket(&ticket(&["127.0.0.1:1234"], BlobFormat::Raw));
    let cut = &text[..text.len() / 2];
    assert!(parse_ticket(cut).is_err());
    assert_ne!(parse_ticket(cut), Err(TicketParseError::WrongPrefix));
    let bytes = wire_bytes_without_addresses();
    let half = format!("blob{}", iroh_base::base32::fmt(&bytes[..40]));
    assert_eq!(parse_ticket(&half), Err(TicketParseError::Malformed));
}

#[test]
fn ticket_without_addresses_is_rejected() {
    let text = format!("blob{}", iroh_base::base32::fmt(wire_bytes_without_addresses()));
    assert_eq!(parse_ticket(&text), Err(TicketParseError::Malformed));
}

#[test]
fn the_same_bytes_with_an_address_are_a_ticket() {
    let mut bytes = wire_bytes_without_addresses();
    bytes.splice(34..35, [1u8, 0, 127, 0, 0, 1, 0xd2, 0x09]);
    let text = format!("blob{}", iroh_base::base32::fmt(bytes));
    assert_eq!(parse_ticket(&text), Ok(ticket(&["127.0.0.1:1234"], BlobFormat::Raw)));
    assert_eq!(text, render_ticket(&ticket(&["127.0.0.1:1234"], BlobFormat::Raw)));
}

#[test]
fn parse_gives_the_ticket_that_the_text_names() {
    let expected = ticket(&["127.0.0.1:1234"], BlobFormat::HashSeq);
    let parsed = parse_ticket(&expected.to_string()).unwrap();
    assert_eq!(parsed, expected);
    assert_eq!(parsed.hash(), iroh_base::hash::Hash::from_str(HASH).unwrap());
    assert_eq!(parsed.format(), BlobFormat::HashSeq);
    assert_eq!(parsed.node_addr().node_id, PublicKey::from_str(NODE).unwrap());
}

#[test]
fn render_gives_the_text_form() {
    let value = ticket(&["127.0.0.1:1234"], BlobFormat::Raw);
    let text = render_ticket(&value);
    assert_eq!(text, value.to_string());
    assert!(text.starts_with("blob"));
    assert_eq!(text, text.to_lowercase());
    assert!(text.len() > 4);
}

#[test]
fn parse_of_render_is_the_ticket() {
    let values = [
        ticket(&["127.0.0.1:1234"], BlobFormat::Raw),
        ticket(&["127.0.0.1:1234"], BlobFormat::HashSeq),
        ticket(&["10.0.0.7:80", "[::1]:4433", "192.168.1.20:65535"], BlobFormat::Raw),
    ];
    for value in values {
        assert_eq!(parse_ticket(&render_ticket(&value)), Ok(value.clone()));
        assert_eq!(reparse_ticket(&value), Ok(value));
    }
}

#[test]
fn different_tickets_have_different_texts() {
    let raw = ticket(&["127.0.0.1:1234"], BlobFormat::Raw);
    let seq = ticket(&["127.0.0.1:1234"], BlobFormat::HashSeq);
    assert_ne!(render_ticket(&raw), render_ticket(&seq));
    assert_ne!(parse_ticket(&render_ticket(&raw)), Ok(seq));
}
