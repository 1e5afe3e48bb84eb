//! Reading the text token that tells a receiver where to fetch content from.
use vstd::prelude::*;

use crate::error::TransferError;
use crate::hash::ContentHash;
use crate::interconnect::{BlobFormat, PeerAddr};

verus! {

/// What a ticket names: the peer, the content hash and the content format.
#[derive(Debug, Clone, PartialEq, Eq)]
pub struct TicketInfo {
    pub peer: PeerAddr,
    pub hash: ContentHash,
    pub format: BlobFormat,
}

/// A ticket's parts as plain values: node id, relay URL, direct addresses,
/// hash, and whether the content is a hash sequence.
pub open spec fn ticket_view(t: TicketInfo) -> (
    Seq<u8>,
    Option<Seq<char>>,
    Seq<Seq<char>>,
    Seq<u8>,
    bool,
) {
    (
        t.peer.node_id@,
        match t.peer.relay_url {
            Some(u) => Some(u@),
            None => None,
        },
        t.peer.direct_addresses@.map_values(|a: String| a@),
        t.hash.bytes@,
        t.format == BlobFormat::HashSeq,
    )
}

/// The parts that `iroh_blobs::ticket::BlobTicket` reads from the text, if it
/// accepts it; a function of the text alone.
pub uninterp spec fn ticket_parsed(s: Seq<char>) -> Option<
    (Seq<u8>, Option<Seq<char>>, Seq<Seq<char>>, Seq<u8>, bool),
>;

/// Relies on `iroh_blobs::ticket::BlobTicket::from_str`, the ticket decoder;
/// the decoded ticket is converted to plain values (the first relay URL and
/// the direct addresses as text).
#[verifier::external_body]
fn decode_ticket(s: &str) -> (r: Option<TicketInfo>)
    ensures
        match r {
            Some(t) => ticket_parsed(s@) == Some(ticket_view(t)),
            None => ticket_parsed(s@) is None,
        },
{
    let t = <iroh_blobs::ticket::BlobTicket as std::str::FromStr>::from_str(s).ok()?;
    let addr = t.addr();
    let peer = PeerAddr {
        node_id: *addr.id.as_bytes(),
        relay_url: addr.relay_urls().next().map(|u| u.to_string()),
        direct_addresses: addr.ip_addrs().map(|a| a.to_string()).collect(),
    };
    let format = match t.format() {
        iroh_blobs::BlobFormat::Raw => BlobFormat::Raw,
        iroh_blobs::BlobFormat::HashSeq => BlobFormat::HashSeq,
    };
    Some(TicketInfo { peer, hash: ContentHash { bytes: *t.hash().as_bytes() }, format })
}

/// Reads a ticket; text that is not a ticket gives `TicketParseError`.
pub fn parse_ticket(s: &str) -> (r: Result<TicketInfo, TransferError>)
    ensures
        r is Ok <==> ticket_parsed(s@) is Some,
        r matches Ok(t) ==> ticket_parsed(s@) == Some(ticket_view(t)),
        r is Err ==> r == Err::<TicketInfo, TransferError>(TransferError::TicketParseError),
{
    match decode_ticket(s) {
        Some(t) => Ok(t),
        None => Err(TransferError::TicketParseError),
    }
}

} // verus!
