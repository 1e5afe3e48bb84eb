use iroh::{EndpointAddr, PublicKey, RelayUrl, SecretKey, TransportAddr};
use iroh_blobs::ticket::BlobTicket;
use iroh_blobs::BlobFormat;
use sendme_core::error::TransferError;
use sendme_core::hash::ContentHash;
use sendme_core::interconnect::{apply_options, AddrInfoOptions, PeerAddr};
use sendme_core::ticket::parse_ticket;
use std::str::FromStr;

fn to_endpoint_addr(peer: &PeerAddr) -> EndpointAddr {
    let id = PublicKey::from_bytes(&peer.node_id).unwrap();
    let mut addrs = Vec::new();
    if let Some(url) = &peer.relay_url {
        addrs.push(TransportAddr::Relay(RelayUrl::from_str(url).unwrap()));
    }
    for a in &peer.direct_addresses {
        addrs.push(TransportAddr::Ip(a.parse().unwrap()));
    }
    EndpointAddr::from_parts(id, addrs)
}

fn sample_peer() -> PeerAddr {
    let key = SecretKey::from_bytes(&[3u8; 32]);
    PeerAddr {
        node_id: *key.public().as_bytes(),
        relay_url: Some("https://relay.example.org./".to_string()),
        direct_addresses: vec!["192.0.2.7:4433".to_string()],
    }
}

#[test]
fn ticket_round_trip_for_every_option() {
    let options = [
        AddrInfoOptions::Id,
        AddrInfoOptions::Relay,
        AddrInfoOptions::Addresses,
        AddrInfoOptions::RelayAndAddresses,
    ];
    for opts in options {
        for format in [BlobFormat::Raw, BlobFormat::HashSeq] {
            let mut peer = sample_peer();
            apply_options(&mut peer, opts);
            let addr = to_endpoint_addr(&peer);
            let hash = iroh_blobs::Hash::new(b"hello");
            let text = BlobTicket::new(addr.clone(), hash, format).to_string();
            let parsed = BlobTicket::from_str(&text).unwrap();
            assert_eq!(parsed.addr(), &addr);
            assert_eq!(parsed.hash(), hash);
            assert_eq!(parsed.format(), format);
        }
    }
}

#[test]
fn library_reads_tickets_for_every_option() {
    let options = [
        AddrInfoOptions::Id,
        AddrInfoOptions::Relay,
        AddrInfoOptions::Addresses,
        AddrInfoOptions::RelayAndAddresses,
    ];
    for opts in options {
        for (format, expected) in [
            (BlobFormat::Raw, sendme_core::interconnect::BlobFormat::Raw),
            (BlobFormat::HashSeq, sendme_core::interconnect::BlobFormat::HashSeq),
        ] {
            let mut peer = sample_peer();
            apply_options(&mut peer, opts);
            let hash = iroh_blobs::Hash::new(b"content");
            let text = BlobTicket::new(to_endpoint_addr(&peer), hash, format).to_string();
            let info = parse_ticket(&text).unwrap();
            assert_eq!(info.peer, peer);
            assert_eq!(info.hash, ContentHash { bytes: *hash.as_bytes() });
            assert_eq!(info.format, expected);
        }
    }
}

#[test]
fn garbage_is_not_a_ticket() {
    assert_eq!(parse_ticket("blobnotaticket"), Err(TransferError::TicketParseError));
    assert_eq!(parse_ticket(""), Err(TransferError::TicketParseError));
}
