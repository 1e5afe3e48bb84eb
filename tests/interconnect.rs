use sendme_core::hash::{print_hash, staging_dir_name, ContentHash};
use sendme_core::interconnect::{
    apply_options, needs_discovery, AddrInfoOptions, Format, InvalidRelayUrl, PeerAddr,
    RelayModeOption,
};
use std::str::FromStr;

fn full_addr() -> PeerAddr {
    PeerAddr {
        node_id: [7; 32],
        relay_url: Some("https://relay.example/".to_string()),
        direct_addresses: vec!["192.0.2.1:4433".to_string(), "[2001:db8::1]:4433".to_string()],
    }
}

#[test]
fn options_project_the_address() {
    let mut a = full_addr();
    apply_options(&mut a, AddrInfoOptions::RelayAndAddresses);
    assert_eq!(a, full_addr());

    let mut a = full_addr();
    apply_options(&mut a, AddrInfoOptions::Relay);
    assert_eq!(a.relay_url, full_addr().relay_url);
    assert!(a.direct_addresses.is_empty());

    let mut a = full_addr();
    apply_options(&mut a, AddrInfoOptions::Addresses);
    assert_eq!(a.relay_url, None);
    assert_eq!(a.direct_addresses, full_addr().direct_addresses);

    let mut a = full_addr();
    apply_options(&mut a, AddrInfoOptions::Id);
    assert_eq!(a.relay_url, None);
    assert!(a.direct_addresses.is_empty());
    assert_eq!(a.node_id, [7; 32]);
    assert!(needs_discovery(&a));
    assert!(!needs_discovery(&full_addr()));
}

#[test]
fn default_options_and_format() {
    assert_eq!(AddrInfoOptions::default(), AddrInfoOptions::Id);
    assert_eq!(Format::default(), Format::Hex);
}

#[test]
fn format_names_parse_in_any_case() {
    assert_eq!(Format::parse("hex"), Some(Format::Hex));
    assert_eq!(Format::parse("HeX"), Some(Format::Hex));
    assert_eq!(Format::parse("CID"), Some(Format::Cid));
    assert_eq!(Format::parse("hexa"), None);
    assert_eq!(Format::parse(""), None);
    assert!(Format::from_str("cid").is_ok());
    assert!(Format::from_str("base32").is_err());
    assert_eq!(Format::Hex.name(), "hex");
    assert_eq!(Format::Cid.name(), "cid");
}

#[test]
fn hashes_print_as_lowercase_hex() {
    let mut bytes = [0u8; 32];
    bytes[0] = 0xab;
    bytes[1] = 0x01;
    bytes[31] = 0xf0;
    let h = ContentHash { bytes };
    let expected = format!("ab01{}f0", "00".repeat(29));
    assert_eq!(print_hash(&h, Format::Hex), expected);
    assert_eq!(print_hash(&h, Format::Cid), expected);
    assert_eq!(staging_dir_name(&h), format!(".sendme-get-{}", expected));
}

#[test]
fn relay_options_parse() {
    assert_eq!(RelayModeOption::parse("disabled"), Ok(RelayModeOption::Disabled));
    assert_eq!(RelayModeOption::parse("default"), Ok(RelayModeOption::Default));
    assert_eq!(
        RelayModeOption::parse("https://relay.example.org/"),
        Ok(RelayModeOption::Custom("https://relay.example.org/".to_string()))
    );
    // The URL is kept as parsed: scheme and host lowered, root path added.
    assert_eq!(
        RelayModeOption::parse("HTTPS://Relay.Example.org"),
        Ok(RelayModeOption::Custom("https://relay.example.org/".to_string()))
    );
    assert_eq!(RelayModeOption::parse("not a url"), Err(InvalidRelayUrl));
    assert_eq!(RelayModeOption::parse(""), Err(InvalidRelayUrl));
    assert!(RelayModeOption::from_str("Default").is_err());
    assert_eq!(RelayModeOption::Disabled.name(), "disabled");
    assert_eq!(RelayModeOption::Custom("https://r.example/".to_string()).name(), "https://r.example/");
}
