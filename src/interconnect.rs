//! Values exchanged between the presentation layer and the transfer flows:
//! hash formats, the peer-address model of a ticket, and view updates.
use vstd::prelude::*;

use crate::progress::ViewProgress;

verus! {

/// How a content hash is printed.
#[derive(Debug, Clone, Copy, PartialEq, Eq, Structural)]
pub enum Format {
    Hex,
    Cid,
}

impl Default for Format {
    fn default() -> (r: Self)
        ensures
            r == Format::Hex,
    {
        Format::Hex
    }
}

/// `s` equals the lowercase ASCII word `word` once its ASCII capitals are lowered.
pub open spec fn equals_ignoring_ascii_case(s: Seq<char>, word: Seq<char>) -> bool {
    &&& s.len() == word.len()
    &&& forall|i: int|
        0 <= i < s.len() ==> (#[trigger] s[i] == word[i] || ('A' <= s[i] <= 'Z' && (s[i] as u32)
            + 32 == (word[i] as u32)))
}

pub open spec fn format_from_text(s: Seq<char>) -> Option<Format> {
    if equals_ignoring_ascii_case(s, seq!['h', 'e', 'x']) {
        Some(Format::Hex)
    } else if equals_ignoring_ascii_case(s, seq!['c', 'i', 'd']) {
        Some(Format::Cid)
    } else {
        None
    }
}

/// Compares `s` with a lowercase ASCII word, ignoring the case of ASCII letters in `s`.
fn matches_word(s: &str, word: &str) -> (r: bool)
    requires
        forall|i: int| 0 <= i < word@.len() ==> 'a' <= #[trigger] word@[i] <= 'z',
    ensures
        r == equals_ignoring_ascii_case(s@, word@),
{
    let n = s.unicode_len();
    if n != word.unicode_len() {
        return false;
    }
    let mut i: usize = 0;
    while i < n
        invariant
            n == s@.len(),
            n == word@.len(),
            0 <= i <= n,
            forall|j: int| 0 <= j < word@.len() ==> 'a' <= #[trigger] word@[j] <= 'z',
            forall|j: int|
                0 <= j < i ==> (#[trigger] s@[j] == word@[j] || ('A' <= s@[j] <= 'Z' && (s@[j] as u32)
                    + 32 == (word@[j] as u32))),
        decreases n - i,
    {
        let c = s.get_char(i);
        let w = word.get_char(i);
        let same = c == w || ('A' <= c && c <= 'Z' && (c as u32) + 32 == (w as u32));
        if !same {
            return false;
        }
        i += 1;
    }
    true
}

/// A hash format that its name does not denote.
#[derive(Debug, Clone, Copy, PartialEq, Eq)]
pub struct UnknownFormat;

impl Format {
    /// Reads `hex` or `cid`, in any ASCII case.
    pub fn parse(s: &str) -> (r: Option<Format>)
        ensures
            r == format_from_text(s@),
    {
        proof {
            reveal_strlit("hex");
            reveal_strlit("cid");
        }
        if matches_word(s, "hex") {
            Some(Format::Hex)
        } else if matches_word(s, "cid") {
            Some(Format::Cid)
        } else {
            None
        }
    }

    /// The lowercase name of the format.
    pub fn name(&self) -> (r: &'static str)
        ensures
            *self == Format::Hex ==> r@ == "hex"@,
            *self == Format::Cid ==> r@ == "cid"@,
    {
        match self {
            Format::Hex => "hex",
            Format::Cid => "cid",
        }
    }
}

impl std::str::FromStr for Format {
    type Err = UnknownFormat;

    fn from_str(s: &str) -> Result<Format, UnknownFormat> {
        match Format::parse(s) {
            Some(f) => Ok(f),
            None => Err(UnknownFormat),
        }
    }
}

/// Which parts of a peer address are embedded in a ticket.
#[derive(Debug, Clone, Copy, PartialEq, Eq, Structural)]
pub enum AddrInfoOptions {
    /// Only the node identity; the receiver falls back to discovery.
    Id,
    /// The identity, the relay hint and the direct addresses.
    RelayAndAddresses,
    /// The identity and the relay hint.
    Relay,
    /// The identity and the direct addresses.
    Addresses,
}

impl Default for AddrInfoOptions {
    fn default() -> (r: Self)
        ensures
            r == AddrInfoOptions::Id,
    {
        AddrInfoOptions::Id
    }
}

pub open spec fn keeps_relay(opts: AddrInfoOptions) -> bool {
    opts == AddrInfoOptions::RelayAndAddresses || opts == AddrInfoOptions::Relay
}

pub open spec fn keeps_addresses(opts: AddrInfoOptions) -> bool {
    opts == AddrInfoOptions::RelayAndAddresses || opts == AddrInfoOptions::Addresses
}

/// How a peer is reached: its identity, an optional relay hint and its
/// direct addresses, each address in its textual form.
#[derive(Debug, Clone, PartialEq, Eq)]
pub struct PeerAddr {
    pub node_id: [u8; 32],
    pub relay_url: Option<String>,
    pub direct_addresses: Vec<String>,
}

/// Keeps of `addr` only the parts that `opts` embeds.
pub fn apply_options(addr: &mut PeerAddr, opts: AddrInfoOptions)
    ensures
        final(addr).node_id == old(addr).node_id,
        keeps_relay(opts) ==> final(addr).relay_url == old(addr).relay_url,
        !keeps_relay(opts) ==> final(addr).relay_url is None,
        keeps_addresses(opts) ==> final(addr).direct_addresses@ == old(addr).direct_addresses@,
        !keeps_addresses(opts) ==> final(addr).direct_addresses@.len() == 0,
{
    match opts {
        AddrInfoOptions::Id => {
            addr.direct_addresses.clear();
            addr.relay_url = None;
        },
        AddrInfoOptions::RelayAndAddresses => {},
        AddrInfoOptions::Relay => {
            addr.direct_addresses.clear();
        },
        AddrInfoOptions::Addresses => {
            addr.relay_url = None;
        },
    }
}

/// A ticket that carries neither a relay hint nor direct addresses can only
/// be reached through discovery by identity.
pub fn needs_discovery(addr: &PeerAddr) -> (r: bool)
    ensures
        r == (addr.relay_url is None && addr.direct_addresses@.len() == 0),
{
    addr.relay_url.is_none() && addr.direct_addresses.len() == 0
}

/// How the content behind a hash is read.
#[derive(Debug, Clone, Copy, PartialEq, Eq, Structural)]
pub enum BlobFormat {
    /// A single blob.
    Raw,
    /// A sequence of hashes, each naming an entry of a collection.
    HashSeq,
}

/// The format of the root of a set of `n_entries` entries: one entry is
/// announced as itself, several through a hash sequence.
pub fn root_format(n_entries: usize) -> (r: BlobFormat)
    ensures
        r == (if n_entries == 1 {
            BlobFormat::Raw
        } else {
            BlobFormat::HashSeq
        }),
{
    if n_entries == 1 {
        BlobFormat::Raw
    } else {
        BlobFormat::HashSeq
    }
}

/// Totals of one completed transfer.
#[derive(Debug, Clone, Copy, PartialEq, Eq, Structural)]
pub struct TransferStats {
    pub bytes_read: u64,
    pub elapsed_ms: u64,
}

/// The latest state reported to the observer.
#[derive(Debug, Clone, PartialEq, Eq)]
pub enum ViewUpdate {
    Nothing,
    Ticket(String),
    Progress(ViewProgress),
    DownloadDone { stats: TransferStats, path: String },
}

/// The text of the URL that `iroh::RelayUrl` parses from `s`, if it accepts
/// it; a function of the text alone.
pub uninterp spec fn relay_url_parsed(s: Seq<char>) -> Option<Seq<char>>;

/// Relies on `iroh::RelayUrl::from_str`, which parses the text as a URL; the
/// parsed URL is converted back to text by its `Display`.
#[verifier::external_body]
fn parse_relay_url(s: &str) -> (r: Option<String>)
    ensures
        match r {
            Some(t) => relay_url_parsed(s@) == Some(t@),
            None => relay_url_parsed(s@) is None,
        },
{
    <iroh::RelayUrl as std::str::FromStr>::from_str(s).ok().map(|u| u.to_string())
}

/// Compares two texts character by character.
fn same_text(a: &str, b: &str) -> (r: bool)
    ensures
        r == (a@ == b@),
{
    let n = a.unicode_len();
    if n != b.unicode_len() {
        return false;
    }
    let mut i: usize = 0;
    while i < n
        invariant
            n == a@.len(),
            n == b@.len(),
            0 <= i <= n,
            forall|j: int| 0 <= j < i ==> a@[j] == b@[j],
        decreases n - i,
    {
        if a.get_char(i) != b.get_char(i) {
            return false;
        }
        i += 1;
    }
    assert(a@ =~= b@);
    true
}

/// Which relay servers an endpoint uses.
#[derive(Debug, Clone, PartialEq, Eq)]
pub enum RelayModeOption {
    /// No relay at all.
    Disabled,
    /// The default relay servers.
    Default,
    /// A single relay server, by its parsed URL.
    Custom(String),
}

/// A relay option that is neither a keyword nor a URL.
#[derive(Debug, Clone, Copy, PartialEq, Eq)]
pub struct InvalidRelayUrl;

impl RelayModeOption {
    /// Reads `disabled`, `default`, or else a relay URL.
    pub fn parse(s: &str) -> (r: Result<RelayModeOption, InvalidRelayUrl>)
        ensures
            s@ == "disabled"@ ==> r == Ok::<RelayModeOption, InvalidRelayUrl>(
                RelayModeOption::Disabled,
            ),
            s@ == "default"@ ==> r == Ok::<RelayModeOption, InvalidRelayUrl>(
                RelayModeOption::Default,
            ),
            s@ != "disabled"@ && s@ != "default"@ ==> (r is Ok <==> relay_url_parsed(s@) is Some),
            s@ != "disabled"@ && s@ != "default"@ ==> (r matches Ok(RelayModeOption::Custom(t))
                ==> relay_url_parsed(s@) == Some(t@)),
            s@ != "disabled"@ && s@ != "default"@ ==> !(r matches Ok(RelayModeOption::Disabled)),
            s@ != "disabled"@ && s@ != "default"@ ==> !(r matches Ok(RelayModeOption::Default)),
    {
        proof {
            reveal_strlit("disabled");
            reveal_strlit("default");
            assert("disabled"@[2] != "default"@[2]);
        }
        if same_text(s, "disabled") {
            Ok(RelayModeOption::Disabled)
        } else if same_text(s, "default") {
            Ok(RelayModeOption::Default)
        } else {
            match parse_relay_url(s) {
                Some(url) => Ok(RelayModeOption::Custom(url)),
                None => Err(InvalidRelayUrl),
            }
        }
    }

    /// The option as it is written on a command line.
    pub fn name(&self) -> (r: String)
        ensures
            *self == RelayModeOption::Disabled ==> r@ == "disabled"@,
            *self == RelayModeOption::Default ==> r@ == "default"@,
            self matches RelayModeOption::Custom(u) ==> r@ == u@,
    {
        match self {
            RelayModeOption::Disabled => String::from_str("disabled"),
            RelayModeOption::Default => String::from_str("default"),
            RelayModeOption::Custom(u) => u.clone(),
        }
    }
}

impl std::str::FromStr for RelayModeOption {
    type Err = InvalidRelayUrl;

    fn from_str(s: &str) -> Result<RelayModeOption, InvalidRelayUrl> {
        RelayModeOption::parse(s)
    }
}

} // verus!
