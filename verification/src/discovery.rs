//! The discovery matcher: it builds the find-service query datagram,
//! decodes incoming multicast announcements, and filters them for the
//! first offer whose entry fields satisfy the query and whose option list
//! carries a usable TCP endpoint.

use vstd::prelude::*;

use crate::errors::SomeIpClientError;
use crate::wire::{
    be16, be24, be32, encode_base_header, header_parse_ok, is_base_header_bytes, parse_base_header,
    payload_offset, MessageKind, WireHeader, SD_MESSAGE_ID,
};

verus! {

/// IANA protocol number of TCP, as carried by endpoint options.
pub const TRANSPORT_TCP: u8 = 0x06;

/// IANA protocol number of UDP, as carried by endpoint options.
pub const TRANSPORT_UDP: u8 = 0x11;

/// Wildcard service id: matches any offered service.
pub const ANY_SERVICE_ID: u16 = 0xFFFF;

/// Wildcard instance id: matches any offered instance.
pub const ANY_INSTANCE_ID: u16 = 0xFFFF;

/// Wildcard major version: matches any offered major version.
pub const ANY_MAJOR_VERSION: u8 = 0xFF;

/// Wildcard minor version: matches any offered minor version.
pub const ANY_MINOR_VERSION: u32 = 0xFFFF_FFFF;

/// Default time-to-live of a find-service query.
pub const DEFAULT_FIND_TTL: u32 = 0xFF_FFFF;

/// An IPv4 address and port, as plain values.
#[derive(Clone, Copy, Debug, PartialEq, Eq)]
pub struct Ipv4SocketAddr {
    pub address: [u8; 4],
    pub port: u16,
}

/// A find-service query: the multicast group to ask on, the identity
/// fields an offer must carry, and the time-to-live of the query entry.
/// A field set to its type's maximum is a wildcard and matches anything.
#[derive(Clone, Copy, Debug)]
pub struct FindServiceOpt {
    pub sd_multicast_addr: Ipv4SocketAddr,
    pub service_id: u16,
    pub instance_id: u16,
    pub major_version: u8,
    pub ttl: u32,
    pub minor_version: u32,
}

impl Default for FindServiceOpt {
    /// The unconfigured query: all identity fields wildcards, aimed at
    /// the well-known discovery multicast group.
    fn default() -> (r: Self)
        ensures
            r.sd_multicast_addr.address == [224u8, 244u8, 224u8, 245u8],
            r.sd_multicast_addr.port == 30490,
            r.service_id == ANY_SERVICE_ID,
            r.instance_id == ANY_INSTANCE_ID,
            r.major_version == ANY_MAJOR_VERSION,
            r.ttl == DEFAULT_FIND_TTL,
            r.minor_version == ANY_MINOR_VERSION,
    {
        FindServiceOpt {
            sd_multicast_addr: Ipv4SocketAddr { address: [224u8, 244u8, 224u8, 245u8], port: 30490 },
            service_id: ANY_SERVICE_ID,
            instance_id: ANY_INSTANCE_ID,
            major_version: ANY_MAJOR_VERSION,
            ttl: DEFAULT_FIND_TTL,
            minor_version: ANY_MINOR_VERSION,
        }
    }
}

/// The kinds of service entry an announcement can carry.
#[derive(Clone, Copy, Debug, PartialEq, Eq, Structural)]
pub enum ServiceEntryType {
    FindService,
    OfferService,
}

/// One entry of a discovery message, as plain values. Only service
/// entries take part in matching; an eventgroup entry never matches,
/// whatever its fields, so none of them are kept.
#[derive(Clone, Copy, Debug, PartialEq, Eq)]
pub enum DiscoveryEntry {
    Service {
        entry_type: ServiceEntryType,
        service_id: u16,
        instance_id: u16,
        major_version: u8,
        ttl: u32,
        minor_version: u32,
    },
    Eventgroup,
}

/// One option of a discovery message, as plain values. Only the IPv4
/// endpoint variant is consumed; every other kind is kept as a marker so
/// that matching can skip it.
#[derive(Clone, Copy, Debug, PartialEq, Eq)]
pub enum DiscoveryOption {
    Ipv4Endpoint { address: [u8; 4], transport_protocol: u8, port: u16 },
    Other,
}

/// One decoded discovery message: its entries and its options.
#[derive(Clone, Debug, PartialEq, Eq)]
pub struct DiscoveryMessage {
    pub entries: Vec<DiscoveryEntry>,
    pub options: Vec<DiscoveryOption>,
}

/// Whether the entry `e` satisfies the query `q`: it must be an
/// offer-service entry whose identity fields equal the query's
/// non-wildcard fields; a wildcard query field matches anything.
pub open spec fn spec_entry_matches(q: FindServiceOpt, e: DiscoveryEntry) -> bool {
    match e {
        DiscoveryEntry::Service {
            entry_type,
            service_id,
            instance_id,
            major_version,
            minor_version,
            ..
        } => {
            &&& entry_type is OfferService
            &&& (q.service_id == ANY_SERVICE_ID || q.service_id == service_id)
            &&& (q.instance_id == ANY_INSTANCE_ID || q.instance_id == instance_id)
            &&& (q.major_version == ANY_MAJOR_VERSION || q.major_version == major_version)
            &&& (q.minor_version == ANY_MINOR_VERSION || q.minor_version == minor_version)
        },
        DiscoveryEntry::Eventgroup => false,
    }
}

/// The first IPv4 endpoint option that announces a TCP endpoint, if any.
pub open spec fn spec_first_tcp_endpoint(opts: Seq<DiscoveryOption>) -> Option<Ipv4SocketAddr>
    decreases opts.len(),
{
    if opts.len() == 0 {
        None
    } else {
        match opts[0] {
            DiscoveryOption::Ipv4Endpoint { address, transport_protocol, port } => {
                if transport_protocol == TRANSPORT_TCP {
                    Some(Ipv4SocketAddr { address, port })
                } else {
                    spec_first_tcp_endpoint(opts.skip(1))
                }
            },
            DiscoveryOption::Other => spec_first_tcp_endpoint(opts.skip(1)),
        }
    }
}

/// What one announcement resolves the query to: when some entry satisfies
/// the query, the first TCP endpoint among the options; otherwise nothing.
pub open spec fn spec_match_offer(
    q: FindServiceOpt,
    entries: Seq<DiscoveryEntry>,
    options: Seq<DiscoveryOption>,
) -> Option<Ipv4SocketAddr> {
    if exists|i: int| 0 <= i < entries.len() && spec_entry_matches(q, entries[i]) {
        spec_first_tcp_endpoint(options)
    } else {
        None
    }
}

/// Decides whether the entry `e` satisfies the query `q`.
pub fn entry_matches(query: &FindServiceOpt, e: &DiscoveryEntry) -> (r: bool)
    ensures
        r == spec_entry_matches(*query, *e),
{
    match e {
        DiscoveryEntry::Service {
            entry_type,
            service_id,
            instance_id,
            major_version,
            minor_version,
            ..
        } => {
            let type_ok = match entry_type {
                ServiceEntryType::OfferService => true,
                ServiceEntryType::FindService => false,
            };
            type_ok && (query.service_id == ANY_SERVICE_ID || query.service_id == *service_id) && (
            query.instance_id == ANY_INSTANCE_ID || query.instance_id == *instance_id) && (
            query.major_version == ANY_MAJOR_VERSION || query.major_version == *major_version) && (
            query.minor_version == ANY_MINOR_VERSION || query.minor_version == *minor_version)
        },
        DiscoveryEntry::Eventgroup => false,
    }
}

/// Decides whether any entry of `entries` satisfies the query.
fn any_entry_matches(query: &FindServiceOpt, entries: &Vec<DiscoveryEntry>) -> (r: bool)
    ensures
        r == exists|i: int| 0 <= i < entries@.len() && spec_entry_matches(*query, entries@[i]),
{
    let n = entries.len();
    let mut i: usize = 0;
    let mut found = false;
    while i < n
        invariant
            i <= n,
            n == entries@.len(),
            found == exists|j: int| 0 <= j < i && spec_entry_matches(*query, entries@[j]),
        decreases n - i,
    {
        if entry_matches(query, &entries[i]) {
            found = true;
        }
        i += 1;
    }
    found
}

/// Returns the first option that announces a TCP endpoint over IPv4.
pub fn first_tcp_endpoint(options: &Vec<DiscoveryOption>) -> (r: Option<Ipv4SocketAddr>)
    ensures
        r == spec_first_tcp_endpoint(options@),
{
    let n = options.len();
    let mut i: usize = 0;
    proof {
        assert(options@.skip(0) =~= options@);
    }
    while i < n
        invariant
            i <= n,
            n == options@.len(),
            spec_first_tcp_endpoint(options@) == spec_first_tcp_endpoint(options@.skip(i as int)),
        decreases n - i,
    {
        proof {
            assert(options@.skip(i as int)[0] == options@[i as int]);
            assert(options@.skip(i as int).skip(1) =~= options@.skip(i as int + 1));
        }
        match &options[i] {
            DiscoveryOption::Ipv4Endpoint { address, transport_protocol, port } => {
                if *transport_protocol == TRANSPORT_TCP {
                    return Some(Ipv4SocketAddr { address: *address, port: *port });
                }
            },
            DiscoveryOption::Other => {},
        }
        i += 1;
    }
    proof {
        assert(options@.skip(n as int).len() == 0);
    }
    None
}

/// Filters one announcement against the query: when some entry satisfies
/// it, the first TCP endpoint among the message's options resolves the
/// query; a message without a matching entry, or a matching message
/// without a TCP endpoint option, resolves nothing and the caller keeps
/// listening.
pub fn match_offer(query: &FindServiceOpt, message: &DiscoveryMessage) -> (r: Option<
    Ipv4SocketAddr,
>)
    ensures
        r == spec_match_offer(*query, message.entries@, message.options@),
{
    if any_entry_matches(query, &message.entries) {
        first_tcp_endpoint(&message.options)
    } else {
        None
    }
}

/// Law: a query whose identity fields are all wildcards is satisfied by
/// any offer-service entry, so the first announcement that carries an
/// offer entry and a TCP endpoint option resolves the query, whatever
/// identity it offers.
pub proof fn lemma_wildcard_query_matches_any_offer(
    q: FindServiceOpt,
    entries: Seq<DiscoveryEntry>,
    options: Seq<DiscoveryOption>,
    i: int,
)
    requires
        q.service_id == ANY_SERVICE_ID,
        q.instance_id == ANY_INSTANCE_ID,
        q.major_version == ANY_MAJOR_VERSION,
        q.minor_version == ANY_MINOR_VERSION,
        0 <= i < entries.len(),
        entries[i] matches DiscoveryEntry::Service { entry_type, .. } && entry_type
            is OfferService,
    ensures
        spec_match_offer(q, entries, options) == spec_first_tcp_endpoint(options),
{
    assert(spec_entry_matches(q, entries[i]));
}

/// Law: the first-TCP-endpoint selection finds one whenever any option
/// announces a TCP endpoint, and what it returns is always one of the
/// TCP endpoint options of the list.
proof fn lemma_tcp_endpoint_is_found(options: Seq<DiscoveryOption>, j: int)
    requires
        0 <= j < options.len(),
        options[j] matches DiscoveryOption::Ipv4Endpoint { transport_protocol, .. }
            && transport_protocol == TRANSPORT_TCP,
    ensures
        spec_first_tcp_endpoint(options) is Some,
        spec_first_tcp_endpoint(options) matches Some(e) ==> exists|k: int|
            0 <= k < options.len() && options[k] == (DiscoveryOption::Ipv4Endpoint {
                address: e.address,
                transport_protocol: TRANSPORT_TCP,
                port: e.port,
            }),
    decreases options.len(),
{
    if options[0] matches DiscoveryOption::Ipv4Endpoint { transport_protocol, .. }
        && transport_protocol == TRANSPORT_TCP {
        match options[0] {
            DiscoveryOption::Ipv4Endpoint { address, transport_protocol, port } => {
                assert(spec_first_tcp_endpoint(options) == Some(
                    Ipv4SocketAddr { address, port },
                ));
                assert(options[0] == (DiscoveryOption::Ipv4Endpoint {
                    address,
                    transport_protocol: TRANSPORT_TCP,
                    port,
                }));
            },
            DiscoveryOption::Other => {
                assert(false);
            },
        }
    } else {
        assert(options.skip(1)[j - 1] == options[j]);
        lemma_tcp_endpoint_is_found(options.skip(1), j - 1);
        match spec_first_tcp_endpoint(options) {
            Some(e) => {
                let k = choose|k: int|
                    0 <= k < options.skip(1).len() && options.skip(1)[k]
                        == (DiscoveryOption::Ipv4Endpoint {
                        address: e.address,
                        transport_protocol: TRANSPORT_TCP,
                        port: e.port,
                    });
                assert(options[k + 1] == options.skip(1)[k]);
            },
            None => {},
        }
    }
}

/// Law: an announcement that carries both an entry satisfying the query
/// and an option announcing a TCP endpoint always resolves the query,
/// and the endpoint it resolves to is one of that announcement's TCP
/// endpoint options — the first one, as the matcher is specified.
pub proof fn lemma_matching_offer_with_tcp_endpoint_resolves(
    q: FindServiceOpt,
    entries: Seq<DiscoveryEntry>,
    options: Seq<DiscoveryOption>,
    i: int,
    j: int,
)
    requires
        0 <= i < entries.len(),
        spec_entry_matches(q, entries[i]),
        0 <= j < options.len(),
        options[j] matches DiscoveryOption::Ipv4Endpoint { transport_protocol, .. }
            && transport_protocol == TRANSPORT_TCP,
    ensures
        spec_match_offer(q, entries, options) is Some,
        spec_match_offer(q, entries, options) matches Some(e) ==> exists|k: int|
            0 <= k < options.len() && options[k] == (DiscoveryOption::Ipv4Endpoint {
                address: e.address,
                transport_protocol: TRANSPORT_TCP,
                port: e.port,
            }),
{
    lemma_tcp_endpoint_is_found(options, j);
}

/// The codec's cap on the byte length of the entry array and of the
/// option array of one discovery body: the 1400 byte UDP payload bound
/// minus the 12 fixed body bytes. A body declaring more fails typed
/// before anything of the array is read.
pub const MAX_SD_ARRAY_LEN: u32 = 1388;

/// Whether the entry region parses: `count` entries of 16 bytes each,
/// every type byte a known one. When it does not, the codec fails typed
/// before it reaches the option region.
pub open spec fn spec_entries_parse_ok(b: Seq<u8>, off: int, count: int) -> bool
    decreases count,
{
    if count <= 0 {
        true
    } else {
        &&& off + 16 <= b.len()
        &&& (b[off] == 0x00u8 || b[off] == 0x01u8 || b[off] == 0x06u8 || b[off] == 0x07u8)
        &&& spec_entries_parse_ok(b, off + 16, count - 1)
    }
}

/// Whether the option starting at `off`, with the given length field, is
/// parsed to its end, so that the codec's length accounting runs for it:
/// a configuration option always is; a fixed-size option only with its
/// exact length value and its content bytes present; an unknown option
/// only when flagged discardable and, past a length of one, ending
/// within the body.
pub open spec fn spec_option_runs_to_end(b: Seq<u8>, off: int, length: int) -> bool {
    let t = b[off + 2];
    if t == 0x01u8 {
        true
    } else if t == 0x02u8 {
        length == 5 && off + 8 <= b.len()
    } else if t == 0x04u8 || t == 0x14u8 || t == 0x24u8 {
        length == 9 && off + 12 <= b.len()
    } else if t == 0x06u8 || t == 0x16u8 || t == 0x26u8 {
        length == 21 && off + 24 <= b.len()
    } else {
        b[off + 3] >= 0x80 && (length == 1 || off + 3 + length <= b.len())
    }
}

/// Whether the codec's walk over the option region is consistent: every
/// option that runs to its end consumes 3 bytes plus its length field,
/// and that count never exceeds what the declared region length still
/// allows. The codec subtracts the count from the declared length
/// without a check, so on an inconsistent region that subtraction (or,
/// for a huge length field, the 16 bit count itself) would overflow
/// instead of failing typed.
pub open spec fn spec_options_walk_ok(b: Seq<u8>, off: int, remaining: int) -> bool
    decreases remaining,
{
    if remaining <= 0 {
        true
    } else if off + 4 > b.len() {
        true
    } else {
        let length = be16(b, off);
        if length < 1 {
            true
        } else if !spec_option_runs_to_end(b, off, length) {
            true
        } else if 3 + length > remaining {
            false
        } else {
            spec_options_walk_ok(b, off + 3 + length, remaining - (3 + length))
        }
    }
}

/// Whether decoding the body `b` can only end in a value or a typed
/// error: wherever the codec reaches its unchecked option-length
/// accounting, that accounting stays consistent. Every body that stops
/// earlier — a short read, an oversized array length, an unknown entry
/// type, a rejected option — fails typed and is fine.
pub open spec fn sd_body_framing_ok(b: Seq<u8>) -> bool {
    if b.len() < 8 {
        true
    } else {
        let entries_len = be32(b, 4);
        if entries_len > MAX_SD_ARRAY_LEN {
            true
        } else {
            let entries_end = 8 + (entries_len / 16) * 16;
            if !spec_entries_parse_ok(b, 8, entries_len / 16) {
                true
            } else if entries_end + 4 > b.len() {
                true
            } else {
                let options_len = be32(b, entries_end);
                if options_len > MAX_SD_ARRAY_LEN {
                    true
                } else {
                    spec_options_walk_ok(b, entries_end + 4, options_len)
                }
            }
        }
    }
}

/// Decides whether the entry region parses.
fn entries_parse_check(b: &[u8], off: usize, count: usize) -> (r: bool)
    ensures
        r == spec_entries_parse_ok(b@, off as int, count as int),
    decreases count,
{
    if count == 0 {
        true
    } else if (off as u128) + 16 > (b.len() as u128) {
        false
    } else {
        let t = b[off];
        if t == 0x00 || t == 0x01 || t == 0x06 || t == 0x07 {
            entries_parse_check(b, off + 16, count - 1)
        } else {
            false
        }
    }
}

/// Decides whether the codec's walk over the option region stays
/// consistent.
fn options_walk_check(b: &[u8], off: usize, remaining: u32) -> (r: bool)
    ensures
        r == spec_options_walk_ok(b@, off as int, remaining as int),
    decreases remaining,
{
    if remaining == 0 {
        return true;
    }
    if (off as u128) + 4 > (b.len() as u128) {
        return true;
    }
    let length = crate::wire::read_be16(b, off);
    if length == 0 {
        return true;
    }
    let t = b[off + 2];
    let runs_to_end: bool = if t == 0x01 {
        true
    } else if t == 0x02 {
        length == 5 && (off as u128) + 8 <= (b.len() as u128)
    } else if t == 0x04 || t == 0x14 || t == 0x24 {
        length == 9 && (off as u128) + 12 <= (b.len() as u128)
    } else if t == 0x06 || t == 0x16 || t == 0x26 {
        length == 21 && (off as u128) + 24 <= (b.len() as u128)
    } else {
        b[off + 3] >= 0x80 && (length == 1 || (off as u128) + 3 + (length as u128) <= (b.len()
            as u128))
    };
    if !runs_to_end {
        return true;
    }
    if 3 + (length as u32) > remaining {
        return false;
    }
    let next_off: u128 = (off as u128) + 3 + (length as u128);
    let rem2: u32 = remaining - (3 + length as u32);
    if rem2 == 0 {
        proof {
            assert(spec_options_walk_ok(b@, off as int + 3 + length as int, 0));
        }
        return true;
    }
    if next_off + 4 > (b.len() as u128) {
        proof {
            assert(spec_options_walk_ok(b@, off as int + 3 + length as int, rem2 as int));
        }
        return true;
    }
    options_walk_check(b, next_off as usize, rem2)
}

/// Decides, before the codec runs, whether decoding the body can only
/// end in a value or a typed error.
pub fn sd_body_framing_check(b: &[u8]) -> (r: bool)
    ensures
        r == sd_body_framing_ok(b@),
{
    if b.len() < 8 {
        return true;
    }
    let entries_len = crate::wire::read_be32(b, 4);
    if entries_len > MAX_SD_ARRAY_LEN {
        return true;
    }
    let count: u32 = entries_len / 16;
    let entries_end: usize = 8 + (count as usize) * 16;
    if !entries_parse_check(b, 8, count as usize) {
        return true;
    }
    if (entries_end as u128) + 4 > (b.len() as u128) {
        return true;
    }
    let options_len = crate::wire::read_be32(b, entries_end);
    if options_len > MAX_SD_ARRAY_LEN {
        return true;
    }
    options_walk_check(b, entries_end + 4, options_len)
}

/// The declaration of the codec's decoded discovery header, which holds
/// the entry and option collections of one announcement.
#[verifier::external_type_specification]
#[verifier::external_body]
pub struct ExSdHeader(someip_parse::SdHeader);

/// Whether the discovery body `b` decodes into entries and options.
pub uninterp spec fn sd_read_ok(b: Seq<u8>) -> bool;

/// The entries the discovery body `b` decodes to, as the crate's own
/// model values.
pub uninterp spec fn sd_entries_of(b: Seq<u8>) -> Seq<DiscoveryEntry>;

/// The options the discovery body `b` decodes to, as the crate's own
/// model values.
pub uninterp spec fn sd_options_of(b: Seq<u8>) -> Seq<DiscoveryOption>;

/// The entries a decoded discovery header holds, in order, as the crate's
/// own model values.
pub uninterp spec fn sd_entries(h: someip_parse::SdHeader) -> Seq<DiscoveryEntry>;

/// The options a decoded discovery header holds, in order, as the crate's
/// own model values.
pub uninterp spec fn sd_options(h: someip_parse::SdHeader) -> Seq<DiscoveryOption>;

/// Relies on `someip_parse::SdHeader::read`: whether a discovery body
/// decodes, and to which entries and options, is a function of its bytes
/// alone. The codec subtracts each option's consumed byte count from the
/// declared option-region length without a check, so the call is made
/// only on bodies whose framing keeps that accounting consistent; on
/// those it returns a value or a typed error and cannot abort.
#[verifier::external_body]
fn read_sd_header(bytes: &[u8]) -> (r: Option<someip_parse::SdHeader>)
    requires
        sd_body_framing_ok(bytes@),
    ensures
        r is Some <==> sd_read_ok(bytes@),
        r matches Some(h) ==> sd_entries(h) == sd_entries_of(bytes@) && sd_options(h)
            == sd_options_of(bytes@),
{
    let mut cursor = std::io::Cursor::new(bytes);
    someip_parse::SdHeader::read(&mut cursor).ok()
}

/// Relies on the public `entries` field of `someip_parse::SdHeader`: each
/// service entry is copied into the crate's model field by field, and each
/// eventgroup entry becomes the eventgroup marker.
#[verifier::external_body]
fn sd_header_entries(h: &someip_parse::SdHeader) -> (r: Vec<DiscoveryEntry>)
    ensures
        r@ == sd_entries(*h),
{
    h.entries.iter().map(|e| match e {
        someip_parse::SdEntry::Service(s) => DiscoveryEntry::Service {
            entry_type: match s._type {
                someip_parse::SdServiceEntryType::FindService => ServiceEntryType::FindService,
                someip_parse::SdServiceEntryType::OfferService => ServiceEntryType::OfferService,
            },
            service_id: s.service_id, instance_id: s.instance_id,
            major_version: s.major_version, ttl: s.ttl, minor_version: s.minor_version,
        },
        someip_parse::SdEntry::Eventgroup(_) => DiscoveryEntry::Eventgroup,
    }).collect()
}

/// Relies on the public `options` field of `someip_parse::SdHeader`: each
/// IPv4 endpoint option is copied field by field, its transport protocol
/// as the IANA protocol number (the mapping the codec's own `From` impl
/// uses); every other option kind becomes the opaque marker.
#[verifier::external_body]
fn sd_header_options(h: &someip_parse::SdHeader) -> (r: Vec<DiscoveryOption>)
    ensures
        r@ == sd_options(*h),
{
    h.options.iter().map(|o| match o {
        someip_parse::SdOption::Ipv4Endpoint(e) => DiscoveryOption::Ipv4Endpoint {
            address: e.ipv4_address,
            transport_protocol: match e.transport_protocol {
                someip_parse::TransportProtocol::Tcp => 0x06,
                someip_parse::TransportProtocol::Udp => 0x11,
                someip_parse::TransportProtocol::Generic(p) => p,
            },
            port: e.port,
        },
        _ => DiscoveryOption::Other,
    }).collect()
}

/// Decodes one received datagram. A datagram whose wire header does not
/// parse, or that announces a discovery message whose body is framed
/// inconsistently or does not decode, is a hard decode failure; a
/// datagram that is not a discovery message is skipped without failing,
/// and the caller keeps listening. A decoded message holds exactly the
/// entries and options of the datagram's body.
pub fn parse_sd_datagram(datagram: &[u8]) -> (r: Result<
    Option<DiscoveryMessage>,
    SomeIpClientError,
>)
    ensures
        r is Err <==> !header_parse_ok(datagram@) || (be32(datagram@, 0) == SD_MESSAGE_ID && (
        !sd_body_framing_ok(datagram@.skip(payload_offset(datagram@))) || !sd_read_ok(
            datagram@.skip(payload_offset(datagram@)),
        ))),
        r matches Err(e) ==> e == SomeIpClientError::ReadError,
        r == Ok::<Option<DiscoveryMessage>, SomeIpClientError>(None) <==> header_parse_ok(
            datagram@,
        ) && be32(datagram@, 0) != SD_MESSAGE_ID,
        r matches Ok(Some(m)) ==> m.entries@ == sd_entries_of(
            datagram@.skip(payload_offset(datagram@)),
        ) && m.options@ == sd_options_of(datagram@.skip(payload_offset(datagram@))),
{
    match parse_base_header(datagram) {
        None => Err(SomeIpClientError::ReadError),
        Some(header) => {
            if header.message_id != SD_MESSAGE_ID {
                return Ok(None);
            }
            let offset: usize = if header.has_tp {
                20
            } else {
                16
            };
            let body = vstd::slice::slice_subrange(datagram, offset, datagram.len());
            proof {
                assert(body@ =~= datagram@.skip(payload_offset(datagram@)));
            }
            if !sd_body_framing_check(body) {
                return Err(SomeIpClientError::ReadError);
            }
            match read_sd_header(body) {
                None => Err(SomeIpClientError::ReadError),
                Some(sd) => {
                    let entries = sd_header_entries(&sd);
                    let options = sd_header_options(&sd);
                    Ok(Some(DiscoveryMessage { entries, options }))
                },
            }
        },
    }
}

/// The well-formedness of a find-service query as the wire can carry it:
/// the time-to-live must be positive (zero would mean "stop offering")
/// and fit in its 24 bit field.
pub open spec fn find_ttl_ok(ttl: u32) -> bool {
    0 < ttl < 0x100_0000
}

/// Whether `b` is the 28 byte discovery body of one find-service query:
/// the flags word, one find-service entry holding the query fields, and
/// an empty option list.
pub open spec fn is_find_sd_body(
    b: Seq<u8>,
    service_id: u16,
    instance_id: u16,
    major_version: u8,
    ttl: u32,
    minor_version: u32,
) -> bool {
    &&& b.len() == 28
    &&& b[0] == 0x60u8
    &&& b[1] == 0x00u8
    &&& b[2] == 0x00u8
    &&& b[3] == 0x00u8
    &&& be32(b, 4) == 16
    &&& b[8] == 0x00u8
    &&& b[9] == 0x00u8
    &&& b[10] == 0x00u8
    &&& b[11] == 0x00u8
    &&& be16(b, 12) == service_id
    &&& be16(b, 14) == instance_id
    &&& b[16] == major_version
    &&& be24(b, 17) == ttl
    &&& be32(b, 20) == minor_version
    &&& be32(b, 24) == 0
}

/// Relies on `someip_parse::SdHeader::to_bytes_vec`: with one service
/// entry and no options it writes the 4 flag bytes (unicast and explicit
/// initial-data-control set), the big-endian entries length 16, the 16
/// entry bytes with big-endian fields and a 24 bit time-to-live, and the
/// big-endian options length 0; with an empty option list it cannot fail.
#[verifier::external_body]
fn encode_find_service_body(
    service_id: u16,
    instance_id: u16,
    major_version: u8,
    ttl: u32,
    minor_version: u32,
) -> (r: Vec<u8>)
    requires
        ttl < 0x100_0000,
    ensures
        is_find_sd_body(r@, service_id, instance_id, major_version, ttl, minor_version),
{
    let entry = someip_parse::SdEntry::Service(someip_parse::sd_entries::ServiceEntry {
        _type: someip_parse::SdServiceEntryType::FindService,
        index_first_option_run: 0, index_second_option_run: 0,
        number_of_options_1: 0, number_of_options_2: 0,
        service_id, instance_id, major_version, ttl, minor_version,
    });
    let header = someip_parse::SdHeader {
        flags: someip_parse::SdHeaderFlags {
            reboot: false, unicast: true, explicit_initial_data_control: true,
        },
        entries: vec![entry],
        options: Vec::new(),
    };
    header.to_bytes_vec().unwrap()
}

/// The wire header of the find-service datagram: the discovery message
/// id, the length of the 8 trailing header bytes plus the 28 body bytes,
/// session number one, and the notification message type.
pub open spec fn find_service_header() -> WireHeader {
    WireHeader {
        message_id: SD_MESSAGE_ID,
        length: 36,
        request_id: 1,
        interface_version: 1,
        message_type: MessageKind::Notification,
        has_tp: false,
        return_code: 0,
    }
}

/// Builds the one find-service datagram of a discovery attempt: a
/// discovery-typed wire header followed by the body holding the query's
/// find-service entry. A query whose time-to-live is zero or does not
/// fit in 24 bits is rejected, and nothing else is.
pub fn build_find_service_frame(query: &FindServiceOpt) -> (r: Result<Vec<u8>, SomeIpClientError>)
    ensures
        r is Err <==> !find_ttl_ok(query.ttl),
        r matches Err(e) ==> e == SomeIpClientError::ValueError,
        r matches Ok(v) ==> {
            &&& v@.len() == 44
            &&& is_base_header_bytes(v@.subrange(0, 16), find_service_header())
            &&& is_find_sd_body(
                v@.skip(16),
                query.service_id,
                query.instance_id,
                query.major_version,
                query.ttl,
                query.minor_version,
            )
        },
{
    if query.ttl == 0 || query.ttl >= 0x100_0000 {
        return Err(SomeIpClientError::ValueError);
    }
    let body = encode_find_service_body(
        query.service_id,
        query.instance_id,
        query.major_version,
        query.ttl,
        query.minor_version,
    );
    let header = WireHeader {
        message_id: SD_MESSAGE_ID,
        length: 36,
        request_id: 1,
        interface_version: 1,
        message_type: MessageKind::Notification,
        has_tp: false,
        return_code: 0,
    };
    let mut v = encode_base_header(&header);
    let ghost header_bytes = v@;
    v.extend_from_slice(body.as_slice());
    proof {
        assert(v@.subrange(0, 16) =~= header_bytes);
        assert(v@.skip(16) =~= body@);
    }
    Ok(v)
}

/// The failure reported when the discovery deadline elapses before a
/// matching announcement: always the timeout kind, never another one.
pub fn deadline_error() -> (r: SomeIpClientError)
    ensures
        r == SomeIpClientError::FindServiceTimeout,
{
    SomeIpClientError::FindServiceTimeout
}

} // verus!
