//! Tests of the discovery matcher: query framing, datagram decoding and
//! offer filtering.

use someip_helloworld::discovery::{
    build_find_service_frame, deadline_error, match_offer, parse_sd_datagram, DiscoveryEntry,
    DiscoveryMessage, DiscoveryOption, FindServiceOpt, Ipv4SocketAddr, ServiceEntryType,
    ANY_INSTANCE_ID, ANY_MAJOR_VERSION, ANY_MINOR_VERSION, ANY_SERVICE_ID, TRANSPORT_TCP,
    TRANSPORT_UDP,
};
use someip_helloworld::errors::SomeIpClientError;
use someip_helloworld::hello::{hello_world_query, INSTANCE_ID, SERVICE_ID};

/// The 16 bytes of one service entry.
fn service_entry(
    entry_type: u8,
    service_id: u16,
    instance_id: u16,
    major_version: u8,
    ttl: u32,
    minor_version: u32,
) -> Vec<u8> {
    let mut v = vec![entry_type, 0, 0, 0];
    v.extend_from_slice(&service_id.to_be_bytes());
    v.extend_from_slice(&instance_id.to_be_bytes());
    v.push(major_version);
    v.extend_from_slice(&ttl.to_be_bytes()[1..]);
    v.extend_from_slice(&minor_version.to_be_bytes());
    v
}

/// The 16 bytes of one subscribe-eventgroup entry.
fn eventgroup_entry(service_id: u16, instance_id: u16, major_version: u8) -> Vec<u8> {
    let mut v = vec![0x06, 0, 0, 0];
    v.extend_from_slice(&service_id.to_be_bytes());
    v.extend_from_slice(&instance_id.to_be_bytes());
    v.push(major_version);
    v.extend_from_slice(&[0, 0, 3]); // ttl
    v.extend_from_slice(&[0, 0, 0, 1]); // reserved, counter, eventgroup id
    v
}

/// The 12 bytes of one IPv4 endpoint option.
fn ipv4_endpoint_option(address: [u8; 4], protocol: u8, port: u16) -> Vec<u8> {
    let mut v = vec![0x00, 0x09, 0x04, 0x00];
    v.extend_from_slice(&address);
    v.push(0x00);
    v.push(protocol);
    v.extend_from_slice(&port.to_be_bytes());
    v
}

/// One discovery datagram around the given entry and option bytes.
fn sd_datagram(entries: &[u8], options: &[u8]) -> Vec<u8> {
    let body_len = 12 + entries.len() + options.len();
    let mut v = vec![0xFF, 0xFF, 0x81, 0x00]; // discovery message id
    v.extend_from_slice(&((8 + body_len) as u32).to_be_bytes());
    v.extend_from_slice(&[0x00, 0x00, 0x00, 0x01]); // session id
    v.extend_from_slice(&[0x01, 0x01, 0x02, 0x00]); // versions, notification, ok
    v.extend_from_slice(&[0xC0, 0x00, 0x00, 0x00]); // flags & reserved
    v.extend_from_slice(&(entries.len() as u32).to_be_bytes());
    v.extend_from_slice(entries);
    v.extend_from_slice(&(options.len() as u32).to_be_bytes());
    v.extend_from_slice(options);
    v
}

fn parse_message(datagram: &[u8]) -> DiscoveryMessage {
    match parse_sd_datagram(datagram) {
        Ok(Some(message)) => message,
        other => panic!("the datagram must decode as a discovery message: {:?}", other),
    }
}

#[test]
fn default_query_is_all_wildcards() {
    let query = FindServiceOpt::default();
    assert_eq!(query.sd_multicast_addr.address, [224, 244, 224, 245]);
    assert_eq!(query.sd_multicast_addr.port, 30490);
    assert_eq!(query.service_id, ANY_SERVICE_ID);
    assert_eq!(query.instance_id, ANY_INSTANCE_ID);
    assert_eq!(query.major_version, ANY_MAJOR_VERSION);
    assert_eq!(query.minor_version, ANY_MINOR_VERSION);
    assert_eq!(query.ttl, 0xFF_FFFF);
}

#[test]
fn find_service_frame_bytes() {
    let frame = build_find_service_frame(&hello_world_query()).unwrap();
    let expected = vec![
        0xFF, 0xFF, 0x81, 0x00, // discovery message id
        0x00, 0x00, 0x00, 0x24, // length 36
        0x00, 0x00, 0x00, 0x01, // session id 1
        0x01, 0x01, 0x02, 0x00, // versions, notification, ok
        0x60, 0x00, 0x00, 0x00, // flags & reserved
        0x00, 0x00, 0x00, 0x10, // entries length 16
        0x00, 0x00, 0x00, 0x00, // find-service, no option runs
        0x12, 0x34, 0x56, 0x78, // service 4660, instance 22136
        0x00, 0xFF, 0xFF, 0xFF, // major 0, ttl 0xFFFFFF
        0x00, 0x00, 0x00, 0x01, // minor 1
        0x00, 0x00, 0x00, 0x00, // options length 0
    ];
    assert_eq!(frame, expected);
}

#[test]
fn find_service_rejects_zero_ttl() {
    let mut query = hello_world_query();
    query.ttl = 0;
    assert_eq!(
        build_find_service_frame(&query),
        Err(SomeIpClientError::ValueError)
    );
}

#[test]
fn find_service_rejects_oversized_ttl() {
    let mut query = hello_world_query();
    query.ttl = 0x100_0000;
    assert_eq!(
        build_find_service_frame(&query),
        Err(SomeIpClientError::ValueError)
    );
}

#[test]
fn find_frame_parses_back() {
    let frame = build_find_service_frame(&hello_world_query()).unwrap();
    let message = parse_message(&frame);
    assert_eq!(message.entries.len(), 1);
    assert_eq!(
        message.entries[0],
        DiscoveryEntry::Service {
            entry_type: ServiceEntryType::FindService,
            service_id: SERVICE_ID,
            instance_id: INSTANCE_ID,
            major_version: 0,
            ttl: 0xFF_FFFF,
            minor_version: 1,
        }
    );
    assert!(message.options.is_empty());
    // A find entry is not an offer, so it never matches a query.
    assert_eq!(match_offer(&hello_world_query(), &message), None);
}

#[test]
fn matching_offer_resolves_endpoint() {
    let datagram = sd_datagram(
        &service_entry(0x01, 4660, 22136, 0, 3, 1),
        &ipv4_endpoint_option([192, 168, 1, 20], TRANSPORT_TCP, 40000),
    );
    let message = parse_message(&datagram);
    assert_eq!(
        match_offer(&hello_world_query(), &message),
        Some(Ipv4SocketAddr { address: [192, 168, 1, 20], port: 40000 })
    );
}

#[test]
fn mismatched_minor_version_is_skipped() {
    let datagram = sd_datagram(
        &service_entry(0x01, 4660, 22136, 0, 3, 2),
        &ipv4_endpoint_option([192, 168, 1, 20], TRANSPORT_TCP, 40000),
    );
    let message = parse_message(&datagram);
    assert_eq!(match_offer(&hello_world_query(), &message), None);
}

#[test]
fn eventgroup_entry_never_matches() {
    let datagram = sd_datagram(
        &eventgroup_entry(4660, 22136, 0),
        &ipv4_endpoint_option([192, 168, 1, 20], TRANSPORT_TCP, 40000),
    );
    let message = parse_message(&datagram);
    assert_eq!(message.entries[0], DiscoveryEntry::Eventgroup);
    assert_eq!(match_offer(&hello_world_query(), &message), None);
    // The same holds for a query that would match anything else.
    assert_eq!(match_offer(&FindServiceOpt::default(), &message), None);
}

#[test]
fn wildcard_query_matches_any_offer() {
    let datagram = sd_datagram(
        &service_entry(0x01, 0x0101, 0x0202, 9, 3, 77),
        &ipv4_endpoint_option([10, 0, 0, 9], TRANSPORT_TCP, 1234),
    );
    let message = parse_message(&datagram);
    assert_eq!(
        match_offer(&FindServiceOpt::default(), &message),
        Some(Ipv4SocketAddr { address: [10, 0, 0, 9], port: 1234 })
    );
}

#[test]
fn udp_endpoint_is_not_used() {
    let datagram = sd_datagram(
        &service_entry(0x01, 4660, 22136, 0, 3, 1),
        &ipv4_endpoint_option([192, 168, 1, 20], TRANSPORT_UDP, 40000),
    );
    let message = parse_message(&datagram);
    assert_eq!(match_offer(&hello_world_query(), &message), None);
}

#[test]
fn first_tcp_endpoint_wins_over_earlier_udp() {
    let mut options = ipv4_endpoint_option([10, 0, 0, 1], TRANSPORT_UDP, 1111);
    options.extend_from_slice(&ipv4_endpoint_option([10, 0, 0, 2], TRANSPORT_TCP, 2222));
    options.extend_from_slice(&ipv4_endpoint_option([10, 0, 0, 3], TRANSPORT_TCP, 3333));
    let datagram = sd_datagram(&service_entry(0x01, 4660, 22136, 0, 3, 1), &options);
    let message = parse_message(&datagram);
    assert_eq!(message.options.len(), 3);
    assert_eq!(
        message.options[0],
        DiscoveryOption::Ipv4Endpoint {
            address: [10, 0, 0, 1],
            transport_protocol: TRANSPORT_UDP,
            port: 1111,
        }
    );
    assert_eq!(
        match_offer(&hello_world_query(), &message),
        Some(Ipv4SocketAddr { address: [10, 0, 0, 2], port: 2222 })
    );
}

#[test]
fn inconsistent_options_length_fails() {
    // The declared options length (4) is smaller than what the IPv4
    // endpoint option (12 bytes) consumes: a typed decode failure, never
    // a crash.
    let mut datagram = sd_datagram(
        &service_entry(0x01, 4660, 22136, 0, 3, 1),
        &ipv4_endpoint_option([192, 168, 1, 20], TRANSPORT_TCP, 40000),
    );
    // The options length field sits after the 16 header bytes, the 8
    // flag/length bytes and the 16 entry bytes.
    datagram[40..44].copy_from_slice(&4u32.to_be_bytes());
    assert_eq!(
        parse_sd_datagram(&datagram),
        Err(SomeIpClientError::ReadError)
    );
}

#[test]
fn oversized_option_length_field_fails() {
    // A configuration option whose length field (0xFFFE) exceeds the
    // whole region: a typed decode failure, never a crash.
    let datagram = sd_datagram(&[], &[0xFF, 0xFE, 0x01, 0x00]);
    assert_eq!(
        parse_sd_datagram(&datagram),
        Err(SomeIpClientError::ReadError)
    );
}

#[test]
fn configuration_option_is_passed_over() {
    // A configuration option (length 3: two content bytes) before the
    // TCP endpoint option; matching skips it.
    let mut options = vec![0x00, 0x03, 0x01, 0x00, 0xAA, 0xBB];
    options.extend_from_slice(&ipv4_endpoint_option([10, 1, 1, 1], TRANSPORT_TCP, 4242));
    let datagram = sd_datagram(&service_entry(0x01, 4660, 22136, 0, 3, 1), &options);
    let message = parse_message(&datagram);
    assert_eq!(message.options.len(), 2);
    assert_eq!(message.options[0], DiscoveryOption::Other);
    assert_eq!(
        match_offer(&hello_world_query(), &message),
        Some(Ipv4SocketAddr { address: [10, 1, 1, 1], port: 4242 })
    );
}

#[test]
fn unknown_discardable_option_is_passed_over() {
    // An unknown option type flagged discardable (length 1) before the
    // TCP endpoint option; matching skips it.
    let mut options = vec![0x00, 0x01, 0x7F, 0x80];
    options.extend_from_slice(&ipv4_endpoint_option([10, 2, 2, 2], TRANSPORT_TCP, 5353));
    let datagram = sd_datagram(&service_entry(0x01, 4660, 22136, 0, 3, 1), &options);
    let message = parse_message(&datagram);
    assert_eq!(message.options.len(), 2);
    assert_eq!(message.options[0], DiscoveryOption::Other);
    assert_eq!(
        match_offer(&hello_world_query(), &message),
        Some(Ipv4SocketAddr { address: [10, 2, 2, 2], port: 5353 })
    );
}

#[test]
fn non_sd_datagram_is_skipped() {
    // A valid wire header whose message id is not the discovery id.
    let mut datagram = vec![0x12, 0x34, 0x00, 0x01];
    datagram.extend_from_slice(&[0x00, 0x00, 0x00, 0x08]);
    datagram.extend_from_slice(&[0x00, 0x00, 0x00, 0x00]);
    datagram.extend_from_slice(&[0x01, 0x01, 0x02, 0x00]);
    assert_eq!(parse_sd_datagram(&datagram), Ok(None));
}

#[test]
fn truncated_discovery_body_fails() {
    let full = sd_datagram(&service_entry(0x01, 4660, 22136, 0, 3, 1), &[]);
    let truncated = &full[..full.len() - 4];
    assert_eq!(
        parse_sd_datagram(truncated),
        Err(SomeIpClientError::ReadError)
    );
}

#[test]
fn garbage_datagram_fails() {
    assert_eq!(
        parse_sd_datagram(&[0xAB; 40]),
        Err(SomeIpClientError::ReadError)
    );
    assert_eq!(
        parse_sd_datagram(&[0x01, 0x02]),
        Err(SomeIpClientError::ReadError)
    );
}

#[test]
fn deadline_reports_timeout_kind() {
    let error = deadline_error();
    assert_eq!(error, SomeIpClientError::FindServiceTimeout);
    assert_ne!(error, SomeIpClientError::ReadError);
    assert_ne!(error, SomeIpClientError::ConnectionClosed);
}
