//! The hello-world demo service: its identity, its one method, and the
//! request framing for calling it.
//!
//! Payload serialization is owned by a collaborator configured per
//! direction; the core only frames and classifies the serialized bytes.

use vstd::prelude::*;

use crate::discovery::{FindServiceOpt, DEFAULT_FIND_TTL};
use crate::rpc::{build_request_frame, request_header};
use crate::wire::is_base_header_bytes;

verus! {

/// Service id of the hello-world service.
pub const SERVICE_ID: u16 = 4660;

/// Instance id of the deployed hello-world service.
pub const INSTANCE_ID: u16 = 22136;

/// Major interface version of the hello-world service.
pub const MAJOR_VERSION: u8 = 0;

/// Minor interface version of the hello-world service.
pub const MINOR_VERSION: u32 = 1;

/// Method id of the `sayHello` method.
pub const SAY_HELLO_METHOD_ID: u16 = 30000;

/// The client id this client stamps into its request ids.
pub const SAY_HELLO_REQUEST_ID: u16 = 0x1343;

/// The argument of one `sayHello` call: the name to greet.
#[derive(Clone, Debug)]
pub struct SayHelloRequest(pub String);

/// The answer of one `sayHello` call: the greeting.
#[derive(Clone, Debug)]
pub struct SayHelloResponse(pub String);

/// The request-direction serialization profile of the hello-world
/// deployment: big-endian, strings UTF-16LE with byte-order mark and
/// terminator, 4 byte length fields. The I/O layer owns the codec that
/// realizes it; the core handles only the resulting bytes.
pub struct VSomeIpSeOptions {}

/// The response-direction serialization profile of the hello-world
/// deployment: as the request direction, but strings UTF-8. The I/O
/// layer owns the codec that realizes it.
pub struct VSomeIpDeOptions {}

/// The find-service query that locates the hello-world instance: its
/// identity fields are exact, everything else keeps the defaults.
pub fn hello_world_query() -> (r: FindServiceOpt)
    ensures
        r.service_id == SERVICE_ID,
        r.instance_id == INSTANCE_ID,
        r.major_version == MAJOR_VERSION,
        r.minor_version == MINOR_VERSION,
        r.ttl == DEFAULT_FIND_TTL,
        r.sd_multicast_addr.address == [224u8, 244u8, 224u8, 245u8],
        r.sd_multicast_addr.port == 30490,
{
    let mut query = FindServiceOpt::default();
    query.service_id = SERVICE_ID;
    query.instance_id = INSTANCE_ID;
    query.major_version = MAJOR_VERSION;
    query.minor_version = MINOR_VERSION;
    query
}

/// Frames one `sayHello` request around its serialized payload.
pub fn say_hello_request_frame(payload: &[u8]) -> (r: Vec<u8>)
    requires
        payload@.len() + 8 <= u32::MAX,
    ensures
        r@.len() == 16 + payload@.len(),
        is_base_header_bytes(
            r@.subrange(0, 16),
            request_header(
                SERVICE_ID,
                SAY_HELLO_METHOD_ID,
                SAY_HELLO_REQUEST_ID,
                MAJOR_VERSION,
                payload@.len() as int,
            ),
        ),
        r@.skip(16) == payload@,
{
    build_request_frame(
        SERVICE_ID,
        SAY_HELLO_METHOD_ID,
        SAY_HELLO_REQUEST_ID,
        MAJOR_VERSION,
        payload,
    )
}

} // verus!
