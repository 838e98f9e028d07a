//! The little HTTP the relay speaks: recognising the one request it serves,
//! and the fixed responses it writes.
use vstd::prelude::*;
use vstd::slice::slice_to_vec;
use vstd::string::StringSliceAdditionalSpecFns;

verus! {

/// The path the relay serves.
pub const LIVE_PATH: &'static str = "/live.flv";

/// The text a request must hold to be served.
pub const LIVE_REQUEST_LINE: &'static str = "GET /live.flv";

/// Written to a client that asked for anything else.
pub const NOT_FOUND_RESPONSE: &'static str = "HTTP/1.1 404 Not Found\r\n\r\n";

/// Written to a client when no upstream URL has been set yet.
pub const UNAVAILABLE_RESPONSE: &'static str = "HTTP/1.1 503 Service Unavailable\r\n\r\nNo stream URL set";

/// Written to a client before the relayed body.
pub const STREAM_RESPONSE_HEADER: &'static str = "HTTP/1.1 200 OK\r\nContent-Type: video/x-flv\r\nConnection: keep-alive\r\nAccess-Control-Allow-Origin: *\r\nAccess-Control-Allow-Methods: GET, OPTIONS\r\nAccess-Control-Allow-Headers: Origin, X-Requested-With, Content-Type, Accept\r\nCache-Control: no-cache\r\n\r\n";

/// Whether `needle` occurs in `hay` as a contiguous run of bytes.
pub open spec fn occurs_in(hay: Seq<u8>, needle: Seq<u8>) -> bool {
    exists|i: int| 0 <= i && i + needle.len() <= hay.len() && #[trigger] hay.subrange(i, i + needle.len()) == needle
}

/// A request is served when its bytes hold `GET /live.flv`.
pub open spec fn is_live_request(request: Seq<u8>) -> bool {
    occurs_in(request, LIVE_REQUEST_LINE.spec_bytes())
}

pub open spec fn not_found_response() -> Seq<u8> {
    NOT_FOUND_RESPONSE.spec_bytes()
}

pub open spec fn unavailable_response() -> Seq<u8> {
    UNAVAILABLE_RESPONSE.spec_bytes()
}

pub open spec fn stream_response_header() -> Seq<u8> {
    STREAM_RESPONSE_HEADER.spec_bytes()
}

/// Whether `needle` starts at position `at` of `hay`.
fn matches_at(hay: &[u8], needle: &[u8], at: usize) -> (r: bool)
    requires
        at + needle@.len() <= hay@.len(),
    ensures
        r == (hay@.subrange(at as int, at + needle@.len()) == needle@),
{
    let n: usize = hay.len();
    let mut k: usize = 0;
    while k < needle.len()
        invariant
            n == hay@.len(),
            k <= needle@.len(),
            at + needle@.len() <= hay@.len(),
            forall|j: int| 0 <= j < k ==> hay@[at + j] == needle@[j],
        decreases needle@.len() - k,
    {
        if hay[at + k] != needle[k] {
            assert(hay@.subrange(at as int, at + needle@.len())[k as int] != needle@[k as int]);
            return false;
        }
        k = k + 1;
    }
    assert(hay@.subrange(at as int, at + needle@.len()) =~= needle@);
    true
}

/// Whether `needle` occurs in `hay`.
pub fn bytes_contain(hay: &[u8], needle: &[u8]) -> (r: bool)
    ensures
        r == occurs_in(hay@, needle@),
{
    if needle.len() > hay.len() {
        return false;
    }
    let last: usize = hay.len() - needle.len();
    let mut at: usize = 0;
    while at <= last
        invariant
            last == hay@.len() - needle@.len(),
            forall|i: int| 0 <= i < at ==> #[trigger] hay@.subrange(i, i + needle@.len()) != needle@,
        decreases last + 1 - at,
    {
        if matches_at(hay, needle, at) {
            return true;
        }
        if at == last {
            return false;
        }
        at = at + 1;
    }
    false
}

/// Whether the bytes read from a client ask for the live stream.
pub fn is_live_request_bytes(request: &[u8]) -> (r: bool)
    ensures
        r == is_live_request(request@),
{
    bytes_contain(request, LIVE_REQUEST_LINE.as_bytes())
}

pub fn not_found_bytes() -> (r: Vec<u8>)
    ensures
        r@ == not_found_response(),
{
    slice_to_vec(NOT_FOUND_RESPONSE.as_bytes())
}

pub fn unavailable_bytes() -> (r: Vec<u8>)
    ensures
        r@ == unavailable_response(),
{
    slice_to_vec(UNAVAILABLE_RESPONSE.as_bytes())
}

pub fn stream_header_bytes() -> (r: Vec<u8>)
    ensures
        r@ == stream_response_header(),
{
    slice_to_vec(STREAM_RESPONSE_HEADER.as_bytes())
}

} // verus!
