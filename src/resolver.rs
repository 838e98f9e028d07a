//! The decisions inside the platform resolvers: whether a room is live, the
//! search URL for a keyword, and the `ttwid` cookie among `Set-Cookie` values.
use vstd::prelude::*;
use vstd::string::{StrSliceExecFns, StringExecFns, StringSliceAdditionalSpecFns};

verus! {

/// The room-information record: its `room_status`, if given.
pub struct RoomInfoData {
    pub room_status: Option<String>,
}

/// Why a room's status could not be told.
#[derive(Clone, Copy, PartialEq, Eq, Debug, Structural)]
pub enum RoomStatusError {
    /// The room API reported this nonzero error code.
    Api(i32),
    /// The room API answered without a data record.
    MissingData,
}

/// Whether a room is live: an API error or a missing record is an error;
/// otherwise the room is live exactly when its status is `1` (`2`, any
/// other value and an absent one all count as not live).
pub fn room_live_status(error: i32, data: &Option<RoomInfoData>) -> (r: Result<bool, RoomStatusError>)
    ensures
        error != 0 ==> r == Err::<bool, RoomStatusError>(RoomStatusError::Api(error)),
        error == 0 && data is None ==> r == Err::<bool, RoomStatusError>(RoomStatusError::MissingData),
        error == 0 && data is Some ==> r == Ok::<bool, RoomStatusError>(
            match data->Some_0.room_status { Some(s) => s@ == "1"@, None => false },
        ),
{
    if error != 0 {
        return Err(RoomStatusError::Api(error));
    }
    match data {
        None => Err(RoomStatusError::MissingData),
        Some(d) => match &d.room_status {
            Some(s) => {
                let one = String::from_str("1");
                Ok(s.eq(&one))
            },
            None => Ok(false),
        },
    }
}

/// The anchor search endpoint, up to the keyword.
pub const SEARCH_ENDPOINT: &'static str = "https://www.douyu.com/japi/search/api/searchUser?kw=";

/// What follows the keyword in a search URL.
pub const SEARCH_PAGING: &'static str = "&page=1&pageSize=20&filterType=0";

/// An ASCII letter or digit.
pub open spec fn is_ascii_alnum(x: u8) -> bool {
    (0x30 <= x <= 0x39) || (0x41 <= x <= 0x5a) || (0x61 <= x <= 0x7a)
}

/// The upper-case hexadecimal digit for `d`.
pub open spec fn hex_upper(d: u8) -> char {
    if d == 0 { '0' } else if d == 1 { '1' } else if d == 2 { '2' } else if d == 3 { '3' }
    else if d == 4 { '4' } else if d == 5 { '5' } else if d == 6 { '6' } else if d == 7 { '7' }
    else if d == 8 { '8' } else if d == 9 { '9' } else if d == 10 { 'A' } else if d == 11 { 'B' }
    else if d == 12 { 'C' } else if d == 13 { 'D' } else if d == 14 { 'E' } else { 'F' }
}

/// One byte percent-encoded: letters and digits stand for themselves, every
/// other byte is `%` and two upper-case hexadecimal digits.
pub open spec fn encode_byte(x: u8) -> Seq<char> {
    if is_ascii_alnum(x) {
        seq![x as char]
    } else {
        seq!['%', hex_upper(x / 16), hex_upper(x % 16)]
    }
}

/// Bytes percent-encoded one by one.
pub open spec fn percent_encoded(b: Seq<u8>) -> Seq<char>
    decreases b.len(),
{
    if b.len() == 0 {
        Seq::empty()
    } else {
        percent_encoded(b.drop_last()) + encode_byte(b.last())
    }
}

/// Relies on `percent_encoding::percent_encode` with `NON_ALPHANUMERIC`,
/// which encodes every byte but ASCII letters and digits as `%XX` with
/// upper-case hexadecimal digits.
#[verifier::external_body]
fn percent_encode_non_alphanumeric(b: &[u8]) -> (r: String)
    ensures
        r@ == percent_encoded(b@),
{
    percent_encoding::percent_encode(b, percent_encoding::NON_ALPHANUMERIC).to_string()
}

/// The anchor search URL for a keyword, the keyword's UTF-8 bytes
/// percent-encoded.
pub open spec fn search_url_text(keyword: &str) -> Seq<char> {
    SEARCH_ENDPOINT@ + percent_encoded(keyword.spec_bytes()) + SEARCH_PAGING@
}

/// The anchor search URL for a keyword.
pub fn search_url(keyword: &str) -> (r: String)
    ensures
        r@ == search_url_text(keyword),
{
    let mut s = String::from_str(SEARCH_ENDPOINT);
    let encoded = percent_encode_non_alphanumeric(keyword.as_bytes());
    s.append(encoded.as_str());
    s.append(SEARCH_PAGING);
    s
}

/// What `str::trim` leaves of a string.
pub uninterp spec fn trimmed(s: Seq<char>) -> Seq<char>;

/// Relies on `str::trim`: the string without leading and trailing white
/// space; the result depends on the characters alone.
#[verifier::external_body]
fn trim_str(s: &str) -> (r: &str)
    ensures
        r@ == trimmed(s@),
{
    s.trim()
}

/// The first position of `c` in `s`, if any.
pub open spec fn first_index_of(s: Seq<char>, c: char) -> Option<int> {
    if exists|i: int| 0 <= i < s.len() && s[i] == c {
        Some(choose|i: int| 0 <= i < s.len() && s[i] == c && forall|j: int| 0 <= j < i ==> s[j] != c)
    } else {
        None
    }
}

/// What precedes the first `c` in `s`, or all of `s`.
pub open spec fn before_first(s: Seq<char>, c: char) -> Seq<char> {
    match first_index_of(s, c) {
        Some(i) => s.subrange(0, i),
        None => s,
    }
}

/// The cookie a `Set-Cookie` value sets: in the part before the first `;`,
/// the name before the first `=` and the value after it, both trimmed. A
/// part without `=` sets none.
pub open spec fn cookie_of(header: Seq<char>) -> Option<(Seq<char>, Seq<char>)> {
    let pair = before_first(header, ';');
    match first_index_of(pair, '=') {
        Some(i) => Some((trimmed(pair.subrange(0, i)), trimmed(pair.subrange(i + 1, pair.len() as int)))),
        None => None,
    }
}

/// The value of the last `ttwid` cookie among `Set-Cookie` values.
pub open spec fn ttwid_among(headers: Seq<Seq<char>>) -> Option<Seq<char>>
    decreases headers.len(),
{
    if headers.len() == 0 {
        None
    } else {
        match cookie_of(headers.last()) {
            Some(c) => if c.0 == "ttwid"@ {
                Some(c.1)
            } else {
                ttwid_among(headers.drop_last())
            },
            None => ttwid_among(headers.drop_last()),
        }
    }
}

/// The first position of `c` in `s`, if any.
fn find_char(s: &str, c: char) -> (r: Option<usize>)
    ensures
        match r {
            Some(i) => i < s@.len() && first_index_of(s@, c) == Some(i as int),
            None => first_index_of(s@, c) is None,
        },
{
    let n = s.unicode_len();
    let mut i: usize = 0;
    while i < n
        invariant
            n == s@.len(),
            i <= n,
            forall|j: int| 0 <= j < i ==> s@[j] != c,
        decreases n - i,
    {
        if s.get_char(i) == c {
            let ghost k = choose|k: int| 0 <= k < s@.len() && s@[k] == c && forall|j: int| 0 <= j < k ==> s@[j] != c;
            assert(k == i) by {
                if k < i {
                } else if k > i {
                }
            };
            return Some(i);
        }
        i = i + 1;
    }
    None
}

/// The cookie one `Set-Cookie` value sets, if any.
fn parse_cookie(header: &str) -> (r: Option<(String, String)>)
    ensures
        match r {
            Some(c) => cookie_of(header@) == Some((c.0@, c.1@)),
            None => cookie_of(header@) is None,
        },
{
    let pair: &str = match find_char(header, ';') {
        Some(i) => header.substring_char(0, i),
        None => header,
    };
    match find_char(pair, '=') {
        None => None,
        Some(i) => {
            let n = pair.unicode_len();
            let name = trim_str(pair.substring_char(0, i));
            let value = trim_str(pair.substring_char(i + 1, n));
            Some((String::from_str(name), String::from_str(value)))
        },
    }
}

/// The value of the last `ttwid` cookie among `Set-Cookie` values.
pub fn ttwid_from_set_cookies(headers: &Vec<String>) -> (r: Option<String>)
    ensures
        opt_text(r) == ttwid_among(headers@.map_values(|h: String| h@)),
{
    let ghost all = headers@.map_values(|h: String| h@);
    let mut i: usize = headers.len();
    assert(all.take(i as int) =~= all);
    while i > 0
        invariant
            i <= headers@.len(),
            all == headers@.map_values(|h: String| h@),
            ttwid_among(all) == ttwid_among(all.take(i as int)),
        decreases i,
    {
        assert(all.take(i as int).drop_last() =~= all.take(i - 1));
        match parse_cookie(headers[i - 1].as_str()) {
            Some(c) => {
                let target = String::from_str("ttwid");
                proof {
                    reveal_strlit("ttwid");
                }
                if c.0.eq(&target) {
                    return Some(c.1);
                }
            },
            None => {},
        }
        i = i - 1;
    }
    None
}

/// The view of an optional string.
pub open spec fn opt_text(o: Option<String>) -> Option<Seq<char>> {
    match o {
        Some(s) => Some(s@),
        None => None,
    }
}

#[verifier::external_type_specification]
#[verifier::external_body]
pub struct ExRegexError(regex::Error);

/// The pattern that finds a room id in a page: `room_id`, an `=` with
/// optional white space around it, and the digits that follow.
pub const ROOM_ID_PATTERN: &'static str = "room_id\\s*=\\s*(\\d+)";

/// The stream placeholder returned beside a room id found in a page.
pub const DEFAULT_STREAM_URL: &'static str = "default_stream_url";

/// What the room-id pattern's first group captures in a page, if it matches.
pub uninterp spec fn room_id_capture(html: Seq<char>) -> Option<Seq<char>>;

/// Relies on `regex::Regex::new` and `Regex::captures`: the first group of
/// the leftmost match of the room-id pattern; the result depends on the page
/// alone. An invalid pattern is reported as the crate's error.
#[verifier::external_body]
fn capture_room_id(html: &str) -> (r: Result<Option<String>, regex::Error>)
    ensures
        r is Ok ==> opt_text(r->Ok_0) == room_id_capture(html@),
{
    let re = regex::Regex::new(ROOM_ID_PATTERN)?;
    Ok(re.captures(html).and_then(|c| c.get(1)).map(|m| m.as_str().to_string()))
}

/// Why no stream parameters came out of a page.
#[derive(Clone, Copy, PartialEq, Eq, Debug, Structural)]
pub enum StreamParamsError {
    /// The room-id pattern could not be compiled.
    Pattern,
    /// The page holds no room id.
    RoomIdMissing,
}

/// The stream parameters for a room-id capture: the id beside the
/// placeholder stream, or an error when nothing was captured.
pub fn stream_params_from_capture(capture: Option<String>) -> (r: Result<(String, String), StreamParamsError>)
    ensures
        capture is None ==> r == Err::<(String, String), StreamParamsError>(StreamParamsError::RoomIdMissing),
        capture is Some ==> r is Ok && r->Ok_0.0@ == capture->Some_0@ && r->Ok_0.1@ == DEFAULT_STREAM_URL@,
{
    match capture {
        Some(id) => Ok((id, String::from_str(DEFAULT_STREAM_URL))),
        None => Err(StreamParamsError::RoomIdMissing),
    }
}

/// The room id a page declares, beside the placeholder stream.
pub fn parse_stream_params(html: &str) -> (r: Result<(String, String), StreamParamsError>)
    ensures
        r is Ok ==> room_id_capture(html@) == Some(r->Ok_0.0@) && r->Ok_0.1@ == DEFAULT_STREAM_URL@,
        room_id_capture(html@) is None ==> r is Err,
{
    match capture_room_id(html) {
        Ok(capture) => stream_params_from_capture(capture),
        Err(_) => Err(StreamParamsError::Pattern),
    }
}

/// The lower-case hexadecimal MD5 digest of some bytes.
pub uninterp spec fn md5_hex_of(b: Seq<u8>) -> Seq<char>;

/// Relies on `md5::compute` and the digest's `LowerHex` form: two
/// lower-case hexadecimal digits for each of its sixteen bytes.
#[verifier::external_body]
fn md5_hex(data: &[u8]) -> (r: String)
    ensures
        r@ == md5_hex_of(data@),
        r@.len() == 32,
{
    format!("{:x}", md5::compute(data))
}

/// The device-id cookie the search endpoint expects.
pub open spec fn did_cookie_text(did: Seq<char>) -> Seq<char> {
    "dy_did="@ + did + "; acf_did="@ + did
}

/// The device-id cookie for a device id.
pub fn did_cookie(did: &str) -> (r: String)
    ensures
        r@ == did_cookie_text(did@),
{
    let mut s = String::from_str("dy_did=");
    s.append(did);
    s.append("; acf_did=");
    s.append(did);
    s
}

/// The device-id cookie for a search, the id being the MD5 digest of `seed`.
pub fn search_cookie(seed: &str) -> (r: String)
    ensures
        r@ == did_cookie_text(md5_hex_of(seed.spec_bytes())),
{
    let did = md5_hex(seed.as_bytes());
    did_cookie(did.as_str())
}

} // verus!
