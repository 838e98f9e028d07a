//! The chat gateway's wire format: framing outgoing messages, and reading
//! the `key@=value/` fields of incoming ones.
use vstd::prelude::*;
use vstd::string::{StringExecFns, StringSliceAdditionalSpecFns};
use vstd::slice::slice_to_vec;

verus! {

/// The message type of a packet sent by a client.
pub const CLIENT_MESSAGE_TYPE: u16 = 689;

/// Bytes of framing in a packet besides the message: the second length,
/// the type, two reserved bytes and the closing zero.
pub const FRAME_OVERHEAD: u32 = 9;

/// Bytes before the message text of a received packet.
pub const HEADER_LEN: usize = 12;

/// Sent periodically to keep the connection alive.
pub const HEARTBEAT_MESSAGE: &'static str = "type@=mrkl/";

/// `n` as four little-endian bytes.
pub open spec fn le32(n: u32) -> Seq<u8> {
    seq![
        (n % 256) as u8,
        ((n / 256) % 256) as u8,
        ((n / 65536) % 256) as u8,
        ((n / 16777216) % 256) as u8,
    ]
}

/// A packet: the length (message plus nine) twice, the client type, two
/// zero bytes, the message, and a closing zero.
pub open spec fn framed(msg: Seq<u8>) -> Seq<u8> {
    le32((msg.len() + FRAME_OVERHEAD) as u32) + le32((msg.len() + FRAME_OVERHEAD) as u32)
        + seq![0xb1u8, 0x02u8, 0u8, 0u8] + msg + seq![0u8]
}

fn push_le32(out: &mut Vec<u8>, n: u32)
    ensures
        final(out)@ == old(out)@ + le32(n),
{
    out.push((n % 256) as u8);
    out.push(((n / 256) % 256) as u8);
    out.push(((n / 65536) % 256) as u8);
    out.push(((n / 16777216) % 256) as u8);
    assert(out@ =~= old(out)@ + le32(n));
}

/// Frames `msg` as a packet for the gateway.
pub fn encode_msg(msg: &str) -> (r: Vec<u8>)
    requires
        msg.spec_bytes().len() + FRAME_OVERHEAD <= u32::MAX,
    ensures
        r@ == framed(msg.spec_bytes()),
{
    let bytes = msg.as_bytes();
    let packet_len: u32 = bytes.len() as u32 + FRAME_OVERHEAD;
    let mut out: Vec<u8> = Vec::new();
    push_le32(&mut out, packet_len);
    push_le32(&mut out, packet_len);
    out.push(0xb1u8);
    out.push(0x02u8);
    out.push(0u8);
    out.push(0u8);
    out.extend_from_slice(bytes);
    out.push(0u8);
    assert(out@ =~= framed(msg.spec_bytes()));
    out
}

/// The login request for a room.
pub fn login_message(room_id: &str) -> (r: String)
    ensures
        r@ == "type@=loginreq/roomid@="@ + room_id@ + "/"@,
{
    let mut s = String::from_str("type@=loginreq/roomid@=");
    s.append(room_id);
    s.append("/");
    s
}

/// The request to join a room's message group.
pub fn join_message(room_id: &str) -> (r: String)
    ensures
        r@ == "type@=joingroup/rid@="@ + room_id@ + "/gid@=1/"@,
{
    let mut s = String::from_str("type@=joingroup/rid@=");
    s.append(room_id);
    s.append("/gid@=1/");
    s
}

/// The message text of a received packet: what lies between its header and
/// its closing byte, for a packet of at least thirteen bytes.
pub open spec fn body_of(data: Seq<u8>) -> Option<Seq<u8>> {
    if data.len() < 13 {
        None
    } else {
        Some(data.subrange(HEADER_LEN as int, data.len() - 1))
    }
}

/// `s` cut at every `sep`, as `str::split` does: `n` separators give `n + 1`
/// pieces, empty ones included.
pub open spec fn split_at_byte(s: Seq<u8>, sep: u8) -> Seq<Seq<u8>>
    decreases s.len(),
{
    if s.len() == 0 {
        seq![Seq::empty()]
    } else {
        let p = split_at_byte(s.drop_last(), sep);
        if s.last() == sep {
            p.push(Seq::empty())
        } else {
            p.update(p.len() - 1, p.last().push(s.last()))
        }
    }
}

/// The first position of the pair `a b` in `s`.
pub open spec fn find_pair(s: Seq<u8>, a: u8, b: u8) -> Option<int>
    decreases s.len(),
{
    if s.len() < 2 {
        None
    } else {
        match find_pair(s.drop_last(), a, b) {
            Some(i) => Some(i),
            None => if s[s.len() - 2] == a && s.last() == b {
                Some(s.len() - 2)
            } else {
                None
            },
        }
    }
}

/// `s` with each pair `a b` replaced by `c`, left to right and without
/// overlap, as `str::replace` does.
pub open spec fn replace_pair(s: Seq<u8>, a: u8, b: u8, c: u8) -> Seq<u8>
    decreases s.len(),
{
    if s.len() < 2 {
        s
    } else if s[0] == a && s[1] == b {
        seq![c] + replace_pair(s.subrange(2, s.len() as int), a, b, c)
    } else {
        seq![s[0]] + replace_pair(s.subrange(1, s.len() as int), a, b, c)
    }
}

/// A value with its escapes undone: `@S` becomes `/`, then `@A` becomes `@`.
pub open spec fn unescaped(v: Seq<u8>) -> Seq<u8> {
    replace_pair(replace_pair(v, 0x40u8, 0x53u8, 0x2fu8), 0x40u8, 0x41u8, 0x40u8)
}

/// The field a piece holds: what precedes its first `@=`, and the rest
/// unescaped. An empty piece, or one without `@=`, holds none.
pub open spec fn field_of(piece: Seq<u8>) -> Option<(Seq<u8>, Seq<u8>)> {
    if piece.len() == 0 {
        None
    } else {
        match find_pair(piece, 0x40u8, 0x3du8) {
            Some(i) => Some((piece.subrange(0, i), unescaped(piece.subrange(i + 2, piece.len() as int)))),
            None => None,
        }
    }
}

/// The fields of a message text, in order.
pub open spec fn fields_of_pieces(pieces: Seq<Seq<u8>>) -> Seq<(Seq<u8>, Seq<u8>)>
    decreases pieces.len(),
{
    if pieces.len() == 0 {
        Seq::empty()
    } else {
        let rest = fields_of_pieces(pieces.drop_last());
        match field_of(pieces.last()) {
            Some(f) => rest.push(f),
            None => rest,
        }
    }
}

pub open spec fn fields_of(text: Seq<u8>) -> Seq<(Seq<u8>, Seq<u8>)> {
    fields_of_pieces(split_at_byte(text, 0x2fu8))
}

/// The value of the last field named `key`, as a map filled in order keeps it.
pub open spec fn lookup(fields: Seq<(Seq<u8>, Seq<u8>)>, key: Seq<u8>) -> Option<Seq<u8>>
    decreases fields.len(),
{
    if fields.len() == 0 {
        None
    } else if fields.last().0 == key {
        Some(fields.last().1)
    } else {
        lookup(fields.drop_last(), key)
    }
}

/// The first position of the pair `a b` in `s`.
fn find_pair_exec(s: &[u8], a: u8, b: u8) -> (r: Option<usize>)
    ensures
        match r {
            Some(i) => find_pair(s@, a, b) == Some(i as int),
            None => find_pair(s@, a, b) is None,
        },
{
    let n = s.len();
    if n < 2 {
        return None;
    }
    let mut i: usize = 0;
    while i + 1 < n
        invariant
            n == s@.len(),
            n >= 2,
            i + 1 <= n,
            find_pair(s@.take(i as int + 1), a, b) is None,
        decreases n - i,
    {
        assert(s@.take(i as int + 2).drop_last() =~= s@.take(i as int + 1));
        if s[i] == a && s[i + 1] == b {
            proof {
                lemma_find_pair_prefix(s@, a, b, i as int + 2);
            }
            return Some(i);
        }
        i = i + 1;
    }
    assert(s@.take(n as int) =~= s@);
    None
}

/// Where a pair is first found in a prefix, it is first found in the whole.
proof fn lemma_find_pair_prefix(s: Seq<u8>, a: u8, b: u8, k: int)
    requires
        0 <= k <= s.len(),
        find_pair(s.take(k), a, b) is Some,
    ensures
        find_pair(s, a, b) == find_pair(s.take(k), a, b),
    decreases s.len() - k,
{
    if k < s.len() {
        assert(s.take(k + 1).drop_last() =~= s.take(k));
        lemma_find_pair_prefix(s, a, b, k + 1);
    } else {
        assert(s.take(k) =~= s);
    }
}

/// `s` with each pair `a b` replaced by `c`.
fn replace_pair_exec(s: &[u8], a: u8, b: u8, c: u8) -> (r: Vec<u8>)
    ensures
        r@ == replace_pair(s@, a, b, c),
{
    let n = s.len();
    let mut out: Vec<u8> = Vec::new();
    let mut i: usize = 0;
    assert(s@.subrange(0, n as int) =~= s@);
    assert(out@ + replace_pair(s@, a, b, c) =~= replace_pair(s@, a, b, c));
    while i < n
        invariant
            n == s@.len(),
            i <= n,
            out@ + replace_pair(s@.subrange(i as int, n as int), a, b, c) == replace_pair(s@, a, b, c),
        decreases n - i,
    {
        let ghost rest = s@.subrange(i as int, n as int);
        if i + 1 < n && s[i] == a && s[i + 1] == b {
            assert(rest.subrange(2, rest.len() as int) =~= s@.subrange(i + 2, n as int));
            out.push(c);
            i = i + 2;
            assert(out@ + replace_pair(s@.subrange(i as int, n as int), a, b, c) =~= replace_pair(s@, a, b, c));
        } else {
            assert(rest.subrange(1, rest.len() as int) =~= s@.subrange(i + 1, n as int));
            out.push(s[i]);
            i = i + 1;
            assert(out@ + replace_pair(s@.subrange(i as int, n as int), a, b, c) =~= replace_pair(s@, a, b, c));
        }
    }
    assert(s@.subrange(n as int, n as int) =~= Seq::<u8>::empty());
    assert(out@ + Seq::<u8>::empty() =~= out@);
    out
}

/// The field one piece holds, if any.
fn parse_field(piece: &[u8]) -> (r: Option<(Vec<u8>, Vec<u8>)>)
    ensures
        match r {
            Some(f) => field_of(piece@) == Some((f.0@, f.1@)),
            None => field_of(piece@) is None,
        },
{
    if piece.len() == 0 {
        return None;
    }
    match find_pair_exec(piece, 0x40u8, 0x3du8) {
        None => None,
        Some(i) => {
            proof {
                lemma_find_pair_bounds(piece@, 0x40u8, 0x3du8);
            }
            let key = slice_to_vec(slice_subrange(piece, 0, i));
            let raw = slice_subrange(piece, i + 2, piece.len());
            let once = replace_pair_exec(raw, 0x40u8, 0x53u8, 0x2fu8);
            let value = replace_pair_exec(once.as_slice(), 0x40u8, 0x41u8, 0x40u8);
            Some((key, value))
        },
    }
}

proof fn lemma_find_pair_bounds(s: Seq<u8>, a: u8, b: u8)
    ensures
        find_pair(s, a, b) is Some ==> 0 <= find_pair(s, a, b)->Some_0 && find_pair(s, a, b)->Some_0
            + 2 <= s.len(),
    decreases s.len(),
{
    if s.len() >= 2 {
        lemma_find_pair_bounds(s.drop_last(), a, b);
    }
}

/// `s[from..to]`.
fn slice_subrange(s: &[u8], from: usize, to: usize) -> (r: &[u8])
    requires
        from <= to <= s@.len(),
    ensures
        r@ == s@.subrange(from as int, to as int),
{
    vstd::slice::slice_subrange(s, from, to)
}

/// The fields of a message text, in order.
pub fn parse_fields(text: &[u8]) -> (r: Vec<(Vec<u8>, Vec<u8>)>)
    ensures
        r@.len() == fields_of(text@).len(),
        forall|i: int| 0 <= i < r@.len() ==> (#[trigger] r@[i]).0@ == fields_of(text@)[i].0 && r@[i].1@ == fields_of(text@)[i].1,
{
    let n = text.len();
    let mut out: Vec<(Vec<u8>, Vec<u8>)> = Vec::new();
    let mut start: usize = 0;
    let mut i: usize = 0;
    assert(text@.take(0) =~= Seq::<u8>::empty());
    assert(split_at_byte(Seq::<u8>::empty(), 0x2fu8).drop_last() =~= Seq::<Seq<u8>>::empty());
    while i < n
        invariant
            n == text@.len(),
            start <= i <= n,
            split_at_byte(text@.take(i as int), 0x2fu8).last() == text@.subrange(start as int, i as int),
            out@.len() == fields_of_pieces(split_at_byte(text@.take(i as int), 0x2fu8).drop_last()).len(),
            forall|k: int| 0 <= k < out@.len() ==> (#[trigger] out@[k]).0@
                == fields_of_pieces(split_at_byte(text@.take(i as int), 0x2fu8).drop_last())[k].0
                && out@[k].1@ == fields_of_pieces(split_at_byte(text@.take(i as int), 0x2fu8).drop_last())[k].1,
        decreases n - i,
    {
        let ghost pre = split_at_byte(text@.take(i as int), 0x2fu8);
        assert(text@.take(i + 1).drop_last() =~= text@.take(i as int));
        proof {
            lemma_split_nonempty(text@.take(i as int), 0x2fu8);
        }
        if text[i] == 0x2fu8 {
            let piece = slice_subrange(text, start, i);
            let f = parse_field(piece);
            match f {
                Some(kv) => out.push(kv),
                None => {},
            }
            proof {
                let post = split_at_byte(text@.take(i + 1), 0x2fu8);
                assert(text@.take(i + 1).last() == text@[i as int]);
                assert(post =~= pre.push(Seq::empty()));
                assert(post.drop_last() =~= pre);
            }
            start = i + 1;
            i = i + 1;
            assert(text@.subrange(start as int, i as int) =~= Seq::<u8>::empty());
        } else {
            proof {
                let post = split_at_byte(text@.take(i + 1), 0x2fu8);
                assert(text@.take(i + 1).last() == text@[i as int]);
                assert(post =~= pre.update(pre.len() - 1, pre.last().push(text@[i as int])));
                assert(post.drop_last() =~= pre.drop_last());
                assert(text@.subrange(start as int, i + 1) =~= text@.subrange(start as int, i as int).push(text@[i as int]));
            }
            i = i + 1;
        }
    }
    assert(text@.take(n as int) =~= text@);
    let last = slice_subrange(text, start, n);
    let f = parse_field(last);
    match f {
        Some(kv) => out.push(kv),
        None => {},
    }
    proof {
        let all = split_at_byte(text@, 0x2fu8);
        lemma_split_nonempty(text@, 0x2fu8);
        assert(all =~= all.drop_last().push(all.last()));
    }
    out
}

proof fn lemma_split_nonempty(s: Seq<u8>, sep: u8)
    ensures
        split_at_byte(s, sep).len() >= 1,
    decreases s.len(),
{
    if s.len() > 0 {
        lemma_split_nonempty(s.drop_last(), sep);
    }
}

/// A chat message as the frontend shows it.
pub struct ChatMessage {
    pub nickname: String,
    pub content: String,
    pub level: String,
    pub badge_name: String,
    pub badge_level: String,
}

/// What `String::from_utf8_lossy` makes of some bytes.
pub uninterp spec fn lossy_text(b: Seq<u8>) -> Seq<char>;

/// Relies on `String::from_utf8_lossy`: the bytes decoded as UTF-8, each
/// invalid sequence replaced by U+FFFD; the result depends on the bytes
/// alone.
#[verifier::external_body]
fn decode_lossy(b: &[u8]) -> (r: String)
    ensures
        r@ == lossy_text(b@),
{
    String::from_utf8_lossy(b).into_owned()
}

/// Whether two byte strings are equal.
fn bytes_equal(a: &[u8], b: &[u8]) -> (r: bool)
    ensures
        r == (a@ == b@),
{
    if a.len() != b.len() {
        return false;
    }
    let mut i: usize = 0;
    while i < a.len()
        invariant
            a@.len() == b@.len(),
            i <= a@.len(),
            forall|k: int| 0 <= k < i ==> a@[k] == b@[k],
        decreases a@.len() - i,
    {
        if a[i] != b[i] {
            return false;
        }
        i = i + 1;
    }
    assert(a@ =~= b@);
    true
}

/// The value of the last field named `key`.
fn lookup_exec<'a>(fields: &'a Vec<(Vec<u8>, Vec<u8>)>, key: &[u8]) -> (r: Option<&'a Vec<u8>>)
    ensures
        match r {
            Some(v) => lookup(fields_view(fields@), key@) == Some(v@),
            None => lookup(fields_view(fields@), key@) is None,
        },
{
    let mut i: usize = fields.len();
    assert(fields_view(fields@).take(i as int) =~= fields_view(fields@));
    while i > 0
        invariant
            i <= fields@.len(),
            lookup(fields_view(fields@), key@) == lookup(fields_view(fields@).take(i as int), key@),
        decreases i,
    {
        let ghost pre = fields_view(fields@).take(i as int);
        assert(pre.drop_last() =~= fields_view(fields@).take(i - 1));
        if bytes_equal(fields[i - 1].0.as_slice(), key) {
            return Some(&fields[i - 1].1);
        }
        i = i - 1;
    }
    None
}

/// The mathematical form of a list of fields.
pub open spec fn fields_view(fields: Seq<(Vec<u8>, Vec<u8>)>) -> Seq<(Seq<u8>, Seq<u8>)> {
    fields.map_values(|f: (Vec<u8>, Vec<u8>)| (f.0@, f.1@))
}

/// The text of the field named `key`, or `default` when there is none.
pub open spec fn field_text(fields: Seq<(Seq<u8>, Seq<u8>)>, key: &str, default: &str) -> Seq<char> {
    match lookup(fields, key.spec_bytes()) {
        Some(v) => lossy_text(v),
        None => default@,
    }
}

/// Whether the fields describe a chat message.
pub open spec fn is_chat(fields: Seq<(Seq<u8>, Seq<u8>)>) -> bool {
    lookup(fields, "type".spec_bytes()) == Some("chatmsg".spec_bytes())
}

fn field_text_exec(fields: &Vec<(Vec<u8>, Vec<u8>)>, key: &str, default: &str) -> (r: String)
    ensures
        r@ == field_text(fields_view(fields@), key, default),
{
    match lookup_exec(fields, key.as_bytes()) {
        Some(v) => decode_lossy(v.as_slice()),
        None => String::from_str(default),
    }
}

/// The chat message a received packet carries: one whose fields have
/// `type` `chatmsg`. Its nickname (`nn`, else `unknown`), text (`txt`),
/// level (`level`, else `0`), badge name (`bnn`) and badge level (`bl`, else
/// `0`) are taken from the last field of each name. Packets shorter than
/// thirteen bytes, and other types, carry none.
pub fn chat_from_packet(data: &[u8]) -> (r: Option<ChatMessage>)
    ensures
        body_of(data@) is None ==> r is None,
        body_of(data@) is Some ==> ({
            let fields = fields_of(body_of(data@)->Some_0);
            &&& r is Some <==> is_chat(fields)
            &&& r is Some ==> ({
                let m = r->Some_0;
                &&& m.nickname@ == field_text(fields, "nn", "unknown")
                &&& m.content@ == field_text(fields, "txt", "")
                &&& m.level@ == field_text(fields, "level", "0")
                &&& m.badge_name@ == field_text(fields, "bnn", "")
                &&& m.badge_level@ == field_text(fields, "bl", "0")
            })
        }),
{
    if data.len() < 13 {
        return None;
    }
    let text = slice_subrange(data, HEADER_LEN, data.len() - 1);
    let fields = parse_fields(text);
    assert(fields_view(fields@) =~= fields_of(text@));
    let chat = match lookup_exec(&fields, "type".as_bytes()) {
        Some(t) => bytes_equal(t.as_slice(), "chatmsg".as_bytes()),
        None => false,
    };
    if !chat {
        return None;
    }
    Some(ChatMessage {
        nickname: field_text_exec(&fields, "nn", "unknown"),
        content: field_text_exec(&fields, "txt", ""),
        level: field_text_exec(&fields, "level", "0"),
        badge_name: field_text_exec(&fields, "bnn", ""),
        badge_level: field_text_exec(&fields, "bl", "0"),
    })
}

} // verus!
