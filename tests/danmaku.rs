use stream_relay::danmaku::{chat_from_packet, encode_msg, join_message, login_message, parse_fields, HEARTBEAT_MESSAGE};

fn packet(text: &str) -> Vec<u8> {
    let mut p = vec![0u8; 12];
    p.extend_from_slice(text.as_bytes());
    p.push(0);
    p
}

#[test]
fn encode_frames_message() {
    let out = encode_msg("type@=mrkl/");
    let mut expected = vec![20u8, 0, 0, 0, 20, 0, 0, 0, 0xb1, 0x02, 0, 0];
    expected.extend_from_slice(b"type@=mrkl/");
    expected.push(0);
    assert_eq!(out, expected);
    assert_eq!(encode_msg(""), vec![9u8, 0, 0, 0, 9, 0, 0, 0, 0xb1, 0x02, 0, 0, 0]);
    let long = "x".repeat(300);
    let out = encode_msg(&long);
    assert_eq!(&out[0..4], &[0x35, 0x01, 0, 0]);
    assert_eq!(out.len(), 313);
    assert_eq!(HEARTBEAT_MESSAGE, "type@=mrkl/");
}

#[test]
fn login_and_join_texts() {
    assert_eq!(login_message("9999"), "type@=loginreq/roomid@=9999/");
    assert_eq!(join_message("9999"), "type@=joingroup/rid@=9999/gid@=1/");
}

#[test]
fn fields_are_split_and_unescaped() {
    let f = parse_fields(b"type@=chatmsg/txt@=a@Sb@Ac/noeq/k@=v@=w//");
    let pairs: Vec<(String, String)> =
        f.iter().map(|(k, v)| (String::from_utf8(k.clone()).unwrap(), String::from_utf8(v.clone()).unwrap())).collect();
    assert_eq!(
        pairs,
        vec![
            ("type".to_string(), "chatmsg".to_string()),
            ("txt".to_string(), "a/b@c".to_string()),
            ("k".to_string(), "v@=w".to_string()),
        ]
    );
    assert!(parse_fields(b"").is_empty());
    // Sequential unescaping: "@AS" becomes "@S", not "/".
    assert_eq!(parse_fields(b"x@=@AS")[0].1, b"@S".to_vec());
}

#[test]
fn chat_message_from_packet() {
    let m = chat_from_packet(&packet("type@=chatmsg/nn@=Ann/txt@=hi@Sthere/level@=12/bnn@=fans/bl@=3/")).unwrap();
    assert_eq!(m.nickname, "Ann");
    assert_eq!(m.content, "hi/there");
    assert_eq!(m.level, "12");
    assert_eq!(m.badge_name, "fans");
    assert_eq!(m.badge_level, "3");
}

#[test]
fn chat_message_defaults_and_last_field_wins() {
    let m = chat_from_packet(&packet("type@=chatmsg/txt@=one/txt@=two/")).unwrap();
    assert_eq!(m.nickname, "unknown");
    assert_eq!(m.content, "two");
    assert_eq!(m.level, "0");
    assert_eq!(m.badge_name, "");
    assert_eq!(m.badge_level, "0");
}

#[test]
fn non_chat_packets_carry_nothing() {
    assert!(chat_from_packet(&packet("type@=uenter/nn@=Ann/")).is_none());
    assert!(chat_from_packet(&packet("nn@=Ann/")).is_none());
    assert!(chat_from_packet(&[0u8; 12]).is_none());
    assert!(chat_from_packet(b"").is_none());
}

#[test]
fn invalid_utf8_is_replaced() {
    let mut p = vec![0u8; 12];
    p.extend_from_slice(b"type@=chatmsg/nn@=A\xffB/");
    p.push(0);
    let m = chat_from_packet(&p).unwrap();
    assert_eq!(m.nickname, "A\u{fffd}B");
}
