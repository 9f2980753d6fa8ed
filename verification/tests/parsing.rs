use mosh_relay::addr::{select_address, AddrSelectError, PeerAddr};
use mosh_relay::bootstrap::parse_connect_output;
use mosh_relay::message::{decode_message, encode_message, Message};

#[test]
fn message_wire_bytes_are_exact() {
    assert_eq!(encode_message(&Message::Ping), vec![0, 0, 0, 0]);
    assert_eq!(encode_message(&Message::Pong), vec![0, 0, 0, 1]);
    assert_eq!(
        encode_message(&Message::StartServer { sessid: 0x0102030405060708 }),
        vec![0, 0, 0, 2, 1, 2, 3, 4, 5, 6, 7, 8]
    );
    assert_eq!(
        encode_message(&Message::ServerStarted { key: "K".to_string() }),
        vec![0, 0, 0, 3, 0, 0, 0, 0, 0, 0, 0, 1, 75]
    );
    assert_eq!(
        encode_message(&Message::Failed { msg: "no".to_string() }),
        vec![0, 0, 0, 4, 0, 0, 0, 0, 0, 0, 0, 2, 110, 111]
    );
}

#[test]
fn message_decode_inverts_encode() {
    let msgs = vec![
        Message::Ping,
        Message::Pong,
        Message::StartServer { sessid: u64::MAX },
        Message::ServerStarted { key: String::new() },
        Message::Failed { msg: "zäh".to_string() },
    ];
    for m in msgs {
        let b = encode_message(&m);
        assert_eq!(decode_message(&b), Some(m));
    }
}

#[test]
fn message_decode_rejects_garbage() {
    assert_eq!(decode_message(&vec![]), None);
    assert_eq!(decode_message(&vec![0, 0, 0]), None);
    // Unknown tag.
    assert_eq!(decode_message(&vec![0, 0, 0, 5]), None);
    // Trailing byte after a ping.
    assert_eq!(decode_message(&vec![0, 0, 0, 0, 0]), None);
    // Text length prefix that does not match the remainder.
    assert_eq!(decode_message(&vec![0, 0, 0, 3, 0, 0, 0, 0, 0, 0, 0, 5, 75]), None);
    // Text that is not UTF-8.
    assert_eq!(decode_message(&vec![0, 0, 0, 4, 0, 0, 0, 0, 0, 0, 0, 1, 0xff]), None);
}

#[test]
fn connect_line_parses() {
    let out = b"MOSH CONNECT 60001 Ms1SDLQuvnLI39nvqtpoWQ\n".to_vec();
    let ci = parse_connect_output(&out).expect("parse");
    assert_eq!(ci.port, 60001);
    assert_eq!(ci.key, "Ms1SDLQuvnLI39nvqtpoWQ");
}

#[test]
fn connect_line_found_among_other_output() {
    let out = b"warning: something\n\nMOSH CONNECT 1 k first\nMOSH CONNECT 2 second\n".to_vec();
    let ci = parse_connect_output(&out).expect("parse");
    // The first announcement line decides; later words are ignored.
    assert_eq!(ci.port, 1);
    assert_eq!(ci.key, "k");
}

#[test]
fn connect_line_tolerates_extra_whitespace_and_cr() {
    let out = b"MOSH CONNECT\t 60002  key\r\n".to_vec();
    let ci = parse_connect_output(&out).expect("parse");
    assert_eq!(ci.port, 60002);
    assert_eq!(ci.key, "key");
}

#[test]
fn connect_line_with_plus_port_parses() {
    let out = b"MOSH CONNECT +60003 key\n".to_vec();
    let ci = parse_connect_output(&out).expect("parse");
    assert_eq!(ci.port, 60003);
}

#[test]
fn malformed_connect_lines_rejected() {
    // No announcement at all.
    assert!(parse_connect_output(&b"hello\nworld\n".to_vec()).is_none());
    // Too few words.
    assert!(parse_connect_output(&b"MOSH CONNECT 60001\n".to_vec()).is_none());
    // Port is not a number.
    assert!(parse_connect_output(&b"MOSH CONNECT here key\n".to_vec()).is_none());
    // Port does not fit.
    assert!(parse_connect_output(&b"MOSH CONNECT 65536 key\n".to_vec()).is_none());
    assert!(parse_connect_output(&b"MOSH CONNECT 184467440737095516150 key\n".to_vec()).is_none());
    // Key is not UTF-8.
    assert!(parse_connect_output(&b"MOSH CONNECT 60001 \xff\xfe\n".to_vec()).is_none());
    // Empty output.
    assert!(parse_connect_output(&Vec::new()).is_none());
}

#[test]
fn port_at_limit_parses() {
    let out = b"MOSH CONNECT 65535 key\n".to_vec();
    assert_eq!(parse_connect_output(&out).expect("parse").port, 65535);
}

fn v4(port: u16) -> PeerAddr {
    PeerAddr { is_v6: false, ip: 0x7f000001, port, flowinfo: 0, scope_id: 0 }
}

fn v6(port: u16) -> PeerAddr {
    PeerAddr { is_v6: true, ip: 1, port, flowinfo: 0, scope_id: 0 }
}

#[test]
fn select_address_takes_the_single_candidate() {
    assert_eq!(select_address(&vec![v4(22)], false, false), Ok(v4(22)));
    // A family restriction can cut a mixed list down to one.
    assert_eq!(select_address(&vec![v4(22), v6(22)], true, false), Ok(v4(22)));
    assert_eq!(select_address(&vec![v4(22), v6(22)], false, true), Ok(v6(22)));
}

#[test]
fn select_address_rejects_none_or_many() {
    assert_eq!(select_address(&vec![], false, false), Err(AddrSelectError::NoUsableAddress));
    assert_eq!(select_address(&vec![v6(1)], true, false), Err(AddrSelectError::NoUsableAddress));
    assert_eq!(
        select_address(&vec![v4(1), v4(2)], false, false),
        Err(AddrSelectError::Ambiguous)
    );
}
