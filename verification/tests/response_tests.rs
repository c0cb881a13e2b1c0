use omp_launcher::codec::encode_info_bytes;
use omp_launcher::codec::InfoBytes;
use omp_launcher::errors::LauncherError;
use omp_launcher::response::build_info_packet;
use omp_launcher::response::build_players_packet;
use omp_launcher::response::build_rules_packet;
use omp_launcher::response::dispatch_response;
use omp_launcher::response::ResponsePayload;
use omp_launcher::textdec::decode_buffer;

fn response_packet(tag: u8, payload: &[u8]) -> Vec<u8> {
    let mut pkt = vec![b'S', b'A', b'M', b'P', 127, 0, 0, 1, 0x61, 0x1e, tag];
    pkt.extend_from_slice(payload);
    pkt
}

fn ascii_info_payload() -> Vec<u8> {
    encode_info_bytes(&InfoBytes {
        password: false,
        players: 5,
        max_players: 32,
        hostname: b"Test".to_vec(),
        gamemode: b"Freeroam".to_vec(),
        language: b"en".to_vec(),
    })
}

#[test]
fn info_end_to_end_round_trip() {
    let payload = ascii_info_payload();
    let packet = build_info_packet(&payload).unwrap();
    assert!(!packet.password);
    assert_eq!(packet.players, 5);
    assert_eq!(packet.max_players, 32);
    assert_eq!(packet.hostname, "Test");
    assert_eq!(packet.gamemode, "Freeroam");
    assert_eq!(packet.language, "en");
}

#[test]
fn ascii_decodes_to_itself() {
    let (text, encoding) = decode_buffer(b"Grand Larceny".to_vec());
    assert_eq!(text, "Grand Larceny");
    assert_eq!(encoding, "UTF-8");
}

#[test]
fn empty_buffer_decodes_to_empty_text() {
    let (text, _) = decode_buffer(Vec::new());
    assert_eq!(text, "");
}

#[test]
fn escape_bytes_never_crash_the_decoder() {
    // These inputs drive the chardet detector into its escape-ASCII state,
    // whose close is a crash; the decoder must skip its vote and finish.
    let (_, encoding) = decode_buffer(vec![0x1b]);
    assert!(!encoding.is_empty());
    let mut mixed = b"abc".to_vec();
    mixed.push(0x1b);
    mixed.extend_from_slice(b"def");
    let (_, encoding) = decode_buffer(mixed);
    assert!(!encoding.is_empty());
    // With a high byte the detector is safe again and must still finish.
    let (_, encoding) = decode_buffer(vec![0x1b, 0xcf, 0xf0]);
    assert!(!encoding.is_empty());
}

#[test]
fn utf8_cyrillic_passes_through_text_decoder() {
    let bytes = "Привет мир, это сервер".as_bytes().to_vec();
    let (text, encoding) = decode_buffer(bytes);
    assert_eq!(text, "Привет мир, это сервер");
    assert_eq!(encoding, "UTF-8");
}

#[test]
fn windows1251_hostname_is_decoded_not_copied() {
    // "Привет мир, это сервер" in windows-1251: the decoder must map these
    // single bytes to Cyrillic characters, not hand them through.
    let bytes = vec![
        0xcf, 0xf0, 0xe8, 0xe2, 0xe5, 0xf2, 0x20, 0xec, 0xe8, 0xf0, 0x2c, 0x20, 0xfd, 0xf2,
        0xee, 0x20, 0xf1, 0xe5, 0xf0, 0xe2, 0xe5, 0xf0,
    ];
    let (text, encoding) = decode_buffer(bytes);
    assert_eq!(text, "Привет мир, это сервер");
    assert_eq!(encoding, "windows-1251");
}

#[test]
fn players_packet_decodes_names_to_text() {
    let mut p = vec![1, 0];
    p.push(5);
    p.extend_from_slice(b"Kalle");
    p.extend_from_slice(&[0x0a, 0, 0, 0]);
    let players = build_players_packet(&p).unwrap();
    assert_eq!(players.len(), 1);
    assert_eq!(players[0].name, "Kalle");
    assert_eq!(players[0].score, 10);
}

#[test]
fn rules_packet_decodes_pairs_to_text() {
    let mut p = vec![1, 0];
    p.push(7);
    p.extend_from_slice(b"weather");
    p.push(2);
    p.extend_from_slice(b"10");
    let rules = build_rules_packet(&p).unwrap();
    assert_eq!(rules.len(), 1);
    assert_eq!(rules[0].name, "weather");
    assert_eq!(rules[0].value, "10");
}

#[test]
fn dispatch_routes_by_echoed_tag() {
    let pkt = response_packet(b'i', &ascii_info_payload());
    match dispatch_response(&pkt) {
        Ok(ResponsePayload::Info(p)) => assert_eq!(p.hostname, "Test"),
        _ => panic!("expected an info payload"),
    }
}

#[test]
fn dispatch_ping_reply_is_pong() {
    let pkt = response_packet(b'p', &[0, 0, 0, 0]);
    assert!(matches!(dispatch_response(&pkt), Ok(ResponsePayload::Pong)));
}

#[test]
fn dispatch_empty_read_is_network_error() {
    match dispatch_response(&Vec::new()) {
        Err(LauncherError::Network(m)) => assert_eq!(m, "No data received"),
        _ => panic!("expected Network"),
    }
}

#[test]
fn dispatch_unknown_tag_is_network_error() {
    let pkt = response_packet(b'q', &[]);
    match dispatch_response(&pkt) {
        Err(LauncherError::Network(m)) => assert_eq!(m, "Unknown query type"),
        _ => panic!("expected Network"),
    }
}

#[test]
fn dispatch_short_packet_is_parse_error() {
    let pkt = vec![b'S', b'A', b'M', b'P'];
    assert!(matches!(dispatch_response(&pkt), Err(LauncherError::Parse(_))));
}

#[test]
fn dispatch_bad_category_payload_fails_that_category() {
    let pkt = response_packet(b'c', &[0xe9, 0x03]); // 1001 players claimed
    match dispatch_response(&pkt) {
        Err(LauncherError::InvalidInput(m)) => {
            assert_eq!(m, "Player count exceeds maximum");
        },
        _ => panic!("expected InvalidInput"),
    }
}
