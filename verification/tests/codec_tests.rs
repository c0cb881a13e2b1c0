use omp_launcher::codec::decode_extra_info_bytes;
use omp_launcher::codec::decode_info_bytes;
use omp_launcher::codec::decode_players_bytes;
use omp_launcher::codec::decode_rules_bytes;
use omp_launcher::codec::encode_info_bytes;
use omp_launcher::codec::encode_request;
use omp_launcher::codec::InfoBytes;
use omp_launcher::codec::Ipv4Octets;
use omp_launcher::codec::QueryType;
use omp_launcher::errors::LauncherError;

fn push_u32(v: &mut Vec<u8>, x: u32) {
    v.push((x % 256) as u8);
    v.push((x / 256 % 256) as u8);
    v.push((x / 65536 % 256) as u8);
    v.push((x / 16777216) as u8);
}

fn prefixed(v: &mut Vec<u8>, s: &[u8]) {
    push_u32(v, s.len() as u32);
    v.extend_from_slice(s);
}

fn info_payload(password: u8, players: u16, max_players: u16, host: &[u8], mode: &[u8], lang: &[u8]) -> Vec<u8> {
    let mut p = Vec::new();
    p.push(password);
    p.push((players % 256) as u8);
    p.push((players / 256) as u8);
    p.push((max_players % 256) as u8);
    p.push((max_players / 256) as u8);
    prefixed(&mut p, host);
    prefixed(&mut p, mode);
    prefixed(&mut p, lang);
    p
}

#[test]
fn request_packet_layout() {
    let oct = Ipv4Octets { a: 127, b: 0, c: 0, d: 1 };
    let pkt = encode_request(&oct, 7777, QueryType::Info);
    assert_eq!(pkt, vec![b'S', b'A', b'M', b'P', 127, 0, 0, 1, 0x61, 0x1e, b'i']);
}

#[test]
fn ping_request_appends_echo_bytes() {
    let oct = Ipv4Octets { a: 1, b: 2, c: 3, d: 4 };
    let pkt = encode_request(&oct, 256, QueryType::Ping);
    assert_eq!(pkt, vec![b'S', b'A', b'M', b'P', 1, 2, 3, 4, 0, 1, b'p', 0, 0, 0, 0]);
}

#[test]
fn request_tags_match_categories() {
    let oct = Ipv4Octets { a: 0, b: 0, c: 0, d: 0 };
    assert_eq!(encode_request(&oct, 1, QueryType::Players)[10], b'c');
    assert_eq!(encode_request(&oct, 1, QueryType::Rules)[10], b'r');
    assert_eq!(encode_request(&oct, 1, QueryType::ExtraInfo)[10], b'o');
}

#[test]
fn info_decode_reads_fields() {
    let p = info_payload(1, 5, 32, b"Test", b"Freeroam", b"en");
    let f = decode_info_bytes(&p).unwrap();
    assert!(f.password);
    assert_eq!(f.players, 5);
    assert_eq!(f.max_players, 32);
    assert_eq!(f.hostname, b"Test".to_vec());
    assert_eq!(f.gamemode, b"Freeroam".to_vec());
    assert_eq!(f.language, b"en".to_vec());
}

#[test]
fn info_round_trip_bytes() {
    let f = InfoBytes {
        password: false,
        players: 5,
        max_players: 32,
        hostname: b"Test".to_vec(),
        gamemode: b"Freeroam".to_vec(),
        language: b"en".to_vec(),
    };
    let encoded = encode_info_bytes(&f);
    let back = decode_info_bytes(&encoded).unwrap();
    assert!(!back.password);
    assert_eq!(back.players, 5);
    assert_eq!(back.max_players, 32);
    assert_eq!(back.hostname, b"Test".to_vec());
    assert_eq!(back.gamemode, b"Freeroam".to_vec());
    assert_eq!(back.language, b"en".to_vec());
}

#[test]
fn hostname_over_cap_is_invalid_input() {
    let p = info_payload(0, 1, 2, &[b'a'; 64], b"m", b"l");
    match decode_info_bytes(&p) {
        Err(LauncherError::InvalidInput(m)) => {
            assert_eq!(m, "Hostname length exceeds maximum");
        },
        _ => panic!("expected InvalidInput"),
    }
}

#[test]
fn huge_claimed_length_rejected_without_allocation() {
    // A hostile length prefix far beyond the buffer: the cap check fires
    // before any buffer of the claimed size could be taken.
    let mut p = vec![0, 1, 0, 2, 0];
    push_u32(&mut p, u32::MAX);
    match decode_info_bytes(&p) {
        Err(LauncherError::InvalidInput(m)) => {
            assert_eq!(m, "Hostname length exceeds maximum");
        },
        _ => panic!("expected InvalidInput"),
    }
}

#[test]
fn truncated_info_is_parse_error() {
    let p = vec![1, 5, 0];
    assert!(matches!(decode_info_bytes(&p), Err(LauncherError::Parse(_))));
}

#[test]
fn player_count_over_cap_is_invalid_input() {
    let p = vec![0xe9, 0x03]; // 1001 little-endian
    match decode_players_bytes(&p) {
        Err(LauncherError::InvalidInput(m)) => {
            assert_eq!(m, "Player count exceeds maximum");
        },
        _ => panic!("expected InvalidInput"),
    }
}

#[test]
fn player_count_at_cap_succeeds() {
    let mut p = vec![0xe8, 0x03]; // 1000 little-endian
    for _ in 0..1000 {
        p.push(1);
        p.push(b'x');
        p.extend_from_slice(&[7, 0, 0, 0]);
    }
    let players = decode_players_bytes(&p).unwrap();
    assert_eq!(players.len(), 1000);
    assert_eq!(players[0].name, b"x".to_vec());
    assert_eq!(players[999].score, 7);
}

#[test]
fn players_decode_keeps_order_and_scores() {
    let mut p = vec![2, 0];
    p.push(3);
    p.extend_from_slice(b"abc");
    p.extend_from_slice(&[0xff, 0xff, 0xff, 0xff]); // -1
    p.push(2);
    p.extend_from_slice(b"zz");
    p.extend_from_slice(&[0x2a, 0, 0, 0]); // 42
    let players = decode_players_bytes(&p).unwrap();
    assert_eq!(players.len(), 2);
    assert_eq!(players[0].name, b"abc".to_vec());
    assert_eq!(players[0].score, -1);
    assert_eq!(players[1].name, b"zz".to_vec());
    assert_eq!(players[1].score, 42);
}

#[test]
fn truncated_players_is_parse_error() {
    let p = vec![2, 0, 3, b'a'];
    assert!(matches!(decode_players_bytes(&p), Err(LauncherError::Parse(_))));
}

#[test]
fn rule_count_over_cap_is_invalid_input() {
    let p = vec![0xe9, 0x03];
    match decode_rules_bytes(&p) {
        Err(LauncherError::InvalidInput(m)) => {
            assert_eq!(m, "Rule count exceeds maximum");
        },
        _ => panic!("expected InvalidInput"),
    }
}

#[test]
fn rules_decode_reads_pairs() {
    let mut p = vec![2, 0];
    p.push(7);
    p.extend_from_slice(b"version");
    p.push(5);
    p.extend_from_slice(b"1.0.0");
    p.push(5);
    p.extend_from_slice(b"lagco");
    p.push(2);
    p.extend_from_slice(b"on");
    let rules = decode_rules_bytes(&p).unwrap();
    assert_eq!(rules.len(), 2);
    assert_eq!(rules[0].name, b"version".to_vec());
    assert_eq!(rules[0].value, b"1.0.0".to_vec());
    assert_eq!(rules[1].name, b"lagco".to_vec());
    assert_eq!(rules[1].value, b"on".to_vec());
}

#[test]
fn extra_info_without_logo_leaves_it_empty() {
    let mut p = Vec::new();
    prefixed(&mut p, b"discord.gg/x");
    prefixed(&mut p, b"http://light");
    prefixed(&mut p, b"http://dark");
    let f = decode_extra_info_bytes(&p).unwrap();
    assert_eq!(f.discord_link, b"discord.gg/x".to_vec());
    assert_eq!(f.light_banner_url, b"http://light".to_vec());
    assert_eq!(f.dark_banner_url, b"http://dark".to_vec());
    assert!(f.logo_url.is_empty());
}

#[test]
fn extra_info_with_logo_reads_it() {
    let mut p = Vec::new();
    prefixed(&mut p, b"d");
    prefixed(&mut p, b"l");
    prefixed(&mut p, b"k");
    prefixed(&mut p, b"http://logo");
    let f = decode_extra_info_bytes(&p).unwrap();
    assert_eq!(f.logo_url, b"http://logo".to_vec());
}

#[test]
fn extra_info_truncated_logo_is_not_an_error() {
    let mut p = Vec::new();
    prefixed(&mut p, b"d");
    prefixed(&mut p, b"l");
    prefixed(&mut p, b"k");
    push_u32(&mut p, 40); // claims 40 bytes, supplies 3
    p.extend_from_slice(b"abc");
    let f = decode_extra_info_bytes(&p).unwrap();
    assert!(f.logo_url.is_empty());
}

#[test]
fn extra_info_discord_over_cap_is_invalid_input() {
    let mut p = Vec::new();
    prefixed(&mut p, &[b'a'; 51]);
    prefixed(&mut p, b"l");
    prefixed(&mut p, b"k");
    match decode_extra_info_bytes(&p) {
        Err(LauncherError::InvalidInput(m)) => {
            assert_eq!(m, "Discord link length exceeds maximum");
        },
        _ => panic!("expected InvalidInput"),
    }
}

#[test]
fn extra_info_logo_over_cap_is_invalid_input() {
    let mut p = Vec::new();
    prefixed(&mut p, b"d");
    prefixed(&mut p, b"l");
    prefixed(&mut p, b"k");
    push_u32(&mut p, 161);
    p.push(0);
    assert!(matches!(
        decode_extra_info_bytes(&p),
        Err(LauncherError::InvalidInput(_))
    ));
}
