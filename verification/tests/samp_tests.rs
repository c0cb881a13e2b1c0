use omp_launcher::samp::parse_samp_userdata;

fn push_u32(v: &mut Vec<u8>, x: u32) {
    v.push((x % 256) as u8);
    v.push((x / 256 % 256) as u8);
    v.push((x / 65536 % 256) as u8);
    v.push((x / 16777216) as u8);
}

fn push_prefixed(v: &mut Vec<u8>, s: &[u8]) {
    push_u32(v, s.len() as u32);
    v.extend_from_slice(s);
}

fn entry(v: &mut Vec<u8>, ip: &[u8], port: u32, name: &[u8], password: &[u8], rcon: &[u8]) {
    push_prefixed(v, ip);
    push_u32(v, port);
    push_prefixed(v, name);
    push_prefixed(v, password);
    push_prefixed(v, rcon);
}

fn header(count: u32) -> Vec<u8> {
    let mut v = Vec::new();
    v.extend_from_slice(b"SAMP");
    push_u32(&mut v, 1);
    push_u32(&mut v, count);
    v
}

#[test]
fn favorites_with_two_entries() {
    let mut v = header(2);
    entry(&mut v, b"127.0.0.1", 7777, b"Local", b"", b"");
    entry(&mut v, b"1.2.3.4", 7778, b"Remote", b"pw", b"rc");
    let data = parse_samp_userdata(&v);
    assert_eq!(data.file_id, "SAMP");
    assert_eq!(data.file_version, 1);
    assert_eq!(data.server_count, 2);
    assert_eq!(data.favorite_servers.len(), 2);
    assert_eq!(data.favorite_servers[0].ip, "127.0.0.1");
    assert_eq!(data.favorite_servers[0].port, 7777);
    assert_eq!(data.favorite_servers[0].name, "Local");
    assert_eq!(data.favorite_servers[0].password, "");
    assert_eq!(data.favorite_servers[0].rcon, "");
    assert_eq!(data.favorite_servers[1].ip, "1.2.3.4");
    assert_eq!(data.favorite_servers[1].port, 7778);
    assert_eq!(data.favorite_servers[1].password, "pw");
    assert_eq!(data.favorite_servers[1].rcon, "rc");
}

#[test]
fn truncated_header_keeps_defaults() {
    let data = parse_samp_userdata(&vec![]);
    assert_eq!(data.file_id, "none");
    assert_eq!(data.file_version, 0);
    assert_eq!(data.server_count, 0);
    assert!(data.favorite_servers.is_empty());

    let data = parse_samp_userdata(&b"SAMP".to_vec());
    assert_eq!(data.file_id, "SAMP");
    assert_eq!(data.file_version, 0);
    assert_eq!(data.server_count, 0);
}

#[test]
fn truncated_entry_keeps_whole_entries() {
    let mut v = header(2);
    entry(&mut v, b"127.0.0.1", 7777, b"Local", b"", b"");
    push_u32(&mut v, 40); // second entry claims a 40-byte address, supplies none
    let data = parse_samp_userdata(&v);
    assert_eq!(data.server_count, 2);
    assert_eq!(data.favorite_servers.len(), 1);
    assert_eq!(data.favorite_servers[0].name, "Local");
}

#[test]
fn count_larger_than_entries_is_harmless() {
    let mut v = header(50);
    entry(&mut v, b"1.1.1.1", 1, b"A", b"", b"");
    let data = parse_samp_userdata(&v);
    assert_eq!(data.server_count, 50);
    assert_eq!(data.favorite_servers.len(), 1);
}

#[test]
fn invalid_utf8_tag_is_replaced_not_copied() {
    let mut v = vec![0xff, b'A', b'M', b'P'];
    push_u32(&mut v, 3);
    push_u32(&mut v, 0);
    let data = parse_samp_userdata(&v);
    assert_eq!(data.file_id, "\u{FFFD}AMP");
    assert_eq!(data.file_version, 3);
}
