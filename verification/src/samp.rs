//! The stock client's favorites file: a binary list of saved servers. The
//! file is read by the caller; the parse — header, entry count, then
//! length-prefixed fields per server — is decided and proved here. The
//! format is forgiving by design: a truncated file yields the entries that
//! were whole, never an error.

use vstd::prelude::*;
use vstd::string::*;

use crate::codec::copy_range;
use crate::codec::get_u32_le;
use crate::codec::le32;
use crate::textdec::decode_buffer;
use crate::textdec::spec_decoded_field;

verus! {

/// One saved server.
pub struct SAMPServerInfo {
    pub ip: String,
    pub port: u32,
    pub name: String,
    pub password: String,
    pub rcon: String,
}

/// The mathematical shape of [`SAMPServerInfo`].
pub struct SAMPServerInfoView {
    pub ip: Seq<char>,
    pub port: u32,
    pub name: Seq<char>,
    pub password: Seq<char>,
    pub rcon: Seq<char>,
}

impl View for SAMPServerInfo {
    type V = SAMPServerInfoView;

    open spec fn view(&self) -> SAMPServerInfoView {
        SAMPServerInfoView {
            ip: self.ip@,
            port: self.port,
            name: self.name@,
            password: self.password@,
            rcon: self.rcon@,
        }
    }
}

impl DeepView for SAMPServerInfo {
    type V = SAMPServerInfoView;

    open spec fn deep_view(&self) -> SAMPServerInfoView {
        self.view()
    }
}

/// The favorites file: its four-byte tag, version, claimed entry count, and
/// the entries that could be read whole.
pub struct SAMPUserData {
    pub file_id: String,
    pub file_version: u32,
    pub server_count: u32,
    pub favorite_servers: Vec<SAMPServerInfo>,
}

/// One favorites entry at the byte level, before its fields go through the
/// text decoder.
pub struct FavEntryBytes {
    pub ip: Seq<u8>,
    pub port: u32,
    pub name: Seq<u8>,
    pub password: Seq<u8>,
    pub rcon: Seq<u8>,
}

/// The text the standard library's lossy UTF-8 conversion gives the bytes.
pub uninterp spec fn utf8_lossy_of(bytes: Seq<u8>) -> Seq<char>;

/// Relies on `String::from_utf8_lossy`: best-effort, never failing, and a
/// function of the bytes alone.
#[verifier::external_body]
fn utf8_lossy(bytes: &Vec<u8>) -> (r: String)
    ensures
        r@ == utf8_lossy_of(bytes@),
{
    String::from_utf8_lossy(bytes.as_slice()).into_owned()
}

/// Parses one favorites entry at `pos`: a `u32`-length-prefixed address, a
/// `u32` port, a length-prefixed name, and a length-prefixed password and
/// rcon password whose bytes are present only when their length is nonzero.
/// `None` when the buffer runs out anywhere inside the entry.
pub open spec fn spec_parse_fav_entry(b: Seq<u8>, pos: int) -> Option<(FavEntryBytes, int)> {
    if pos + 4 > b.len() {
        None
    } else {
        let ip_len = le32(b[pos], b[pos + 1], b[pos + 2], b[pos + 3]) as int;
        if pos + 4 + ip_len > b.len() {
            None
        } else {
            let p1 = pos + 4 + ip_len;
            if p1 + 4 > b.len() {
                None
            } else {
                let port = le32(b[p1], b[p1 + 1], b[p1 + 2], b[p1 + 3]);
                let p2 = p1 + 4;
                if p2 + 4 > b.len() {
                    None
                } else {
                    let name_len = le32(b[p2], b[p2 + 1], b[p2 + 2], b[p2 + 3]) as int;
                    if p2 + 4 + name_len > b.len() {
                        None
                    } else {
                        let p3 = p2 + 4 + name_len;
                        spec_parse_fav_tail(b, pos, ip_len, port, name_len, p3)
                    }
                }
            }
        }
    }
}

/// The password and rcon fields of one favorites entry, from `p3`.
pub open spec fn spec_parse_fav_tail(
    b: Seq<u8>,
    pos: int,
    ip_len: int,
    port: u32,
    name_len: int,
    p3: int,
) -> Option<(FavEntryBytes, int)> {
    if p3 + 4 > b.len() {
        None
    } else {
        let password_len = le32(b[p3], b[p3 + 1], b[p3 + 2], b[p3 + 3]) as int;
        let plen = if password_len != 0 { password_len } else { 0 };
        if p3 + 4 + plen > b.len() {
            None
        } else {
            let p4 = p3 + 4 + plen;
            if p4 + 4 > b.len() {
                None
            } else {
                let rcon_len = le32(b[p4], b[p4 + 1], b[p4 + 2], b[p4 + 3]) as int;
                let rlen = if rcon_len != 0 { rcon_len } else { 0 };
                if p4 + 4 + rlen > b.len() {
                    None
                } else {
                    let entry = FavEntryBytes {
                        ip: b.subrange(pos + 4, pos + 4 + ip_len),
                        port,
                        name: b.subrange(p3 - name_len, p3),
                        password: b.subrange(p3 + 4, p3 + 4 + plen),
                        rcon: b.subrange(p4 + 4, p4 + 4 + rlen),
                    };
                    Some((entry, p4 + 4 + rlen))
                }
            }
        }
    }
}

/// Parses up to `n` favorites entries from `pos`, stopping — without error —
/// at the first entry the buffer cannot supply whole.
pub open spec fn spec_parse_favs(b: Seq<u8>, pos: int, n: nat) -> Seq<FavEntryBytes>
    decreases n,
{
    if n == 0 {
        Seq::empty()
    } else {
        match spec_parse_fav_entry(b, pos) {
            Some((e, p2)) => seq![e] + spec_parse_favs(b, p2, (n - 1) as nat),
            None => Seq::empty(),
        }
    }
}

/// A parsed entry list, each byte field run through the text decoder.
pub open spec fn spec_favs_decoded(v: Seq<SAMPServerInfoView>, raw: Seq<FavEntryBytes>) -> bool {
    &&& v.len() == raw.len()
    &&& forall|i: int|
        0 <= i < raw.len() ==> {
            &&& spec_decoded_field(raw[i].ip, (#[trigger] v[i]).ip)
            &&& v[i].port == raw[i].port
            &&& spec_decoded_field(raw[i].name, v[i].name)
            &&& spec_decoded_field(raw[i].password, v[i].password)
            &&& spec_decoded_field(raw[i].rcon, v[i].rcon)
        }
}

/// Parses one favorites entry at `pos`.
fn parse_fav_entry(buffer: &Vec<u8>, pos: usize) -> (r: Option<(SAMPServerInfo, usize)>)
    requires
        pos <= buffer@.len(),
    ensures
        match r {
            Some(t) => spec_parse_fav_entry(buffer@, pos as int) matches Some((e, p2)) && t.1 == p2
                && t.1 <= buffer@.len() && spec_decoded_field(e.ip, t.0@.ip) && t.0@.port == e.port
                && spec_decoded_field(e.name, t.0@.name) && spec_decoded_field(e.password, t.0@.password)
                && spec_decoded_field(e.rcon, t.0@.rcon),
            None => spec_parse_fav_entry(buffer@, pos as int) is None,
        },
{
    let n: usize = buffer.len();
    if n - pos < 4 {
        return None;
    }
    let ip_len = get_u32_le(buffer, pos) as usize;
    if n - (pos + 4) < ip_len {
        return None;
    }
    let ip_bytes = copy_range(buffer, pos + 4, pos + 4 + ip_len);
    let p1 = pos + 4 + ip_len;
    if n - p1 < 4 {
        return None;
    }
    let port = get_u32_le(buffer, p1);
    let p2 = p1 + 4;
    if n - p2 < 4 {
        return None;
    }
    let name_len = get_u32_le(buffer, p2) as usize;
    if n - (p2 + 4) < name_len {
        return None;
    }
    let name_bytes = copy_range(buffer, p2 + 4, p2 + 4 + name_len);
    let p3 = p2 + 4 + name_len;
    if n - p3 < 4 {
        return None;
    }
    let password_len = get_u32_le(buffer, p3) as usize;
    let plen = if password_len != 0 {
        password_len
    } else {
        0
    };
    if n - (p3 + 4) < plen {
        return None;
    }
    let password_bytes = copy_range(buffer, p3 + 4, p3 + 4 + plen);
    let p4 = p3 + 4 + plen;
    if n - p4 < 4 {
        return None;
    }
    let rcon_len = get_u32_le(buffer, p4) as usize;
    let rlen = if rcon_len != 0 {
        rcon_len
    } else {
        0
    };
    if n - (p4 + 4) < rlen {
        return None;
    }
    let rcon_bytes = copy_range(buffer, p4 + 4, p4 + 4 + rlen);
    let (ip, _) = decode_buffer(ip_bytes);
    let (name, _) = decode_buffer(name_bytes);
    let (password, _) = decode_buffer(password_bytes);
    let (rcon, _) = decode_buffer(rcon_bytes);
    Some((SAMPServerInfo { ip, port, name, password, rcon }, p4 + 4 + rlen))
}

/// Parses a favorites file. A file too short for the tag, the version or
/// the count keeps the fields read so far and the defaults for the rest;
/// entry parsing stops quietly at the first entry the buffer cannot supply.
pub fn parse_samp_userdata(buffer: &Vec<u8>) -> (r: SAMPUserData)
    ensures
        buffer@.len() < 4 ==> r.file_id@ == "none"@,
        buffer@.len() >= 4 ==> r.file_id@ == utf8_lossy_of(buffer@.subrange(0, 4)),
        buffer@.len() < 8 ==> r.file_version == 0,
        buffer@.len() >= 8 ==> r.file_version == le32(
            buffer@[4],
            buffer@[5],
            buffer@[6],
            buffer@[7],
        ),
        buffer@.len() < 12 ==> r.server_count == 0,
        buffer@.len() >= 12 ==> r.server_count == le32(
            buffer@[8],
            buffer@[9],
            buffer@[10],
            buffer@[11],
        ),
        buffer@.len() < 12 ==> r.favorite_servers@.len() == 0,
        buffer@.len() >= 12 ==> spec_favs_decoded(
            r.favorite_servers.deep_view(),
            spec_parse_favs(buffer@, 12, r.server_count as nat),
        ),
{
    let n: usize = buffer.len();
    let mut out = SAMPUserData {
        file_id: String::from_str("none"),
        file_version: 0,
        server_count: 0,
        favorite_servers: Vec::new(),
    };
    if n < 4 {
        return out;
    }
    let id_bytes = copy_range(buffer, 0, 4);
    out.file_id = utf8_lossy(&id_bytes);
    if n < 8 {
        return out;
    }
    out.file_version = get_u32_le(buffer, 4);
    if n < 12 {
        return out;
    }
    let count = get_u32_le(buffer, 8);
    out.server_count = count;

    let mut pos: usize = 12;
    let mut i: u32 = 0;
    let ghost mut raw_prefix: Seq<FavEntryBytes> = Seq::empty();
    while i < count
        invariant
            i <= count,
            12 <= pos <= n,
            n == buffer@.len(),
            count == le32(buffer@[8], buffer@[9], buffer@[10], buffer@[11]),
            spec_parse_favs(buffer@, 12, count as nat) == raw_prefix + spec_parse_favs(
                buffer@,
                pos as int,
                (count - i) as nat,
            ),
            spec_favs_decoded(out.favorite_servers.deep_view(), raw_prefix),
            out.file_id@ == utf8_lossy_of(buffer@.subrange(0, 4)),
            out.file_version == le32(buffer@[4], buffer@[5], buffer@[6], buffer@[7]),
            out.server_count == count,
        decreases count - i,
    {
        let ghost out_dv = out.favorite_servers.deep_view();
        match parse_fav_entry(buffer, pos) {
            None => {
                proof {
                    assert(spec_parse_favs(buffer@, pos as int, (count - i) as nat) =~= Seq::<
                        FavEntryBytes,
                    >::empty());
                    assert(spec_parse_favs(buffer@, 12, count as nat) =~= raw_prefix);
                }
                return out;
            },
            Some((entry, next_pos)) => {
                let ghost ev = entry@;
                out.favorite_servers.push(entry);
                proof {
                    match spec_parse_fav_entry(buffer@, pos as int) {
                        Some((raw, p2)) => {
                            assert(spec_parse_favs(buffer@, pos as int, (count - i) as nat)
                                == seq![raw] + spec_parse_favs(
                                buffer@,
                                p2,
                                (count - i - 1) as nat,
                            ));
                            assert(raw_prefix + (seq![raw] + spec_parse_favs(
                                buffer@,
                                p2,
                                (count - i - 1) as nat,
                            )) =~= raw_prefix.push(raw) + spec_parse_favs(
                                buffer@,
                                p2,
                                (count - i - 1) as nat,
                            ));
                            assert(out.favorite_servers.deep_view() =~= out_dv.push(ev));
                            raw_prefix = raw_prefix.push(raw);
                        },
                        None => {
                            assert(false);
                        },
                    }
                }
                pos = next_pos;
                i = i + 1;
            },
        }
    }
    proof {
        assert(spec_parse_favs(buffer@, pos as int, 0) =~= Seq::<FavEntryBytes>::empty());
        assert(spec_parse_favs(buffer@, 12, count as nat) =~= raw_prefix);
    }
    out
}

} // verus!
