//! Byte-level codec for the UDP server-query protocol: request framing and
//! the little-endian, length-prefixed payload grammar of the five response
//! categories. Everything here works on plain bytes; turning string fields
//! into text is the response layer's job.

use vstd::prelude::*;
use vstd::slice::slice_subrange;
use vstd::slice::slice_to_vec;
use vstd::string::*;

use crate::constants::MAX_BANNER_URL_LENGTH;
use crate::constants::MAX_DISCORD_LINK_LENGTH;
use crate::constants::MAX_GAMEMODE_LENGTH;
use crate::constants::MAX_HOSTNAME_LENGTH;
use crate::constants::MAX_LANGUAGE_LENGTH;
use crate::constants::MAX_LOGO_URL_LENGTH;
use crate::constants::MAX_PLAYER_COUNT;
use crate::constants::MAX_RULE_COUNT;
use crate::errors::LauncherError;

verus! {

/// The value of two bytes read as a little-endian `u16`.
pub open spec fn le16(b0: u8, b1: u8) -> u16 {
    (b0 as int + b1 as int * 256) as u16
}

/// The value of four bytes read as a little-endian `u32`.
pub open spec fn le32(b0: u8, b1: u8, b2: u8, b3: u8) -> u32 {
    (b0 as int + b1 as int * 256 + b2 as int * 65536 + b3 as int * 16777216) as u32
}

/// The value of four bytes read as a little-endian two's-complement `i32`.
pub open spec fn le32_signed(b0: u8, b1: u8, b2: u8, b3: u8) -> i32 {
    le32(b0, b1, b2, b3) as i32
}

/// Reads a little-endian `u16` at `pos`.
pub fn get_u16_le(data: &Vec<u8>, pos: usize) -> (r: u16)
    requires
        pos + 2 <= data@.len(),
    ensures
        r == le16(data@[pos as int], data@[pos as int + 1]),
{
    let _n: usize = data.len();
    let b0 = data[pos];
    let b1 = data[pos + 1];
    b0 as u16 + (b1 as u16) * 256
}

/// Reads a little-endian `u32` at `pos`.
pub fn get_u32_le(data: &Vec<u8>, pos: usize) -> (r: u32)
    requires
        pos + 4 <= data@.len(),
    ensures
        r == le32(
            data@[pos as int],
            data@[pos as int + 1],
            data@[pos as int + 2],
            data@[pos as int + 3],
        ),
{
    let _n: usize = data.len();
    let b0 = data[pos];
    let b1 = data[pos + 1];
    let b2 = data[pos + 2];
    let b3 = data[pos + 3];
    b0 as u32 + (b1 as u32) * 256 + (b2 as u32) * 65536 + (b3 as u32) * 16777216
}

/// Reads a little-endian `i32` at `pos`.
pub fn get_i32_le(data: &Vec<u8>, pos: usize) -> (r: i32)
    requires
        pos + 4 <= data@.len(),
    ensures
        r == le32_signed(
            data@[pos as int],
            data@[pos as int + 1],
            data@[pos as int + 2],
            data@[pos as int + 3],
        ),
{
    let w = get_u32_le(data, pos);
    #[verifier::truncate] (w as i32)
}

/// Copies `data[start..end]` into a fresh vector.
pub fn copy_range(data: &Vec<u8>, start: usize, end: usize) -> (r: Vec<u8>)
    requires
        start <= end <= data@.len(),
    ensures
        r@ == data@.subrange(start as int, end as int),
{
    slice_to_vec(slice_subrange(data.as_slice(), start, end))
}

/// Appends a `u16` in little-endian order.
pub fn push_u16_le(out: &mut Vec<u8>, v: u16)
    ensures
        final(out)@ == old(out)@ + seq![(v as int % 256) as u8, (v as int / 256) as u8],
{
    out.push((v % 256) as u8);
    out.push((v / 256) as u8);
    assert(final(out)@ =~= old(out)@ + seq![(v as int % 256) as u8, (v as int / 256) as u8]);
}

/// Appends a `u32` in little-endian order.
pub fn push_u32_le(out: &mut Vec<u8>, v: u32)
    ensures
        final(out)@ == old(out)@ + le32_bytes(v),
{
    out.push((v % 256) as u8);
    out.push((v / 256 % 256) as u8);
    out.push((v / 65536 % 256) as u8);
    out.push((v / 16777216) as u8);
    assert(final(out)@ =~= old(out)@ + le32_bytes(v));
}

/// The four little-endian bytes of a `u32`.
pub open spec fn le32_bytes(v: u32) -> Seq<u8> {
    seq![
        (v as int % 256) as u8,
        (v as int / 256 % 256) as u8,
        (v as int / 65536 % 256) as u8,
        (v as int / 16777216) as u8,
    ]
}

/// The two little-endian bytes of a `u16`.
pub open spec fn le16_bytes(v: u16) -> Seq<u8> {
    seq![(v as int % 256) as u8, (v as int / 256) as u8]
}

/// Reading back the little-endian bytes of a `u16` gives the value.
pub proof fn lemma_le16_roundtrip(v: u16)
    ensures
        le16((v as int % 256) as u8, (v as int / 256) as u8) == v,
{
}

/// Reading back the little-endian bytes of a `u32` gives the value.
pub proof fn lemma_le32_roundtrip(v: u32)
    ensures
        le32(le32_bytes(v)[0], le32_bytes(v)[1], le32_bytes(v)[2], le32_bytes(v)[3]) == v,
{
}

/// One of the five query categories, with its one-byte wire tag.
#[derive(Clone, Copy, PartialEq, Eq, Structural, Debug)]
pub enum QueryType {
    Info,
    Players,
    Rules,
    ExtraInfo,
    Ping,
}

impl QueryType {
    /// The ASCII tag byte that the wire uses for this category:
    /// `i`, `c`, `r`, `o` or `p`.
    pub open spec fn spec_tag(self) -> u8 {
        match self {
            QueryType::Info => 105,
            QueryType::Players => 99,
            QueryType::Rules => 114,
            QueryType::ExtraInfo => 111,
            QueryType::Ping => 112,
        }
    }

    /// The category a tag byte names, if any.
    pub open spec fn spec_from_tag(b: u8) -> Option<QueryType> {
        if b == 105 {
            Some(QueryType::Info)
        } else if b == 99 {
            Some(QueryType::Players)
        } else if b == 114 {
            Some(QueryType::Rules)
        } else if b == 111 {
            Some(QueryType::ExtraInfo)
        } else if b == 112 {
            Some(QueryType::Ping)
        } else {
            None
        }
    }

    /// Writes the category's wire tag.
    pub fn tag_byte(self) -> (r: u8)
        ensures
            r == self.spec_tag(),
    {
        match self {
            QueryType::Info => 105,
            QueryType::Players => 99,
            QueryType::Rules => 114,
            QueryType::ExtraInfo => 111,
            QueryType::Ping => 112,
        }
    }

    /// Reads a wire tag back into a category; an unknown byte gives `None`.
    pub fn from_tag_byte(b: u8) -> (r: Option<QueryType>)
        ensures
            r == Self::spec_from_tag(b),
    {
        if b == 105 {
            Some(QueryType::Info)
        } else if b == 99 {
            Some(QueryType::Players)
        } else if b == 114 {
            Some(QueryType::Rules)
        } else if b == 111 {
            Some(QueryType::ExtraInfo)
        } else if b == 112 {
            Some(QueryType::Ping)
        } else {
            None
        }
    }
}

/// Every tag byte that names a category is read back to that category.
pub proof fn lemma_tag_byte_round_trip(qt: QueryType)
    ensures
        QueryType::spec_from_tag(qt.spec_tag()) == Some(qt),
{
}

/// An IPv4 address as its four dotted-quad octets.
#[derive(Clone, Copy, PartialEq, Eq, Structural, Debug)]
pub struct Ipv4Octets {
    pub a: u8,
    pub b: u8,
    pub c: u8,
    pub d: u8,
}

/// The request packet for one category: the ASCII header `SAMP`, the target's
/// IPv4 octets, the port little-endian, the tag byte, and for a ping four
/// zero echo bytes.
pub open spec fn spec_request_packet(oct: Ipv4Octets, port: u16, qt: QueryType) -> Seq<u8> {
    let base = seq![83u8, 65u8, 77u8, 80u8, oct.a, oct.b, oct.c, oct.d]
        + le16_bytes(port) + seq![qt.spec_tag()];
    if qt is Ping {
        base + seq![0u8, 0u8, 0u8, 0u8]
    } else {
        base
    }
}

/// Builds the request packet for one category.
pub fn encode_request(oct: &Ipv4Octets, port: u16, qt: QueryType) -> (r: Vec<u8>)
    ensures
        r@ == spec_request_packet(*oct, port, qt),
{
    let mut out: Vec<u8> = Vec::new();
    out.push(83);
    out.push(65);
    out.push(77);
    out.push(80);
    out.push(oct.a);
    out.push(oct.b);
    out.push(oct.c);
    out.push(oct.d);
    push_u16_le(&mut out, port);
    out.push(qt.tag_byte());
    if matches!(qt, QueryType::Ping) {
        out.push(0);
        out.push(0);
        out.push(0);
        out.push(0);
    }
    assert(out@ =~= spec_request_packet(*oct, port, qt));
    out
}

/// The info category at the byte level: string fields still raw bytes.
pub struct InfoBytes {
    pub password: bool,
    pub players: u16,
    pub max_players: u16,
    pub hostname: Vec<u8>,
    pub gamemode: Vec<u8>,
    pub language: Vec<u8>,
}

/// The mathematical shape of [`InfoBytes`].
pub struct InfoBytesView {
    pub password: bool,
    pub players: u16,
    pub max_players: u16,
    pub hostname: Seq<u8>,
    pub gamemode: Seq<u8>,
    pub language: Seq<u8>,
}

impl View for InfoBytes {
    type V = InfoBytesView;

    open spec fn view(&self) -> InfoBytesView {
        InfoBytesView {
            password: self.password,
            players: self.players,
            max_players: self.max_players,
            hostname: self.hostname@,
            gamemode: self.gamemode@,
            language: self.language@,
        }
    }
}

/// What decoding an info payload yields: the fields, or the first failure in
/// parse order. `TooShort` covers every truncated read; the cap outcomes name
/// the length prefix that exceeded its cap.
pub enum InfoDecodeOutcome {
    Fields(InfoBytesView),
    TooShort,
    HostnameCap,
    GamemodeCap,
    LanguageCap,
}

/// Decodes an info payload: password flag, player counts, then hostname,
/// gamemode and language as `u32`-length-prefixed byte strings, each length
/// checked against its cap before the bytes are taken.
pub open spec fn spec_decode_info(b: Seq<u8>) -> InfoDecodeOutcome {
    if b.len() < 9 {
        InfoDecodeOutcome::TooShort
    } else {
        let hlen = le32(b[5], b[6], b[7], b[8]) as int;
        if hlen > MAX_HOSTNAME_LENGTH as int {
            InfoDecodeOutcome::HostnameCap
        } else if b.len() < 13 + hlen {
            InfoDecodeOutcome::TooShort
        } else {
            let glen = le32(b[9 + hlen], b[10 + hlen], b[11 + hlen], b[12 + hlen]) as int;
            if glen > MAX_GAMEMODE_LENGTH as int {
                InfoDecodeOutcome::GamemodeCap
            } else if b.len() < 17 + hlen + glen {
                InfoDecodeOutcome::TooShort
            } else {
                let llen = le32(
                    b[13 + hlen + glen],
                    b[14 + hlen + glen],
                    b[15 + hlen + glen],
                    b[16 + hlen + glen],
                ) as int;
                if llen > MAX_LANGUAGE_LENGTH as int {
                    InfoDecodeOutcome::LanguageCap
                } else if b.len() < 17 + hlen + glen + llen {
                    InfoDecodeOutcome::TooShort
                } else {
                    InfoDecodeOutcome::Fields(InfoBytesView {
                        password: b[0] != 0,
                        players: le16(b[1], b[2]),
                        max_players: le16(b[3], b[4]),
                        hostname: b.subrange(9, 9 + hlen),
                        gamemode: b.subrange(13 + hlen, 13 + hlen + glen),
                        language: b.subrange(17 + hlen + glen, 17 + hlen + glen + llen),
                    })
                }
            }
        }
    }
}

/// Decodes an info payload. A length prefix over its cap is rejected before
/// any buffer of that size is taken from the payload.
pub fn decode_info_bytes(payload: &Vec<u8>) -> (r: Result<InfoBytes, LauncherError>)
    ensures
        spec_decode_info(payload@) matches InfoDecodeOutcome::Fields(f) ==> (r matches Ok(v)
            && v@ == f),
        spec_decode_info(payload@) is TooShort ==> (r matches Err(e) && e is Parse),
        spec_decode_info(payload@) is HostnameCap ==> (r matches Err(e) && e is InvalidInput
            && e.spec_message() == "Hostname length exceeds maximum"@),
        spec_decode_info(payload@) is GamemodeCap ==> (r matches Err(e) && e is InvalidInput
            && e.spec_message() == "Gamemode length exceeds maximum"@),
        spec_decode_info(payload@) is LanguageCap ==> (r matches Err(e) && e is InvalidInput
            && e.spec_message() == "Language length exceeds maximum"@),
{
    let n: usize = payload.len();
    if n < 9 {
        return Err(LauncherError::Parse(String::from_str("Info payload truncated")));
    }
    let password = payload[0] != 0;
    let players = get_u16_le(payload, 1);
    let max_players = get_u16_le(payload, 3);

    let hlen32 = get_u32_le(payload, 5);
    if hlen32 > MAX_HOSTNAME_LENGTH {
        return Err(LauncherError::InvalidInput(
            String::from_str("Hostname length exceeds maximum"),
        ));
    }
    let hlen = hlen32 as usize;
    if n < 13 + hlen {
        return Err(LauncherError::Parse(String::from_str("Info payload truncated")));
    }
    let hostname = copy_range(payload, 9, 9 + hlen);

    let glen32 = get_u32_le(payload, 9 + hlen);
    if glen32 > MAX_GAMEMODE_LENGTH {
        return Err(LauncherError::InvalidInput(
            String::from_str("Gamemode length exceeds maximum"),
        ));
    }
    let glen = glen32 as usize;
    if n < 17 + hlen + glen {
        return Err(LauncherError::Parse(String::from_str("Info payload truncated")));
    }
    let gamemode = copy_range(payload, 13 + hlen, 13 + hlen + glen);

    let llen32 = get_u32_le(payload, 13 + hlen + glen);
    if llen32 > MAX_LANGUAGE_LENGTH {
        return Err(LauncherError::InvalidInput(
            String::from_str("Language length exceeds maximum"),
        ));
    }
    let llen = llen32 as usize;
    if n < 17 + hlen + glen + llen {
        return Err(LauncherError::Parse(String::from_str("Info payload truncated")));
    }
    let language = copy_range(payload, 17 + hlen + glen, 17 + hlen + glen + llen);

    Ok(InfoBytes { password, players, max_players, hostname, gamemode, language })
}

/// The encoded form of an info record: the inverse of [`spec_decode_info`]
/// on records whose string fields are within their caps.
pub open spec fn spec_encode_info(f: InfoBytesView) -> Seq<u8> {
    seq![if f.password { 1u8 } else { 0u8 }]
        + le16_bytes(f.players)
        + le16_bytes(f.max_players)
        + le32_bytes(f.hostname.len() as u32) + f.hostname
        + le32_bytes(f.gamemode.len() as u32) + f.gamemode
        + le32_bytes(f.language.len() as u32) + f.language
}

/// Encodes an info record as an info payload.
pub fn encode_info_bytes(f: &InfoBytes) -> (r: Vec<u8>)
    requires
        f.hostname@.len() <= MAX_HOSTNAME_LENGTH,
        f.gamemode@.len() <= MAX_GAMEMODE_LENGTH,
        f.language@.len() <= MAX_LANGUAGE_LENGTH,
    ensures
        r@ == spec_encode_info(f@),
{
    let mut out: Vec<u8> = Vec::new();
    out.push(if f.password { 1 } else { 0 });
    push_u16_le(&mut out, f.players);
    push_u16_le(&mut out, f.max_players);
    push_u32_le(&mut out, f.hostname.len() as u32);
    out.extend_from_slice(f.hostname.as_slice());
    push_u32_le(&mut out, f.gamemode.len() as u32);
    out.extend_from_slice(f.gamemode.as_slice());
    push_u32_le(&mut out, f.language.len() as u32);
    out.extend_from_slice(f.language.as_slice());
    assert(out@ =~= spec_encode_info(f@));
    out
}

/// Decoding an encoded info record gives the record back, for any record
/// whose string fields are within their caps: the codec loses nothing.
pub proof fn lemma_info_round_trip(f: InfoBytesView)
    requires
        f.hostname.len() <= MAX_HOSTNAME_LENGTH,
        f.gamemode.len() <= MAX_GAMEMODE_LENGTH,
        f.language.len() <= MAX_LANGUAGE_LENGTH,
    ensures
        spec_decode_info(spec_encode_info(f)) == InfoDecodeOutcome::Fields(f),
{
    let b = spec_encode_info(f);
    let hlen = f.hostname.len() as int;
    let glen = f.gamemode.len() as int;
    let llen = f.language.len() as int;
    lemma_le16_roundtrip(f.players);
    lemma_le16_roundtrip(f.max_players);
    lemma_le32_roundtrip(f.hostname.len() as u32);
    lemma_le32_roundtrip(f.gamemode.len() as u32);
    lemma_le32_roundtrip(f.language.len() as u32);
    assert(b.len() == 17 + hlen + glen + llen);
    assert(le32(b[5], b[6], b[7], b[8]) == hlen);
    assert(le32(b[9 + hlen], b[10 + hlen], b[11 + hlen], b[12 + hlen]) == glen);
    assert(le32(b[13 + hlen + glen], b[14 + hlen + glen], b[15 + hlen + glen], b[16 + hlen + glen])
        == llen);
    assert(b.subrange(9, 9 + hlen) =~= f.hostname);
    assert(b.subrange(13 + hlen, 13 + hlen + glen) =~= f.gamemode);
    assert(b.subrange(17 + hlen + glen, 17 + hlen + glen + llen) =~= f.language);
    assert((b[0] != 0) == f.password);
    assert(le16(b[1], b[2]) == f.players);
    assert(le16(b[3], b[4]) == f.max_players);
}

/// Decoding a payload and re-encoding what it yielded loses nothing: the
/// re-encoded payload decodes to the same record.
pub proof fn lemma_info_reencode(b: Seq<u8>)
    requires
        spec_decode_info(b) is Fields,
    ensures
        spec_decode_info(spec_encode_info(spec_decode_info(b)->Fields_0)) == spec_decode_info(b),
{
    lemma_info_round_trip(spec_decode_info(b)->Fields_0);
}

/// The extra-info category at the byte level. An absent logo URL is the
/// empty byte string: the wire cannot tell the two apart.
pub struct ExtraInfoBytes {
    pub discord_link: Vec<u8>,
    pub light_banner_url: Vec<u8>,
    pub dark_banner_url: Vec<u8>,
    pub logo_url: Vec<u8>,
}

/// The mathematical shape of [`ExtraInfoBytes`].
pub struct ExtraInfoBytesView {
    pub discord_link: Seq<u8>,
    pub light_banner_url: Seq<u8>,
    pub dark_banner_url: Seq<u8>,
    pub logo_url: Seq<u8>,
}

impl View for ExtraInfoBytes {
    type V = ExtraInfoBytesView;

    open spec fn view(&self) -> ExtraInfoBytesView {
        ExtraInfoBytesView {
            discord_link: self.discord_link@,
            light_banner_url: self.light_banner_url@,
            dark_banner_url: self.dark_banner_url@,
            logo_url: self.logo_url@,
        }
    }
}

/// What decoding an extra-info payload yields.
pub enum ExtraInfoDecodeOutcome {
    Fields(ExtraInfoBytesView),
    TooShort,
    DiscordCap,
    LightBannerCap,
    DarkBannerCap,
    LogoCap,
}

/// Decodes an extra-info payload: discord link, light banner URL and dark
/// banner URL as `u32`-length-prefixed byte strings, then a logo URL only if
/// more than four bytes remain. A truncated logo (fewer remaining bytes than
/// its length prefix claims) is not an error: the logo is simply absent.
pub open spec fn spec_decode_extra_info(b: Seq<u8>) -> ExtraInfoDecodeOutcome {
    if b.len() < 4 {
        ExtraInfoDecodeOutcome::TooShort
    } else {
        let dlen = le32(b[0], b[1], b[2], b[3]) as int;
        if dlen > MAX_DISCORD_LINK_LENGTH as int {
            ExtraInfoDecodeOutcome::DiscordCap
        } else if b.len() < 8 + dlen {
            ExtraInfoDecodeOutcome::TooShort
        } else {
            let blen = le32(b[4 + dlen], b[5 + dlen], b[6 + dlen], b[7 + dlen]) as int;
            if blen > MAX_BANNER_URL_LENGTH as int {
                ExtraInfoDecodeOutcome::LightBannerCap
            } else if b.len() < 12 + dlen + blen {
                ExtraInfoDecodeOutcome::TooShort
            } else {
                let klen = le32(
                    b[8 + dlen + blen],
                    b[9 + dlen + blen],
                    b[10 + dlen + blen],
                    b[11 + dlen + blen],
                ) as int;
                if klen > MAX_BANNER_URL_LENGTH as int {
                    ExtraInfoDecodeOutcome::DarkBannerCap
                } else if b.len() < 12 + dlen + blen + klen {
                    ExtraInfoDecodeOutcome::TooShort
                } else {
                    let cur = 12 + dlen + blen + klen;
                    let base = ExtraInfoBytesView {
                        discord_link: b.subrange(4, 4 + dlen),
                        light_banner_url: b.subrange(8 + dlen, 8 + dlen + blen),
                        dark_banner_url: b.subrange(cur - klen, cur),
                        logo_url: Seq::empty(),
                    };
                    if b.len() - cur > 4 {
                        let llen = le32(b[cur], b[cur + 1], b[cur + 2], b[cur + 3]) as int;
                        if llen > MAX_LOGO_URL_LENGTH as int {
                            ExtraInfoDecodeOutcome::LogoCap
                        } else if b.len() - cur - 4 >= llen {
                            ExtraInfoDecodeOutcome::Fields(ExtraInfoBytesView {
                                logo_url: b.subrange(cur + 4, cur + 4 + llen),
                                ..base
                            })
                        } else {
                            ExtraInfoDecodeOutcome::Fields(base)
                        }
                    } else {
                        ExtraInfoDecodeOutcome::Fields(base)
                    }
                }
            }
        }
    }
}

/// Decodes an extra-info payload. Each length prefix is checked against its
/// cap before any buffer of that size is taken from the payload.
pub fn decode_extra_info_bytes(payload: &Vec<u8>) -> (r: Result<ExtraInfoBytes, LauncherError>)
    ensures
        spec_decode_extra_info(payload@) matches ExtraInfoDecodeOutcome::Fields(f) ==> (r matches
            Ok(v) && v@ == f),
        spec_decode_extra_info(payload@) is TooShort ==> (r matches Err(e) && e is Parse),
        spec_decode_extra_info(payload@) is DiscordCap ==> (r matches Err(e) && e is InvalidInput
            && e.spec_message() == "Discord link length exceeds maximum"@),
        spec_decode_extra_info(payload@) is LightBannerCap ==> (r matches Err(e)
            && e is InvalidInput
            && e.spec_message() == "Light banner URL length exceeds maximum"@),
        spec_decode_extra_info(payload@) is DarkBannerCap ==> (r matches Err(e)
            && e is InvalidInput
            && e.spec_message() == "Dark banner URL length exceeds maximum"@),
        spec_decode_extra_info(payload@) is LogoCap ==> (r matches Err(e) && e is InvalidInput
            && e.spec_message() == "Logo URL length exceeds maximum"@),
{
    let n: usize = payload.len();
    if n < 4 {
        return Err(LauncherError::Parse(String::from_str("Extra-info payload truncated")));
    }
    let dlen32 = get_u32_le(payload, 0);
    if dlen32 > MAX_DISCORD_LINK_LENGTH {
        return Err(LauncherError::InvalidInput(
            String::from_str("Discord link length exceeds maximum"),
        ));
    }
    let dlen = dlen32 as usize;
    if n < 8 + dlen {
        return Err(LauncherError::Parse(String::from_str("Extra-info payload truncated")));
    }
    let discord_link = copy_range(payload, 4, 4 + dlen);

    let blen32 = get_u32_le(payload, 4 + dlen);
    if blen32 > MAX_BANNER_URL_LENGTH {
        return Err(LauncherError::InvalidInput(
            String::from_str("Light banner URL length exceeds maximum"),
        ));
    }
    let blen = blen32 as usize;
    if n < 12 + dlen + blen {
        return Err(LauncherError::Parse(String::from_str("Extra-info payload truncated")));
    }
    let light_banner_url = copy_range(payload, 8 + dlen, 8 + dlen + blen);

    let klen32 = get_u32_le(payload, 8 + dlen + blen);
    if klen32 > MAX_BANNER_URL_LENGTH {
        return Err(LauncherError::InvalidInput(
            String::from_str("Dark banner URL length exceeds maximum"),
        ));
    }
    let klen = klen32 as usize;
    if n < 12 + dlen + blen + klen {
        return Err(LauncherError::Parse(String::from_str("Extra-info payload truncated")));
    }
    let cur = 12 + dlen + blen + klen;
    let dark_banner_url = copy_range(payload, cur - klen, cur);

    let mut logo_url: Vec<u8> = Vec::new();
    if n - cur > 4 {
        let llen32 = get_u32_le(payload, cur);
        if llen32 > MAX_LOGO_URL_LENGTH {
            return Err(LauncherError::InvalidInput(
                String::from_str("Logo URL length exceeds maximum"),
            ));
        }
        let llen = llen32 as usize;
        if n - cur - 4 >= llen {
            logo_url = copy_range(payload, cur + 4, cur + 4 + llen);
        }
    }
    Ok(ExtraInfoBytes { discord_link, light_banner_url, dark_banner_url, logo_url })
}

/// One player entry at the byte level: name still raw bytes.
pub struct PlayerBytes {
    pub name: Vec<u8>,
    pub score: i32,
}

/// The mathematical shape of [`PlayerBytes`].
pub struct PlayerBytesView {
    pub name: Seq<u8>,
    pub score: i32,
}

impl View for PlayerBytes {
    type V = PlayerBytesView;

    open spec fn view(&self) -> PlayerBytesView {
        PlayerBytesView { name: self.name@, score: self.score }
    }
}

impl DeepView for PlayerBytes {
    type V = PlayerBytesView;

    open spec fn deep_view(&self) -> PlayerBytesView {
        self.view()
    }
}

/// Parses `n` player entries starting at `pos`: a `u8`-length-prefixed name
/// followed by a little-endian `i32` score, repeated. Yields the entries and
/// the position after the last one, or `None` if the payload runs out.
pub open spec fn spec_parse_players(b: Seq<u8>, pos: int, n: nat) -> Option<
    (Seq<PlayerBytesView>, int),
>
    decreases n,
{
    if n == 0 {
        Some((Seq::empty(), pos))
    } else if pos + 1 > b.len() {
        None
    } else {
        let nlen = b[pos] as int;
        if pos + 5 + nlen > b.len() {
            None
        } else {
            let p = PlayerBytesView {
                name: b.subrange(pos + 1, pos + 1 + nlen),
                score: le32_signed(
                    b[pos + 1 + nlen],
                    b[pos + 2 + nlen],
                    b[pos + 3 + nlen],
                    b[pos + 4 + nlen],
                ),
            };
            match spec_parse_players(b, pos + 5 + nlen, (n - 1) as nat) {
                Some((rest, end)) => Some((seq![p] + rest, end)),
                None => None,
            }
        }
    }
}

/// What decoding a players payload yields.
pub enum PlayersDecodeOutcome {
    Fields(Seq<PlayerBytesView>),
    TooShort,
    CountCap,
}

/// Decodes a players payload: a `u16` entry count checked against its cap,
/// then that many player entries. Bytes after the last entry are ignored.
pub open spec fn spec_decode_players(b: Seq<u8>) -> PlayersDecodeOutcome {
    if b.len() < 2 {
        PlayersDecodeOutcome::TooShort
    } else {
        let count = le16(b[0], b[1]);
        if count > MAX_PLAYER_COUNT {
            PlayersDecodeOutcome::CountCap
        } else {
            match spec_parse_players(b, 2, count as nat) {
                Some((ps, _)) => PlayersDecodeOutcome::Fields(ps),
                None => PlayersDecodeOutcome::TooShort,
            }
        }
    }
}

/// Decodes a players payload. The entry count is checked against its cap
/// before any entry is read, so a hostile count never drives allocation.
pub fn decode_players_bytes(payload: &Vec<u8>) -> (r: Result<Vec<PlayerBytes>, LauncherError>)
    ensures
        spec_decode_players(payload@) matches PlayersDecodeOutcome::Fields(ps) ==> (r matches
            Ok(v) && v.deep_view() == ps),
        spec_decode_players(payload@) is TooShort ==> (r matches Err(e) && e is Parse),
        spec_decode_players(payload@) is CountCap ==> (r matches Err(e) && e is InvalidInput
            && e.spec_message() == "Player count exceeds maximum"@),
{
    let n: usize = payload.len();
    if n < 2 {
        return Err(LauncherError::Parse(String::from_str("Players payload truncated")));
    }
    let count = get_u16_le(payload, 0);
    if count > MAX_PLAYER_COUNT {
        return Err(LauncherError::InvalidInput(
            String::from_str("Player count exceeds maximum"),
        ));
    }
    let mut players: Vec<PlayerBytes> = Vec::new();
    let mut pos: usize = 2;
    let mut i: u16 = 0;
    while i < count
        invariant
            i <= count,
            2 <= pos <= n,
            n == payload@.len(),
            count == le16(payload@[0], payload@[1]),
            count <= MAX_PLAYER_COUNT,
            players.deep_view().len() == i,
            match spec_parse_players(payload@, pos as int, (count - i) as nat) {
                Some((rest, end)) => spec_parse_players(payload@, 2, count as nat) == Some(
                    (players.deep_view() + rest, end),
                ),
                None => spec_parse_players(payload@, 2, count as nat) is None,
            },
        decreases count - i,
    {
        if pos >= n {
            proof {
                assert(spec_parse_players(payload@, pos as int, (count - i) as nat) is None);
            }
            return Err(LauncherError::Parse(String::from_str("Players payload truncated")));
        }
        let nlen = payload[pos] as usize;
        if n - pos < 5 + nlen {
            proof {
                assert(spec_parse_players(payload@, pos as int, (count - i) as nat) is None);
            }
            return Err(LauncherError::Parse(String::from_str("Players payload truncated")));
        }
        let name = copy_range(payload, pos + 1, pos + 1 + nlen);
        let score = get_i32_le(payload, pos + 1 + nlen);
        let ghost pre = players.deep_view();
        let ghost p = PlayerBytesView {
            name: payload@.subrange(pos as int + 1, pos as int + 1 + nlen as int),
            score: le32_signed(
                payload@[pos as int + 1 + nlen as int],
                payload@[pos as int + 2 + nlen as int],
                payload@[pos as int + 3 + nlen as int],
                payload@[pos as int + 4 + nlen as int],
            ),
        };
        players.push(PlayerBytes { name, score });
        proof {
            assert(players.deep_view() =~= pre.push(p));
            match spec_parse_players(payload@, pos as int + 5 + nlen as int, (count - i - 1) as nat) {
                Some((rest, end)) => {
                    assert(spec_parse_players(payload@, pos as int, (count - i) as nat) == Some(
                        ((seq![p] + rest), end),
                    ));
                    assert(pre + (seq![p] + rest) =~= players.deep_view() + rest);
                },
                None => {
                    assert(spec_parse_players(payload@, pos as int, (count - i) as nat) is None);
                },
            }
        }
        pos = pos + 5 + nlen;
        i = i + 1;
    }
    proof {
        assert(spec_parse_players(payload@, pos as int, 0) == Some(
            (Seq::<PlayerBytesView>::empty(), pos as int),
        ));
        assert(players.deep_view() + Seq::<PlayerBytesView>::empty() =~= players.deep_view());
    }
    Ok(players)
}

/// One rule entry at the byte level: name and value still raw bytes.
pub struct RuleBytes {
    pub name: Vec<u8>,
    pub value: Vec<u8>,
}

/// The mathematical shape of [`RuleBytes`].
pub struct RuleBytesView {
    pub name: Seq<u8>,
    pub value: Seq<u8>,
}

impl View for RuleBytes {
    type V = RuleBytesView;

    open spec fn view(&self) -> RuleBytesView {
        RuleBytesView { name: self.name@, value: self.value@ }
    }
}

impl DeepView for RuleBytes {
    type V = RuleBytesView;

    open spec fn deep_view(&self) -> RuleBytesView {
        self.view()
    }
}

/// Parses `n` rule entries starting at `pos`: a `u8`-length-prefixed name
/// followed by a `u8`-length-prefixed value, repeated. Yields the entries and
/// the position after the last one, or `None` if the payload runs out.
pub open spec fn spec_parse_rules(b: Seq<u8>, pos: int, n: nat) -> Option<(Seq<RuleBytesView>, int)>
    decreases n,
{
    if n == 0 {
        Some((Seq::empty(), pos))
    } else if pos + 1 > b.len() {
        None
    } else {
        let nlen = b[pos] as int;
        if pos + 2 + nlen > b.len() {
            None
        } else {
            let vlen = b[pos + 1 + nlen] as int;
            if pos + 2 + nlen + vlen > b.len() {
                None
            } else {
                let rule = RuleBytesView {
                    name: b.subrange(pos + 1, pos + 1 + nlen),
                    value: b.subrange(pos + 2 + nlen, pos + 2 + nlen + vlen),
                };
                match spec_parse_rules(b, pos + 2 + nlen + vlen, (n - 1) as nat) {
                    Some((rest, end)) => Some((seq![rule] + rest, end)),
                    None => None,
                }
            }
        }
    }
}

/// What decoding a rules payload yields.
pub enum RulesDecodeOutcome {
    Fields(Seq<RuleBytesView>),
    TooShort,
    CountCap,
}

/// Decodes a rules payload: a `u16` entry count checked against its cap,
/// then that many rule entries. Bytes after the last entry are ignored.
pub open spec fn spec_decode_rules(b: Seq<u8>) -> RulesDecodeOutcome {
    if b.len() < 2 {
        RulesDecodeOutcome::TooShort
    } else {
        let count = le16(b[0], b[1]);
        if count > MAX_RULE_COUNT {
            RulesDecodeOutcome::CountCap
        } else {
            match spec_parse_rules(b, 2, count as nat) {
                Some((rs, _)) => RulesDecodeOutcome::Fields(rs),
                None => RulesDecodeOutcome::TooShort,
            }
        }
    }
}

/// Decodes a rules payload. The entry count is checked against its cap
/// before any entry is read, so a hostile count never drives allocation.
pub fn decode_rules_bytes(payload: &Vec<u8>) -> (r: Result<Vec<RuleBytes>, LauncherError>)
    ensures
        spec_decode_rules(payload@) matches RulesDecodeOutcome::Fields(rs) ==> (r matches Ok(v)
            && v.deep_view() == rs),
        spec_decode_rules(payload@) is TooShort ==> (r matches Err(e) && e is Parse),
        spec_decode_rules(payload@) is CountCap ==> (r matches Err(e) && e is InvalidInput
            && e.spec_message() == "Rule count exceeds maximum"@),
{
    let n: usize = payload.len();
    if n < 2 {
        return Err(LauncherError::Parse(String::from_str("Rules payload truncated")));
    }
    let count = get_u16_le(payload, 0);
    if count > MAX_RULE_COUNT {
        return Err(LauncherError::InvalidInput(String::from_str("Rule count exceeds maximum")));
    }
    let mut rules: Vec<RuleBytes> = Vec::new();
    let mut pos: usize = 2;
    let mut i: u16 = 0;
    while i < count
        invariant
            i <= count,
            2 <= pos <= n,
            n == payload@.len(),
            count == le16(payload@[0], payload@[1]),
            count <= MAX_RULE_COUNT,
            rules.deep_view().len() == i,
            match spec_parse_rules(payload@, pos as int, (count - i) as nat) {
                Some((rest, end)) => spec_parse_rules(payload@, 2, count as nat) == Some(
                    (rules.deep_view() + rest, end),
                ),
                None => spec_parse_rules(payload@, 2, count as nat) is None,
            },
        decreases count - i,
    {
        if pos >= n {
            proof {
                assert(spec_parse_rules(payload@, pos as int, (count - i) as nat) is None);
            }
            return Err(LauncherError::Parse(String::from_str("Rules payload truncated")));
        }
        let nlen = payload[pos] as usize;
        if n - pos < 2 + nlen {
            proof {
                assert(spec_parse_rules(payload@, pos as int, (count - i) as nat) is None);
            }
            return Err(LauncherError::Parse(String::from_str("Rules payload truncated")));
        }
        let vlen = payload[pos + 1 + nlen] as usize;
        if n - pos < 2 + nlen + vlen {
            proof {
                assert(spec_parse_rules(payload@, pos as int, (count - i) as nat) is None);
            }
            return Err(LauncherError::Parse(String::from_str("Rules payload truncated")));
        }
        let name = copy_range(payload, pos + 1, pos + 1 + nlen);
        let value = copy_range(payload, pos + 2 + nlen, pos + 2 + nlen + vlen);
        let ghost pre = rules.deep_view();
        let ghost rv = RuleBytesView {
            name: payload@.subrange(pos as int + 1, pos as int + 1 + nlen as int),
            value: payload@.subrange(
                pos as int + 2 + nlen as int,
                pos as int + 2 + nlen as int + vlen as int,
            ),
        };
        rules.push(RuleBytes { name, value });
        proof {
            assert(rules.deep_view() =~= pre.push(rv));
            match spec_parse_rules(
                payload@,
                pos as int + 2 + nlen as int + vlen as int,
                (count - i - 1) as nat,
            ) {
                Some((rest, end)) => {
                    assert(spec_parse_rules(payload@, pos as int, (count - i) as nat) == Some(
                        ((seq![rv] + rest), end),
                    ));
                    assert(pre + (seq![rv] + rest) =~= rules.deep_view() + rest);
                },
                None => {
                    assert(spec_parse_rules(payload@, pos as int, (count - i) as nat) is None);
                },
            }
        }
        pos = pos + 2 + nlen + vlen;
        i = i + 1;
    }
    proof {
        assert(spec_parse_rules(payload@, pos as int, 0) == Some(
            (Seq::<RuleBytesView>::empty(), pos as int),
        ));
        assert(rules.deep_view() + Seq::<RuleBytesView>::empty() =~= rules.deep_view());
    }
    Ok(rules)
}

} // verus!
