//! The five response shapes of the query protocol, with their string fields
//! decoded to text, and the dispatch of a raw response packet by its echoed
//! tag byte.

use vstd::prelude::*;
use vstd::string::*;

use crate::codec::spec_decode_extra_info;
use crate::codec::spec_decode_info;
use crate::codec::spec_decode_players;
use crate::codec::spec_decode_rules;
use crate::codec::decode_extra_info_bytes;
use crate::codec::decode_info_bytes;
use crate::codec::decode_players_bytes;
use crate::codec::decode_rules_bytes;
use crate::codec::ExtraInfoDecodeOutcome;
use crate::codec::InfoDecodeOutcome;
use crate::codec::PlayersDecodeOutcome;
use crate::codec::RulesDecodeOutcome;
use crate::codec::copy_range;
use crate::codec::QueryType;
use crate::errors::LauncherError;
use crate::textdec::decode_buffer;
use crate::textdec::spec_decoded_field;

verus! {

/// The info category: basic server state.
pub struct InfoPacket {
    pub password: bool,
    pub players: u16,
    pub max_players: u16,
    pub hostname: String,
    pub gamemode: String,
    pub language: String,
}

/// One player entry, in the order the server sent them.
pub struct Player {
    pub name: String,
    pub score: i32,
}

/// The mathematical shape of [`Player`].
pub struct PlayerView {
    pub name: Seq<char>,
    pub score: i32,
}

impl View for Player {
    type V = PlayerView;

    open spec fn view(&self) -> PlayerView {
        PlayerView { name: self.name@, score: self.score }
    }
}

impl DeepView for Player {
    type V = PlayerView;

    open spec fn deep_view(&self) -> PlayerView {
        self.view()
    }
}

/// One rule entry: a name/value pair, in the order the server sent them.
pub struct Rule {
    pub name: String,
    pub value: String,
}

/// The mathematical shape of [`Rule`].
pub struct RuleView {
    pub name: Seq<char>,
    pub value: Seq<char>,
}

impl View for Rule {
    type V = RuleView;

    open spec fn view(&self) -> RuleView {
        RuleView { name: self.name@, value: self.value@ }
    }
}

impl DeepView for Rule {
    type V = RuleView;

    open spec fn deep_view(&self) -> RuleView {
        self.view()
    }
}

/// The extra-info category: branding metadata. A server that sent no logo
/// URL leaves that field empty.
pub struct ExtraInfoPacket {
    pub discord_link: String,
    pub light_banner_url: String,
    pub dark_banner_url: String,
    pub logo_url: String,
}

/// An info packet decoded from the given payload bytes: the primitive fields
/// as the payload carries them, the string fields run through the text
/// decoder.
pub open spec fn spec_info_packet_ok(p: InfoPacket, b: Seq<u8>) -> bool {
    &&& spec_decode_info(b) matches InfoDecodeOutcome::Fields(f)
    &&& p.password == f.password
    &&& p.players == f.players
    &&& p.max_players == f.max_players
    &&& spec_decoded_field(f.hostname, p.hostname@)
    &&& spec_decoded_field(f.gamemode, p.gamemode@)
    &&& spec_decoded_field(f.language, p.language@)
}

/// The error an info payload decodes to, if and only if it decodes to one.
pub open spec fn spec_info_error(e: LauncherError, b: Seq<u8>) -> bool {
    match spec_decode_info(b) {
        InfoDecodeOutcome::Fields(_) => false,
        InfoDecodeOutcome::TooShort => e is Parse,
        InfoDecodeOutcome::HostnameCap => e is InvalidInput && e.spec_message()
            == "Hostname length exceeds maximum"@,
        InfoDecodeOutcome::GamemodeCap => e is InvalidInput && e.spec_message()
            == "Gamemode length exceeds maximum"@,
        InfoDecodeOutcome::LanguageCap => e is InvalidInput && e.spec_message()
            == "Language length exceeds maximum"@,
    }
}

/// Decodes an info payload into an [`InfoPacket`].
pub fn build_info_packet(payload: &Vec<u8>) -> (r: Result<InfoPacket, LauncherError>)
    ensures
        match r {
            Ok(p) => spec_info_packet_ok(p, payload@),
            Err(e) => spec_info_error(e, payload@),
        },
{
    match decode_info_bytes(payload) {
        Ok(f) => {
            let (hostname, _) = decode_buffer(f.hostname);
            let (gamemode, _) = decode_buffer(f.gamemode);
            let (language, _) = decode_buffer(f.language);
            Ok(InfoPacket {
                password: f.password,
                players: f.players,
                max_players: f.max_players,
                hostname,
                gamemode,
                language,
            })
        },
        Err(e) => Err(e),
    }
}

/// An extra-info packet decoded from the given payload bytes.
pub open spec fn spec_extra_info_packet_ok(p: ExtraInfoPacket, b: Seq<u8>) -> bool {
    &&& spec_decode_extra_info(b) matches ExtraInfoDecodeOutcome::Fields(f)
    &&& spec_decoded_field(f.discord_link, p.discord_link@)
    &&& spec_decoded_field(f.light_banner_url, p.light_banner_url@)
    &&& spec_decoded_field(f.dark_banner_url, p.dark_banner_url@)
    &&& spec_decoded_field(f.logo_url, p.logo_url@)
    &&& f.logo_url.len() == 0 ==> p.logo_url@.len() == 0
}

/// The error an extra-info payload decodes to, if and only if it decodes to
/// one.
pub open spec fn spec_extra_info_error(e: LauncherError, b: Seq<u8>) -> bool {
    match spec_decode_extra_info(b) {
        ExtraInfoDecodeOutcome::Fields(_) => false,
        ExtraInfoDecodeOutcome::TooShort => e is Parse,
        ExtraInfoDecodeOutcome::DiscordCap => e is InvalidInput && e.spec_message()
            == "Discord link length exceeds maximum"@,
        ExtraInfoDecodeOutcome::LightBannerCap => e is InvalidInput && e.spec_message()
            == "Light banner URL length exceeds maximum"@,
        ExtraInfoDecodeOutcome::DarkBannerCap => e is InvalidInput && e.spec_message()
            == "Dark banner URL length exceeds maximum"@,
        ExtraInfoDecodeOutcome::LogoCap => e is InvalidInput && e.spec_message()
            == "Logo URL length exceeds maximum"@,
    }
}

/// Decodes an extra-info payload into an [`ExtraInfoPacket`]. An empty
/// decoded logo field stays the empty string.
pub fn build_extra_info_packet(payload: &Vec<u8>) -> (r: Result<ExtraInfoPacket, LauncherError>)
    ensures
        match r {
            Ok(p) => spec_extra_info_packet_ok(p, payload@),
            Err(e) => spec_extra_info_error(e, payload@),
        },
{
    match decode_extra_info_bytes(payload) {
        Ok(f) => {
            let (discord_link, _) = decode_buffer(f.discord_link);
            let (light_banner_url, _) = decode_buffer(f.light_banner_url);
            let (dark_banner_url, _) = decode_buffer(f.dark_banner_url);
            let (logo_url, _) = decode_buffer(f.logo_url);
            Ok(ExtraInfoPacket { discord_link, light_banner_url, dark_banner_url, logo_url })
        },
        Err(e) => Err(e),
    }
}

/// A players list decoded from the given payload bytes: names run through
/// the text decoder, scores and order as the payload carries them.
pub open spec fn spec_players_ok(v: Seq<PlayerView>, b: Seq<u8>) -> bool {
    &&& spec_decode_players(b) matches PlayersDecodeOutcome::Fields(ps)
    &&& v.len() == ps.len()
    &&& forall|i: int|
        0 <= i < ps.len() ==> spec_decoded_field(ps[i].name, (#[trigger] v[i]).name) && v[i].score
            == ps[i].score
}

/// The error a players payload decodes to, if and only if it decodes to one.
pub open spec fn spec_players_error(e: LauncherError, b: Seq<u8>) -> bool {
    match spec_decode_players(b) {
        PlayersDecodeOutcome::Fields(_) => false,
        PlayersDecodeOutcome::TooShort => e is Parse,
        PlayersDecodeOutcome::CountCap => e is InvalidInput && e.spec_message()
            == "Player count exceeds maximum"@,
    }
}

/// Decodes a players payload into a list of [`Player`] entries, in the order
/// the server sent them.
pub fn build_players_packet(payload: &Vec<u8>) -> (r: Result<Vec<Player>, LauncherError>)
    ensures
        match r {
            Ok(v) => spec_players_ok(v.deep_view(), payload@),
            Err(e) => spec_players_error(e, payload@),
        },
{
    match decode_players_bytes(payload) {
        Err(e) => Err(e),
        Ok(raw) => {
            let ghost ps = raw.deep_view();
            let mut raw = raw;
            let mut out: Vec<Player> = Vec::new();
            while raw.len() > 0
                invariant
                    out.deep_view().len() + raw.deep_view().len() == ps.len(),
                    forall|i: int|
                        0 <= i < out.deep_view().len() ==> spec_decoded_field(
                            ps[i].name,
                            (#[trigger] out.deep_view()[i]).name,
                        ) && out.deep_view()[i].score == ps[i].score,
                    forall|j: int|
                        0 <= j < raw.deep_view().len() ==> #[trigger] raw.deep_view()[j] == ps[
                            out.deep_view().len() + j],
                decreases raw.len(),
            {
                let ghost done = out.deep_view().len() as int;
                let ghost raw_dv = raw.deep_view();
                let ghost out_dv = out.deep_view();
                let pb = raw.remove(0);
                let (name, _) = decode_buffer(pb.name);
                let p = Player { name, score: pb.score };
                let ghost pv = p@;
                out.push(p);
                proof {
                    assert(pb.deep_view() == raw_dv[0]);
                    assert(raw_dv[0] == ps[done]);
                    assert(out.deep_view() =~= out_dv.push(pv));
                    assert forall|j: int| 0 <= j < raw.deep_view().len() implies #[trigger] raw.deep_view()[j]
                        == ps[done + 1 + j] by {
                        assert(raw.deep_view()[j] == raw_dv[j + 1]);
                    }
                }
            }
            Ok(out)
        },
    }
}

/// A rules list decoded from the given payload bytes: names and values run
/// through the text decoder, order as the payload carries them.
pub open spec fn spec_rules_ok(v: Seq<RuleView>, b: Seq<u8>) -> bool {
    &&& spec_decode_rules(b) matches RulesDecodeOutcome::Fields(rs)
    &&& v.len() == rs.len()
    &&& forall|i: int|
        0 <= i < rs.len() ==> spec_decoded_field(rs[i].name, (#[trigger] v[i]).name)
            && spec_decoded_field(rs[i].value, v[i].value)
}

/// The error a rules payload decodes to, if and only if it decodes to one.
pub open spec fn spec_rules_error(e: LauncherError, b: Seq<u8>) -> bool {
    match spec_decode_rules(b) {
        RulesDecodeOutcome::Fields(_) => false,
        RulesDecodeOutcome::TooShort => e is Parse,
        RulesDecodeOutcome::CountCap => e is InvalidInput && e.spec_message()
            == "Rule count exceeds maximum"@,
    }
}

/// Decodes a rules payload into a list of [`Rule`] entries, in the order the
/// server sent them.
pub fn build_rules_packet(payload: &Vec<u8>) -> (r: Result<Vec<Rule>, LauncherError>)
    ensures
        match r {
            Ok(v) => spec_rules_ok(v.deep_view(), payload@),
            Err(e) => spec_rules_error(e, payload@),
        },
{
    match decode_rules_bytes(payload) {
        Err(e) => Err(e),
        Ok(raw) => {
            let ghost rs = raw.deep_view();
            let mut raw = raw;
            let mut out: Vec<Rule> = Vec::new();
            while raw.len() > 0
                invariant
                    out.deep_view().len() + raw.deep_view().len() == rs.len(),
                    forall|i: int|
                        0 <= i < out.deep_view().len() ==> spec_decoded_field(
                            rs[i].name,
                            (#[trigger] out.deep_view()[i]).name,
                        ) && spec_decoded_field(rs[i].value, out.deep_view()[i].value),
                    forall|j: int|
                        0 <= j < raw.deep_view().len() ==> #[trigger] raw.deep_view()[j] == rs[
                            out.deep_view().len() + j],
                decreases raw.len(),
            {
                let ghost done = out.deep_view().len() as int;
                let ghost raw_dv = raw.deep_view();
                let ghost out_dv = out.deep_view();
                let rb = raw.remove(0);
                let (name, _) = decode_buffer(rb.name);
                let (value, _) = decode_buffer(rb.value);
                let rl = Rule { name, value };
                let ghost rv = rl@;
                out.push(rl);
                proof {
                    assert(rb.deep_view() == raw_dv[0]);
                    assert(raw_dv[0] == rs[done]);
                    assert(out.deep_view() =~= out_dv.push(rv));
                    assert forall|j: int| 0 <= j < raw.deep_view().len() implies #[trigger] raw.deep_view()[j]
                        == rs[done + 1 + j] by {
                        assert(raw.deep_view()[j] == raw_dv[j + 1]);
                    }
                }
            }
            Ok(out)
        },
    }
}

/// One decoded response, whichever category its echoed tag named.
pub enum ResponsePayload {
    Info(InfoPacket),
    Players(Vec<Player>),
    Rules(Vec<Rule>),
    ExtraInfo(ExtraInfoPacket),
    Pong,
}

/// The payload of a response packet: everything after the echoed header and
/// tag.
pub open spec fn spec_payload_of(b: Seq<u8>) -> Seq<u8> {
    b.subrange(11, b.len() as int)
}

/// Dispatches a raw response packet by the tag byte echoed at offset 10 and
/// decodes the payload that starts at offset 11. An empty read is a network
/// failure; a packet too short to carry a tag is malformed; an unknown tag
/// is a protocol failure.
pub fn dispatch_response(data: &Vec<u8>) -> (r: Result<ResponsePayload, LauncherError>)
    ensures
        data@.len() == 0 ==> (r matches Err(e) && e is Network && e.spec_message()
            == "No data received"@),
        0 < data@.len() < 11 ==> (r matches Err(e) && e is Parse),
        data@.len() >= 11 ==> match QueryType::spec_from_tag(data@[10]) {
            Option::None => r matches Err(e) && e is Network && e.spec_message()
                == "Unknown query type"@,
            Option::Some(qt) => match qt {
                QueryType::Info => match r {
                    Ok(p) => p matches ResponsePayload::Info(ip) && spec_info_packet_ok(
                        ip,
                        spec_payload_of(data@),
                    ),
                    Err(e) => spec_info_error(e, spec_payload_of(data@)),
                },
                QueryType::Players => match r {
                    Ok(p) => p matches ResponsePayload::Players(v) && spec_players_ok(
                        v.deep_view(),
                        spec_payload_of(data@),
                    ),
                    Err(e) => spec_players_error(e, spec_payload_of(data@)),
                },
                QueryType::Rules => match r {
                    Ok(p) => p matches ResponsePayload::Rules(v) && spec_rules_ok(
                        v.deep_view(),
                        spec_payload_of(data@),
                    ),
                    Err(e) => spec_rules_error(e, spec_payload_of(data@)),
                },
                QueryType::ExtraInfo => match r {
                    Ok(p) => p matches ResponsePayload::ExtraInfo(ep) && spec_extra_info_packet_ok(
                        ep,
                        spec_payload_of(data@),
                    ),
                    Err(e) => spec_extra_info_error(e, spec_payload_of(data@)),
                },
                QueryType::Ping => r matches Ok(p) && p is Pong,
            },
        },
{
    let n: usize = data.len();
    if n == 0 {
        return Err(LauncherError::Network(String::from_str("No data received")));
    }
    if n < 11 {
        return Err(LauncherError::Parse(String::from_str("Response truncated")));
    }
    let payload = copy_range(data, 11, n);
    match QueryType::from_tag_byte(data[10]) {
        Option::None => Err(LauncherError::Network(String::from_str("Unknown query type"))),
        Option::Some(QueryType::Info) => match build_info_packet(&payload) {
            Ok(p) => Ok(ResponsePayload::Info(p)),
            Err(e) => Err(e),
        },
        Option::Some(QueryType::Players) => match build_players_packet(&payload) {
            Ok(v) => Ok(ResponsePayload::Players(v)),
            Err(e) => Err(e),
        },
        Option::Some(QueryType::Rules) => match build_rules_packet(&payload) {
            Ok(v) => Ok(ResponsePayload::Rules(v)),
            Err(e) => Err(e),
        },
        Option::Some(QueryType::ExtraInfo) => match build_extra_info_packet(&payload) {
            Ok(p) => Ok(ResponsePayload::ExtraInfo(p)),
            Err(e) => Err(e),
        },
        Option::Some(QueryType::Ping) => Ok(ResponsePayload::Pong),
    }
}

} // verus!
