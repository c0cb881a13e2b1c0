//! Best-effort bytes-to-text conversion. Three heuristic detectors each name
//! an encoding; a fixed rule table picks the label to decode with; the bytes
//! are then decoded with the encoding of that label. The detectors and the
//! decoding itself are outside collaborators; the rule table is this crate's
//! own logic and is verified.

use vstd::prelude::*;
use vstd::string::*;

verus! {

/// The lower-cased name of the encoding that the chardetng detector guesses
/// for the given bytes.
pub uninterp spec fn chardetng_label(bytes: Seq<u8>) -> Seq<char>;

/// Relies on chardetng's `EncodingDetector`: fed the whole buffer and asked
/// to guess with no top-level-domain hint and UTF-8 allowed, the guess is a
/// function of the bytes alone. Returns the guessed encoding's name in
/// lower case. On input without the escape byte, the guess is never
/// ISO-2022-JP (that return needs an escape sequence seen, and the scoring
/// loop skips its candidate), UTF-16 is never a candidate, and every other
/// encoding chardetng can name — the windows and ISO-8859 code pages, KOI8-U,
/// IBM866, x-mac-cyrillic, windows-874, GBK, Big5, EUC-JP, EUC-KR,
/// Shift_JIS, UTF-8 — is ASCII-compatible and named by one of its own
/// labels, so decoding ASCII bytes under the returned label gives those
/// bytes back as characters.
#[verifier::external_body]
fn detect_chardetng(buf: &Vec<u8>) -> (r: String)
    ensures
        r@ == chardetng_label(buf@),
        spec_plain_ascii(buf@) ==> decoded_text(r@, buf@) == spec_ascii_chars(buf@),
{
    let mut detector = chardetng::EncodingDetector::new();
    detector.feed(buf.as_slice(), true);
    detector.guess(None, true).name().to_lowercase()
}

/// The lower-cased name of the encoding that the chardet detector guesses
/// for the given bytes.
pub uninterp spec fn chardet_label(bytes: Seq<u8>) -> Seq<char>;

/// Relies on chardet's `detect` and `charset2encoding`: both are functions of
/// the bytes alone (a fixed prober list, no hashing). Returns the detected
/// charset's encoding name in lower case. On nonempty input whose bytes are
/// all ASCII with no escape byte, the detector stays in its pure-ASCII state
/// and `detect` answers `ascii`, which `charset2encoding` passes through.
/// `detect` panics when its final state is the escape-ASCII state — an
/// escape byte seen and no high byte other than 0xA0 — and the escape
/// probers never concluded, so inputs that can end in that state are left
/// out by the precondition; [`decode_buffer`] tests it before calling.
#[verifier::external_body]
fn detect_chardet(buf: &Vec<u8>) -> (r: String)
    requires
        spec_chardet_safe(buf@),
    ensures
        r@ == chardet_label(buf@),
        buf@.len() > 0 && spec_plain_ascii(buf@) ==> r@ == "ascii"@,
{
    chardet::charset2encoding(&chardet::detect(buf.as_slice()).0).to_string().to_lowercase()
}

/// Relies on charset-normalizer-rs's `from_bytes` with default settings and
/// `get_best`. Its coherence ranking walks hash maps whose iteration order
/// is seeded per process, so two calls on the same bytes may rank different
/// encodings best: nothing is promised of the returned label, and every
/// contract downstream holds for whatever label comes back. The ranking
/// sorts by `partial_cmp(..).unwrap()` on f32 scores; none can be NaN:
/// coherence scores are strsim jaro similarities in zero to one, mess and
/// merged scores are sums divided by positive counts, and the comparator's
/// one division by the payload length runs only for nonempty payloads (the
/// empty payload takes an early return whose single-entry list no
/// comparator ever sees).
#[verifier::external_body]
fn detect_normalizer(buf: &Vec<u8>) -> (r: String)
{
    match charset_normalizer_rs::from_bytes(buf, None).get_best() {
        Some(best) => best.encoding().to_string().to_lowercase(),
        None => "not_found".to_string(),
    }
}

/// The canonical name of the encoding that the given label resolves to,
/// UTF-8 when the label names no encoding.
pub uninterp spec fn resolved_encoding_name(label: Seq<char>) -> Seq<char>;

/// Relies on encoding_rs's `Encoding::for_label`, falling back to UTF-8 for
/// an unknown label: the resolution is a function of the label alone. The
/// label `UTF_8` resolves to the UTF-8 encoding (through the label table or
/// through the fallback), whose canonical name is `UTF-8`.
#[verifier::external_body]
fn resolve_encoding_name(label: &str) -> (r: String)
    ensures
        r@ == resolved_encoding_name(label@),
        label@ == "UTF_8"@ ==> r@ == "UTF-8"@,
{
    encoding_rs::Encoding::for_label(label.as_bytes())
        .unwrap_or(encoding_rs::UTF_8)
        .name()
        .to_string()
}

/// The text that the encoding of the given label decodes the bytes to.
pub uninterp spec fn decoded_text(label: Seq<char>, bytes: Seq<u8>) -> Seq<char>;

/// Relies on encoding_rs's `Encoding::for_label` (falling back to UTF-8) and
/// `decode`: best-effort, never failing, and a function of the label and the
/// bytes alone. Decoding an empty buffer gives the empty string. The rule
/// table's five fixed labels resolve to UTF-8 (`UTF_8` through the fallback),
/// windows-1251, windows-1250, windows-1252 and GB18030, every one an
/// ASCII-compatible encoding, so decoding ASCII bytes (which carry no
/// byte-order mark) under any of them gives those bytes back as characters.
#[verifier::external_body]
fn decode_with_label(label: &str, buf: &Vec<u8>) -> (r: String)
    ensures
        r@ == decoded_text(label@, buf@),
        buf@.len() == 0 ==> r@.len() == 0,
        spec_plain_ascii(buf@) && (label@ == "UTF_8"@ || label@ == "windows-1251"@ || label@
            == "windows-1250"@ || label@ == "windows-1252"@ || label@ == "GB18030"@) ==> r@
            == spec_ascii_chars(buf@),
{
    let encoding = encoding_rs::Encoding::for_label(label.as_bytes())
        .unwrap_or(encoding_rs::UTF_8);
    let (decoded, _, _) = encoding.decode(buf.as_slice());
    decoded.into_owned()
}

/// Compares two string slices by their character sequences.
pub(crate) fn str_eq(a: &str, b: &str) -> (r: bool)
    ensures
        r == (a@ == b@),
{
    let sa = String::from_str(a);
    let sb = String::from_str(b);
    sa == sb
}

/// The label to decode with, given the three detectors' lower-cased guesses.
/// The rule table resolves known disagreements between the detectors on the
/// Cyrillic, central-European, western-European and Chinese code pages that
/// game servers commonly use; otherwise the chardetng guess stands.
pub open spec fn spec_choose_label(cng: Seq<char>, cd: Seq<char>, nm: Seq<char>) -> Seq<char> {
    if cd == "ascii"@ && nm == "ascii"@ {
        "UTF_8"@
    } else if ((cd == "koi8-r"@ && nm == "koi8-r"@) || (cng == "gbk"@ && (cd == "windows-1255"@
        || nm == "ibm866"@))) || cd == "x-mac-cyrillic"@ || nm == "macintosh"@ || (cng
        == "iso-8859-2"@ && cd == "iso-8859-1"@) {
        "windows-1251"@
    } else if cng == "windows-1250"@ && (cd == "iso-8859-1"@ || nm == "windows-1251"@) {
        "windows-1250"@
    } else if (cng == "windows-1252"@ && cd == "windows-1251"@) || (cd == "iso-8859-1"@ && (nm
        == "iso-8859-2"@ || nm == "windows-874"@ || nm == "iso-8859-1"@ || nm == "ibm866"@ || nm
        == "euc-kr"@)) || (cng == "shift_jis"@ && cd == "iso-8859-1"@) {
        "windows-1252"@
    } else if cng == "gbk"@ || cd == "gb2312"@ {
        "GB18030"@
    } else {
        cng
    }
}

/// Picks the label to decode with from the three detectors' guesses.
fn choose_label(cng: &String, cd: &String, nm: &String) -> (r: String)
    ensures
        r@ == spec_choose_label(cng@, cd@, nm@),
{
    if str_eq(cd.as_str(), "ascii") && str_eq(nm.as_str(), "ascii") {
        String::from_str("UTF_8")
    } else if ((str_eq(cd.as_str(), "koi8-r") && str_eq(nm.as_str(), "koi8-r")) || (str_eq(
        cng.as_str(),
        "gbk",
    ) && (str_eq(cd.as_str(), "windows-1255") || str_eq(nm.as_str(), "ibm866")))) || str_eq(
        cd.as_str(),
        "x-mac-cyrillic",
    ) || str_eq(nm.as_str(), "macintosh") || (str_eq(cng.as_str(), "iso-8859-2") && str_eq(
        cd.as_str(),
        "iso-8859-1",
    )) {
        String::from_str("windows-1251")
    } else if str_eq(cng.as_str(), "windows-1250") && (str_eq(cd.as_str(), "iso-8859-1") || str_eq(
        nm.as_str(),
        "windows-1251",
    )) {
        String::from_str("windows-1250")
    } else if (str_eq(cng.as_str(), "windows-1252") && str_eq(cd.as_str(), "windows-1251")) || (
    str_eq(cd.as_str(), "iso-8859-1") && (str_eq(nm.as_str(), "iso-8859-2") || str_eq(
        nm.as_str(),
        "windows-874",
    ) || str_eq(nm.as_str(), "iso-8859-1") || str_eq(nm.as_str(), "ibm866") || str_eq(
        nm.as_str(),
        "euc-kr",
    ))) || (str_eq(cng.as_str(), "shift_jis") && str_eq(cd.as_str(), "iso-8859-1")) {
        String::from_str("windows-1252")
    } else if str_eq(cng.as_str(), "gbk") || str_eq(cd.as_str(), "gb2312") {
        String::from_str("GB18030")
    } else {
        cng.clone()
    }
}

/// Bytes that are plain ASCII: every byte below 0x80 and none the escape
/// byte, which would engage the escape-sequence charset probers.
pub open spec fn spec_plain_ascii(b: Seq<u8>) -> bool {
    forall|i: int| 0 <= i < b.len() ==> (#[trigger] b[i]) < 128 && b[i] != 27
}

/// The bytes read as characters, one character per byte.
pub open spec fn spec_ascii_chars(b: Seq<u8>) -> Seq<char> {
    Seq::new(b.len(), |i: int| b[i] as char)
}

/// Bytes the chardet detector accepts without panicking: no escape byte, or
/// some high byte other than 0xA0, so its final state cannot be the
/// escape-ASCII state whose close is unreachable code.
pub open spec fn spec_chardet_safe(b: Seq<u8>) -> bool {
    (forall|i: int| 0 <= i < b.len() ==> (#[trigger] b[i]) != 27) || (exists|i: int|
        0 <= i < b.len() && (#[trigger] b[i]) >= 128 && b[i] != 160)
}

/// Whether the chardet detector accepts the buffer without panicking.
fn chardet_safe(buf: &Vec<u8>) -> (r: bool)
    ensures
        r == spec_chardet_safe(buf@),
{
    let n = buf.len();
    let mut has_esc = false;
    let mut has_high = false;
    let mut i: usize = 0;
    while i < n
        invariant
            0 <= i <= n,
            n == buf@.len(),
            has_esc == exists|k: int| 0 <= k < i && (#[trigger] buf@[k]) == 27,
            has_high == exists|k: int| 0 <= k < i && (#[trigger] buf@[k]) >= 128 && buf@[k] != 160,
        decreases n - i,
    {
        let b = buf[i];
        if b == 27 {
            has_esc = true;
        }
        if b >= 128 && b != 160 {
            has_high = true;
        }
        i = i + 1;
    }
    !has_esc || has_high
}

/// The label the chardet detector contributes: its answer where it is safe
/// to ask, the empty label — which matches no rule — where it is not.
pub open spec fn spec_cd_label(bytes: Seq<u8>) -> Seq<char> {
    if spec_chardet_safe(bytes) {
        chardet_label(bytes)
    } else {
        Seq::empty()
    }
}

/// The label the rule table picks for the given bytes when the
/// charset-normalizer detector answered `nm`. The normalizer's answer is not
/// a function of the bytes, so it stays a parameter here.
pub open spec fn spec_label_for(bytes: Seq<u8>, nm: Seq<char>) -> Seq<char> {
    spec_choose_label(chardetng_label(bytes), spec_cd_label(bytes), nm)
}

/// The text the given bytes decode to when the charset-normalizer detector
/// answered `nm`.
pub open spec fn spec_decoded_as(bytes: Seq<u8>, nm: Seq<char>) -> Seq<char> {
    decoded_text(spec_label_for(bytes, nm), bytes)
}

/// Whether `text` is a possible decoding of `bytes`: the decode under the
/// rule table's label for some answer of the charset-normalizer detector.
pub open spec fn spec_is_decoded(bytes: Seq<u8>, text: Seq<char>) -> bool {
    exists|nm: Seq<char>| text == #[trigger] spec_decoded_as(bytes, nm)
}

/// What the decoder guarantees of one decoded field: the text is a possible
/// decoding of the bytes, empty bytes give empty text, and plain-ASCII bytes
/// give themselves back as characters, whatever the detectors answered.
pub open spec fn spec_decoded_field(bytes: Seq<u8>, text: Seq<char>) -> bool {
    &&& spec_is_decoded(bytes, text)
    &&& bytes.len() == 0 ==> text.len() == 0
    &&& spec_plain_ascii(bytes) ==> text == spec_ascii_chars(bytes)
}

/// Decodes a buffer of bytes into text, detecting the encoding. Never fails:
/// the conversion is best-effort and lossy at worst, and input that the
/// chardet detector cannot take (an escape byte with no high byte) simply
/// goes without its vote. Returns the text and the canonical name of the
/// encoding it was decoded with; the two come from one run of the detectors,
/// so they agree on the label, and plain-ASCII input comes back byte for
/// byte.
pub fn decode_buffer(buf: Vec<u8>) -> (r: (String, String))
    ensures
        spec_decoded_field(buf@, r.0@),
        exists|nm: Seq<char>|
            r.0@ == #[trigger] spec_decoded_as(buf@, nm) && r.1@ == resolved_encoding_name(
                spec_label_for(buf@, nm),
            ),
{
    let cng = detect_chardetng(&buf);
    let cd = if chardet_safe(&buf) {
        detect_chardet(&buf)
    } else {
        String::new()
    };
    let nm = detect_normalizer(&buf);
    let label = choose_label(&cng, &cd, &nm);
    let text = decode_with_label(label.as_str(), &buf);
    let name = resolve_encoding_name(label.as_str());
    proof {
        assert(cd@ == spec_cd_label(buf@));
        assert(text@ == spec_decoded_as(buf@, nm@));
        assert(name@ == resolved_encoding_name(spec_label_for(buf@, nm@)));
        if spec_plain_ascii(buf@) {
            let lbl = spec_choose_label(cng@, cd@, nm@);
            assert(lbl == "UTF_8"@ || lbl == "windows-1251"@ || lbl == "windows-1250"@ || lbl
                == "windows-1252"@ || lbl == "GB18030"@ || lbl == cng@);
            assert(text@ == spec_ascii_chars(buf@));
        }
        if buf@.len() == 0 {
            assert(spec_ascii_chars(buf@) =~= Seq::<char>::empty());
        }
    }
    (text, name)
}

} // verus!
