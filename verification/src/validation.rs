//! Validation of user-supplied launch inputs: port, hostname, player name,
//! file path and password. Character classes and whitespace come from the
//! standard library's Unicode tables; everything built on them is verified.

use vstd::prelude::*;
use vstd::string::*;
use vstd::utf8::encode_utf8;

use crate::errors::LauncherError;
use crate::strutil::i32_to_dec_string;
use crate::strutil::spec_dec_signed;

verus! {

/// Whether the standard library classifies the character as whitespace.
pub uninterp spec fn char_is_whitespace(c: char) -> bool;

/// Relies on `char::is_whitespace`: a pure classification by the Unicode
/// `White_Space` property.
pub assume_specification[ char::is_whitespace ](c: char) -> (r: bool)
    ensures
        r == char_is_whitespace(c),
;

/// Whether the standard library classifies the character as alphanumeric.
pub uninterp spec fn char_is_alphanumeric(c: char) -> bool;

/// Relies on `char::is_alphanumeric`: a pure classification by Unicode
/// letter and number categories.
pub assume_specification[ char::is_alphanumeric ](c: char) -> (r: bool)
    ensures
        r == char_is_alphanumeric(c),
;

/// Whether the standard library classifies the character as a control
/// character.
pub uninterp spec fn char_is_control(c: char) -> bool;

/// Relies on `char::is_control`: a pure classification by the Unicode `Cc`
/// category.
pub assume_specification[ char::is_control ](c: char) -> (r: bool)
    ensures
        r == char_is_control(c),
;

/// Relies on `String::push`: appends the given character to the end of the
/// string.
pub assume_specification[ String::push ](s: &mut String, ch: char)
    ensures
        final(s)@ == old(s)@.push(ch),
;

/// The first position at or after `pos` holding no whitespace (the
/// sequence's end if whitespace runs out).
pub open spec fn spec_ws_run_end(s: Seq<char>, pos: int) -> int
    decreases s.len() - pos,
        when 0 <= pos <= s.len()
{
    if pos < s.len() && char_is_whitespace(s[pos]) {
        spec_ws_run_end(s, pos + 1)
    } else {
        pos
    }
}

/// The position after the last non-whitespace character at or before `pos`
/// (zero if whitespace runs all the way down).
pub open spec fn spec_ws_run_back(s: Seq<char>, pos: int) -> int
    decreases pos,
        when 0 <= pos <= s.len()
{
    if pos > 0 && char_is_whitespace(s[pos - 1]) {
        spec_ws_run_back(s, pos - 1)
    } else {
        pos
    }
}

/// A backward whitespace scan stays within bounds.
proof fn lemma_ws_run_back_range(s: Seq<char>, pos: int)
    requires
        0 <= pos <= s.len(),
    ensures
        0 <= spec_ws_run_back(s, pos) <= pos,
    decreases pos,
{
    if pos > 0 && char_is_whitespace(s[pos - 1]) {
        lemma_ws_run_back_range(s, pos - 1);
    }
}

/// The sequence with leading and trailing whitespace removed.
pub open spec fn spec_trimmed(s: Seq<char>) -> Seq<char> {
    let a = spec_ws_run_end(s, 0);
    let b = spec_ws_run_back(s, s.len() as int);
    if a <= b {
        s.subrange(a, b)
    } else {
        Seq::empty()
    }
}

/// Whether the character at `i` is whitespace.
fn is_ws_at(s: &str, i: usize) -> (r: bool)
    requires
        i < s@.len(),
    ensures
        r == char_is_whitespace(s@[i as int]),
{
    s.get_char(i).is_whitespace()
}

/// Removes leading and trailing whitespace.
pub fn trim_str(s: &str) -> (r: String)
    ensures
        r@ == spec_trimmed(s@),
{
    let n = s.unicode_len();
    let mut a: usize = 0;
    while a < n && is_ws_at(s, a)
        invariant
            0 <= a <= n,
            n == s@.len(),
            spec_ws_run_end(s@, 0) == spec_ws_run_end(s@, a as int),
        decreases n - a,
    {
        a = a + 1;
        proof {
            assert(spec_ws_run_end(s@, a as int - 1) == spec_ws_run_end(s@, a as int));
        }
    }
    proof {
        assert(spec_ws_run_end(s@, a as int) == a as int);
    }
    if a == n {
        let r = String::new();
        proof {
            lemma_ws_run_back_range(s@, s@.len() as int);
            if spec_ws_run_back(s@, s@.len() as int) >= a as int {
                assert(s@.subrange(a as int, spec_ws_run_back(s@, s@.len() as int)) =~= Seq::<
                    char,
                >::empty());
            }
        }
        return r;
    }
    let mut b: usize = n;
    while b > a && is_ws_at(s, b - 1)
        invariant
            a < b <= n,
            n == s@.len(),
            a < n,
            !char_is_whitespace(s@[a as int]),
            spec_ws_run_back(s@, n as int) == spec_ws_run_back(s@, b as int),
        decreases b,
    {
        b = b - 1;
        proof {
            assert(spec_ws_run_back(s@, b as int + 1) == spec_ws_run_back(s@, b as int));
        }
    }
    proof {
        assert(spec_ws_run_back(s@, b as int) == b as int);
    }
    s.substring_char(a, b).to_owned()
}

/// The error port validation returns for an out-of-range port.
pub open spec fn spec_port_error(port: i32, e: LauncherError) -> bool {
    e is InvalidInput && e.spec_message() == "Port "@ + spec_dec_signed(port as int)
        + " is out of valid range (1-65535)"@
}

/// Validates a server port: any value from 1 to 65535.
pub fn validate_port(port: i32) -> (r: Result<u16, LauncherError>)
    ensures
        1 <= port <= 65535 <==> r is Ok,
        r matches Ok(p) ==> p == port,
        r matches Err(e) ==> spec_port_error(port, e),
{
    if 1 <= port && port <= 65535 {
        Ok(port as u16)
    } else {
        let mut msg = String::from_str("Port ");
        let digits = i32_to_dec_string(port);
        msg.append(digits.as_str());
        msg.append(" is out of valid range (1-65535)");
        Err(LauncherError::InvalidInput(msg))
    }
}

/// Whether a character may appear in a hostname: alphanumeric, dot, hyphen
/// or underscore.
pub open spec fn spec_hostname_char_ok(c: char) -> bool {
    char_is_alphanumeric(c) || c == '.' || c == '-' || c == '_'
}

/// Whether a trimmed hostname is acceptable: nonempty, at most 253 bytes,
/// every character a hostname character.
pub open spec fn spec_hostname_ok(t: Seq<char>) -> bool {
    &&& t.len() > 0
    &&& encode_utf8(t).len() <= 253
    &&& forall|i: int| 0 <= i < t.len() ==> spec_hostname_char_ok(#[trigger] t[i])
}

/// The first index at or after `pos` holding no hostname character (the
/// sequence's end if every character is one).
pub open spec fn spec_first_bad_hostname_char(t: Seq<char>, pos: int) -> int
    decreases t.len() - pos,
        when 0 <= pos <= t.len()
{
    if pos < t.len() && spec_hostname_char_ok(t[pos]) {
        spec_first_bad_hostname_char(t, pos + 1)
    } else {
        pos
    }
}

/// The error hostname validation returns for an unacceptable trimmed
/// hostname, in check order: empty, over-long, else the first offending
/// character named.
pub open spec fn spec_hostname_error(t: Seq<char>, e: LauncherError) -> bool {
    if t.len() == 0 {
        e is InvalidInput && e.spec_message() == "Hostname cannot be empty"@
    } else if encode_utf8(t).len() > 253 {
        e is InvalidInput && e.spec_message() == "Hostname too long"@
    } else {
        e is InvalidInput && e.spec_message() == "Invalid character in hostname: '"@ + seq![
            t[spec_first_bad_hostname_char(t, 0)],
        ] + "'"@
    }
}

/// Validates a hostname: trimmed, it must be nonempty, at most 253 bytes,
/// and hold only alphanumerics, dots, hyphens and underscores. Returns the
/// trimmed hostname, or the first rule it breaks.
pub fn validate_hostname(hostname: &str) -> (r: Result<String, LauncherError>)
    ensures
        r is Ok <==> spec_hostname_ok(spec_trimmed(hostname@)),
        r matches Ok(v) ==> v@ == spec_trimmed(hostname@),
        r matches Err(e) ==> spec_hostname_error(spec_trimmed(hostname@), e),
{
    let trimmed = trim_str(hostname);
    let n = trimmed.as_str().unicode_len();
    if n == 0 {
        return Err(LauncherError::InvalidInput(String::from_str("Hostname cannot be empty")));
    }
    let byte_len = trimmed.as_str().as_bytes().len();
    if byte_len > 253 {
        return Err(LauncherError::InvalidInput(String::from_str("Hostname too long")));
    }
    let mut i: usize = 0;
    while i < n
        invariant
            0 <= i <= n,
            n == trimmed@.len(),
            trimmed@ == spec_trimmed(hostname@),
            n > 0,
            encode_utf8(spec_trimmed(hostname@)).len() <= 253,
            forall|j: int| 0 <= j < i ==> spec_hostname_char_ok(#[trigger] trimmed@[j]),
            spec_first_bad_hostname_char(trimmed@, 0) == spec_first_bad_hostname_char(
                trimmed@,
                i as int,
            ),
        decreases n - i,
    {
        let c = trimmed.as_str().get_char(i);
        if !(c.is_alphanumeric() || c == '.' || c == '-' || c == '_') {
            let mut msg = String::from_str("Invalid character in hostname: '");
            msg.push(c);
            msg.append("'");
            proof {
                assert(spec_first_bad_hostname_char(trimmed@, i as int) == i as int);
                assert(msg@ =~= "Invalid character in hostname: '"@ + seq![c] + "'"@);
            }
            return Err(LauncherError::InvalidInput(msg));
        }
        i = i + 1;
        proof {
            assert(spec_first_bad_hostname_char(trimmed@, i as int - 1)
                == spec_first_bad_hostname_char(trimmed@, i as int));
        }
    }
    Ok(trimmed)
}

/// Whether a character may appear in a player name: alphanumeric,
/// underscore or square bracket.
pub open spec fn spec_player_name_char_ok(c: char) -> bool {
    char_is_alphanumeric(c) || c == '_' || c == '[' || c == ']'
}

/// Whether a trimmed player name is acceptable: 3 to 24 bytes, every
/// character a player-name character.
pub open spec fn spec_player_name_ok(t: Seq<char>) -> bool {
    &&& t.len() > 0
    &&& 3 <= encode_utf8(t).len() <= 24
    &&& forall|i: int| 0 <= i < t.len() ==> spec_player_name_char_ok(#[trigger] t[i])
}

/// The first index at or after `pos` holding no player-name character (the
/// sequence's end if every character is one).
pub open spec fn spec_first_bad_player_char(t: Seq<char>, pos: int) -> int
    decreases t.len() - pos,
        when 0 <= pos <= t.len()
{
    if pos < t.len() && spec_player_name_char_ok(t[pos]) {
        spec_first_bad_player_char(t, pos + 1)
    } else {
        pos
    }
}

/// The error player-name validation returns for an unacceptable trimmed
/// name, in check order: empty, over-long, too short, else the first
/// offending character named.
pub open spec fn spec_player_name_error(t: Seq<char>, e: LauncherError) -> bool {
    if t.len() == 0 {
        e is InvalidInput && e.spec_message() == "Player name cannot be empty"@
    } else if encode_utf8(t).len() > 24 {
        e is InvalidInput && e.spec_message() == "Player name cannot exceed 24 characters"@
    } else if encode_utf8(t).len() < 3 {
        e is InvalidInput && e.spec_message() == "Player name must be at least 3 characters"@
    } else {
        e is InvalidInput && e.spec_message() == "Invalid character in player name: '"@ + seq![
            t[spec_first_bad_player_char(t, 0)],
        ] + "'"@
    }
}

/// Validates a player name: trimmed, it must be 3 to 24 bytes and hold only
/// alphanumerics, underscores and square brackets. Returns the trimmed name,
/// or the first rule it breaks.
pub fn validate_player_name(name: &str) -> (r: Result<String, LauncherError>)
    ensures
        r is Ok <==> spec_player_name_ok(spec_trimmed(name@)),
        r matches Ok(v) ==> v@ == spec_trimmed(name@),
        r matches Err(e) ==> spec_player_name_error(spec_trimmed(name@), e),
{
    let trimmed = trim_str(name);
    let n = trimmed.as_str().unicode_len();
    if n == 0 {
        return Err(LauncherError::InvalidInput(String::from_str("Player name cannot be empty")));
    }
    let byte_len = trimmed.as_str().as_bytes().len();
    if byte_len > 24 {
        return Err(LauncherError::InvalidInput(
            String::from_str("Player name cannot exceed 24 characters"),
        ));
    }
    if byte_len < 3 {
        return Err(LauncherError::InvalidInput(
            String::from_str("Player name must be at least 3 characters"),
        ));
    }
    let mut i: usize = 0;
    while i < n
        invariant
            0 <= i <= n,
            n == trimmed@.len(),
            trimmed@ == spec_trimmed(name@),
            n > 0,
            3 <= encode_utf8(spec_trimmed(name@)).len() <= 24,
            forall|j: int| 0 <= j < i ==> spec_player_name_char_ok(#[trigger] trimmed@[j]),
            spec_first_bad_player_char(trimmed@, 0) == spec_first_bad_player_char(
                trimmed@,
                i as int,
            ),
        decreases n - i,
    {
        let c = trimmed.as_str().get_char(i);
        if !(c.is_alphanumeric() || c == '_' || c == '[' || c == ']') {
            let mut msg = String::from_str("Invalid character in player name: '");
            msg.push(c);
            msg.append("'");
            proof {
                assert(spec_first_bad_player_char(trimmed@, i as int) == i as int);
                assert(msg@ =~= "Invalid character in player name: '"@ + seq![c] + "'"@);
            }
            return Err(LauncherError::InvalidInput(msg));
        }
        i = i + 1;
        proof {
            assert(spec_first_bad_player_char(trimmed@, i as int - 1)
                == spec_first_bad_player_char(trimmed@, i as int));
        }
    }
    Ok(trimmed)
}

/// Whether the sequence holds two of the given characters side by side.
pub open spec fn spec_has_double(t: Seq<char>, c: char) -> bool {
    exists|i: int| 0 <= i && i + 1 < t.len() && #[trigger] t[i] == c && t[i + 1] == c
}

/// Whether the string holds two of the given characters side by side.
fn has_double(s: &str, c: char) -> (r: bool)
    ensures
        r == spec_has_double(s@, c),
{
    let n = s.unicode_len();
    if n < 2 {
        return false;
    }
    let mut i: usize = 0;
    while i < n - 1
        invariant
            0 <= i <= n,
            n == s@.len(),
            n >= 2,
            forall|j: int| 0 <= j && j < i ==> !(s@[j] == c && #[trigger] s@[j + 1] == c),
        decreases n - i,
    {
        if s.get_char(i) == c && s.get_char(i + 1) == c {
            return true;
        }
        i = i + 1;
    }
    false
}

/// Whether a trimmed path is acceptable in shape: nonempty and free of the
/// traversal sequences `..` and `//`.
pub open spec fn spec_path_shape_ok(t: Seq<char>) -> bool {
    t.len() > 0 && !spec_has_double(t, '.') && !spec_has_double(t, '/')
}

/// The error path validation returns for an unacceptable trimmed path, in
/// check order: empty, a traversal sequence, else (when the path does not
/// exist) not found.
pub open spec fn spec_path_error(t: Seq<char>, e: LauncherError) -> bool {
    if t.len() == 0 {
        e is InvalidInput && e.spec_message() == "File path cannot be empty"@
    } else if spec_has_double(t, '.') || spec_has_double(t, '/') {
        e is InvalidInput && e.spec_message() == "Path contains invalid sequences"@
    } else {
        e is NotFound && e.spec_message() == "Path does not exist: "@ + t
    }
}

/// Validates a file path against its trimmed shape and the caller's answer
/// to whether it exists on disk: the path must be nonempty, free of `..`
/// and `//`, and existing. Returns the trimmed path, or the first rule it
/// breaks.
pub fn validate_file_path(path: &str, path_exists: bool) -> (r: Result<String, LauncherError>)
    ensures
        r is Ok <==> spec_path_shape_ok(spec_trimmed(path@)) && path_exists,
        r matches Ok(v) ==> v@ == spec_trimmed(path@),
        r matches Err(e) ==> spec_path_error(spec_trimmed(path@), e),
{
    let trimmed = trim_str(path);
    if trimmed.as_str().unicode_len() == 0 {
        return Err(LauncherError::InvalidInput(String::from_str("File path cannot be empty")));
    }
    if has_double(trimmed.as_str(), '.') || has_double(trimmed.as_str(), '/') {
        return Err(LauncherError::InvalidInput(
            String::from_str("Path contains invalid sequences"),
        ));
    }
    if !path_exists {
        let mut msg = String::from_str("Path does not exist: ");
        msg.append(trimmed.as_str());
        return Err(LauncherError::NotFound(msg));
    }
    Ok(trimmed)
}

/// Whether a password character survives sanitizing: not a NUL and not a
/// control character.
pub open spec fn spec_password_char_kept(c: char) -> bool {
    c != '\0' && !char_is_control(c)
}

/// The password with every NUL and control character removed.
pub open spec fn spec_password_kept(s: Seq<char>) -> Seq<char>
    decreases s.len(),
{
    if s.len() == 0 {
        Seq::empty()
    } else if spec_password_char_kept(s.last()) {
        spec_password_kept(s.drop_last()).push(s.last())
    } else {
        spec_password_kept(s.drop_last())
    }
}

/// The sanitized form of a password: control characters and NULs removed,
/// then trimmed.
pub open spec fn spec_sanitized(s: Seq<char>) -> Seq<char> {
    spec_trimmed(spec_password_kept(s))
}

/// Sanitizes a password: removes NULs and control characters, then trims
/// surrounding whitespace.
pub fn sanitize_password(password: &str) -> (r: String)
    ensures
        r@ == spec_sanitized(password@),
{
    let n = password.unicode_len();
    let mut kept = String::new();
    let mut i: usize = 0;
    while i < n
        invariant
            0 <= i <= n,
            n == password@.len(),
            kept@ == spec_password_kept(password@.take(i as int)),
        decreases n - i,
    {
        let c = password.get_char(i);
        if c != '\0' && !c.is_control() {
            kept.push(c);
        }
        i = i + 1;
        proof {
            assert(password@.take(i as int).drop_last() =~= password@.take(i as int - 1));
            assert(password@.take(i as int).last() == password@[i as int - 1]);
        }
    }
    proof {
        assert(password@.take(n as int) =~= password@);
    }
    trim_str(kept.as_str())
}

} // verus!
