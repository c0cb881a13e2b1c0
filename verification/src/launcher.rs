//! Construction of the game process's command line. Spawning itself is OS
//! work the binary performs; the executable name and the exact argument
//! vector are decided and proved here, and a failed spawn is classified by
//! [`crate::errors::classify_process_error`].

use vstd::prelude::*;
use vstd::string::*;

use crate::strutil::spec_dec_digits;
use crate::strutil::u32_to_dec_string;

verus! {

/// The executable to spawn: the custom name when one was given, else the
/// stock game executable.
pub fn target_game_exe(custom_game_exe: &str) -> (r: String)
    ensures
        custom_game_exe@.len() > 0 ==> r@ == custom_game_exe@,
        custom_game_exe@.len() == 0 ==> r@ == "gta_sa.exe"@,
{
    if custom_game_exe.is_empty() {
        String::from_str("gta_sa.exe")
    } else {
        String::from_str(custom_game_exe)
    }
}

/// The fixed argument vector the game is spawned with: `-c -n <name> -h
/// <host> -p <port>`, and `-z <password>` only when a password was given.
pub open spec fn spec_launch_args(
    name: Seq<char>,
    host: Seq<char>,
    port: u16,
    password: Seq<char>,
) -> Seq<Seq<char>> {
    let base = seq![
        "-c"@,
        "-n"@,
        name,
        "-h"@,
        host,
        "-p"@,
        spec_dec_digits(port as nat),
    ];
    if password.len() > 0 {
        base + seq!["-z"@, password]
    } else {
        base
    }
}

/// Builds the argument vector the game is spawned with.
pub fn build_launch_args(name: &str, host: &str, port: u16, password: &str) -> (r: Vec<String>)
    ensures
        r.deep_view() == spec_launch_args(name@, host@, port, password@),
{
    let mut v: Vec<String> = Vec::new();
    v.push(String::from_str("-c"));
    v.push(String::from_str("-n"));
    v.push(String::from_str(name));
    v.push(String::from_str("-h"));
    v.push(String::from_str(host));
    v.push(String::from_str("-p"));
    v.push(u32_to_dec_string(port as u32));
    if !password.is_empty() {
        v.push(String::from_str("-z"));
        v.push(String::from_str(password));
    }
    proof {
        assert(v.deep_view() =~= spec_launch_args(name@, host@, port, password@));
    }
    v
}

} // verus!
