//! Decisions of the presence-status loop: whether updates should be sent at
//! all, and how a running game process's command line is read back into the
//! launch parameters the loop reports. The loop itself — process scanning,
//! the chat-service connection, the sleeps — is the binary's.

use vstd::prelude::*;
use vstd::string::*;

verus! {

/// Whether presence updates are being sent.
pub struct PresenceState {
    pub enabled: bool,
}

/// Turns presence updates on or off. Returns whether the presence loop must
/// now be started: exactly when updates were just turned on.
pub fn toggle_drpc(state: &mut PresenceState, toggle: bool) -> (start: bool)
    ensures
        final(state).enabled == toggle,
        start == toggle,
{
    state.enabled = toggle;
    toggle
}

/// The launch parameters read back from a game process's command line.
pub struct LaunchParams {
    pub name: Option<String>,
    pub host: Option<String>,
    pub port: Option<String>,
}

/// The value after the last `flag` among `args[1..=n]` that still has a
/// value after it.
pub open spec fn spec_flag_value_upto(args: Seq<Seq<char>>, flag: Seq<char>, n: int) -> Option<
    Seq<char>,
>
    decreases n + 1,
        when n >= -1
{
    if n < 1 {
        None
    } else if n + 1 < args.len() && args[n] == flag {
        Some(args[n + 1])
    } else {
        spec_flag_value_upto(args, flag, n - 1)
    }
}

/// The value after the last `flag` in `args`, skipping the program name at
/// index zero; a flag with nothing after it carries no value.
pub open spec fn spec_flag_value(args: Seq<Seq<char>>, flag: Seq<char>) -> Option<Seq<char>> {
    spec_flag_value_upto(args, flag, args.len() - 1)
}

/// Reads the `-n`, `-h` and `-p` values out of a process's argument list.
pub fn extract_launch_params(args: &Vec<String>) -> (r: LaunchParams)
    ensures
        r.name.deep_view() == spec_flag_value(args.deep_view(), "-n"@),
        r.host.deep_view() == spec_flag_value(args.deep_view(), "-h"@),
        r.port.deep_view() == spec_flag_value(args.deep_view(), "-p"@),
{
    let n = args.len();
    let mut name: Option<String> = None;
    let mut host: Option<String> = None;
    let mut port: Option<String> = None;
    let flag_n = String::from_str("-n");
    let flag_h = String::from_str("-h");
    let flag_p = String::from_str("-p");
    if n <= 1 {
        return LaunchParams { name, host, port };
    }
    let mut i: usize = 1;
    while i < n
        invariant
            1 <= i <= n,
            n == args@.len(),
            flag_n@ == "-n"@,
            flag_h@ == "-h"@,
            flag_p@ == "-p"@,
            name.deep_view() == spec_flag_value_upto(args.deep_view(), "-n"@, i - 1),
            host.deep_view() == spec_flag_value_upto(args.deep_view(), "-h"@, i - 1),
            port.deep_view() == spec_flag_value_upto(args.deep_view(), "-p"@, i - 1),
        decreases n - i,
    {
        if i + 1 < n {
            if args[i] == flag_n {
                name = Some(args[i + 1].clone());
            }
            if args[i] == flag_h {
                host = Some(args[i + 1].clone());
            }
            if args[i] == flag_p {
                port = Some(args[i + 1].clone());
            }
        }
        proof {
            assert(args.deep_view().len() == args@.len());
            assert(args.deep_view()[i as int] == args@[i as int]@);
            if i as int + 1 < n as int {
                assert(args.deep_view()[i as int + 1] == args@[i as int + 1]@);
            }
        }
        i = i + 1;
    }
    LaunchParams { name, host, port }
}

} // verus!
