//! Command-line launch arguments and their validation. Parsing the raw
//! argument list and checking the filesystem are the binary's job; it hands
//! the parsed fields and the two existence answers in, and every rule about
//! them is decided here.

use vstd::prelude::*;
use vstd::string::*;
use vstd::utf8::encode_utf8;

use crate::errors::LauncherError;
use crate::validation::sanitize_password;
use crate::validation::spec_hostname_error;
use crate::validation::spec_hostname_ok;
use crate::validation::spec_path_error;
use crate::validation::spec_path_shape_ok;
use crate::validation::spec_player_name_error;
use crate::validation::spec_player_name_ok;
use crate::validation::spec_port_error;
use crate::validation::spec_sanitized;
use crate::validation::spec_trimmed;
use crate::validation::validate_file_path;
use crate::validation::validate_hostname;
use crate::validation::validate_player_name;
use crate::validation::validate_port;

verus! {

/// The launch options given on the command line. Every field is optional;
/// launching from the command line needs host, port, name and gamepath
/// together.
#[derive(Debug)]
pub struct CliArgs {
    pub help: bool,
    pub host: Option<String>,
    pub port: Option<i32>,
    pub password: Option<String>,
    pub name: Option<String>,
    pub gamepath: Option<String>,
    pub no_omp: bool,
}

impl CliArgs {
    /// Whether the given host, if any, is a valid hostname.
    pub open spec fn spec_host_ok(&self) -> bool {
        self.host matches Some(h) ==> spec_hostname_ok(spec_trimmed(h@))
    }

    /// Whether the given port, if any, is in range.
    pub open spec fn spec_port_ok(&self) -> bool {
        self.port matches Some(p) ==> 1 <= p <= 65535
    }

    /// Whether the given name, if any, is a valid player name.
    pub open spec fn spec_name_ok(&self) -> bool {
        self.name matches Some(nm) ==> spec_player_name_ok(spec_trimmed(nm@))
    }

    /// Whether the given game path, if any, is traversal-free and exists.
    pub open spec fn spec_gamepath_ok(&self, gamepath_exists: bool) -> bool {
        self.gamepath matches Some(g) ==> spec_path_shape_ok(spec_trimmed(g@)) && gamepath_exists
    }

    /// Whether every given field passes its validation rule, with the
    /// caller's answers to whether the game directory and the game
    /// executable inside it exist.
    pub open spec fn spec_valid(&self, gamepath_exists: bool, gta_exe_exists: bool) -> bool {
        &&& self.spec_host_ok()
        &&& self.spec_port_ok()
        &&& self.spec_name_ok()
        &&& self.spec_gamepath_ok(gamepath_exists)
        &&& (self.gamepath is Some ==> gta_exe_exists)
    }

    /// Validates every given field: hostname, then port, then player name,
    /// then game path, failing with the first broken rule's own error. A
    /// game path whose directory exists but lacks the game executable is
    /// `NotFound`.
    pub fn validate(&self, gamepath_exists: bool, gta_exe_exists: bool) -> (r: Result<
        (),
        LauncherError,
    >)
        ensures
            r is Ok <==> self.spec_valid(gamepath_exists, gta_exe_exists),
            !self.spec_host_ok() ==> (r matches Err(e) && (self.host matches Some(h)
                && spec_hostname_error(spec_trimmed(h@), e))),
            self.spec_host_ok() && !self.spec_port_ok() ==> (r matches Err(e) && (
            self.port matches Some(p) && spec_port_error(p, e))),
            self.spec_host_ok() && self.spec_port_ok() && !self.spec_name_ok() ==> (r matches Err(e)
                && (self.name matches Some(nm) && spec_player_name_error(spec_trimmed(nm@), e))),
            self.spec_host_ok() && self.spec_port_ok() && self.spec_name_ok()
                && !self.spec_gamepath_ok(gamepath_exists) ==> (r matches Err(e) && (
            self.gamepath matches Some(g) && spec_path_error(spec_trimmed(g@), e))),
            self.spec_host_ok() && self.spec_port_ok() && self.spec_name_ok()
                && self.spec_gamepath_ok(gamepath_exists) && self.gamepath is Some
                && !gta_exe_exists ==> (r matches Err(e) && e is NotFound && (
            self.gamepath matches Some(g) && e.spec_message()
                == "GTA San Andreas executable not found at: "@ + g@ + "/gta_sa.exe"@)),
            r matches Err(e) ==> (e is InvalidInput || e is NotFound),
    {
        if let Some(h) = &self.host {
            match validate_hostname(h.as_str()) {
                Ok(_) => (),
                Err(e) => {
                    return Err(e);
                },
            }
        }
        if let Some(p) = &self.port {
            match validate_port(*p) {
                Ok(_) => (),
                Err(e) => {
                    return Err(e);
                },
            }
        }
        if let Some(nm) = &self.name {
            match validate_player_name(nm.as_str()) {
                Ok(_) => (),
                Err(e) => {
                    return Err(e);
                },
            }
        }
        if let Some(g) = &self.gamepath {
            match validate_file_path(g.as_str(), gamepath_exists) {
                Ok(_) => (),
                Err(e) => {
                    return Err(e);
                },
            }
            if !gta_exe_exists {
                let mut msg = String::from_str("GTA San Andreas executable not found at: ");
                msg.append(g.as_str());
                msg.append("/gta_sa.exe");
                return Err(LauncherError::NotFound(msg));
            }
        }
        Ok(())
    }

    /// Whether enough fields were given to launch the game directly from
    /// the command line: host, name, port and gamepath all present.
    pub fn has_game_launch_args(&self) -> (r: bool)
        ensures
            r == (self.host is Some && self.name is Some && self.port is Some
                && self.gamepath is Some),
    {
        self.host.is_some() && self.name.is_some() && self.port.is_some()
            && self.gamepath.is_some()
    }

    /// The password to launch with: the given one sanitized, or empty when
    /// none was given.
    pub fn get_password(&self) -> (r: String)
        ensures
            self.password matches Some(p) ==> r@ == spec_sanitized(p@),
            self.password is None ==> r@ == Seq::<char>::empty(),
    {
        match &self.password {
            Some(p) => sanitize_password(p.as_str()),
            None => String::new(),
        }
    }
}

} // verus!
