//! Error taxonomy of the launcher and the mapping from OS error codes.

use vstd::prelude::*;
use vstd::string::*;

use crate::constants::ERROR_ACCESS_DENIED;
use crate::constants::ERROR_ELEVATION_REQUIRED;

verus! {

/// One failure class of the launcher. Socket, DNS and timeout failures are
/// `Network`; malformed wire fields are `Parse`; cap violations and bad
/// arguments are `InvalidInput`; an unresolvable address or a missing file is
/// `NotFound`; a non-privilege spawn failure is `Process`; an exhausted
/// injection policy is `Injection`; a privilege failure is `AccessDenied`;
/// anything unexpected is `InternalError`.
#[derive(Debug)]
pub enum LauncherError {
    Network(String),
    Parse(String),
    InvalidInput(String),
    NotFound(String),
    Process(String),
    Injection(String),
    AccessDenied(String),
    InternalError(String),
}

impl LauncherError {
    /// The message carried by the error, whatever its class.
    pub open spec fn spec_message(&self) -> Seq<char> {
        match self {
            LauncherError::Network(m) => m@,
            LauncherError::Parse(m) => m@,
            LauncherError::InvalidInput(m) => m@,
            LauncherError::NotFound(m) => m@,
            LauncherError::Process(m) => m@,
            LauncherError::Injection(m) => m@,
            LauncherError::AccessDenied(m) => m@,
            LauncherError::InternalError(m) => m@,
        }
    }

    /// The prefix that the human-readable rendering puts before the message.
    pub open spec fn spec_display_prefix(&self) -> Seq<char> {
        match self {
            LauncherError::Network(_) => "Network error: "@,
            LauncherError::Parse(_) => "Parse error: "@,
            LauncherError::InvalidInput(_) => "Invalid input: "@,
            LauncherError::NotFound(_) => "Not found: "@,
            LauncherError::Process(_) => "Process error: "@,
            LauncherError::Injection(_) => "Injection error: "@,
            LauncherError::AccessDenied(_) => "Access denied - administrator privileges required: "@,
            LauncherError::InternalError(_) => "Internal error: "@,
        }
    }

    /// Renders the error for logs and opaque failure strings.
    pub fn to_display_string(&self) -> (r: String)
        ensures
            r@ == self.spec_display_prefix() + self.spec_message(),
    {
        let prefix: &str = match self {
            LauncherError::Network(_) => "Network error: ",
            LauncherError::Parse(_) => "Parse error: ",
            LauncherError::InvalidInput(_) => "Invalid input: ",
            LauncherError::NotFound(_) => "Not found: ",
            LauncherError::Process(_) => "Process error: ",
            LauncherError::Injection(_) => "Injection error: ",
            LauncherError::AccessDenied(_) => "Access denied - administrator privileges required: ",
            LauncherError::InternalError(_) => "Internal error: ",
        };
        let msg: &String = match self {
            LauncherError::Network(m) => m,
            LauncherError::Parse(m) => m,
            LauncherError::InvalidInput(m) => m,
            LauncherError::NotFound(m) => m,
            LauncherError::Process(m) => m,
            LauncherError::Injection(m) => m,
            LauncherError::AccessDenied(m) => m,
            LauncherError::InternalError(m) => m,
        };
        String::from_str(prefix).concat(msg.as_str())
    }

    /// Renders the error for the UI. `AccessDenied` collapses to the fixed
    /// token that prompts an elevated relaunch; every other class surfaces
    /// its human-readable rendering.
    pub fn to_ui_string(&self) -> (r: String)
        ensures
            self is AccessDenied ==> r@ == "need_admin"@,
            !(self is AccessDenied) ==> r@ == self.spec_display_prefix() + self.spec_message(),
    {
        match self {
            LauncherError::AccessDenied(_) => String::from_str("need_admin"),
            _ => self.to_display_string(),
        }
    }
}

/// Classifies the OS error of a failed process spawn or open. Elevation-class
/// codes become `AccessDenied`, which alone makes the caller offer an
/// elevated relaunch; every other code is a generic `Process` failure
/// carrying the OS message.
pub fn classify_process_error(raw_os_code: Option<i32>, os_message: &str) -> (r: LauncherError)
    ensures
        (raw_os_code == Some(ERROR_ACCESS_DENIED) || raw_os_code == Some(ERROR_ELEVATION_REQUIRED))
            <==> r is AccessDenied,
        r is AccessDenied ==> r.spec_message() == "Unable to open game process"@,
        !(r is AccessDenied) ==> r is Process && r.spec_message() == os_message@,
{
    match raw_os_code {
        Some(code) => {
            if code == ERROR_ACCESS_DENIED || code == ERROR_ELEVATION_REQUIRED {
                LauncherError::AccessDenied(String::from_str("Unable to open game process"))
            } else {
                LauncherError::Process(String::from_str(os_message))
            }
        },
        None => LauncherError::Process(String::from_str(os_message)),
    }
}

} // verus!
