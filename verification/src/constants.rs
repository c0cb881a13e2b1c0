//! Protocol caps, timing windows and retry policy shared across the crate.

use vstd::prelude::*;

verus! {

/// Longest hostname a server may report, in bytes.
pub const MAX_HOSTNAME_LENGTH: u32 = 63;
/// Longest gamemode name a server may report, in bytes.
pub const MAX_GAMEMODE_LENGTH: u32 = 39;
/// Longest language name a server may report, in bytes.
pub const MAX_LANGUAGE_LENGTH: u32 = 39;
/// Longest discord invite link a server may report, in bytes.
pub const MAX_DISCORD_LINK_LENGTH: u32 = 50;
/// Longest banner URL a server may report, in bytes.
pub const MAX_BANNER_URL_LENGTH: u32 = 160;
/// Longest logo URL a server may report, in bytes.
pub const MAX_LOGO_URL_LENGTH: u32 = 160;

/// Most player entries a players response may carry.
pub const MAX_PLAYER_COUNT: u16 = 1000;
/// Most rule entries a rules response may carry.
pub const MAX_RULE_COUNT: u16 = 1000;

/// Hard deadline for one receive on the query socket.
pub const QUERY_TIMEOUT_SECS: u64 = 2;
/// Seconds between extra-info sub-queries to one endpoint.
pub const EXTRA_INFO_UPDATE_COOLDOWN_SECS: u64 = 3;
/// Milliseconds between aggregate queries to one endpoint.
pub const QUERY_RATE_LIMIT_MS: u64 = 500;

/// Failed injection attempts allowed in one retry cycle.
pub const INJECTION_MAX_RETRIES: u32 = 5;
/// Sleep between injection attempts, in milliseconds.
pub const INJECTION_RETRY_DELAY_MS: u64 = 500;

/// Size of the receive buffer for one UDP response.
pub const UDP_BUFFER_SIZE: usize = 1500;

/// Wire tag requesting the info category.
pub const QUERY_TYPE_INFO: char = 'i';
/// Wire tag requesting the players category.
pub const QUERY_TYPE_PLAYERS: char = 'c';
/// Wire tag requesting the rules category.
pub const QUERY_TYPE_RULES: char = 'r';
/// Wire tag requesting the extra-info category.
pub const QUERY_TYPE_EXTRA_INFO: char = 'o';
/// Wire tag requesting a ping echo.
pub const QUERY_TYPE_PING: char = 'p';

/// Sentinel ping value reported when no reply arrives in time.
pub const PING_TIMEOUT: u32 = 9999;

/// OS error code: a directory of that name already exists.
pub const ERROR_DIRECTORY_EXISTS: i32 = 183;
/// OS error code: access denied.
pub const ERROR_ACCESS_DENIED: i32 = 5;
/// OS error code: the operation requires elevation.
pub const ERROR_ELEVATION_REQUIRED: i32 = 740;

} // verus!
