//! Launcher core for a multiplayer game client: a codec for the legacy UDP
//! server-query protocol, rate limiting and caching of query sessions, input
//! validation, process-launch argument construction, and the bounded retry
//! state machine that governs payload injection into the spawned game.

pub mod cli;
pub mod codec;
pub mod constants;
pub mod errors;
pub mod facade;
pub mod injector;
pub mod launcher;
pub mod presence;
pub mod ratelimit;
pub mod response;
pub mod rpc;
pub mod samp;
pub mod session;
pub mod strutil;
pub mod textdec;
pub mod validation;
