//! The aggregate-query facade's decisions: per-endpoint rate limiting, the
//! extra-info cooldown, session-cache reuse, and the assembly of one
//! aggregate result out of per-category outcomes. The socket work around
//! these decisions is the caller's; every decision is made here.

use vstd::prelude::*;
use vstd::string::*;

use crate::constants::EXTRA_INFO_UPDATE_COOLDOWN_SECS;
use crate::constants::PING_TIMEOUT;
use crate::constants::QUERY_RATE_LIMIT_MS;
use crate::errors::LauncherError;
use crate::ratelimit::ThrottleMap;
use crate::response::ExtraInfoPacket;
use crate::response::InfoPacket;
use crate::response::Player;
use crate::response::Rule;

verus! {

/// A failed category inside an otherwise successful aggregate result.
pub struct ErrorResponse {
    pub info: String,
    pub error: bool,
}

/// One category of an aggregate result: the decoded value, or the failure
/// that this category alone ran into.
pub enum CategoryResult<T> {
    Value(T),
    Failed(ErrorResponse),
}

/// The aggregate answer to one multi-field query. A `None` field was not
/// requested, or was suppressed by the extra-info cooldown; a present but
/// failed category carries its failure without aborting its siblings.
pub struct ServerQueryResponse {
    pub info: Option<CategoryResult<InfoPacket>>,
    pub extra_info: Option<CategoryResult<ExtraInfoPacket>>,
    pub players: Option<CategoryResult<Vec<Player>>>,
    pub rules: Option<CategoryResult<Vec<Rule>>>,
    pub ping: Option<u32>,
}

/// Which categories one aggregate query asks for.
#[derive(Clone, Copy, PartialEq, Eq, Structural, Debug)]
pub struct CategorySelection {
    pub info: bool,
    pub extra_info: bool,
    pub players: bool,
    pub rules: bool,
    pub ping: bool,
}

/// What the facade decided for one aggregate query: reject it outright, or
/// proceed with exactly the categories to put on the wire.
pub enum QueryPlan {
    RateLimited(ErrorResponse),
    Proceed(CategorySelection),
}

/// The mutable state of the query subsystem: the two throttles and the key
/// of the most recently used session. Owned by the caller and passed to
/// every call, never process-wide.
pub struct QueryContext {
    pub rate_limits: ThrottleMap,
    pub extra_info_cooldowns: ThrottleMap,
    pub cached_session_key: Option<String>,
}

/// The structured rejection an over-eager query gets instead of any network
/// traffic.
pub fn rate_limit_response() -> (r: ErrorResponse)
    ensures
        r.error,
        r.info@ == "Rate limit exceeded. Please wait before querying this server again."@,
{
    ErrorResponse {
        error: true,
        info: String::from_str(
            "Rate limit exceeded. Please wait before querying this server again.",
        ),
    }
}

/// A failed category's embedded payload: the error rendered as an opaque
/// string, flagged as a failure.
pub fn error_response_for(e: &LauncherError) -> (r: ErrorResponse)
    ensures
        r.error,
        r.info@ == e.spec_display_prefix() + e.spec_message(),
{
    ErrorResponse { error: true, info: e.to_display_string() }
}

/// The ping field's value: the measured round trip when a reply arrived,
/// else the fixed timeout sentinel.
pub fn ping_result(received: bool, elapsed_ms: u32) -> (r: u32)
    ensures
        received ==> r == elapsed_ms,
        !received ==> r == PING_TIMEOUT,
{
    if received {
        elapsed_ms
    } else {
        PING_TIMEOUT
    }
}

impl QueryContext {
    /// A fresh context: nothing throttled, no session cached.
    pub fn new() -> (r: Self)
        ensures
            forall|k: Seq<char>| r.rate_limits.spec_last(k) is None,
            forall|k: Seq<char>| r.extra_info_cooldowns.spec_last(k) is None,
            r.cached_session_key is None,
    {
        QueryContext {
            rate_limits: ThrottleMap::new(),
            extra_info_cooldowns: ThrottleMap::new(),
            cached_session_key: None,
        }
    }

    /// Decides one aggregate query for `key` at the given times. If another
    /// query for the same endpoint was admitted less than the rate-limit
    /// window before `now_ms`, the whole query is rejected with a structured
    /// payload and nothing may be sent. Otherwise the query proceeds with
    /// exactly the requested categories, except that extra-info is dropped —
    /// not failed — while the endpoint's cooldown is running. The cooldown
    /// is only consulted (and stamped) for a proceeding query that asked for
    /// extra-info.
    pub fn plan_query(
        &mut self,
        key: &String,
        now_ms: u64,
        now_s: u64,
        requested: &CategorySelection,
    ) -> (r: QueryPlan)
        requires
            old(self).rate_limits.spec_last(key@) matches Some(t) ==> now_ms >= t,
            old(self).extra_info_cooldowns.spec_last(key@) matches Some(t) ==> now_s >= t,
        ensures
            final(self).cached_session_key == old(self).cached_session_key,
            !ThrottleMap::spec_permits(
                old(self).rate_limits.spec_last(key@),
                now_ms,
                QUERY_RATE_LIMIT_MS,
            ) ==> (r matches QueryPlan::RateLimited(e) && e.error && e.info@
                == "Rate limit exceeded. Please wait before querying this server again."@
                && final(self).rate_limits.spec_last(key@) == old(self).rate_limits.spec_last(key@)
                && final(self).extra_info_cooldowns == old(self).extra_info_cooldowns),
            ThrottleMap::spec_permits(
                old(self).rate_limits.spec_last(key@),
                now_ms,
                QUERY_RATE_LIMIT_MS,
            ) ==> (r matches QueryPlan::Proceed(sel) && sel.info == requested.info && sel.players
                == requested.players && sel.rules == requested.rules && sel.ping == requested.ping
                && sel.extra_info == (requested.extra_info && ThrottleMap::spec_permits(
                old(self).extra_info_cooldowns.spec_last(key@),
                now_s,
                EXTRA_INFO_UPDATE_COOLDOWN_SECS,
            )) && final(self).rate_limits.spec_last(key@) == Some(now_ms) && (
            !requested.extra_info ==> final(self).extra_info_cooldowns == old(
                self,
            ).extra_info_cooldowns) && (requested.extra_info ==> (if sel.extra_info {
                final(self).extra_info_cooldowns.spec_last(key@) == Some(now_s)
            } else {
                final(self).extra_info_cooldowns.spec_last(key@) == old(
                    self,
                ).extra_info_cooldowns.spec_last(key@)
            }))),
            forall|k: Seq<char>|
                k != key@ ==> final(self).rate_limits.spec_last(k) == old(
                    self,
                ).rate_limits.spec_last(k),
            forall|k: Seq<char>|
                k != key@ ==> final(self).extra_info_cooldowns.spec_last(k) == old(
                    self,
                ).extra_info_cooldowns.spec_last(k),
    {
        let admitted = self.rate_limits.permit(key, now_ms, QUERY_RATE_LIMIT_MS);
        if !admitted {
            return QueryPlan::RateLimited(rate_limit_response());
        }
        let extra_info = if requested.extra_info {
            self.extra_info_cooldowns.permit(key, now_s, EXTRA_INFO_UPDATE_COOLDOWN_SECS)
        } else {
            false
        };
        QueryPlan::Proceed(
            CategorySelection {
                info: requested.info,
                extra_info,
                players: requested.players,
                rules: requested.rules,
                ping: requested.ping,
            },
        )
    }

    /// Hands out the cached session if and only if its key matches the
    /// requested endpoint exactly; the cache is left empty either way, so a
    /// reused socket can never serve the wrong endpoint.
    pub fn take_session_if_cached(&mut self, key: &String) -> (r: bool)
        ensures
            r == (old(self).cached_session_key matches Some(k) && k@ == key@),
            final(self).cached_session_key is None,
            final(self).rate_limits == old(self).rate_limits,
            final(self).extra_info_cooldowns == old(self).extra_info_cooldowns,
    {
        let cached = self.cached_session_key.take();
        match cached {
            Some(k) => k == *key,
            None => false,
        }
    }

    /// Records the key of the session that just served a query, replacing
    /// whatever was cached.
    pub fn store_session(&mut self, key: String)
        ensures
            final(self).cached_session_key matches Some(k) && k@ == key@,
            final(self).rate_limits == old(self).rate_limits,
            final(self).extra_info_cooldowns == old(self).extra_info_cooldowns,
    {
        self.cached_session_key = Some(key);
    }
}

/// Builds the aggregate result out of per-category outcomes. Only a
/// category that the plan selected may carry an outcome, so the result
/// never has more populated fields than were requested; a failed category
/// becomes an embedded error payload, not a failure of the whole.
pub fn assemble_response(
    sel: &CategorySelection,
    info: Option<Result<InfoPacket, LauncherError>>,
    players: Option<Result<Vec<Player>, LauncherError>>,
    rules: Option<Result<Vec<Rule>, LauncherError>>,
    extra_info: Option<Result<ExtraInfoPacket, LauncherError>>,
    ping: Option<u32>,
) -> (r: ServerQueryResponse)
    requires
        info is Some ==> sel.info,
        players is Some ==> sel.players,
        rules is Some ==> sel.rules,
        extra_info is Some ==> sel.extra_info,
        ping is Some ==> sel.ping,
    ensures
        r.info is Some <==> info is Some,
        r.players is Some <==> players is Some,
        r.rules is Some <==> rules is Some,
        r.extra_info is Some <==> extra_info is Some,
        r.ping == ping,
        info matches Some(Ok(p)) ==> (r.info matches Some(CategoryResult::Value(q)) && q == p),
        info matches Some(Err(e)) ==> (r.info matches Some(CategoryResult::Failed(er)) && er.error
            && er.info@ == e.spec_display_prefix() + e.spec_message()),
        players matches Some(Ok(p)) ==> (r.players matches Some(CategoryResult::Value(q)) && q
            == p),
        players matches Some(Err(e)) ==> (r.players matches Some(CategoryResult::Failed(er))
            && er.error && er.info@ == e.spec_display_prefix() + e.spec_message()),
        rules matches Some(Ok(p)) ==> (r.rules matches Some(CategoryResult::Value(q)) && q == p),
        rules matches Some(Err(e)) ==> (r.rules matches Some(CategoryResult::Failed(er))
            && er.error && er.info@ == e.spec_display_prefix() + e.spec_message()),
        extra_info matches Some(Ok(p)) ==> (r.extra_info matches Some(CategoryResult::Value(q))
            && q == p),
        extra_info matches Some(Err(e)) ==> (r.extra_info matches Some(CategoryResult::Failed(er))
            && er.error && er.info@ == e.spec_display_prefix() + e.spec_message()),
{
    let info_field = match info {
        Some(Ok(p)) => Some(CategoryResult::Value(p)),
        Some(Err(e)) => Some(CategoryResult::Failed(error_response_for(&e))),
        None => None,
    };
    let players_field = match players {
        Some(Ok(p)) => Some(CategoryResult::Value(p)),
        Some(Err(e)) => Some(CategoryResult::Failed(error_response_for(&e))),
        None => None,
    };
    let rules_field = match rules {
        Some(Ok(p)) => Some(CategoryResult::Value(p)),
        Some(Err(e)) => Some(CategoryResult::Failed(error_response_for(&e))),
        None => None,
    };
    let extra_info_field = match extra_info {
        Some(Ok(p)) => Some(CategoryResult::Value(p)),
        Some(Err(e)) => Some(CategoryResult::Failed(error_response_for(&e))),
        None => None,
    };
    ServerQueryResponse {
        info: info_field,
        players: players_field,
        rules: rules_field,
        extra_info: extra_info_field,
        ping,
    }
}

} // verus!
