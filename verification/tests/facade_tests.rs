use omp_launcher::constants::EXTRA_INFO_UPDATE_COOLDOWN_SECS;
use omp_launcher::constants::PING_TIMEOUT;
use omp_launcher::constants::QUERY_RATE_LIMIT_MS;
use omp_launcher::errors::LauncherError;
use omp_launcher::facade::assemble_response;
use omp_launcher::facade::ping_result;
use omp_launcher::facade::rate_limit_response;
use omp_launcher::facade::CategoryResult;
use omp_launcher::facade::CategorySelection;
use omp_launcher::facade::QueryContext;
use omp_launcher::facade::QueryPlan;
use omp_launcher::response::InfoPacket;

fn all_categories() -> CategorySelection {
    CategorySelection { info: true, extra_info: true, players: true, rules: true, ping: true }
}

fn key() -> String {
    "127.0.0.1:7777".to_string()
}

#[test]
fn second_query_within_window_is_rate_limited() {
    let mut ctx = QueryContext::new();
    let sel = all_categories();
    let first = ctx.plan_query(&key(), 1_000, 10, &sel);
    assert!(matches!(first, QueryPlan::Proceed(_)));
    let second = ctx.plan_query(&key(), 1_000 + QUERY_RATE_LIMIT_MS - 1, 10, &sel);
    match second {
        QueryPlan::RateLimited(e) => {
            assert!(e.error);
            assert_eq!(
                e.info,
                "Rate limit exceeded. Please wait before querying this server again."
            );
        },
        QueryPlan::Proceed(_) => panic!("second query must be rejected"),
    }
}

#[test]
fn second_query_after_window_proceeds() {
    let mut ctx = QueryContext::new();
    let sel = all_categories();
    let first = ctx.plan_query(&key(), 1_000, 10, &sel);
    assert!(matches!(first, QueryPlan::Proceed(_)));
    let second = ctx.plan_query(&key(), 1_000 + QUERY_RATE_LIMIT_MS, 20, &sel);
    assert!(matches!(second, QueryPlan::Proceed(_)));
}

#[test]
fn rate_limit_is_per_endpoint() {
    let mut ctx = QueryContext::new();
    let sel = all_categories();
    let first = ctx.plan_query(&key(), 1_000, 10, &sel);
    assert!(matches!(first, QueryPlan::Proceed(_)));
    let other = "10.0.0.1:7777".to_string();
    let second = ctx.plan_query(&other, 1_000, 10, &sel);
    assert!(matches!(second, QueryPlan::Proceed(_)));
}

#[test]
fn extra_info_on_cooldown_is_omitted_not_failed() {
    let mut ctx = QueryContext::new();
    let sel = all_categories();
    match ctx.plan_query(&key(), 1_000, 100, &sel) {
        QueryPlan::Proceed(s) => assert!(s.extra_info),
        _ => panic!("first query must proceed"),
    }
    let within = 100 + EXTRA_INFO_UPDATE_COOLDOWN_SECS - 1;
    match ctx.plan_query(&key(), 1_000 + QUERY_RATE_LIMIT_MS, within, &sel) {
        QueryPlan::Proceed(s) => {
            assert!(!s.extra_info);
            assert!(s.info && s.players && s.rules && s.ping);
        },
        _ => panic!("second query must proceed"),
    }
}

#[test]
fn extra_info_after_cooldown_is_requested_again() {
    let mut ctx = QueryContext::new();
    let sel = all_categories();
    match ctx.plan_query(&key(), 1_000, 100, &sel) {
        QueryPlan::Proceed(s) => assert!(s.extra_info),
        _ => panic!("first query must proceed"),
    }
    let after = 100 + EXTRA_INFO_UPDATE_COOLDOWN_SECS;
    match ctx.plan_query(&key(), 1_000 + QUERY_RATE_LIMIT_MS, after, &sel) {
        QueryPlan::Proceed(s) => assert!(s.extra_info),
        _ => panic!("second query must proceed"),
    }
}

#[test]
fn unrequested_categories_are_never_planned() {
    let mut ctx = QueryContext::new();
    let sel = CategorySelection { info: true, extra_info: false, players: false, rules: false, ping: true };
    match ctx.plan_query(&key(), 1_000, 100, &sel) {
        QueryPlan::Proceed(s) => {
            assert!(s.info && s.ping);
            assert!(!s.extra_info && !s.players && !s.rules);
        },
        _ => panic!("query must proceed"),
    }
}

#[test]
fn ping_sentinel_on_timeout() {
    assert_eq!(ping_result(false, 3), PING_TIMEOUT);
    assert_eq!(ping_result(false, 3), 9999);
}

#[test]
fn ping_reports_elapsed_on_reply() {
    assert_eq!(ping_result(true, 42), 42);
}

#[test]
fn rate_limit_rejection_payload() {
    let e = rate_limit_response();
    assert!(e.error);
    assert_eq!(e.info, "Rate limit exceeded. Please wait before querying this server again.");
}

#[test]
fn session_cache_reused_only_on_exact_key() {
    let mut ctx = QueryContext::new();
    assert!(!ctx.take_session_if_cached(&key()));
    ctx.store_session(key());
    assert!(!ctx.take_session_if_cached(&"127.0.0.1:7778".to_string()));
    // the mismatch evicted the cache; a later exact key finds nothing
    assert!(!ctx.take_session_if_cached(&key()));
    ctx.store_session(key());
    assert!(ctx.take_session_if_cached(&key()));
}

#[test]
fn assemble_embeds_category_failure() {
    let sel = CategorySelection { info: true, extra_info: false, players: false, rules: false, ping: false };
    let r = assemble_response(
        &sel,
        Some(Err(LauncherError::Parse("Info payload truncated".to_string()))),
        None,
        None,
        None,
        None,
    );
    match r.info {
        Some(CategoryResult::Failed(e)) => {
            assert!(e.error);
            assert_eq!(e.info, "Parse error: Info payload truncated");
        },
        _ => panic!("expected an embedded failure"),
    }
    assert!(r.players.is_none() && r.rules.is_none() && r.extra_info.is_none() && r.ping.is_none());
}

#[test]
fn assemble_keeps_successful_categories() {
    let sel = CategorySelection { info: true, extra_info: false, players: false, rules: false, ping: true };
    let packet = InfoPacket {
        password: false,
        players: 1,
        max_players: 2,
        hostname: "h".to_string(),
        gamemode: "g".to_string(),
        language: "l".to_string(),
    };
    let r = assemble_response(&sel, Some(Ok(packet)), None, None, None, Some(25));
    match r.info {
        Some(CategoryResult::Value(p)) => assert_eq!(p.hostname, "h"),
        _ => panic!("expected a value"),
    }
    assert_eq!(r.ping, Some(25));
}
