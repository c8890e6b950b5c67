use ccometixline::config::{ColorConfig, Config, IconConfig, OptionValue, SegmentConfig, SegmentId, TextStyleConfig};
use ccometixline::segments::usage::{
    ApiUsageCache, ApiUsageResponse, UsageAction, UsageEvent, UsagePeriod, UsageReading, UsageSegment, UsageState,
};
use ccometixline::utils::time::{Instant, LocalTime};

const NOW: Instant = Instant { secs: 1704067200 + 100, nanos: 0 };

fn segment_config(id: SegmentId, options: Vec<(&str, OptionValue)>) -> SegmentConfig {
    SegmentConfig {
        id,
        enabled: true,
        icon: IconConfig { plain: String::new(), nerd_font: String::new() },
        colors: ColorConfig { icon: None, text: None, background: None },
        styles: TextStyleConfig { text_bold: false },
        options: options.into_iter().map(|(k, v)| (k.to_string(), v)).collect(),
    }
}

fn text(s: &str) -> OptionValue {
    OptionValue::Text(s.to_string())
}

fn reply(five: f64, seven: Option<(f64, Option<&str>)>, five_reset: Option<&str>) -> ApiUsageResponse<f64> {
    ApiUsageResponse {
        five_hour: UsagePeriod { utilization: five, resets_at: five_reset.map(|s| s.to_string()) },
        seven_day: seven.map(|(u, r)| UsagePeriod { utilization: u, resets_at: r.map(|s| s.to_string()) }),
    }
}

fn cache(five: f64, cached_at: &str) -> ApiUsageCache<f64> {
    ApiUsageCache {
        five_hour_utilization: five,
        seven_day_utilization: Some(12.5),
        resets_at: Some("2024-01-02T00:00:00Z".to_string()),
        cached_at: cached_at.to_string(),
    }
}

#[test]
fn usage_id_and_new() {
    let s = UsageSegment::new();
    assert!(matches!(s.id(), SegmentId::Usage));
    assert_eq!(UsageSegment::cache_file_name(), ".api_usage_cache.json");
    let d: UsageSegment = Default::default();
    assert!(matches!(d.id(), SegmentId::Usage));
}

#[test]
fn settings_defaults() {
    let config = Config { segments: vec![segment_config(SegmentId::Model, vec![("timeout", OptionValue::Unsigned(9))])] };
    let s = UsageSegment::settings(&config);
    assert_eq!(s.api_base_url, "https://api.anthropic.com");
    assert_eq!(s.cache_duration, 300);
    assert_eq!(s.timeout, 2);
}

#[test]
fn settings_from_first_usage_segment() {
    let config = Config {
        segments: vec![
            segment_config(SegmentId::Git, vec![("api_base_url", text("http://wrong"))]),
            segment_config(
                SegmentId::Usage,
                vec![
                    ("api_base_url", text("http://localhost:8080")),
                    ("cache_duration", OptionValue::Unsigned(60)),
                    ("timeout", text("5")),
                ],
            ),
            segment_config(SegmentId::Usage, vec![("timeout", OptionValue::Unsigned(7))]),
        ],
    };
    let s = UsageSegment::settings(&config);
    assert_eq!(s.api_base_url, "http://localhost:8080");
    assert_eq!(s.cache_duration, 60);
    assert_eq!(s.timeout, 2);
}

#[test]
fn settings_ignore_values_of_wrong_kind() {
    let config = Config {
        segments: vec![segment_config(
            SegmentId::Usage,
            vec![("api_base_url", OptionValue::Unsigned(1)), ("cache_duration", OptionValue::Other("[1]".to_string()))],
        )],
    };
    let s = UsageSegment::settings(&config);
    assert_eq!(s.api_base_url, "https://api.anthropic.com");
    assert_eq!(s.cache_duration, 300);
}

#[test]
fn request_texts() {
    assert_eq!(UsageSegment::usage_url("https://api.anthropic.com"), "https://api.anthropic.com/api/oauth/usage");
    assert_eq!(UsageSegment::bearer("tok"), "Bearer tok");
    assert!(UsageSegment::accepts_status(200));
    assert!(!UsageSegment::accepts_status(204));
    assert!(!UsageSegment::accepts_status(401));
}

#[test]
fn user_agent_from_version_query() {
    assert_eq!(UsageSegment::user_agent("tool", true, b"1.0.42\n"), "tool/1.0.42");
    assert_eq!(UsageSegment::user_agent("tool", true, b"  \n"), "tool");
    assert_eq!(UsageSegment::user_agent("tool", false, b"1.0.42"), "tool");
}

#[test]
fn proxy_choice() {
    assert_eq!(UsageSegment::proxy_from_settings(Some(text("http://s")), Some(text("http://p"))).as_deref(), Some("http://s"));
    assert_eq!(UsageSegment::proxy_from_settings(None, Some(text("http://p"))).as_deref(), Some("http://p"));
    assert_eq!(UsageSegment::proxy_from_settings(Some(OptionValue::Other("true".to_string())), Some(text("http://p"))), None);
    assert_eq!(UsageSegment::proxy_from_settings(None, Some(OptionValue::Unsigned(3))), None);
    assert_eq!(UsageSegment::proxy_from_settings(None, None), None);
}

#[test]
fn circle_icon_buckets() {
    let cases = [
        (0u8, '\u{f0a9e}'), (12, '\u{f0a9e}'), (13, '\u{f0a9f}'), (25, '\u{f0a9f}'), (26, '\u{f0aa0}'),
        (37, '\u{f0aa0}'), (38, '\u{f0aa1}'), (50, '\u{f0aa1}'), (51, '\u{f0aa2}'), (62, '\u{f0aa2}'),
        (63, '\u{f0aa3}'), (75, '\u{f0aa3}'), (76, '\u{f0aa4}'), (87, '\u{f0aa4}'), (88, '\u{f0aa5}'),
        (255, '\u{f0aa5}'),
    ];
    for (p, c) in cases {
        assert_eq!(UsageSegment::circle_icon(p), c.to_string(), "percent {}", p);
    }
}

#[test]
fn reset_time_labels() {
    assert_eq!(UsageSegment::month_day_hour(&LocalTime { month: 3, day: 14, hour: 7, minute: 50 }), "3-14-7");
    assert_eq!(UsageSegment::month_day_hour(&LocalTime { month: 12, day: 1, hour: 0, minute: 0 }), "12-1-0");
    assert_eq!(UsageSegment::format_reset_time(None, 0, 0), "?");
    assert_eq!(UsageSegment::format_reset_time(Some("soon"), 0, 0), "?");
    assert_eq!(UsageSegment::format_reset_time(Some("2025-03-10T14:45:00Z"), 0, 0), "3-10-14");
    assert_eq!(UsageSegment::format_reset_time(Some("2025-12-31T23:50:00Z"), 0, 0), "1-1-0");
}

#[test]
fn reset_time_on_a_local_clock() {
    // an hour ahead of UTC
    assert_eq!(UsageSegment::format_reset_time(Some("2024-06-15T10:20:00Z"), 3600, 3600), "6-15-11");
    // the offset written in the text plays no part; only the instant does
    assert_eq!(UsageSegment::format_reset_time(Some("2024-06-15T12:20:00+02:00"), 0, 0), "6-15-10");
    // five hours behind: the day before
    assert_eq!(UsageSegment::format_reset_time(Some("2024-06-15T02:20:00Z"), -18000, -18000), "6-14-21");
    // half an hour ahead moves the minute past 45
    assert_eq!(UsageSegment::format_reset_time(Some("2024-06-15T10:20:00Z"), 1800, 1800), "6-15-11");
    // the later reading uses the offset an hour later (a clock change)
    assert_eq!(UsageSegment::format_reset_time(Some("2024-03-31T00:50:00Z"), 3600, 7200), "3-31-3");
}

#[test]
fn reset_time_minute_45_is_not_rounded() {
    assert_eq!(UsageSegment::format_reset_time(Some("2024-06-15T10:45:59Z"), 0, 0), "6-15-10");
    assert_eq!(UsageSegment::format_reset_time(Some("2024-06-15T10:46:00Z"), 0, 0), "6-15-11");
    assert_eq!(UsageSegment::format_reset_time(Some("2024-02-28T23:50:00Z"), 0, 0), "2-29-0");
}

#[test]
fn reset_instant_parses() {
    let t = UsageSegment::reset_instant("2024-01-01T00:00:00Z").unwrap();
    assert_eq!((t.secs, t.nanos), (1704067200, 0));
    assert!(UsageSegment::reset_instant("tomorrow").is_none());
}

#[test]
fn segment_data_with_reset() {
    let d = UsageSegment::segment_data(
        42,
        13,
        "42.4".to_string(),
        Some("13.0".to_string()),
        Some("2024-06-15T10:20:00Z".to_string()),
        0,
        0,
    );
    assert_eq!(d.primary, "42%");
    assert_eq!(d.secondary, "\u{b7} 6-15-10");
    let meta: Vec<(&str, &str)> = d.metadata.iter().map(|(a, b)| (a.as_str(), b.as_str())).collect();
    assert_eq!(
        meta,
        vec![("dynamic_icon", "\u{f0a9f}"), ("five_hour_utilization", "42.4"), ("seven_day_utilization", "13.0")]
    );
    let d = UsageSegment::segment_data(1, 1, "1".to_string(), None, Some("2024-06-15T10:50:00Z".to_string()), 7200, 7200);
    assert_eq!(d.secondary, "\u{b7} 6-15-13");
}

#[test]
fn segment_data_without_reset() {
    let d = UsageSegment::segment_data(0, 0, "0".to_string(), None, None, 0, 0);
    assert_eq!(d.primary, "0%");
    assert_eq!(d.secondary, "\u{b7} 5h only");
    assert_eq!(d.metadata[2].1, "n/a");
    let d = UsageSegment::segment_data(100, 100, "100".to_string(), None, Some("bad".to_string()), 0, 0);
    assert_eq!(d.secondary, "\u{b7} ?");
}

#[test]
fn reading_from_reply_prefers_seven_day_reset() {
    let (reading, entry) = UsageSegment::reading_from_reply(
        reply(40.0, Some((10.0, Some("2024-01-08T00:00:00Z"))), Some("2024-01-01T05:00:00Z")),
        &NOW,
    );
    assert_eq!(reading.five_hour, 40.0);
    assert_eq!(reading.seven_day, Some(10.0));
    assert_eq!(reading.resets_at.as_deref(), Some("2024-01-08T00:00:00Z"));
    assert_eq!(entry.resets_at.as_deref(), Some("2024-01-08T00:00:00Z"));
    assert_eq!(entry.cached_at, "2024-01-01T00:01:40+00:00");
    let (reading, _) = UsageSegment::reading_from_reply(reply(40.0, Some((10.0, None)), Some("2024-01-01T05:00:00Z")), &NOW);
    assert_eq!(reading.resets_at.as_deref(), Some("2024-01-01T05:00:00Z"));
    let (reading, entry) = UsageSegment::reading_from_reply(reply(40.0, None, None), &NOW);
    assert_eq!(reading.seven_day, None);
    assert_eq!(reading.resets_at, None);
    assert_eq!(entry.seven_day_utilization, None);
}

fn version_answer(success: bool, stdout: &[u8]) -> UsageEvent<f64> {
    UsageEvent::VersionAnswered { product: "tool".to_string(), success, stdout: stdout.to_vec() }
}

/// Steps from a stale or missing cache entry up to the request.
fn run_to_fetch(s: &UsageSegment, state: UsageState<f64>, entry: Option<ApiUsageCache<f64>>) -> UsageState<f64> {
    let (state, action) = s.step_collect(state, UsageEvent::CacheLoaded(entry), &NOW);
    assert!(matches!(action, UsageAction::QueryVersion));
    let (state, action) = s.step_collect(state, version_answer(false, b""), &NOW);
    assert!(matches!(action, UsageAction::ReadSettings));
    let (state, action) = s.step_collect(state, UsageEvent::SettingsRead(None), &NOW);
    match &action {
        UsageAction::Fetch(req) => {
            assert_eq!(req.user_agent, "tool");
            assert_eq!(req.proxy, None);
        },
        _ => panic!("expected a fetch"),
    }
    state
}

fn run_to_cache(s: &UsageSegment, config: Config) -> UsageState<f64> {
    let (state, action) = s.start_collect::<f64>();
    assert!(matches!(action, UsageAction::GetToken));
    let (state, action) = s.step_collect(state, UsageEvent::TokenReady(Some("tok".to_string())), &NOW);
    assert!(matches!(action, UsageAction::LoadConfig));
    let (state, action) = s.step_collect(state, UsageEvent::ConfigLoaded(Some(config)), &NOW);
    assert!(matches!(action, UsageAction::LoadCache));
    state
}

#[test]
fn usage_refresh_with_fresh_cache() {
    let s = UsageSegment::new();
    let state = run_to_cache(&s, Config { segments: Vec::new() });
    let (state, action) = s.step_collect(state, UsageEvent::CacheLoaded(Some(cache(33.0, "2024-01-01T00:00:00Z"))), &NOW);
    assert!(matches!(state, UsageState::Finished));
    match action {
        UsageAction::Finish(Some(UsageReading { five_hour, seven_day, resets_at })) => {
            assert_eq!(five_hour, 33.0);
            assert_eq!(seven_day, Some(12.5));
            assert_eq!(resets_at.as_deref(), Some("2024-01-02T00:00:00Z"));
        },
        _ => panic!("expected the cached reading"),
    }
}

#[test]
fn usage_refresh_fetches_when_stale() {
    let s = UsageSegment::new();
    let config = Config {
        segments: vec![segment_config(
            SegmentId::Usage,
            vec![("cache_duration", OptionValue::Unsigned(50)), ("api_base_url", text("http://h")), ("timeout", OptionValue::Unsigned(4))],
        )],
    };
    let state = run_to_cache(&s, config);
    let (state, action) = s.step_collect(state, UsageEvent::CacheLoaded(Some(cache(33.0, "2024-01-01T00:00:00Z"))), &NOW);
    assert!(matches!(action, UsageAction::QueryVersion));
    let (state, action) = s.step_collect(state, version_answer(true, b"2.0.1\n"), &NOW);
    assert!(matches!(action, UsageAction::ReadSettings));
    let settings = r#"{"env": {"HTTP_PROXY": "http://proxy:3128"}}"#.to_string();
    let (state, action) = s.step_collect(state, UsageEvent::SettingsRead(Some(settings)), &NOW);
    match &action {
        UsageAction::Fetch(req) => {
            assert_eq!(req.url, "http://h/api/oauth/usage");
            assert_eq!(req.authorization, "Bearer tok");
            assert_eq!(req.timeout_secs, 4);
            assert_eq!(req.beta, "oauth-2025-04-20");
            assert_eq!(req.user_agent, "tool/2.0.1");
            assert_eq!(req.proxy.as_deref(), Some("http://proxy:3128"));
        },
        _ => panic!("expected a fetch"),
    }
    let (state, action) = s.step_collect(state, UsageEvent::Fetched(Some(reply(5.0, None, Some("2024-01-01T04:00:00Z")))), &NOW);
    match &action {
        UsageAction::SaveCache(c) => {
            assert_eq!(c.five_hour_utilization, 5.0);
            assert_eq!(c.cached_at, "2024-01-01T00:01:40+00:00");
        },
        _ => panic!("expected a save"),
    }
    let (state, action) = s.step_collect(state, UsageEvent::CacheSaved, &NOW);
    assert!(matches!(state, UsageState::Finished));
    match action {
        UsageAction::Finish(Some(r)) => {
            assert_eq!(r.five_hour, 5.0);
            assert_eq!(r.resets_at.as_deref(), Some("2024-01-01T04:00:00Z"));
        },
        _ => panic!("expected the new reading"),
    }
}

#[test]
fn usage_refresh_falls_back_to_stale_cache() {
    let s = UsageSegment::new();
    let state = run_to_cache(&s, Config { segments: Vec::new() });
    let state = run_to_fetch(&s, state, Some(cache(70.0, "2023-01-01T00:00:00Z")));
    let (state, action) = s.step_collect(state, UsageEvent::Fetched(None), &NOW);
    assert!(matches!(state, UsageState::Finished));
    match action {
        UsageAction::Finish(Some(r)) => assert_eq!(r.five_hour, 70.0),
        _ => panic!("expected the stale reading"),
    }
}

#[test]
fn usage_refresh_asks_in_order() {
    let s = UsageSegment::new();
    let state = run_to_cache(&s, Config { segments: Vec::new() });
    let (state, _) = s.step_collect(state, UsageEvent::CacheLoaded(None), &NOW);
    // a settings read where the version answer was expected ends the refresh
    let (state, action) = s.step_collect(state, UsageEvent::SettingsRead(None), &NOW);
    assert!(matches!(state, UsageState::Finished));
    assert!(matches!(action, UsageAction::Finish(None)));
}

#[test]
fn usage_refresh_without_token_or_config() {
    let s = UsageSegment::new();
    let (state, _) = s.start_collect::<f64>();
    let (state, action) = s.step_collect(state, UsageEvent::TokenReady(None), &NOW);
    assert!(matches!(state, UsageState::Finished));
    assert!(matches!(action, UsageAction::Finish(None)));
    let (state, _) = s.start_collect::<f64>();
    let (state, _) = s.step_collect(state, UsageEvent::TokenReady(Some("t".to_string())), &NOW);
    let (state, action) = s.step_collect(state, UsageEvent::ConfigLoaded(None), &NOW);
    assert!(matches!(state, UsageState::Finished));
    assert!(matches!(action, UsageAction::Finish(None)));
}

#[test]
fn usage_refresh_without_anything_hides() {
    let s = UsageSegment::new();
    let state = run_to_cache(&s, Config { segments: Vec::new() });
    let state = run_to_fetch(&s, state, None);
    let (_, action) = s.step_collect(state, UsageEvent::Fetched(None), &NOW);
    assert!(matches!(action, UsageAction::Finish(None)));
    let (_, action) = s.step_collect(UsageState::<f64>::Finished, UsageEvent::CacheSaved, &NOW);
    assert!(matches!(action, UsageAction::Finish(None)));
    assert!(!s.is_cache_valid(&cache(1.0, "2001-01-01T00:00:00Z"), 300, &NOW));
    assert!(s.is_cache_valid(&cache(1.0, "2024-01-01T00:00:00Z"), 101, &NOW));
    assert!(!s.is_cache_valid(&cache(1.0, "2024-01-01T00:00:00Z"), 100, &NOW));
}

#[test]
fn reset_time_past_minute_45_still_shows_a_label() {
    assert_eq!(UsageSegment::format_reset_time(Some("2024-06-15T10:50:00Z"), 0, 0), "6-15-11");
    assert_eq!(UsageSegment::format_reset_time(Some("2024-12-31T23:59:00Z"), 0, 0), "1-1-0");
    assert_eq!(UsageSegment::format_reset_time(Some("2024-06-15T10:45:00+02:00"), 0, 0), "6-15-8");
}

#[test]
fn icon_follows_seven_day_window() {
    let r = UsageReading { five_hour: 80.0, seven_day: Some(20.0), resets_at: None };
    assert_eq!(UsageSegment::icon_figure(&r), 20.0);
    let r = UsageReading { five_hour: 80.0, seven_day: None, resets_at: None };
    assert_eq!(UsageSegment::icon_figure(&r), 80.0);
}

#[test]
fn proxy_from_settings_file() {
    let both = r#"{"env": {"HTTPS_PROXY": "http://s:1", "HTTP_PROXY": "http://p:2"}}"#;
    assert_eq!(UsageSegment::proxy_from_settings_text(both).as_deref(), Some("http://s:1"));
    let http = r#"{"env": {"HTTP_PROXY": "http://p:2"}, "model": "x"}"#;
    assert_eq!(UsageSegment::proxy_from_settings_text(http).as_deref(), Some("http://p:2"));
    let not_text = r#"{"env": {"HTTPS_PROXY": 8080, "HTTP_PROXY": "http://p:2"}}"#;
    assert_eq!(UsageSegment::proxy_from_settings_text(not_text), None);
    assert_eq!(UsageSegment::proxy_from_settings_text(r#"{"env": {}}"#), None);
    assert_eq!(UsageSegment::proxy_from_settings_text(r#"{"other": 1}"#), None);
    assert_eq!(UsageSegment::proxy_from_settings_text("not json"), None);
}

#[test]
fn user_agent_keeps_valid_utf8_and_replaces_invalid() {
    assert_eq!(UsageSegment::user_agent("tool", true, "1.0-\u{e9}\n".as_bytes()), "tool/1.0-\u{e9}");
    assert_eq!(UsageSegment::user_agent("tool", true, b"1.\xff"), "tool/1.\u{fffd}");
}
