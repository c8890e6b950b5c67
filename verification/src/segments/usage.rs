//! A segment that shows how much of the subscription's rate limits is
//! used, from Anthropic's OAuth usage API, cached between runs.
//!
//! Utilization figures are carried through as the type parameter `U`
//! (floating-point numbers in the program): this module only moves them
//! from the API's reply or the cache to the reading it hands back.
use vstd::prelude::*;
use crate::config::{lookup_option, opt_value_view, Config, OptionValue, OptionValueView, SegmentConfig, SegmentId};
use crate::segments::{fresh_at, is_fresh_at, pairs_view, SegmentData};
use crate::utils::text::{decimal, decimal_string, decode_lossy, trim, trimmed, utf8_lossy};
use crate::utils::time::{
    calendar_at, format_rfc3339, parse_rfc3339, rfc3339_instant, rfc3339_text, utc_calendar, Instant,
    LocalTime,
};

verus! {

/// The usage segment. It holds no data of its own.
pub struct UsageSegment;

impl Default for UsageSegment {
    fn default() -> (s: Self)
        ensures
            s == UsageSegment,
    {
        UsageSegment
    }
}

/// One rate-limit window of the API's reply.
pub struct UsagePeriod<U> {
    pub utilization: U,
    pub resets_at: Option<String>,
}

/// The API's reply: the five-hour window, and the seven-day window where
/// the account has one.
pub struct ApiUsageResponse<U> {
    pub five_hour: UsagePeriod<U>,
    pub seven_day: Option<UsagePeriod<U>>,
}

/// The cached reading, with the time it was taken (RFC 3339).
pub struct ApiUsageCache<U> {
    pub five_hour_utilization: U,
    pub seven_day_utilization: Option<U>,
    pub resets_at: Option<String>,
    pub cached_at: String,
}

/// What the segment shows: the utilization of both windows and when the
/// limits reset.
pub struct UsageReading<U> {
    pub five_hour: U,
    pub seven_day: Option<U>,
    pub resets_at: Option<String>,
}

/// The options the usage segment reads from its configuration.
pub struct UsageSettings {
    pub api_base_url: String,
    pub cache_duration: u64,
    pub timeout: u64,
}

/// The HTTP request that fetches the usage: a GET of `url` with these
/// `Authorization`, `anthropic-beta` and `User-Agent` header values, given
/// `timeout_secs` seconds, sent through `proxy` where there is one (and
/// the HTTP client accepts its URL).
pub struct FetchRequest {
    pub url: String,
    pub authorization: String,
    pub beta: String,
    pub user_agent: String,
    pub proxy: Option<String>,
    pub timeout_secs: u64,
}

/// The view of an optional text.
pub open spec fn opt_view(o: Option<String>) -> Option<Seq<char>> {
    match o {
        Some(s) => Some(s@),
        None => None,
    }
}

/// The configuration of the first usage segment.
pub open spec fn usage_config(segments: Seq<SegmentConfig>) -> Option<SegmentConfig>
    decreases segments.len(),
{
    if segments.len() == 0 {
        None
    } else if segments[0].id is Usage {
        Some(segments[0])
    } else {
        usage_config(segments.drop_first())
    }
}

/// The option `key` of the first usage segment.
pub open spec fn usage_option(segments: Seq<SegmentConfig>, key: Seq<char>) -> Option<OptionValue> {
    match usage_config(segments) {
        Some(c) => lookup_option(c.options@, key),
        None => None,
    }
}

/// The API's base URL: the usage segment's text option `api_base_url`,
/// else Anthropic's API.
pub open spec fn api_base_url_spec(segments: Seq<SegmentConfig>) -> Seq<char> {
    match usage_option(segments, "api_base_url"@) {
        Some(OptionValue::Text(s)) => s@,
        _ => "https://api.anthropic.com"@,
    }
}

/// An unsigned option of the usage segment, else `default`.
pub open spec fn unsigned_option(segments: Seq<SegmentConfig>, key: Seq<char>, default: u64) -> u64 {
    match usage_option(segments, key) {
        Some(OptionValue::Unsigned(n)) => n,
        _ => default,
    }
}

/// Which eighth of the circle icon stands for a percentage: 1 up to 12%,
/// 2 up to 25%, 3 up to 37%, 4 up to 50%, 5 up to 62%, 6 up to 75%, 7 up
/// to 87%, and 8 above.
pub open spec fn circle_slice(percent: u8) -> nat {
    if percent <= 12 { 1 } else if percent <= 25 { 2 } else if percent <= 37 { 3 }
    else if percent <= 50 { 4 } else if percent <= 62 { 5 } else if percent <= 75 { 6 }
    else if percent <= 87 { 7 } else { 8 }
}

/// The Nerd Font glyph of a circle filled to `slice` eighths.
pub open spec fn circle_glyph(slice: nat) -> char {
    if slice == 1 { '\u{f0a9e}' } else if slice == 2 { '\u{f0a9f}' } else if slice == 3 { '\u{f0aa0}' }
    else if slice == 4 { '\u{f0aa1}' } else if slice == 5 { '\u{f0aa2}' } else if slice == 6 { '\u{f0aa3}' }
    else if slice == 7 { '\u{f0aa4}' } else { '\u{f0aa5}' }
}

/// How a reset time is shown: month, day and hour on the local clock,
/// joined by dashes (e.g. "3-14-17").
pub open spec fn reset_label(t: LocalTime) -> Seq<char> {
    decimal(t.month as nat) + "-"@ + decimal(t.day as nat) + "-"@ + decimal(t.hour as nat)
}

/// A UTC offset that a clock can have: less than a day either way.
pub open spec fn valid_offset(offset: i32) -> bool {
    -86400 < offset < 86400
}

/// How the reset time written `text` is shown on a clock that is
/// `offset` seconds ahead of UTC at that time and `later_offset` seconds
/// ahead an hour later: "?" when there is none or it does not parse;
/// otherwise the month, day and hour that the clock shows then, or an hour
/// later when it shows a minute past the 45th.
pub open spec fn reset_text(text: Option<Seq<char>>, offset: i32, later_offset: i32) -> Seq<char> {
    match text {
        Some(t) => match rfc3339_instant(t) {
            Some((secs, _)) => {
                let first = calendar_at(secs + offset);
                if first.minute > 45 {
                    reset_label(calendar_at(secs + 3600 + later_offset))
                } else {
                    reset_label(first)
                }
            },
            None => "?"@,
        },
        None => "?"@,
    }
}

/// What the entry `key` of the `env` section of a settings file in JSON
/// is (`serde_json::from_str::<Value>`, then `.get("env")` and
/// `.get(key)`): nothing when the text does not parse or holds no such
/// entry; a string as its text; any other value as its JSON text.
pub uninterp spec fn json_env_entry(text: Seq<char>, key: Seq<char>) -> Option<OptionValueView>;

/// The proxy the settings call for: the `HTTPS_PROXY` entry where there is
/// one (used only if it is text), else the `HTTP_PROXY` entry if it is text.
pub open spec fn proxy_choice(https: Option<OptionValueView>, http: Option<OptionValueView>) -> Option<Seq<char>> {
    match https {
        Some(OptionValueView::Text(s)) => Some(s),
        Some(_) => None,
        None => match http {
            Some(OptionValueView::Text(s)) => Some(s),
            _ => None,
        },
    }
}

/// Reads the entry `key` of the `env` section of a settings file in JSON
/// (`serde_json::from_str::<Value>`, `Value::get`). The contract claims
/// only that the result is the named one.
#[verifier::external_body]
fn settings_env_entry(text: &str, key: &str) -> (r: Option<OptionValue>)
    ensures
        opt_value_view(r) == json_env_entry(text@, key@),
{
    let settings: serde_json::Value = serde_json::from_str(text).ok()?;
    match settings.get("env")?.get(key)? {
        serde_json::Value::String(s) => Some(OptionValue::Text(s.clone())),
        other => Some(OptionValue::Other(other.to_string())),
    }
}

/// The `User-Agent` sent to the API: the product's name, "/" and the
/// version that the package manager printed (without surrounding
/// whitespace), or the name alone when the run failed or printed nothing.
pub open spec fn user_agent_of(product: Seq<char>, success: bool, printed: Seq<char>) -> Seq<char> {
    if success && trim(printed).len() > 0 {
        product + "/"@ + trim(printed)
    } else {
        product
    }
}

/// The proxy that a settings file calls for, if it could be read.
pub open spec fn settings_proxy(settings: Option<Seq<char>>) -> Option<Seq<char>> {
    match settings {
        Some(t) => proxy_choice(json_env_entry(t, "HTTPS_PROXY"@), json_env_entry(t, "HTTP_PROXY"@)),
        None => None,
    }
}

/// `req` is the request for the usage with this token, these settings and
/// this User-Agent, through the proxy that the settings file (its text, if
/// it could be read) calls for.
pub open spec fn request_ok(
    req: FetchRequest,
    token: Seq<char>,
    settings: UsageSettings,
    user_agent: Seq<char>,
    settings_text: Option<Seq<char>>,
) -> bool {
    &&& req.url@ == settings.api_base_url@ + "/api/oauth/usage"@
    &&& req.authorization@ == "Bearer "@ + token
    &&& req.beta@ == "oauth-2025-04-20"@
    &&& req.user_agent@ == user_agent
    &&& opt_view(req.proxy) == settings_proxy(settings_text)
    &&& req.timeout_secs == settings.timeout
}

/// The reset time a reply reports: the seven-day window's, else the
/// five-hour window's.
pub open spec fn reply_reset<U>(reply: ApiUsageResponse<U>) -> Option<Seq<char>> {
    match reply.seven_day {
        Some(p) if p.resets_at is Some => opt_view(p.resets_at),
        _ => opt_view(reply.five_hour.resets_at),
    }
}

/// `reading` is what the reply `reply` reports.
pub open spec fn reading_of_reply<U>(reading: UsageReading<U>, reply: ApiUsageResponse<U>) -> bool {
    &&& reading.five_hour == reply.five_hour.utilization
    &&& reading.seven_day == match reply.seven_day {
        Some(p) => Some(p.utilization),
        None => None,
    }
    &&& opt_view(reading.resets_at) == reply_reset(reply)
}

/// `reading` is what the cache entry `cache` holds.
pub open spec fn reading_of_cache<U>(reading: UsageReading<U>, cache: ApiUsageCache<U>) -> bool {
    &&& reading.five_hour == cache.five_hour_utilization
    &&& reading.seven_day == cache.seven_day_utilization
    &&& reading.resets_at == cache.resets_at
}

/// The text shown beside the percentage: "· " and the reset time, or
/// "· 5h only" when no reset time is known.
pub open spec fn secondary_text(resets_at: Option<Seq<char>>, offset: i32, later_offset: i32) -> Seq<char> {
    match resets_at {
        Some(_) => "· "@ + reset_text(resets_at, offset, later_offset),
        None => "· 5h only"@,
    }
}

/// Where a refresh of the usage segment stands.
pub enum UsageState<U> {
    /// The OAuth token is being looked up.
    AwaitingToken,
    /// The configuration is being read; the token is kept.
    AwaitingConfig(String),
    /// The cache is being read; the token and settings are kept.
    AwaitingCache(String, UsageSettings),
    /// The package manager is being asked for the assistant's published
    /// version; the cache entry read before, the token and the settings
    /// are kept.
    AwaitingVersion(Option<ApiUsageCache<U>>, String, UsageSettings),
    /// The assistant's settings file is being read; the User-Agent is kept
    /// beside the rest.
    AwaitingProxy(Option<ApiUsageCache<U>>, String, UsageSettings, String),
    /// The API is being asked; the cache entry read before, if any, is kept.
    AwaitingFetch(Option<ApiUsageCache<U>>),
    /// The new reading is being saved to the cache.
    AwaitingSave(UsageReading<U>),
    /// The refresh is over.
    Finished,
}

/// What the refresh asks of its caller next.
pub enum UsageAction<U> {
    /// Look up the OAuth token and report `TokenReady`.
    GetToken,
    /// Read the configuration and report `ConfigLoaded`.
    LoadConfig,
    /// Read the cache file and report `CacheLoaded`.
    LoadCache,
    /// Ask the package manager for the assistant's published version and
    /// report `VersionAnswered`.
    QueryVersion,
    /// Read the assistant's settings file and report `SettingsRead`.
    ReadSettings,
    /// Send this request and report `Fetched`.
    Fetch(FetchRequest),
    /// Save this cache entry and report `CacheSaved`.
    SaveCache(ApiUsageCache<U>),
    /// Stop: show this reading, or hide the segment on `None`.
    Finish(Option<UsageReading<U>>),
}

/// What the caller reports back.
pub enum UsageEvent<U> {
    /// The OAuth token, if one was found.
    TokenReady(Option<String>),
    /// The configuration, if it could be read.
    ConfigLoaded(Option<Config>),
    /// The cache file's entry, if it could be read and parsed.
    CacheLoaded(Option<ApiUsageCache<U>>),
    /// The package manager's run: the product it was asked about, whether
    /// it exited successfully, and what it printed.
    VersionAnswered { product: String, success: bool, stdout: Vec<u8> },
    /// The text of the assistant's settings file, if it could be read.
    SettingsRead(Option<String>),
    /// The API's reply, if the request succeeded with status 200 and a
    /// body that parses.
    Fetched(Option<ApiUsageResponse<U>>),
    /// The cache was written (or writing it failed; the refresh goes on).
    CacheSaved,
}

/// How many more steps a refresh takes from a state.
pub open spec fn usage_steps_left<U>(state: UsageState<U>) -> nat {
    match state {
        UsageState::AwaitingToken => 7,
        UsageState::AwaitingConfig(_) => 6,
        UsageState::AwaitingCache(_, _) => 5,
        UsageState::AwaitingVersion(_, _, _) => 4,
        UsageState::AwaitingProxy(_, _, _, _) => 3,
        UsageState::AwaitingFetch(_) => 2,
        UsageState::AwaitingSave(_) => 1,
        UsageState::Finished => 0,
    }
}

/// `settings` are the usage options of the configuration `config`.
pub open spec fn settings_of(settings: UsageSettings, config: Config) -> bool {
    &&& settings.api_base_url@ == api_base_url_spec(config.segments@)
    &&& settings.cache_duration == unsigned_option(config.segments@, "cache_duration"@, 300)
    &&& settings.timeout == unsigned_option(config.segments@, "timeout"@, 2)
}

/// `r` is the step of a refresh from `state` on `event`, taken when the
/// clock reads `now`.
pub open spec fn usage_step_ok<U>(
    state: UsageState<U>,
    event: UsageEvent<U>,
    now: Instant,
    r: (UsageState<U>, UsageAction<U>),
) -> bool {
    match (state, event) {
        (UsageState::AwaitingToken, UsageEvent::TokenReady(token)) => match token {
            Some(t) => r.0 == UsageState::<U>::AwaitingConfig(t) && r.1 is LoadConfig,
            None => r.0 == UsageState::<U>::Finished && r.1 == UsageAction::<U>::Finish(None),
        },
        (UsageState::AwaitingConfig(token), UsageEvent::ConfigLoaded(config)) => match config {
            Some(c) => {
                &&& r.0 matches UsageState::AwaitingCache(t, settings) && t == token && settings_of(settings, c)
                &&& r.1 is LoadCache
            },
            None => r.0 == UsageState::<U>::Finished && r.1 == UsageAction::<U>::Finish(None),
        },
        (UsageState::AwaitingCache(token, settings), UsageEvent::CacheLoaded(cache)) => {
            if cache is Some && fresh_at(cache->0.cached_at@, now, settings.cache_duration) {
                &&& r.0 == UsageState::<U>::Finished
                &&& r.1 matches UsageAction::Finish(Some(reading)) && reading_of_cache(reading, cache->0)
            } else {
                &&& r.0 == UsageState::AwaitingVersion(cache, token, settings)
                &&& r.1 is QueryVersion
            }
        },
        (
            UsageState::AwaitingVersion(stale, token, settings),
            UsageEvent::VersionAnswered { product, success, stdout },
        ) => {
            &&& r.0 matches UsageState::AwaitingProxy(s, t, st, ua) && s == stale && t == token && st == settings
                && ua@ == user_agent_of(product@, success, utf8_lossy(stdout@))
            &&& r.1 is ReadSettings
        },
        (UsageState::AwaitingProxy(stale, token, settings, ua), UsageEvent::SettingsRead(text)) => {
            &&& r.0 == UsageState::AwaitingFetch(stale)
            &&& r.1 matches UsageAction::Fetch(req) && request_ok(req, token@, settings, ua@, opt_view(text))
        },
        (UsageState::AwaitingFetch(stale), UsageEvent::Fetched(reply)) => match reply {
            Some(rep) => {
                &&& r.0 matches UsageState::AwaitingSave(reading) && reading_of_reply(reading, rep)
                &&& r.1 matches UsageAction::SaveCache(cache) && {
                    &&& reading_of_reply(UsageReading {
                        five_hour: cache.five_hour_utilization,
                        seven_day: cache.seven_day_utilization,
                        resets_at: cache.resets_at,
                    }, rep)
                    &&& cache.cached_at@ == rfc3339_text(now.secs, now.nanos)
                }
            },
            None => {
                &&& r.0 == UsageState::<U>::Finished
                &&& match stale {
                    Some(c) => r.1 matches UsageAction::Finish(Some(reading)) && reading_of_cache(reading, c),
                    None => r.1 == UsageAction::<U>::Finish(None),
                }
            },
        },
        (UsageState::AwaitingSave(reading), UsageEvent::CacheSaved) => {
            r.0 == UsageState::<U>::Finished && r.1 == UsageAction::Finish(Some(reading))
        },
        _ => r.0 == UsageState::<U>::Finished && r.1 == UsageAction::<U>::Finish(None),
    }
}

/// `data` is what the usage segment shows for a reading: the five-hour
/// percentage with a percent sign, the reset time beside it (on a clock
/// with the given UTC offsets at that time and an hour later), and as
/// metadata the circle glyph for `icon_percent` and both utilizations as
/// text ("n/a" where there is no seven-day window).
pub open spec fn usage_shows(
    data: SegmentData,
    five_hour_percent: u8,
    icon_percent: u8,
    five_hour_text: Seq<char>,
    seven_day_text: Option<Seq<char>>,
    resets_at: Option<Seq<char>>,
    offset: i32,
    later_offset: i32,
) -> bool {
    &&& data.primary@ == decimal(five_hour_percent as nat) + "%"@
    &&& data.secondary@ == secondary_text(resets_at, offset, later_offset)
    &&& pairs_view(data.metadata@) =~= seq![
        ("dynamic_icon"@, seq![circle_glyph(circle_slice(icon_percent))]),
        ("five_hour_utilization"@, five_hour_text),
        ("seven_day_utilization"@, match seven_day_text {
            Some(t) => t,
            None => "n/a"@,
        }),
    ]
}

impl UsageSegment {
    pub fn new() -> (s: Self)
        ensures
            s == UsageSegment,
    {
        UsageSegment
    }

    /// The name of the file that caches the usage reading, in the status
    /// line's data directory.
    pub fn cache_file_name() -> (r: String)
        ensures
            r@ == ".api_usage_cache.json"@,
    {
        String::from_str(".api_usage_cache.json")
    }

    /// The segment's identifier.
    pub fn id(&self) -> (r: SegmentId)
        ensures
            r is Usage,
    {
        SegmentId::Usage
    }

    /// The circle glyph for a percentage of use.
    pub fn circle_icon(percent: u8) -> (r: String)
        ensures
            r@ == seq![circle_glyph(circle_slice(percent))],
    {
        let glyph = if percent <= 12 { '\u{f0a9e}' } else if percent <= 25 { '\u{f0a9f}' }
            else if percent <= 37 { '\u{f0aa0}' } else if percent <= 50 { '\u{f0aa1}' }
            else if percent <= 62 { '\u{f0aa2}' } else if percent <= 75 { '\u{f0aa3}' }
            else if percent <= 87 { '\u{f0aa4}' } else { '\u{f0aa5}' };
        let mut r = String::new();
        crate::utils::text::push_char(&mut r, glyph);
        r
    }

    /// Month, day and hour of a local time, joined by dashes.
    pub fn month_day_hour(t: &LocalTime) -> (r: String)
        ensures
            r@ == reset_label(*t),
    {
        let mut r = decimal_string(t.month as u64);
        r.append("-");
        r.append(decimal_string(t.day as u64).as_str());
        r.append("-");
        r.append(decimal_string(t.hour as u64).as_str());
        r
    }

    /// The point in time a reset time denotes, if it parses.
    pub fn reset_instant(reset_time: &str) -> (r: Option<Instant>)
        ensures
            match r {
                Some(t) => rfc3339_instant(reset_time@) == Some((t.secs, t.nanos)),
                None => rfc3339_instant(reset_time@) is None,
            },
    {
        parse_rfc3339(reset_time)
    }

    /// How the reset time written `reset_time_str` is shown on a clock
    /// that is `offset` seconds ahead of UTC at that time and
    /// `later_offset` seconds ahead an hour later (the local clock, in the
    /// program).
    pub fn format_reset_time(reset_time_str: Option<&str>, offset: i32, later_offset: i32) -> (r: String)
        requires
            valid_offset(offset),
            valid_offset(later_offset),
        ensures
            r@ == reset_text(
                match reset_time_str {
                    Some(s) => Some(s@),
                    None => None,
                },
                offset,
                later_offset,
            ),
    {
        if let Some(time_str) = reset_time_str {
            if let Some(at) = parse_rfc3339(time_str) {
                let first = utc_calendar(at.secs + offset as i64);
                let shown = if first.minute > 45 {
                    utc_calendar(at.secs + 3600 + later_offset as i64)
                } else {
                    first
                };
                return Self::month_day_hour(&shown);
            }
        }
        String::from_str("?")
    }

    /// The first usage segment's options, with their defaults: the API's
    /// base URL, how long a reading stays fresh (300 seconds), and how long
    /// the request may take (2 seconds).
    pub fn settings(config: &Config) -> (r: UsageSettings)
        ensures
            r.api_base_url@ == api_base_url_spec(config.segments@),
            r.cache_duration == unsigned_option(config.segments@, "cache_duration"@, 300),
            r.timeout == unsigned_option(config.segments@, "timeout"@, 2),
    {
        let segment = Self::find_usage_config(&config.segments);
        let api_base_url = match Self::option_of(segment, "api_base_url") {
            Some(OptionValue::Text(s)) => s.clone(),
            _ => String::from_str("https://api.anthropic.com"),
        };
        let cache_duration = match Self::option_of(segment, "cache_duration") {
            Some(OptionValue::Unsigned(n)) => *n,
            _ => 300,
        };
        let timeout = match Self::option_of(segment, "timeout") {
            Some(OptionValue::Unsigned(n)) => *n,
            _ => 2,
        };
        UsageSettings { api_base_url, cache_duration, timeout }
    }

    fn find_usage_config(segments: &Vec<SegmentConfig>) -> (r: Option<&SegmentConfig>)
        ensures
            match r {
                Some(c) => usage_config(segments@) == Some(*c),
                None => usage_config(segments@) is None,
            },
    {
        let mut i: usize = 0;
        assert(segments@.skip(0) == segments@);
        while i < segments.len()
            invariant
                i <= segments@.len(),
                usage_config(segments@) == usage_config(segments@.skip(i as int)),
            decreases segments.len() - i,
        {
            assert(segments@.skip(i as int).drop_first() == segments@.skip(i + 1));
            assert(segments@.skip(i as int)[0] == segments@[i as int]);
            if matches!(segments[i].id, SegmentId::Usage) {
                return Some(&segments[i]);
            }
            i = i + 1;
        }
        None
    }

    fn option_of<'a>(segment: Option<&'a SegmentConfig>, key: &str) -> (r: Option<&'a OptionValue>)
        ensures
            ({
                let expected = match segment {
                    Some(c) => lookup_option(c.options@, key@),
                    None => None,
                };
                match r {
                    Some(v) => expected == Some(*v),
                    None => expected is None,
                }
            }),
    {
        match segment {
            None => None,
            Some(c) => c.option(key),
        }
    }

    /// The URL of the usage endpoint under the API's base URL.
    pub fn usage_url(api_base_url: &str) -> (r: String)
        ensures
            r@ == api_base_url@ + "/api/oauth/usage"@,
    {
        let mut r = String::from_str(api_base_url);
        r.append("/api/oauth/usage");
        r
    }

    /// The `Authorization` header value for an OAuth token.
    pub fn bearer(token: &str) -> (r: String)
        ensures
            r@ == "Bearer "@ + token@,
    {
        let mut r = String::from_str("Bearer ");
        r.append(token);
        r
    }

    /// The `User-Agent` of the request, from the product's name and the
    /// run of the package manager that asks for its published version: the
    /// name, "/" and the version printed, or the name alone when the run
    /// failed or printed nothing.
    pub fn user_agent(product: &str, success: bool, stdout: &[u8]) -> (r: String)
        ensures
            r@ == user_agent_of(product@, success, utf8_lossy(stdout@)),
            vstd::utf8::valid_utf8(stdout@) ==> r@ == user_agent_of(
                product@,
                success,
                vstd::utf8::decode_utf8(stdout@),
            ),
    {
        if success {
            let text = decode_lossy(stdout);
            let version = trimmed(text.as_str());
            if version.as_str().unicode_len() != 0 {
                let mut r = String::from_str(product);
                r.append("/");
                r.append(version.as_str());
                return r;
            }
        }
        String::from_str(product)
    }

    /// The proxy to use, from the `env` section of the assistant's settings: the
    /// `HTTPS_PROXY` entry where there is one (used only if it is text),
    /// else the `HTTP_PROXY` entry if it is text.
    pub fn proxy_from_settings(https_proxy: Option<OptionValue>, http_proxy: Option<OptionValue>) -> (r: Option<String>)
        ensures
            match https_proxy {
                Some(OptionValue::Text(s)) => r == Some(s),
                Some(_) => r is None,
                None => match http_proxy {
                    Some(OptionValue::Text(s)) => r == Some(s),
                    _ => r is None,
                },
            },
    {
        let chosen = match https_proxy {
            Some(v) => Some(v),
            None => http_proxy,
        };
        match chosen {
            Some(OptionValue::Text(s)) => Some(s),
            _ => None,
        }
    }

    /// The proxy that the assistant's settings file (the JSON text
    /// `settings`) calls for, from the entries of its `env` section.
    pub fn proxy_from_settings_text(settings: &str) -> (r: Option<String>)
        ensures
            opt_view(r) == proxy_choice(
                json_env_entry(settings@, "HTTPS_PROXY"@),
                json_env_entry(settings@, "HTTP_PROXY"@),
            ),
    {
        let https = settings_env_entry(settings, "HTTPS_PROXY");
        let http = settings_env_entry(settings, "HTTP_PROXY");
        Self::proxy_from_settings(https, http)
    }

    /// The figure the circle icon stands for: the seven-day utilization
    /// where the account has that window, else the five-hour one.
    pub fn icon_figure<U: Copy>(reading: &UsageReading<U>) -> (r: U)
        ensures
            r == match reading.seven_day {
                Some(v) => v,
                None => reading.five_hour,
            },
    {
        match reading.seven_day {
            Some(v) => v,
            None => reading.five_hour,
        }
    }

    /// Whether the API answered with success (HTTP 200).
    pub fn accepts_status(status: u16) -> (r: bool)
        ensures
            r == (status == 200),
    {
        status == 200
    }

    /// Whether a cached reading is still fresh at `now`, for a maximum age
    /// of `cache_duration` seconds.
    pub fn is_cache_valid<U>(&self, cache: &ApiUsageCache<U>, cache_duration: u64, now: &Instant) -> (r: bool)
        requires
            now.valid(),
        ensures
            r == fresh_at(cache.cached_at@, *now, cache_duration),
    {
        is_fresh_at(cache.cached_at.as_str(), now, cache_duration)
    }

    /// The reading a reply reports, and its cache entry stamped `now`.
    pub fn reading_from_reply<U: Copy>(reply: ApiUsageResponse<U>, now: &Instant) -> (r: (UsageReading<U>, ApiUsageCache<U>))
        requires
            now.valid(),
        ensures
            reading_of_reply(r.0, reply),
            reading_of_cache(r.0, r.1),
            r.1.cached_at@ == rfc3339_text(now.secs, now.nanos),
    {
        let seven_day = match &reply.seven_day {
            Some(p) => Some(p.utilization),
            None => None,
        };
        let resets_at = match &reply.seven_day {
            Some(p) if p.resets_at.is_some() => p.resets_at.clone(),
            _ => reply.five_hour.resets_at.clone(),
        };
        let resets_copy = resets_at.clone();
        let cache = ApiUsageCache {
            five_hour_utilization: reply.five_hour.utilization,
            seven_day_utilization: seven_day,
            resets_at: resets_copy,
            cached_at: format_rfc3339(now),
        };
        let reading = UsageReading { five_hour: reply.five_hour.utilization, seven_day, resets_at };
        (reading, cache)
    }

    /// Starts a refresh, which first looks up the OAuth token.
    pub fn start_collect<U>(&self) -> (r: (UsageState<U>, UsageAction<U>))
        ensures
            r.0 == UsageState::<U>::AwaitingToken,
            r.1 is GetToken,
    {
        (UsageState::AwaitingToken, UsageAction::GetToken)
    }

    /// One step of a refresh: from a state and what the caller reports,
    /// the next state and what to do next. Without a token or a
    /// configuration the segment is hidden; a fresh cache entry is shown
    /// without asking the API; otherwise the API's reply is saved and
    /// shown, and when the API fails the stale entry is shown if there is
    /// one. Freshness is judged, and new entries stamped, at the clock
    /// reading `now`.
    pub fn step_collect<U: Copy>(&self, state: UsageState<U>, event: UsageEvent<U>, now: &Instant) -> (r: (UsageState<U>, UsageAction<U>))
        requires
            now.valid(),
        ensures
            usage_step_ok(state, event, *now, r),
    {
        match (state, event) {
            (UsageState::AwaitingToken, UsageEvent::TokenReady(token)) => match token {
                Some(t) => (UsageState::AwaitingConfig(t), UsageAction::LoadConfig),
                None => (UsageState::Finished, UsageAction::Finish(None)),
            },
            (UsageState::AwaitingConfig(token), UsageEvent::ConfigLoaded(config)) => match config {
                Some(c) => (UsageState::AwaitingCache(token, Self::settings(&c)), UsageAction::LoadCache),
                None => (UsageState::Finished, UsageAction::Finish(None)),
            },
            (UsageState::AwaitingCache(token, settings), UsageEvent::CacheLoaded(cache)) => {
                let fresh = match &cache {
                    Some(c) => is_fresh_at(c.cached_at.as_str(), now, settings.cache_duration),
                    None => false,
                };
                if fresh {
                    match cache {
                        Some(c) => (UsageState::Finished, UsageAction::Finish(Some(UsageReading {
                            five_hour: c.five_hour_utilization,
                            seven_day: c.seven_day_utilization,
                            resets_at: c.resets_at,
                        }))),
                        None => (UsageState::Finished, UsageAction::Finish(None)),
                    }
                } else {
                    (UsageState::AwaitingVersion(cache, token, settings), UsageAction::QueryVersion)
                }
            },
            (
                UsageState::AwaitingVersion(stale, token, settings),
                UsageEvent::VersionAnswered { product, success, stdout },
            ) => {
                let ua = Self::user_agent(product.as_str(), success, stdout.as_slice());
                (UsageState::AwaitingProxy(stale, token, settings, ua), UsageAction::ReadSettings)
            },
            (UsageState::AwaitingProxy(stale, token, settings, ua), UsageEvent::SettingsRead(text)) => {
                let proxy = match &text {
                    Some(t) => Self::proxy_from_settings_text(t.as_str()),
                    None => None,
                };
                let req = FetchRequest {
                    url: Self::usage_url(settings.api_base_url.as_str()),
                    authorization: Self::bearer(token.as_str()),
                    beta: String::from_str("oauth-2025-04-20"),
                    user_agent: ua,
                    proxy,
                    timeout_secs: settings.timeout,
                };
                (UsageState::AwaitingFetch(stale), UsageAction::Fetch(req))
            },
            (UsageState::AwaitingFetch(stale), UsageEvent::Fetched(reply)) => match reply {
                Some(rep) => {
                    let (reading, cache) = Self::reading_from_reply(rep, now);
                    (UsageState::AwaitingSave(reading), UsageAction::SaveCache(cache))
                },
                None => match stale {
                    Some(c) => (UsageState::Finished, UsageAction::Finish(Some(UsageReading {
                        five_hour: c.five_hour_utilization,
                        seven_day: c.seven_day_utilization,
                        resets_at: c.resets_at,
                    }))),
                    None => (UsageState::Finished, UsageAction::Finish(None)),
                },
            },
            (UsageState::AwaitingSave(reading), UsageEvent::CacheSaved) => {
                (UsageState::Finished, UsageAction::Finish(Some(reading)))
            },
            _ => (UsageState::Finished, UsageAction::Finish(None)),
        }
    }

    /// What the segment shows for a reading. The utilizations come as the
    /// caller computed them from the figures: the five-hour percentage
    /// rounded, the percentage the circle stands for (see `icon_figure`),
    /// and both as text; the reset time is shown on a clock with the given
    /// UTC offsets.
    pub fn segment_data(
        five_hour_percent: u8,
        icon_percent: u8,
        five_hour_text: String,
        seven_day_text: Option<String>,
        resets_at: Option<String>,
        offset: i32,
        later_offset: i32,
    ) -> (d: SegmentData)
        requires
            valid_offset(offset),
            valid_offset(later_offset),
        ensures
            usage_shows(
                d,
                five_hour_percent,
                icon_percent,
                five_hour_text@,
                opt_view(seven_day_text),
                opt_view(resets_at),
                offset,
                later_offset,
            ),
    {
        let mut primary = decimal_string(five_hour_percent as u64);
        primary.append("%");
        let secondary = match &resets_at {
            Some(text) => {
                let label = Self::format_reset_time(Some(text.as_str()), offset, later_offset);
                let mut s = String::from_str("· ");
                s.append(label.as_str());
                s
            },
            None => String::from_str("· 5h only"),
        };
        let seven = match seven_day_text {
            Some(t) => t,
            None => String::from_str("n/a"),
        };
        let mut metadata: Vec<(String, String)> = Vec::new();
        metadata.push((String::from_str("dynamic_icon"), Self::circle_icon(icon_percent)));
        metadata.push((String::from_str("five_hour_utilization"), five_hour_text));
        metadata.push((String::from_str("seven_day_utilization"), seven));
        let d = SegmentData { primary, secondary, metadata };
        proof {
            assert(pairs_view(d.metadata@) =~= seq![
                ("dynamic_icon"@, seq![circle_glyph(circle_slice(icon_percent))]),
                ("five_hour_utilization"@, five_hour_text@),
                ("seven_day_utilization"@, match opt_view(seven_day_text) {
                    Some(t) => t,
                    None => "n/a"@,
                }),
            ]);
        }
        d
    }
}

/// Every step of a refresh that has not finished brings it closer to its
/// end, and a step asks to finish exactly when it ends the refresh: a
/// refresh takes at most seven steps after it starts.
pub proof fn law_usage_refresh_terminates<U>(
    state: UsageState<U>,
    event: UsageEvent<U>,
    now: Instant,
    r: (UsageState<U>, UsageAction<U>),
)
    requires
        usage_step_ok(state, event, now, r),
    ensures
        state != UsageState::<U>::Finished ==> usage_steps_left(r.0) < usage_steps_left(state),
        (r.1 is Finish) <==> (r.0 == UsageState::<U>::Finished),
{
}

/// The circle fills up with the percentage: a higher percentage never
/// shows fewer eighths.
pub proof fn law_circle_monotone(p: u8, q: u8)
    requires
        p <= q,
    ensures
        circle_slice(p) <= circle_slice(q),
{
}

/// Without an OAuth token, or without a configuration, the segment is
/// hidden and nothing else is read.
pub proof fn law_usage_needs_token_and_config<U>(
    token: String,
    now: Instant,
    r1: (UsageState<U>, UsageAction<U>),
    r2: (UsageState<U>, UsageAction<U>),
)
    requires
        usage_step_ok(UsageState::<U>::AwaitingToken, UsageEvent::<U>::TokenReady(None), now, r1),
        usage_step_ok(UsageState::<U>::AwaitingConfig(token), UsageEvent::<U>::ConfigLoaded(None), now, r2),
    ensures
        r1.1 == UsageAction::<U>::Finish(None),
        r2.1 == UsageAction::<U>::Finish(None),
{
}

/// A cached reading that is still fresh is shown as it is, and the API is
/// not asked.
pub proof fn law_usage_fresh_cache_is_shown<U>(
    token: String,
    settings: UsageSettings,
    cache: ApiUsageCache<U>,
    now: Instant,
    r: (UsageState<U>, UsageAction<U>),
)
    requires
        usage_step_ok(UsageState::AwaitingCache(token, settings), UsageEvent::CacheLoaded(Some(cache)), now, r),
        fresh_at(cache.cached_at@, now, settings.cache_duration),
    ensures
        r.1 matches UsageAction::Finish(Some(reading)) && reading_of_cache(reading, cache),
        !(r.1 is Fetch),
{
}

/// The API's reply is saved, stamped with the time, before it is shown;
/// the saved entry and the reading shown both say what the reply says.
pub proof fn law_usage_reply_saved_then_shown<U>(
    stale: Option<ApiUsageCache<U>>,
    reply: ApiUsageResponse<U>,
    now: Instant,
    later: Instant,
    first: (UsageState<U>, UsageAction<U>),
    second: (UsageState<U>, UsageAction<U>),
)
    requires
        usage_step_ok(UsageState::AwaitingFetch(stale), UsageEvent::Fetched(Some(reply)), now, first),
        usage_step_ok(first.0, UsageEvent::<U>::CacheSaved, later, second),
    ensures
        first.1 matches UsageAction::SaveCache(c) && c.cached_at@ == rfc3339_text(now.secs, now.nanos)
            && c.five_hour_utilization == reply.five_hour.utilization,
        second.1 matches UsageAction::Finish(Some(reading)) && reading_of_reply(reading, reply),
{
}

/// The settings' `HTTPS_PROXY` entry is looked at first: where there is
/// one, the `HTTP_PROXY` entry plays no part.
pub proof fn law_https_proxy_first(
    https: OptionValueView,
    http: Option<OptionValueView>,
    other_http: Option<OptionValueView>,
)
    ensures
        proxy_choice(Some(https), http) == proxy_choice(Some(https), other_http),
{
}

/// A cache entry that is read but no longer fresh is carried unchanged
/// through the version query and the settings read to the request; when
/// the API then gives no reply, the reading shown is the entry's own: its
/// five-hour and seven-day figures and its reset time, field by field.
pub proof fn law_usage_stale_entry_shown_when_api_fails<U>(
    token: String,
    settings: UsageSettings,
    entry: ApiUsageCache<U>,
    product: String,
    success: bool,
    stdout: Vec<u8>,
    settings_text: Option<String>,
    t1: Instant,
    t2: Instant,
    t3: Instant,
    t4: Instant,
    r1: (UsageState<U>, UsageAction<U>),
    r2: (UsageState<U>, UsageAction<U>),
    r3: (UsageState<U>, UsageAction<U>),
    r4: (UsageState<U>, UsageAction<U>),
)
    requires
        !fresh_at(entry.cached_at@, t1, settings.cache_duration),
        usage_step_ok(UsageState::AwaitingCache(token, settings), UsageEvent::CacheLoaded(Some(entry)), t1, r1),
        usage_step_ok(r1.0, UsageEvent::VersionAnswered { product, success, stdout }, t2, r2),
        usage_step_ok(r2.0, UsageEvent::SettingsRead(settings_text), t3, r3),
        usage_step_ok(r3.0, UsageEvent::Fetched(None), t4, r4),
    ensures
        r1.0 == UsageState::AwaitingVersion(Some(entry), token, settings),
        r1.1 is QueryVersion,
        r2.1 is ReadSettings,
        r3.0 == UsageState::AwaitingFetch(Some(entry)),
        r3.1 is Fetch,
        r4.0 == UsageState::<U>::Finished,
        r4.1 matches UsageAction::Finish(Some(reading)) && {
            &&& reading.five_hour == entry.five_hour_utilization
            &&& reading.seven_day == entry.seven_day_utilization
            &&& reading.resets_at == entry.resets_at
        },
{
}

/// The reset time is shown as the month, day and hour of the calendar at
/// the reset instant shifted by the clock's UTC offset, for any offset of
/// less than a day either way; when that reading is past minute 45, the
/// reading an hour later (shifted by the offset then) is shown instead.
pub proof fn law_reset_shown_on_the_local_calendar(
    d: SegmentData,
    five_hour_percent: u8,
    icon_percent: u8,
    five_hour_text: Seq<char>,
    seven_day_text: Option<Seq<char>>,
    reset: Seq<char>,
    offset: i32,
    later_offset: i32,
    secs: i64,
    nanos: u32,
)
    requires
        usage_shows(d, five_hour_percent, icon_percent, five_hour_text, seven_day_text, Some(reset), offset, later_offset),
        valid_offset(offset),
        valid_offset(later_offset),
        rfc3339_instant(reset) == Some((secs, nanos)),
    ensures
        ({
            let first = calendar_at(secs + offset);
            let shown = if first.minute > 45 { calendar_at(secs + 3600 + later_offset) } else { first };
            d.secondary@ == "· "@ + decimal(shown.month as nat) + "-"@ + decimal(shown.day as nat) + "-"@
                + decimal(shown.hour as nat)
        }),
{
}

/// What is shown of a reset time depends only on the local clock's
/// readings: two reset instants shown on clocks whose offsets bring them to
/// the same local times (now and an hour later) are shown alike, whatever
/// the signs of the offsets.
pub proof fn law_reset_label_depends_on_local_time(
    d1: SegmentData,
    d2: SegmentData,
    p: u8,
    q: u8,
    t: Seq<char>,
    s: Option<Seq<char>>,
    reset1: Seq<char>,
    reset2: Seq<char>,
    offset1: i32,
    later1: i32,
    offset2: i32,
    later2: i32,
)
    requires
        usage_shows(d1, p, q, t, s, Some(reset1), offset1, later1),
        usage_shows(d2, p, q, t, s, Some(reset2), offset2, later2),
        valid_offset(offset1),
        valid_offset(later1),
        valid_offset(offset2),
        valid_offset(later2),
        rfc3339_instant(reset1) matches Some((a, _)) && rfc3339_instant(reset2) matches Some((b, _)) && a + offset1
            == b + offset2 && a + later1 == b + later2,
    ensures
        d1.secondary@ == d2.secondary@,
{
    let (a, _) = rfc3339_instant(reset1)->0;
    let (b, _) = rfc3339_instant(reset2)->0;
    assert(calendar_at(a + offset1) == calendar_at(b + offset2));
    assert(calendar_at(a + 3600 + later1) == calendar_at(b + 3600 + later2));
    assert(reset_text(Some(reset1), offset1, later1) == reset_text(Some(reset2), offset2, later2));
    assert(d1.secondary@ == d2.secondary@);
}

/// A stale cached reading is shown only when the API gave no reply.
pub proof fn law_usage_stale_cache_only_on_failure<U>(
    cache: ApiUsageCache<U>,
    reply: Option<ApiUsageResponse<U>>,
    now: Instant,
    r: (UsageState<U>, UsageAction<U>),
)
    requires
        usage_step_ok(UsageState::AwaitingFetch(Some(cache)), UsageEvent::Fetched(reply), now, r),
        r.1 is Finish,
    ensures
        reply is None,
        r.1 matches UsageAction::Finish(Some(reading)) && reading_of_cache(reading, cache),
{
}

} // verus!
