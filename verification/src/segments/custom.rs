//! A segment that shows the first line that a user's shell command prints,
//! cached for a while between runs.
use vstd::prelude::*;
use crate::config::{InputData, SegmentId};
use crate::segments::{fresh_at, is_fresh_at, pairs_view, SegmentData};
use crate::utils::text::{decimal, decimal_string, decode_lossy, first_line, first_line_trimmed, trim, utf8_lossy};
use crate::utils::time::{format_rfc3339, rfc3339_text, Instant};

verus! {

/// A custom segment: a name, the shell command it runs, how long the
/// command may run, and for how long its output stays fresh (seconds).
pub struct CustomSegment {
    name: String,
    command: String,
    timeout_secs: u64,
    cache_duration: u64,
}

/// The cached output of a custom segment's command, with the time it was
/// taken (RFC 3339).
pub struct CustomCache {
    pub output: String,
    pub cached_at: String,
}

impl CustomSegment {
    pub closed spec fn name_text(&self) -> Seq<char> {
        self.name@
    }

    pub closed spec fn command_text(&self) -> Seq<char> {
        self.command@
    }

    pub closed spec fn timeout(&self) -> u64 {
        self.timeout_secs
    }

    pub closed spec fn max_age(&self) -> u64 {
        self.cache_duration
    }

    pub fn new(name: String, command: String, timeout_secs: u64, cache_duration: u64) -> (s: Self)
        ensures
            s.name_text() == name@,
            s.command_text() == command@,
            s.timeout() == timeout_secs,
            s.max_age() == cache_duration,
    {
        CustomSegment { name, command, timeout_secs, cache_duration }
    }

    /// The segment's name.
    pub fn name(&self) -> (r: &String)
        ensures
            r@ == self.name_text(),
    {
        &self.name
    }

    /// The shell command the segment runs.
    pub fn command(&self) -> (r: &String)
        ensures
            r@ == self.command_text(),
    {
        &self.command
    }

    /// How long the command may run, in seconds.
    pub fn timeout_secs(&self) -> (r: u64)
        ensures
            r == self.timeout(),
    {
        self.timeout_secs
    }

    /// The name of the file that caches this segment's output, in the
    /// status line's data directory: `.custom_cache_<name>.json`.
    pub fn cache_file_name(&self) -> (r: String)
        ensures
            r@ == ".custom_cache_"@ + self.name_text() + ".json"@,
    {
        let mut r = String::from_str(".custom_cache_");
        r.append(self.name.as_str());
        r.append(".json");
        r
    }

    /// The segment's identifier: custom, under its name.
    pub fn id(&self) -> (r: SegmentId)
        ensures
            r matches SegmentId::Custom(n) && n@ == self.name_text(),
    {
        SegmentId::Custom(self.name.clone())
    }
}

/// The environment variables a custom command runs with, as (name, value)
/// views: the model's id and name and the current directory, then the
/// session cost and duration where the input reports them.
pub open spec fn env_vars_spec(input: InputData) -> Seq<(Seq<char>, Seq<char>)> {
    let base = seq![
        ("CCLINE_MODEL_ID"@, input.model.id@),
        ("CCLINE_MODEL_NAME"@, input.model.display_name@),
        ("CCLINE_CURRENT_DIR"@, input.workspace.current_dir@),
    ];
    match input.cost {
        Some(cost) => {
            let with_cost = match cost.total_cost_usd {
                Some(usd) => base.push(("CCLINE_COST_USD"@, usd@)),
                None => base,
            };
            match cost.total_duration_ms {
                Some(ms) => with_cost.push(("CCLINE_DURATION_MS"@, decimal(ms as nat))),
                None => with_cost,
            }
        },
        None => base,
    }
}

/// What a finished command shows: nothing when it failed; otherwise the
/// first line of its output (decoded as UTF-8, invalid bytes replaced)
/// without surrounding whitespace, or nothing when that is empty.
pub open spec fn command_line_spec(success: bool, stdout: Seq<u8>) -> Option<Seq<char>> {
    command_line_of(success, utf8_lossy(stdout))
}

/// What a finished command shows, given whether it succeeded and the text
/// it printed.
pub open spec fn command_line_of(success: bool, printed: Seq<char>) -> Option<Seq<char>> {
    if !success {
        None
    } else {
        let line = trim(first_line(printed));
        if line.len() == 0 { None } else { Some(line) }
    }
}

/// Where a custom segment's refresh stands.
pub enum CustomState {
    /// The cache is being read.
    AwaitingCache,
    /// The command runs; the cache entry read before, if any, is kept.
    AwaitingCommand(Option<CustomCache>),
    /// The command's output is being saved to the cache.
    AwaitingSave(String),
    /// The refresh is over.
    Finished,
}

/// What the refresh asks of its caller next.
pub enum CustomAction {
    /// Read the cache file and report `CacheLoaded`.
    LoadCache,
    /// Run the command and report `CommandFinished`.
    RunCommand,
    /// Save this cache entry and report `CacheSaved`.
    SaveCache(CustomCache),
    /// Stop: show this, or hide the segment on `None`.
    Finish(Option<SegmentData>),
}

/// What the caller reports back.
pub enum CustomEvent {
    /// The cache file's entry, if it could be read and parsed.
    CacheLoaded(Option<CustomCache>),
    /// The command's output line (see `command_output`), if any.
    CommandFinished(Option<String>),
    /// The cache was written (or writing it failed; the refresh goes on).
    CacheSaved,
}

/// How many more steps a refresh takes from a state.
pub open spec fn steps_left(state: CustomState) -> nat {
    match state {
        CustomState::AwaitingCache => 3,
        CustomState::AwaitingCommand(_) => 2,
        CustomState::AwaitingSave(_) => 1,
        CustomState::Finished => 0,
    }
}

impl CustomSegment {
    /// `data` shows `primary` as this segment does: no secondary text, and
    /// the command and the segment's name as metadata.
    pub open spec fn shows(&self, data: SegmentData, primary: Seq<char>) -> bool {
        &&& data.primary@ == primary
        &&& data.secondary@ == Seq::<char>::empty()
        &&& pairs_view(data.metadata@) =~= seq![
            ("command"@, self.command_text()),
            ("custom_name"@, self.name_text()),
        ]
    }

    /// `r` is the step of a refresh from `state` on `event`, taken when
    /// the clock reads `now`.
    pub open spec fn step_ok(
        &self,
        state: CustomState,
        event: CustomEvent,
        now: Instant,
        r: (CustomState, CustomAction),
    ) -> bool {
        match (state, event) {
            (CustomState::AwaitingCache, CustomEvent::CacheLoaded(cache)) => {
                if cache is Some && fresh_at(cache->0.cached_at@, now, self.max_age()) {
                    &&& r.0 == CustomState::Finished
                    &&& r.1 matches CustomAction::Finish(Some(d)) && self.shows(d, cache->0.output@)
                } else {
                    &&& r.0 == CustomState::AwaitingCommand(cache)
                    &&& r.1 is RunCommand
                }
            },
            (CustomState::AwaitingCommand(stale), CustomEvent::CommandFinished(output)) => {
                match output {
                    Some(out) => {
                        &&& r.0 matches CustomState::AwaitingSave(o) && o@ == out@
                        &&& r.1 matches CustomAction::SaveCache(c) && c.output@ == out@
                            && c.cached_at@ == rfc3339_text(now.secs, now.nanos)
                    },
                    None => {
                        &&& r.0 == CustomState::Finished
                        &&& match stale {
                            Some(c) => r.1 matches CustomAction::Finish(Some(d)) && self.shows(d, c.output@),
                            None => r.1 == CustomAction::Finish(None),
                        }
                    },
                }
            },
            (CustomState::AwaitingSave(out), CustomEvent::CacheSaved) => {
                &&& r.0 == CustomState::Finished
                &&& r.1 matches CustomAction::Finish(Some(d)) && self.shows(d, out@)
            },
            _ => r.0 == CustomState::Finished && r.1 == CustomAction::Finish(None),
        }
    }

    /// The environment variables the command runs with.
    pub fn build_env_vars(input: &InputData) -> (vars: Vec<(String, String)>)
        ensures
            pairs_view(vars@) == env_vars_spec(*input),
    {
        let mut vars: Vec<(String, String)> = Vec::new();
        vars.push((String::from_str("CCLINE_MODEL_ID"), input.model.id.clone()));
        vars.push((String::from_str("CCLINE_MODEL_NAME"), input.model.display_name.clone()));
        vars.push((String::from_str("CCLINE_CURRENT_DIR"), input.workspace.current_dir.clone()));
        if let Some(cost) = &input.cost {
            if let Some(usd) = &cost.total_cost_usd {
                vars.push((String::from_str("CCLINE_COST_USD"), usd.clone()));
            }
            if let Some(ms) = cost.total_duration_ms {
                vars.push((String::from_str("CCLINE_DURATION_MS"), decimal_string(ms)));
            }
        }
        proof {
            assert(pairs_view(vars@) =~= env_vars_spec(*input));
        }
        vars
    }

    /// What a finished run of the command shows, given whether it exited
    /// successfully and what it printed.
    pub fn command_output(success: bool, stdout: &[u8]) -> (r: Option<String>)
        ensures
            match command_line_spec(success, stdout@) {
                Some(line) => r matches Some(s) && s@ == line,
                None => r is None,
            },
            vstd::utf8::valid_utf8(stdout@) ==> match command_line_of(success, vstd::utf8::decode_utf8(stdout@)) {
                Some(line) => r matches Some(s) && s@ == line,
                None => r is None,
            },
    {
        if !success {
            return None;
        }
        let text = decode_lossy(stdout);
        let line = first_line_trimmed(text.as_str());
        if line.as_str().unicode_len() == 0 {
            None
        } else {
            Some(line)
        }
    }

    /// Whether a cache entry is still fresh at `now`.
    pub fn is_cache_valid(&self, cache: &CustomCache, now: &Instant) -> (r: bool)
        requires
            now.valid(),
        ensures
            r == fresh_at(cache.cached_at@, *now, self.max_age()),
    {
        is_fresh_at(cache.cached_at.as_str(), now, self.cache_duration)
    }

    fn segment_data(&self, primary: String) -> (d: SegmentData)
        ensures
            self.shows(d, primary@),
    {
        let mut metadata: Vec<(String, String)> = Vec::new();
        metadata.push((String::from_str("command"), self.command.clone()));
        metadata.push((String::from_str("custom_name"), self.name.clone()));
        proof {
            assert(pairs_view(metadata@) =~= seq![
                ("command"@, self.command_text()),
                ("custom_name"@, self.name_text()),
            ]);
        }
        SegmentData { primary, secondary: String::new(), metadata }
    }

    /// Starts a refresh: a segment without a command is hidden at once;
    /// any other first reads its cache.
    pub fn start_collect(&self) -> (r: (CustomState, CustomAction))
        ensures
            self.command_text().len() == 0 ==> r.0 == CustomState::Finished && r.1 == CustomAction::Finish(None),
            self.command_text().len() != 0 ==> r.0 == CustomState::AwaitingCache && r.1 is LoadCache,
    {
        if self.command.as_str().unicode_len() == 0 {
            (CustomState::Finished, CustomAction::Finish(None))
        } else {
            (CustomState::AwaitingCache, CustomAction::LoadCache)
        }
    }

    /// One step of a refresh: from a state and what the caller reports,
    /// the next state and what to do next. A fresh cache entry is shown
    /// without running the command; otherwise the command runs, and its
    /// output is saved and shown; when it fails, the stale entry is shown
    /// if there is one. The freshness of an entry is judged, and new entries
    /// stamped, at the clock reading `now`.
    pub fn step_collect(&self, state: CustomState, event: CustomEvent, now: &Instant) -> (r: (CustomState, CustomAction))
        requires
            now.valid(),
        ensures
            self.step_ok(state, event, *now, r),
    {
        match (state, event) {
            (CustomState::AwaitingCache, CustomEvent::CacheLoaded(cache)) => {
                let fresh = match &cache {
                    Some(c) => self.is_cache_valid(c, now),
                    None => false,
                };
                if fresh {
                    match cache {
                        Some(c) => (CustomState::Finished, CustomAction::Finish(Some(self.segment_data(c.output)))),
                        None => (CustomState::Finished, CustomAction::Finish(None)),
                    }
                } else {
                    (CustomState::AwaitingCommand(cache), CustomAction::RunCommand)
                }
            },
            (CustomState::AwaitingCommand(stale), CustomEvent::CommandFinished(output)) => {
                match output {
                    Some(out) => {
                        let entry = CustomCache { output: out.clone(), cached_at: format_rfc3339(now) };
                        (CustomState::AwaitingSave(out), CustomAction::SaveCache(entry))
                    },
                    None => match stale {
                        Some(c) => (CustomState::Finished, CustomAction::Finish(Some(self.segment_data(c.output)))),
                        None => (CustomState::Finished, CustomAction::Finish(None)),
                    },
                }
            },
            (CustomState::AwaitingSave(out), CustomEvent::CacheSaved) => {
                (CustomState::Finished, CustomAction::Finish(Some(self.segment_data(out))))
            },
            _ => (CustomState::Finished, CustomAction::Finish(None)),
        }
    }
}

/// Every step of a refresh that has not finished brings it closer to its
/// end, and a step asks to finish exactly when it ends the refresh: a
/// refresh takes at most three steps after it starts.
pub proof fn law_refresh_terminates(
    segment: CustomSegment,
    state: CustomState,
    event: CustomEvent,
    now: Instant,
    r: (CustomState, CustomAction),
)
    requires
        segment.step_ok(state, event, now, r),
    ensures
        state != CustomState::Finished ==> steps_left(r.0) < steps_left(state),
        (r.1 is Finish) <==> (r.0 == CustomState::Finished),
{
}

/// A cache entry that is still fresh is shown as it is, and the command
/// does not run.
pub proof fn law_fresh_cache_is_shown(
    segment: CustomSegment,
    cache: CustomCache,
    now: Instant,
    r: (CustomState, CustomAction),
)
    requires
        segment.step_ok(CustomState::AwaitingCache, CustomEvent::CacheLoaded(Some(cache)), now, r),
        fresh_at(cache.cached_at@, now, segment.max_age()),
    ensures
        r.1 matches CustomAction::Finish(Some(d)) && segment.shows(d, cache.output@),
        !(r.1 is RunCommand),
{
}

/// The command's new output is saved, stamped with the time, before it is
/// shown, and what is shown is what was saved.
pub proof fn law_new_output_saved_then_shown(
    segment: CustomSegment,
    stale: Option<CustomCache>,
    output: String,
    now: Instant,
    later: Instant,
    first: (CustomState, CustomAction),
    second: (CustomState, CustomAction),
)
    requires
        segment.step_ok(CustomState::AwaitingCommand(stale), CustomEvent::CommandFinished(Some(output)), now, first),
        segment.step_ok(first.0, CustomEvent::CacheSaved, later, second),
    ensures
        first.1 matches CustomAction::SaveCache(c) && c.output@ == output@
            && c.cached_at@ == rfc3339_text(now.secs, now.nanos),
        second.1 matches CustomAction::Finish(Some(d)) && segment.shows(d, output@),
{
}

/// A cache entry that is read but no longer fresh is kept, unchanged,
/// while the command runs; when the command then gives no output, that
/// entry's output is shown, whatever its timestamp holds.
pub proof fn law_stale_entry_kept_for_a_failed_command(
    segment: CustomSegment,
    entry: CustomCache,
    read_at: Instant,
    done_at: Instant,
    first: (CustomState, CustomAction),
    second: (CustomState, CustomAction),
)
    requires
        !fresh_at(entry.cached_at@, read_at, segment.max_age()),
        segment.step_ok(CustomState::AwaitingCache, CustomEvent::CacheLoaded(Some(entry)), read_at, first),
        segment.step_ok(first.0, CustomEvent::CommandFinished(None), done_at, second),
    ensures
        first.0 == CustomState::AwaitingCommand(Some(entry)),
        first.1 is RunCommand,
        second.0 == CustomState::Finished,
        second.1 matches CustomAction::Finish(Some(d)) && {
            &&& d.primary@ == entry.output@
            &&& d.secondary@.len() == 0
            &&& pairs_view(d.metadata@) == seq![
                ("command"@, segment.command_text()),
                ("custom_name"@, segment.name_text()),
            ]
        },
{
}

/// A stale cache entry is shown only when the command gave no output.
pub proof fn law_stale_cache_only_on_failure(
    segment: CustomSegment,
    cache: CustomCache,
    output: Option<String>,
    now: Instant,
    r: (CustomState, CustomAction),
)
    requires
        segment.step_ok(CustomState::AwaitingCommand(Some(cache)), CustomEvent::CommandFinished(output), now, r),
        r.1 is Finish,
    ensures
        output is None,
        r.1 matches CustomAction::Finish(Some(d)) && segment.shows(d, cache.output@),
{
}

} // verus!
