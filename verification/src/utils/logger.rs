//! The debug log: whether it is on, how a line of it reads, and where a
//! log file that grew too large is cut.
use vstd::prelude::*;
use crate::utils::text::{digit_char, push_char};

verus! {

/// The size above which the log file is cut down (512 KiB).
pub const MAX_LOG_SIZE: u64 = 524288;

/// How much of the log file a cut keeps at most (256 KiB).
pub const KEPT_LOG_SIZE: usize = 262144;

/// Whether debug logging is on. It starts off.
pub struct Logger {
    enabled: bool,
}

impl Logger {
    pub closed spec fn is_on(&self) -> bool {
        self.enabled
    }

    /// A logger that is off.
    pub fn new() -> (l: Self)
        ensures
            !l.is_on(),
    {
        Logger { enabled: false }
    }

    /// Whether logging is on.
    pub fn enabled(&self) -> (r: bool)
        ensures
            r == self.is_on(),
    {
        self.enabled
    }
}

/// Turns debug logging on.
pub fn enable(logger: &mut Logger)
    ensures
        final(logger).is_on(),
{
    logger.enabled = true;
}

/// A number below 100 in two digits, with a leading zero (`{:02}`).
pub open spec fn two_digits(n: nat) -> Seq<char> {
    seq![digit_char(n / 10), digit_char(n % 10)]
}

/// The time of day, in UTC, of a count of seconds since the Unix epoch,
/// as "hh:mm:ss".
pub open spec fn clock_text(secs: u64) -> Seq<char> {
    two_digits(((secs % 86400) / 3600) as nat) + ":"@ + two_digits(((secs % 3600) / 60) as nat)
        + ":"@ + two_digits((secs % 60) as nat)
}

/// A line of the log: "[hh:mm:ss] [tag] message" and a line feed.
pub open spec fn log_line_text(tag: Seq<char>, msg: Seq<char>, secs: u64) -> Seq<char> {
    "["@ + clock_text(secs) + "] ["@ + tag + "] "@ + msg + "\n"@
}

fn digit(d: u64) -> (c: char)
    requires
        d < 10,
    ensures
        c == digit_char(d as nat),
{
    if d == 0 { '0' } else if d == 1 { '1' } else if d == 2 { '2' } else if d == 3 { '3' }
    else if d == 4 { '4' } else if d == 5 { '5' } else if d == 6 { '6' } else if d == 7 { '7' }
    else if d == 8 { '8' } else { '9' }
}

fn push_two_digits(s: &mut String, n: u64)
    requires
        n < 100,
    ensures
        final(s)@ == old(s)@ + two_digits(n as nat),
{
    push_char(s, digit(n / 10));
    push_char(s, digit(n % 10));
}

/// The time of day of `secs`, as "hh:mm:ss".
pub fn format_clock(secs: u64) -> (r: String)
    ensures
        r@ == clock_text(secs),
{
    let mut r = String::new();
    push_two_digits(&mut r, (secs % 86400) / 3600);
    r.append(":");
    push_two_digits(&mut r, (secs % 3600) / 60);
    r.append(":");
    push_two_digits(&mut r, secs % 60);
    r
}

/// The log line for a message with its tag, logged `secs` seconds after
/// the Unix epoch.
pub fn log_line(tag: &str, msg: &str, secs: u64) -> (r: String)
    ensures
        r@ == log_line_text(tag@, msg@, secs),
{
    let mut r = String::from_str("[");
    r.append(format_clock(secs).as_str());
    r.append("] [");
    r.append(tag);
    r.append("] ");
    r.append(msg);
    r.append("\n");
    r
}

/// The line to append to the log for a message, or nothing while logging
/// is off.
pub fn log_entry(logger: &Logger, tag: &str, msg: &str, secs: u64) -> (r: Option<String>)
    ensures
        !logger.is_on() ==> r is None,
        logger.is_on() ==> (r matches Some(line) && line@ == log_line_text(tag@, msg@, secs)),
{
    if logger.enabled {
        Some(log_line(tag, msg, secs))
    } else {
        None
    }
}

/// Whether a log file of `size` bytes is to be cut down.
pub fn needs_rotation(size: u64) -> (r: bool)
    ensures
        r == (size > MAX_LOG_SIZE),
{
    size > MAX_LOG_SIZE
}

/// Where the kept part of a log starts: the last 256 KiB, moved on past
/// the first line feed in them so that no partial line is kept; the whole
/// last 256 KiB when they hold no line feed.
pub open spec fn rotation_start_spec(content: Seq<u8>) -> int {
    let keep_from = if content.len() > KEPT_LOG_SIZE { content.len() - KEPT_LOG_SIZE } else { 0 };
    if exists|i: int| keep_from <= i < content.len() && content[i] == 10u8 {
        let first = choose|i: int|
            keep_from <= i < content.len() && content[i] == 10u8 && forall|j: int|
                keep_from <= j < i ==> content[j] != 10u8;
        first + 1
    } else {
        keep_from
    }
}

/// Where the kept part of an overgrown log starts.
pub fn rotation_start(content: &[u8]) -> (r: usize)
    ensures
        r == rotation_start_spec(content@),
        r <= content@.len(),
{
    let len = content.len();
    let keep_from = if len > KEPT_LOG_SIZE { len - KEPT_LOG_SIZE } else { 0 };
    let mut i = keep_from;
    while i < len
        invariant
            keep_from <= i <= len == content@.len(),
            keep_from == (if content@.len() > KEPT_LOG_SIZE { content@.len() - KEPT_LOG_SIZE } else { 0 }),
            forall|j: int| keep_from <= j < i ==> content@[j] != 10u8,
        decreases len - i,
    {
        if content[i] == 10u8 {
            proof {
                let first = choose|k: int|
                    keep_from <= k < content@.len() && content@[k] == 10u8 && forall|j: int|
                        keep_from <= j < k ==> content@[j] != 10u8;
                assert(keep_from <= i < content@.len() && content@[i as int] == 10u8);
                if first < i {
                    assert(content@[first] != 10u8);
                }
                if first > i {
                    assert(content@[i as int] != 10u8);
                }
            }
            return i + 1;
        }
        i = i + 1;
    }
    keep_from
}

/// The part of the log a cut keeps is its tail, at most 256 KiB long, and
/// begins at the start of a line: right after a line feed, or where the
/// last 256 KiB begin when they hold no line feed.
pub proof fn law_rotation_keeps_whole_lines(content: Seq<u8>)
    ensures
        ({
            let start = rotation_start_spec(content);
            let keep_from = if content.len() > KEPT_LOG_SIZE { content.len() - KEPT_LOG_SIZE } else { 0 };
            &&& keep_from <= start <= content.len()
            &&& content.len() - start <= KEPT_LOG_SIZE
            &&& start > keep_from ==> content[start - 1] == 10u8
            &&& forall|j: int| keep_from <= j < start - 1 ==> content[j] != 10u8
        }),
{
    let keep_from = if content.len() > KEPT_LOG_SIZE { content.len() - KEPT_LOG_SIZE } else { 0 };
    if exists|i: int| keep_from <= i < content.len() && content[i] == 10u8 {
        let w = choose|i: int| keep_from <= i < content.len() && content[i] == 10u8;
        lemma_first_newline(content, keep_from, w);
    }
}

proof fn lemma_first_newline(content: Seq<u8>, from: int, w: int)
    requires
        from <= w < content.len(),
        content[w] == 10u8,
    ensures
        exists|i: int|
            from <= i < content.len() && content[i] == 10u8 && forall|j: int|
                from <= j < i ==> content[j] != 10u8,
    decreases w - from,
{
    if exists|k: int| from <= k < w && content[k] == 10u8 {
        let k = choose|k: int| from <= k < w && content[k] == 10u8;
        lemma_first_newline(content, from, k);
    } else {
        assert(forall|j: int| from <= j < w ==> content[j] != 10u8);
    }
}

} // verus!
