//! The configuration model: which segments the status line shows and how
//! each is styled, plus the session data that the coding assistant hands the
//! status line on standard input.
use vstd::prelude::*;
use crate::utils::text::same_text;

verus! {

/// Identifies a status-line segment.
pub enum SegmentId {
    Model,
    Directory,
    Git,
    ContextWindow,
    Usage,
    Cost,
    Session,
    OutputStyle,
    Update,
    /// A user-defined segment that shows the output of a shell command;
    /// the string is the segment's name.
    Custom(String),
}

/// A terminal colour.
pub enum AnsiColor {
    Color16 { c16: u8 },
    Color256 { c256: u8 },
    Rgb { r: u8, g: u8, b: u8 },
}

/// Colours of a segment's icon, text and background.
pub struct ColorConfig {
    pub icon: Option<AnsiColor>,
    pub text: Option<AnsiColor>,
    pub background: Option<AnsiColor>,
}

/// The icon of a segment, in plain Unicode and in a Nerd Font glyph.
pub struct IconConfig {
    pub plain: String,
    pub nerd_font: String,
}

/// Text attributes of a segment.
pub struct TextStyleConfig {
    pub text_bold: bool,
}

impl Default for TextStyleConfig {
    fn default() -> (s: Self)
        ensures
            !s.text_bold,
    {
        TextStyleConfig { text_bold: false }
    }
}

/// A segment option's value, as the segments read it: a string, an
/// unsigned integer, or anything else, kept as its JSON text (which every
/// reader ignores).
pub enum OptionValue {
    Text(String),
    Unsigned(u64),
    Other(String),
}

/// The view of an option's value.
pub enum OptionValueView {
    Text(Seq<char>),
    Unsigned(u64),
    Other(Seq<char>),
}

impl View for OptionValue {
    type V = OptionValueView;

    open spec fn view(&self) -> OptionValueView {
        match self {
            OptionValue::Text(s) => OptionValueView::Text(s@),
            OptionValue::Unsigned(n) => OptionValueView::Unsigned(*n),
            OptionValue::Other(j) => OptionValueView::Other(j@),
        }
    }
}

/// The view of an optional option value.
pub open spec fn opt_value_view(v: Option<OptionValue>) -> Option<OptionValueView> {
    match v {
        Some(x) => Some(x@),
        None => None,
    }
}

/// The configuration of one segment. `options` holds each key at most once.
pub struct SegmentConfig {
    pub id: SegmentId,
    pub enabled: bool,
    pub icon: IconConfig,
    pub colors: ColorConfig,
    pub styles: TextStyleConfig,
    pub options: Vec<(String, OptionValue)>,
}

/// The status-line configuration: the segments, in display order.
pub struct Config {
    pub segments: Vec<SegmentConfig>,
}

/// The model that the session runs.
pub struct ModelInfo {
    pub id: String,
    pub display_name: String,
}

/// The session's workspace.
pub struct WorkspaceInfo {
    pub current_dir: String,
}

/// Cost figures of the session. `total_cost_usd` is the dollar amount
/// rendered with four decimals (e.g. "0.0123").
pub struct CostInfo {
    pub total_cost_usd: Option<String>,
    pub total_duration_ms: Option<u64>,
}

/// What the coding assistant reports about the session.
pub struct InputData {
    pub model: ModelInfo,
    pub workspace: WorkspaceInfo,
    pub cost: Option<CostInfo>,
}

/// The value of the first option named `key`.
pub open spec fn lookup_option(options: Seq<(String, OptionValue)>, key: Seq<char>) -> Option<OptionValue>
    decreases options.len(),
{
    if options.len() == 0 {
        None
    } else if options[0].0@ == key {
        Some(options[0].1)
    } else {
        lookup_option(options.drop_first(), key)
    }
}

impl SegmentConfig {
    /// The value of the option named `key`.
    pub fn option(&self, key: &str) -> (r: Option<&OptionValue>)
        ensures
            match r {
                Some(v) => lookup_option(self.options@, key@) == Some(*v),
                None => lookup_option(self.options@, key@) is None,
            },
    {
        let mut i: usize = 0;
        assert(self.options@.skip(0) == self.options@);
        while i < self.options.len()
            invariant
                i <= self.options@.len(),
                lookup_option(self.options@, key@) == lookup_option(self.options@.skip(i as int), key@),
            decreases self.options.len() - i,
        {
            assert(self.options@.skip(i as int).drop_first() == self.options@.skip(i + 1));
            assert(self.options@.skip(i as int)[0] == self.options@[i as int]);
            if same_text(self.options[i].0.as_str(), key) {
                return Some(&self.options[i].1);
            }
            i = i + 1;
        }
        None
    }
}

} // verus!
