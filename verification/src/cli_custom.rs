//! Syncing the custom segments named on the command line into the
//! configuration.
use vstd::prelude::*;
use crate::config::{AnsiColor, ColorConfig, Config, IconConfig, OptionValue, SegmentConfig, SegmentId, TextStyleConfig};
use crate::utils::text::{decimal, decimal_string};

verus! {

/// Whether a segment is a user-defined (custom) one.
pub open spec fn is_custom(seg: SegmentConfig) -> bool {
    seg.id is Custom
}

/// The segments of `segs` that are not custom, in their order.
pub open spec fn non_custom(segs: Seq<SegmentConfig>) -> Seq<SegmentConfig>
    decreases segs.len(),
{
    if segs.len() == 0 {
        Seq::empty()
    } else {
        let rest = non_custom(segs.drop_last());
        if is_custom(segs.last()) { rest } else { rest.push(segs.last()) }
    }
}

/// The name given to the custom segment made from the `index`-th command
/// (counting from zero): "custom1", "custom2", ...
pub open spec fn cli_segment_name(index: int) -> Seq<char> {
    "custom"@ + decimal((index + 1) as nat)
}

/// `seg` is the segment made from the `index`-th command `command`: named
/// as above, enabled, with a gear icon, magenta icon and white text on the
/// default background, plain text, and the options `command` (the
/// command) and `timeout` (2 seconds).
pub open spec fn is_cli_custom_segment(seg: SegmentConfig, index: int, command: Seq<char>) -> bool {
    &&& seg.id matches SegmentId::Custom(name) && name@ == cli_segment_name(index)
    &&& seg.enabled
    &&& seg.icon.plain@ == "\u{2699}"@
    &&& seg.icon.nerd_font@ == "\u{f013}"@
    &&& seg.colors.icon == Some(AnsiColor::Color16 { c16: 13 })
    &&& seg.colors.text == Some(AnsiColor::Color16 { c16: 7 })
    &&& seg.colors.background is None
    &&& !seg.styles.text_bold
    &&& seg.options@.len() == 2
    &&& seg.options@[0].0@ == "command"@
    &&& seg.options@[0].1 matches OptionValue::Text(c) && c@ == command
    &&& seg.options@[1].0@ == "timeout"@
    &&& seg.options@[1].1 == OptionValue::Unsigned(2)
}

/// `after` is what applying the commands `commands` to the segments
/// `before` gives: every custom segment of `before` removed, the others
/// kept in their order, and one new custom segment per command appended in
/// the commands' order.
pub open spec fn custom_segments_applied(
    before: Seq<SegmentConfig>,
    after: Seq<SegmentConfig>,
    commands: Seq<Seq<char>>,
) -> bool {
    let kept = non_custom(before);
    &&& after.len() == kept.len() + commands.len()
    &&& after.take(kept.len() as int) == kept
    &&& forall|i: int|
        0 <= i < commands.len() ==> is_cli_custom_segment(
            #[trigger] after[kept.len() + i],
            i,
            commands[i],
        )
}

/// The views of a list of commands.
pub open spec fn command_texts(commands: Seq<String>) -> Seq<Seq<char>> {
    commands.map_values(|c: String| c@)
}

fn cli_custom_segment(index: usize, command: &String) -> (seg: SegmentConfig)
    requires
        index < usize::MAX,
    ensures
        is_cli_custom_segment(seg, index as int, command@),
{
    let mut name = String::from_str("custom");
    let number = decimal_string((index + 1) as u64);
    name.append(number.as_str());
    let mut options: Vec<(String, OptionValue)> = Vec::new();
    options.push((String::from_str("command"), OptionValue::Text(command.clone())));
    options.push((String::from_str("timeout"), OptionValue::Unsigned(2)));
    SegmentConfig {
        id: SegmentId::Custom(name),
        enabled: true,
        icon: IconConfig {
            plain: String::from_str("\u{2699}"),
            nerd_font: String::from_str("\u{f013}"),
        },
        colors: ColorConfig {
            icon: Some(AnsiColor::Color16 { c16: 13 }),
            text: Some(AnsiColor::Color16 { c16: 7 }),
            background: None,
        },
        styles: TextStyleConfig::default(),
        options,
    }
}

proof fn lemma_non_custom_append(x: Seq<SegmentConfig>, y: Seq<SegmentConfig>)
    ensures
        non_custom(x + y) == non_custom(x) + non_custom(y),
    decreases y.len(),
{
    if y.len() == 0 {
        assert(x + y == x);
    } else {
        lemma_non_custom_append(x, y.drop_last());
        assert((x + y).drop_last() == x + y.drop_last());
    }
}

proof fn lemma_non_custom_idempotent(x: Seq<SegmentConfig>)
    ensures
        non_custom(non_custom(x)) == non_custom(x),
    decreases x.len(),
{
    if x.len() > 0 {
        lemma_non_custom_idempotent(x.drop_last());
        if !is_custom(x.last()) {
            let r = non_custom(x.drop_last());
            assert(r.push(x.last()).drop_last() == r);
        }
    }
}

proof fn lemma_non_custom_of_customs(x: Seq<SegmentConfig>)
    requires
        forall|i: int| 0 <= i < x.len() ==> is_custom(#[trigger] x[i]),
    ensures
        non_custom(x) == Seq::<SegmentConfig>::empty(),
    decreases x.len(),
{
    if x.len() > 0 {
        lemma_non_custom_of_customs(x.drop_last());
    }
}

/// What remains of a configuration once the commands are applied holds no
/// custom segment but the ones made from the commands: dropping the custom
/// segments of the result gives exactly the non-custom segments of the
/// configuration before.
pub proof fn law_non_custom_segments_preserved(
    before: Seq<SegmentConfig>,
    after: Seq<SegmentConfig>,
    commands: Seq<Seq<char>>,
)
    requires
        custom_segments_applied(before, after, commands),
    ensures
        non_custom(after) == non_custom(before),
{
    let k = non_custom(before).len() as int;
    let head = after.take(k);
    let tail = after.skip(k);
    assert(after == head + tail);
    assert forall|i: int| 0 <= i < tail.len() implies is_custom(#[trigger] tail[i]) by {
        assert(tail[i] == after[k + i]);
    }
    lemma_non_custom_append(head, tail);
    lemma_non_custom_of_customs(tail);
    lemma_non_custom_idempotent(before);
    assert(non_custom(head) + Seq::<SegmentConfig>::empty() == non_custom(head));
}

/// Applying the same commands a second time changes nothing that applying
/// them once did not: the result of two applications is a result of one.
pub proof fn law_apply_custom_segments_idempotent(
    first: Seq<SegmentConfig>,
    second: Seq<SegmentConfig>,
    third: Seq<SegmentConfig>,
    commands: Seq<Seq<char>>,
)
    requires
        custom_segments_applied(first, second, commands),
        custom_segments_applied(second, third, commands),
    ensures
        custom_segments_applied(first, third, commands),
{
    law_non_custom_segments_preserved(first, second, commands);
}

proof fn lemma_non_custom_is_filter(segs: Seq<SegmentConfig>)
    ensures
        non_custom(segs) == segs.filter(|s: SegmentConfig| !(s.id is Custom)),
    decreases segs.len(),
{
    reveal(Seq::filter);
    if segs.len() > 0 {
        lemma_non_custom_is_filter(segs.drop_last());
    }
}

/// Applying the commands keeps, ahead of the new segments and in their
/// order, exactly the segments whose id is not `Custom(_)`; it drops
/// every `Custom(_)` segment and no other.
pub proof fn law_only_custom_ids_are_dropped(
    before: Seq<SegmentConfig>,
    after: Seq<SegmentConfig>,
    commands: Seq<Seq<char>>,
)
    requires
        custom_segments_applied(before, after, commands),
    ensures
        after.len() >= commands.len(),
        after.take(after.len() - commands.len()) == before.filter(|s: SegmentConfig| !(s.id is Custom)),
        forall|i: int| 0 <= i < after.len() - commands.len() ==> !(#[trigger] after[i].id is Custom),
{
    lemma_non_custom_is_filter(before);
    let kept = before.filter(|s: SegmentConfig| !(s.id is Custom));
    assert forall|i: int| 0 <= i < after.len() - commands.len() implies !(#[trigger] after[i].id is Custom) by {
        assert(after.take(kept.len() as int)[i] == after[i]);
        before.lemma_filter_pred(|s: SegmentConfig| !(s.id is Custom), i);
    }
}

/// With no custom segment in the configuration and no command given, the
/// segments stay exactly as they were.
pub proof fn law_no_commands_no_customs_unchanged(before: Seq<SegmentConfig>, after: Seq<SegmentConfig>)
    requires
        custom_segments_applied(before, after, Seq::empty()),
        forall|i: int| 0 <= i < before.len() ==> !(#[trigger] before[i].id is Custom),
    ensures
        after == before,
{
    lemma_non_custom_is_filter(before);
    let kept = before.filter(|s: SegmentConfig| !(s.id is Custom));
    assert(kept == before) by {
        lemma_filter_all(before);
    }
    assert(after.take(after.len() as int) == after);
}

proof fn lemma_filter_all(segs: Seq<SegmentConfig>)
    requires
        forall|i: int| 0 <= i < segs.len() ==> !(#[trigger] segs[i].id is Custom),
    ensures
        segs.filter(|s: SegmentConfig| !(s.id is Custom)) == segs,
    decreases segs.len(),
{
    reveal(Seq::filter);
    if segs.len() > 0 {
        let init = segs.drop_last();
        assert forall|i: int| 0 <= i < init.len() implies !(#[trigger] init[i].id is Custom) by {
            assert(init[i] == segs[i]);
        }
        lemma_filter_all(init);
        assert(init.push(segs.last()) == segs);
    }
}

/// Replaces the custom segments of `config` by one custom segment per
/// command in `custom_commands`, keeping every other segment in place.
pub fn apply_custom_segments(config: &mut Config, custom_commands: &[String])
    ensures
        custom_segments_applied(
            old(config).segments@,
            final(config).segments@,
            command_texts(custom_commands@),
        ),
{
    let mut previous: Vec<SegmentConfig> = Vec::new();
    std::mem::swap(&mut previous, &mut config.segments);
    let ghost before = previous@;
    let mut kept: Vec<SegmentConfig> = Vec::new();
    for seg in it: previous.into_iter()
        invariant
            it.seq() == before,
            kept@ == non_custom(before.take(it.index())),
    {
        proof {
            assert(before.take(it.index() + 1).drop_last() == before.take(it.index()));
        }
        if !matches!(seg.id, SegmentId::Custom(_)) {
            kept.push(seg);
        }
    }
    proof {
        assert(before.take(before.len() as int) == before);
    }
    let ghost kept_len = kept@.len();
    let ghost commands = command_texts(custom_commands@);
    let mut i: usize = 0;
    while i < custom_commands.len()
        invariant
            i <= custom_commands.len(),
            commands == command_texts(custom_commands@),
            kept@.len() == kept_len + i,
            kept_len == non_custom(before).len(),
            kept@.take(kept_len as int) == non_custom(before),
            forall|j: int| 0 <= j < i ==> is_cli_custom_segment(#[trigger] kept@[kept_len + j], j, commands[j]),
        decreases custom_commands.len() - i,
    {
        let seg = cli_custom_segment(i, &custom_commands[i]);
        kept.push(seg);
        proof {
            assert(kept@.take(kept_len as int) == kept@.drop_last().take(kept_len as int));
        }
        i = i + 1;
    }
    config.segments = kept;
}

} // verus!
