//! Spoken-form duration formatting, for durations a screen reader has to read out.

use vstd::prelude::*;

use crate::i18n::{PluralMessage, catalog_plural_text, localize_plural};
use crate::text::{decimal, decimal_text, join, joined, replace_first, replaced_first};

verus! {

/// Whole hours in a duration of `total` seconds.
pub open spec fn hours_of(total: nat) -> nat {
    total / 3600
}

/// Minutes left over after the whole hours.
pub open spec fn minutes_of(total: nat) -> nat {
    (total % 3600) / 60
}

/// Seconds left over after the whole minutes.
pub open spec fn seconds_of(total: nat) -> nat {
    total % 60
}

/// The placeholder a segment template carries for its count.
pub open spec fn count_placeholder() -> Seq<char> {
    seq!['%', 'd']
}

/// The separator between segments.
pub open spec fn segment_separator() -> Seq<char> {
    seq![',', ' ']
}

/// The units a duration is spoken in, largest first.
#[derive(Debug, Clone, Copy, PartialEq, Eq, Structural)]
pub enum DurationUnit {
    Hours,
    Minutes,
    Seconds,
}

/// How many of `unit` a duration of `total` seconds speaks.
pub open spec fn unit_count(total: nat, unit: DurationUnit) -> nat {
    match unit {
        DurationUnit::Hours => hours_of(total),
        DurationUnit::Minutes => minutes_of(total),
        DurationUnit::Seconds => seconds_of(total),
    }
}

/// How many seconds one of `unit` is.
pub open spec fn unit_seconds(unit: DurationUnit) -> nat {
    match unit {
        DurationUnit::Hours => 3600,
        DurationUnit::Minutes => 60,
        DurationUnit::Seconds => 1,
    }
}

/// Whether a duration of `total` seconds has a segment for `unit`: hours and minutes when
/// there are any, seconds when there are any or the whole duration is zero.
pub open spec fn unit_spoken(total: nat, unit: DurationUnit) -> bool {
    match unit {
        DurationUnit::Seconds => seconds_of(total) >= 1 || total == 0,
        _ => unit_count(total, unit) >= 1,
    }
}

/// The singular message of a unit's segment.
pub open spec fn unit_singular(unit: DurationUnit) -> Seq<char> {
    match unit {
        DurationUnit::Hours => "%d hour"@,
        DurationUnit::Minutes => "%d minute"@,
        DurationUnit::Seconds => "%d second"@,
    }
}

/// The plural message of a unit's segment.
pub open spec fn unit_plural(unit: DurationUnit) -> Seq<char> {
    match unit {
        DurationUnit::Hours => "%d hours"@,
        DurationUnit::Minutes => "%d minutes"@,
        DurationUnit::Seconds => "%d seconds"@,
    }
}

/// The units a duration of `total` seconds is spoken in, in order.
pub open spec fn spoken_units(total: nat) -> Seq<DurationUnit> {
    (if unit_spoken(total, DurationUnit::Hours) { seq![DurationUnit::Hours] } else { Seq::empty() })
    + (if unit_spoken(total, DurationUnit::Minutes) { seq![DurationUnit::Minutes] } else { Seq::empty() })
    + (if unit_spoken(total, DurationUnit::Seconds) { seq![DurationUnit::Seconds] } else { Seq::empty() })
}

/// The seconds that the segments for `units` of a duration of `total` seconds stand for.
pub open spec fn units_total(total: nat, units: Seq<DurationUnit>) -> nat
    decreases units.len(),
{
    if units.len() == 0 {
        0
    } else {
        unit_count(total, units[0]) * unit_seconds(units[0]) + units_total(total, units.skip(1))
    }
}

/// A segment: its template with the first placeholder replaced by the count in decimal.
pub open spec fn segment_text(template: Seq<char>, count: nat) -> Seq<char> {
    replaced_first(template, count_placeholder(), decimal(count))
}

/// The segments spoken for a duration of `total` seconds, in order hours, minutes, seconds.
/// A zero part is left out, except that a zero duration keeps its seconds.
pub open spec fn duration_segments(
    total: nat,
    hour_template: Seq<char>,
    minute_template: Seq<char>,
    second_template: Seq<char>,
) -> Seq<Seq<char>> {
    (if hours_of(total) >= 1 {
        seq![segment_text(hour_template, hours_of(total))]
    } else {
        Seq::empty()
    }) + (if minutes_of(total) >= 1 {
        seq![segment_text(minute_template, minutes_of(total))]
    } else {
        Seq::empty()
    }) + (if seconds_of(total) >= 1 || total == 0 {
        seq![segment_text(second_template, seconds_of(total))]
    } else {
        Seq::empty()
    })
}

/// The spoken duration: its segments joined with `", "`.
pub open spec fn duration_text(
    total: nat,
    hour_template: Seq<char>,
    minute_template: Seq<char>,
    second_template: Seq<char>,
) -> Seq<char> {
    joined(duration_segments(total, hour_template, minute_template, second_template), segment_separator())
}

/// Speaks a duration of `total_seconds` given the segment templates already chosen for it:
/// each template's `%d` is filled with its count, zero parts are left out (a zero duration
/// keeps its seconds), and the segments are joined with `", "`.
pub fn spell_duration(
    total_seconds: u64,
    hour_template: &str,
    minute_template: &str,
    second_template: &str,
) -> (text: String)
    ensures
        text@ == duration_text(total_seconds as nat, hour_template@, minute_template@, second_template@),
{
    let hours = total_seconds / 3600;
    let minutes = (total_seconds % 3600) / 60;
    let seconds = total_seconds % 60;
    let mut parts: Vec<String> = Vec::new();
    proof {
        reveal_strlit("%d");
        assert("%d"@ == count_placeholder());
    }
    if hours >= 1 {
        let count = decimal_text(hours);
        parts.push(replace_first(hour_template, "%d", count.as_str()));
    }
    if minutes >= 1 {
        let count = decimal_text(minutes);
        parts.push(replace_first(minute_template, "%d", count.as_str()));
    }
    if seconds >= 1 || total_seconds == 0 {
        let count = decimal_text(seconds);
        parts.push(replace_first(second_template, "%d", count.as_str()));
    }
    let text = join(&parts, ", ");
    proof {
        reveal_strlit(", ");
        assert(", "@ == segment_separator());
        assert(parts@.map_values(|p: String| p@) == duration_segments(
            total_seconds as nat,
            hour_template@,
            minute_template@,
            second_template@,
        ));
    }
    text
}

/// Formats a duration in whole seconds as a localized, comma-joined list of its non-zero
/// segments, such as `"1 hour, 5 minutes, 3 seconds"`.
///
/// Written out in words rather than as `1:05:03` because this is text a screen reader reads
/// aloud, and a colon-separated form is liable to be read as a time of day.
///
/// A zero segment is left out, so an exact hour is `"1 hour"` rather than `"1 hour, 0 minutes,
/// 0 seconds"`. A zero duration is the one exception, and is `"0 seconds"` rather than nothing
/// at all. Each segment's wording comes from patois, so the contract speaks of it through the
/// templates that patois handed back.
pub fn format_duration_seconds(total_seconds: u64) -> (text: String)
    ensures
        exists|hour_template: Seq<char>, minute_template: Seq<char>, second_template: Seq<char>| {
            &&& text@ == #[trigger] duration_text(total_seconds as nat, hour_template, minute_template, second_template)
            &&& segment_template_from_catalog(total_seconds as nat, DurationUnit::Hours, hour_template)
            &&& segment_template_from_catalog(total_seconds as nat, DurationUnit::Minutes, minute_template)
            &&& segment_template_from_catalog(total_seconds as nat, DurationUnit::Seconds, second_template)
        },
        text@.len() > 0,
{
    let hour_template = segment_template(total_seconds, DurationUnit::Hours);
    let minute_template = segment_template(total_seconds, DurationUnit::Minutes);
    let second_template = segment_template(total_seconds, DurationUnit::Seconds);
    let text = spell_duration(
        total_seconds,
        hour_template.as_str(),
        minute_template.as_str(),
        second_template.as_str(),
    );
    proof {
        lemma_spoken_text_is_not_empty(total_seconds as nat, hour_template@, minute_template@, second_template@);
    }
    text
}

/// Whether `template` can be the template of `unit`'s segment in a duration of `total`
/// seconds: when the duration has that segment, a non-empty text the catalog may give for the
/// unit's message with the unit's count.
pub open spec fn segment_template_from_catalog(total: nat, unit: DurationUnit, template: Seq<char>) -> bool {
    unit_spoken(total, unit) ==> {
        &&& template.len() > 0
        &&& catalog_plural_text(unit_singular(unit), unit_plural(unit), unit_count(total, unit), template)
    }
}

/// Whether a duration of `total_seconds` has a segment for `unit`.
pub fn unit_is_spoken(total_seconds: u64, unit: DurationUnit) -> (spoken: bool)
    ensures
        spoken == unit_spoken(total_seconds as nat, unit),
{
    match unit {
        DurationUnit::Hours => total_seconds / 3600 >= 1,
        DurationUnit::Minutes => (total_seconds % 3600) / 60 >= 1,
        DurationUnit::Seconds => total_seconds % 60 >= 1 || total_seconds == 0,
    }
}

/// The message patois is asked for a unit's segment: the unit's singular and plural messages
/// and its count in the duration.
pub fn segment_message(total_seconds: u64, unit: DurationUnit) -> (message: PluralMessage)
    ensures
        message.singular@ == unit_singular(unit),
        message.plural@ == unit_plural(unit),
        message.count == unit_count(total_seconds as nat, unit),
{
    match unit {
        DurationUnit::Hours => PluralMessage { singular: "%d hour", plural: "%d hours", count: total_seconds / 3600 },
        DurationUnit::Minutes => PluralMessage {
            singular: "%d minute",
            plural: "%d minutes",
            count: (total_seconds % 3600) / 60,
        },
        DurationUnit::Seconds => PluralMessage {
            singular: "%d second",
            plural: "%d seconds",
            count: total_seconds % 60,
        },
    }
}

/// The localized template of a unit's segment, asked of patois with [`segment_message`] when
/// the duration has that segment, and empty (unused) when it has not.
fn segment_template(total_seconds: u64, unit: DurationUnit) -> (template: String)
    ensures
        segment_template_from_catalog(total_seconds as nat, unit, template@),
{
    if unit_is_spoken(total_seconds, unit) {
        let message = segment_message(total_seconds, unit);
        proof {
            reveal_strlit("%d hour");
            reveal_strlit("%d hours");
            reveal_strlit("%d minute");
            reveal_strlit("%d minutes");
            reveal_strlit("%d second");
            reveal_strlit("%d seconds");
        }
        localize_plural(&message)
    } else {
        String::new()
    }
}

/// [`format_duration_seconds`] for a duration given in milliseconds, rounded down to the second.
pub fn format_duration_ms(total_ms: u64) -> (text: String)
    ensures
        exists|hour_template: Seq<char>, minute_template: Seq<char>, second_template: Seq<char>| {
            &&& text@ == #[trigger] duration_text((total_ms / 1000) as nat, hour_template, minute_template, second_template)
            &&& segment_template_from_catalog((total_ms / 1000) as nat, DurationUnit::Hours, hour_template)
            &&& segment_template_from_catalog((total_ms / 1000) as nat, DurationUnit::Minutes, minute_template)
            &&& segment_template_from_catalog((total_ms / 1000) as nat, DurationUnit::Seconds, second_template)
        },
        text@.len() > 0,
{
    format_duration_seconds(total_ms / 1000)
}

/// A duration splits exactly into its hours, minutes and seconds, with the minutes and seconds
/// each under 60.
pub proof fn lemma_duration_parts(total: nat)
    ensures
        hours_of(total) * 3600 + minutes_of(total) * 60 + seconds_of(total) == total,
        minutes_of(total) < 60,
        seconds_of(total) < 60,
{
    assert(total % 3600 == minutes_of(total) * 60 + seconds_of(total)) by (nonlinear_arith)
        requires
            total >= 0,
    ;
    assert(total == hours_of(total) * 3600 + total % 3600) by (nonlinear_arith);
}


/// Which parts a duration speaks: hours and minutes when they are non-zero, seconds when
/// they are non-zero or the whole duration is zero. So a duration is never spoken as nothing,
/// and a zero duration is its seconds segment alone.
pub proof fn lemma_duration_segments(
    total: nat,
    hour_template: Seq<char>,
    minute_template: Seq<char>,
    second_template: Seq<char>,
)
    ensures
        duration_segments(total, hour_template, minute_template, second_template).len()
            == (if hours_of(total) >= 1 { 1int } else { 0int })
            + (if minutes_of(total) >= 1 { 1int } else { 0int })
            + (if seconds_of(total) >= 1 || total == 0 { 1int } else { 0int }),
        duration_segments(total, hour_template, minute_template, second_template).len() >= 1,
        total == 0 ==> duration_text(total, hour_template, minute_template, second_template)
            == segment_text(second_template, 0),
{
    lemma_duration_parts(total);
    if total == 0 {
        assert(duration_segments(total, hour_template, minute_template, second_template)
            == seq![segment_text(second_template, 0)]);
    }
}

/// A non-empty template stays non-empty when a non-empty count is filled into it.
pub proof fn lemma_filled_template_is_not_empty(template: Seq<char>, count: nat)
    requires
        template.len() > 0,
    ensures
        segment_text(template, count).len() > 0,
    decreases template.len(),
{
    let pat = count_placeholder();
    assert(decimal(count).len() > 0) by {
        lemma_decimal_is_not_empty(count);
    }
    if template.len() < pat.len() {
    } else if template.take(pat.len() as int) == pat {
    } else {
    }
}

/// Every number has at least one digit.
pub proof fn lemma_decimal_is_not_empty(n: nat)
    ensures
        decimal(n).len() > 0,
    decreases n,
{
    if n >= 10 {
        lemma_decimal_is_not_empty(n / 10);
    }
}

/// A joined list with at least one non-empty part is not empty.
proof fn lemma_joined_is_not_empty(parts: Seq<Seq<char>>, sep: Seq<char>)
    requires
        parts.len() > 0,
        forall|i: int| 0 <= i < parts.len() ==> #[trigger] parts[i].len() > 0,
    ensures
        joined(parts, sep).len() > 0,
    decreases parts.len(),
{
    if parts.len() > 1 {
        lemma_joined_is_not_empty(parts.drop_last(), sep);
    }
}

/// A duration spoken with non-empty templates for its segments is never empty text.
pub proof fn lemma_spoken_text_is_not_empty(
    total: nat,
    hour_template: Seq<char>,
    minute_template: Seq<char>,
    second_template: Seq<char>,
)
    requires
        unit_spoken(total, DurationUnit::Hours) ==> hour_template.len() > 0,
        unit_spoken(total, DurationUnit::Minutes) ==> minute_template.len() > 0,
        unit_spoken(total, DurationUnit::Seconds) ==> second_template.len() > 0,
    ensures
        duration_text(total, hour_template, minute_template, second_template).len() > 0,
{
    let segs = duration_segments(total, hour_template, minute_template, second_template);
    if unit_spoken(total, DurationUnit::Hours) {
        lemma_filled_template_is_not_empty(hour_template, hours_of(total));
    }
    if unit_spoken(total, DurationUnit::Minutes) {
        lemma_filled_template_is_not_empty(minute_template, minutes_of(total));
    }
    if unit_spoken(total, DurationUnit::Seconds) {
        lemma_filled_template_is_not_empty(second_template, seconds_of(total));
    }
    lemma_duration_segments(total, hour_template, minute_template, second_template);
    lemma_joined_is_not_empty(segs, segment_separator());
}

/// The segments of a spoken duration add back up to it: the units spoken come largest first,
/// each with a count of at least one unless the duration is zero, and their counts times their
/// sizes sum to the total. Segment by segment, the text speaks those units with those counts.
pub proof fn lemma_segments_add_up(
    total: nat,
    hour_template: Seq<char>,
    minute_template: Seq<char>,
    second_template: Seq<char>,
)
    ensures
        units_total(total, spoken_units(total)) == total,
        forall|i: int, j: int| 0 <= i < j < spoken_units(total).len() ==>
            unit_seconds(#[trigger] spoken_units(total)[i]) > unit_seconds(#[trigger] spoken_units(total)[j]),
        forall|i: int| 0 <= i < spoken_units(total).len() ==>
            unit_count(total, #[trigger] spoken_units(total)[i]) >= 1 || total == 0,
        duration_segments(total, hour_template, minute_template, second_template).len()
            == spoken_units(total).len(),
        forall|i: int| 0 <= i < spoken_units(total).len() ==>
            duration_segments(total, hour_template, minute_template, second_template)[i]
                == segment_text(
                    unit_template(#[trigger] spoken_units(total)[i], hour_template, minute_template, second_template),
                    unit_count(total, spoken_units(total)[i]),
                ),
{
    lemma_spoken_units_sum(total);
    lemma_segments_follow_units(total, hour_template, minute_template, second_template);
}

/// The template a unit's segment is filled from.
pub open spec fn unit_template(
    unit: DurationUnit,
    hour_template: Seq<char>,
    minute_template: Seq<char>,
    second_template: Seq<char>,
) -> Seq<char> {
    match unit {
        DurationUnit::Hours => hour_template,
        DurationUnit::Minutes => minute_template,
        DurationUnit::Seconds => second_template,
    }
}

/// The spoken units, one list per unit: the unit alone when it is spoken, else nothing.
spec fn spoken_unit(total: nat, unit: DurationUnit) -> Seq<DurationUnit> {
    if unit_spoken(total, unit) { seq![unit] } else { Seq::empty() }
}

/// The seconds a single spoken unit stands for.
proof fn lemma_units_total_single(total: nat, unit: DurationUnit)
    ensures
        units_total(total, spoken_unit(total, unit)) == unit_count(total, unit) * unit_seconds(unit),
{
    lemma_duration_parts(total);
    if unit_spoken(total, unit) {
        assert(spoken_unit(total, unit).skip(1) =~= Seq::<DurationUnit>::empty());
        assert(units_total(total, Seq::<DurationUnit>::empty()) == 0);
    } else {
        assert(unit_count(total, unit) == 0);
    }
}

/// The spoken units' counts times their sizes sum to the total, largest unit first.
proof fn lemma_spoken_units_sum(total: nat)
    ensures
        units_total(total, spoken_units(total)) == total,
        forall|i: int, j: int| 0 <= i < j < spoken_units(total).len() ==>
            unit_seconds(#[trigger] spoken_units(total)[i]) > unit_seconds(#[trigger] spoken_units(total)[j]),
        forall|i: int| 0 <= i < spoken_units(total).len() ==>
            unit_count(total, #[trigger] spoken_units(total)[i]) >= 1 || total == 0,
{
    lemma_duration_parts(total);
    let hs = spoken_unit(total, DurationUnit::Hours);
    let ms = spoken_unit(total, DurationUnit::Minutes);
    let ss = spoken_unit(total, DurationUnit::Seconds);
    assert(spoken_units(total) =~= hs + ms + ss);
    lemma_units_total_concat(total, hs + ms, ss);
    lemma_units_total_concat(total, hs, ms);
    lemma_units_total_single(total, DurationUnit::Hours);
    lemma_units_total_single(total, DurationUnit::Minutes);
    lemma_units_total_single(total, DurationUnit::Seconds);
}

/// Segment by segment, the text speaks the spoken units with their counts.
proof fn lemma_segments_follow_units(
    total: nat,
    hour_template: Seq<char>,
    minute_template: Seq<char>,
    second_template: Seq<char>,
)
    ensures
        duration_segments(total, hour_template, minute_template, second_template).len()
            == spoken_units(total).len(),
        forall|i: int| 0 <= i < spoken_units(total).len() ==>
            duration_segments(total, hour_template, minute_template, second_template)[i]
                == segment_text(
                    unit_template(#[trigger] spoken_units(total)[i], hour_template, minute_template, second_template),
                    unit_count(total, spoken_units(total)[i]),
                ),
{
    let units = spoken_units(total);
    let segs = duration_segments(total, hour_template, minute_template, second_template);
    assert(segs =~= units.map_values(|u: DurationUnit|
        segment_text(unit_template(u, hour_template, minute_template, second_template), unit_count(total, u))));
}

/// The seconds a list of segments stands for add up over a split of the list.
proof fn lemma_units_total_concat(total: nat, a: Seq<DurationUnit>, b: Seq<DurationUnit>)
    ensures
        units_total(total, a + b) == units_total(total, a) + units_total(total, b),
    decreases a.len(),
{
    if a.len() == 0 {
        assert(a + b == b);
    } else {
        assert((a + b).skip(1) == a.skip(1) + b);
        lemma_units_total_concat(total, a.skip(1), b);
    }
}

/// Milliseconds within the same second speak the same duration.
pub proof fn lemma_ms_within_a_second(seconds: nat, extra_ms: nat)
    requires
        extra_ms < 1000,
    ensures
        (seconds * 1000 + extra_ms) / 1000 == seconds,
{
    assert((seconds * 1000 + extra_ms) / 1000 == seconds) by (nonlinear_arith)
        requires
            extra_ms < 1000,
    ;
}

/// The form a plural message takes when the catalog has no entry for it: the singular for a
/// count of 1, the plural otherwise.
pub open spec fn untranslated_form(singular: Seq<char>, plural: Seq<char>, count: nat) -> Seq<char> {
    if count == 1 {
        singular
    } else {
        plural
    }
}

/// The template of `unit`'s segment in a duration of `total` seconds when the catalog has no
/// entry for it.
pub open spec fn untranslated_template(total: nat, unit: DurationUnit) -> Seq<char> {
    untranslated_form(unit_singular(unit), unit_plural(unit), unit_count(total, unit))
}

/// The word a segment names its unit with, singular for a count of 1.
pub open spec fn unit_word(unit: DurationUnit, count: nat) -> Seq<char> {
    match unit {
        DurationUnit::Hours => if count == 1 { "hour"@ } else { "hours"@ },
        DurationUnit::Minutes => if count == 1 { "minute"@ } else { "minutes"@ },
        DurationUnit::Seconds => if count == 1 { "second"@ } else { "seconds"@ },
    }
}

/// An untranslated segment reads as its count, a space, and its unit's word.
proof fn lemma_untranslated_segment(total: nat, unit: DurationUnit)
    ensures
        segment_text(untranslated_template(total, unit), unit_count(total, unit))
            == decimal(unit_count(total, unit)) + seq![' '] + unit_word(unit, unit_count(total, unit)),
{
    reveal_strlit("%d hour");
    reveal_strlit("%d hours");
    reveal_strlit("%d minute");
    reveal_strlit("%d minutes");
    reveal_strlit("%d second");
    reveal_strlit("%d seconds");
    reveal_strlit("hour");
    reveal_strlit("hours");
    reveal_strlit("minute");
    reveal_strlit("minutes");
    reveal_strlit("second");
    reveal_strlit("seconds");
    let t = untranslated_template(total, unit);
    let k = unit_count(total, unit);
    assert(t.take(2) =~= count_placeholder());
    assert(t.skip(2) =~= seq![' '] + unit_word(unit, k));
}

/// With no catalog entries, a duration reads as its spoken segments joined with `", "`, each
/// segment being its count, a space, and its unit's word ("hour", "minute", "second"), plural
/// unless the count is 1; the segments come largest unit first and add back up to the total
/// (see [`lemma_segments_add_up`]).
pub proof fn lemma_untranslated_duration(total: nat)
    ensures
        duration_text(
            total,
            untranslated_template(total, DurationUnit::Hours),
            untranslated_template(total, DurationUnit::Minutes),
            untranslated_template(total, DurationUnit::Seconds),
        ) == joined(
            duration_segments(
                total,
                untranslated_template(total, DurationUnit::Hours),
                untranslated_template(total, DurationUnit::Minutes),
                untranslated_template(total, DurationUnit::Seconds),
            ),
            segment_separator(),
        ),
        duration_segments(
            total,
            untranslated_template(total, DurationUnit::Hours),
            untranslated_template(total, DurationUnit::Minutes),
            untranslated_template(total, DurationUnit::Seconds),
        ).len() == spoken_units(total).len(),
        forall|i: int| 0 <= i < spoken_units(total).len() ==>
            duration_segments(
                total,
                untranslated_template(total, DurationUnit::Hours),
                untranslated_template(total, DurationUnit::Minutes),
                untranslated_template(total, DurationUnit::Seconds),
            )[i] == decimal(unit_count(total, #[trigger] spoken_units(total)[i])) + seq![' ']
                + unit_word(spoken_units(total)[i], unit_count(total, spoken_units(total)[i])),
{
    let ht = untranslated_template(total, DurationUnit::Hours);
    let mt = untranslated_template(total, DurationUnit::Minutes);
    let st = untranslated_template(total, DurationUnit::Seconds);
    lemma_segments_follow_units(total, ht, mt, st);
    lemma_untranslated_segment(total, DurationUnit::Hours);
    lemma_untranslated_segment(total, DurationUnit::Minutes);
    lemma_untranslated_segment(total, DurationUnit::Seconds);
    assert forall|i: int| 0 <= i < spoken_units(total).len() implies
        unit_template(#[trigger] spoken_units(total)[i], ht, mt, st)
            == untranslated_template(total, spoken_units(total)[i]) by {
        match spoken_units(total)[i] {
            DurationUnit::Hours => {},
            DurationUnit::Minutes => {},
            DurationUnit::Seconds => {},
        }
    }
}

} // verus!
