//! The year-progress calculator: what fraction of the current calendar year
//! has elapsed, rendered as a fixed-width bar of filled and unfilled glyphs
//! followed by the percentage.

use vstd::prelude::*;
use vstd::arithmetic::div_mod::lemma_div_is_ordered;
use vstd::arithmetic::div_mod::lemma_div_pos_is_pos;
use vstd::arithmetic::div_mod::lemma_multiply_divide_lt;
use vstd::string::StringExecFns;

use crate::calendar::spec_total_hours_in_year;
use crate::calendar::total_hours_in_year;
use crate::instant::Instant;
use crate::text::push_u64_decimal;
use crate::text::spec_udec;

verus! {

/// The glyph for an elapsed cell of the bar.
pub const FILLED_GLYPH: char = '▓';

/// The glyph for a cell of the bar still to come.
pub const EMPTY_GLYPH: char = '░';

/// Whole hours elapsed in the instant's year: whole hours from the year's
/// start to the start of the instant's day, plus the instant's hour of day.
/// Minutes and seconds within the current hour are dropped.
pub open spec fn spec_hours_elapsed(i: Instant) -> int {
    24 * (i.day_of_year - 1) + i.hour
}

/// Percentage of the year's hours that have elapsed, truncated toward zero.
pub open spec fn spec_percentage(i: Instant) -> int {
    spec_hours_elapsed(i) * 100 / spec_total_hours_in_year(i.year as int)
}

/// Number of filled cells for a given percentage, truncated toward zero.
pub open spec fn spec_fill_count(p: int) -> int {
    p * 15 / 100
}

/// The character `c` repeated `n` times.
pub open spec fn spec_repeat(c: char, n: int) -> Seq<char>
    decreases n,
{
    if n <= 0 {
        Seq::empty()
    } else {
        spec_repeat(c, n - 1).push(c)
    }
}

/// The bar: `fill` filled glyphs followed by the unfilled glyphs that bring
/// the length to the bar width.
pub open spec fn spec_bar(fill: int) -> Seq<char> {
    spec_repeat(FILLED_GLYPH, fill) + spec_repeat(EMPTY_GLYPH, 15 - fill)
}

/// The full rendered report: the bracketed bar, a space, the percentage and
/// a percent sign.
pub open spec fn spec_progress_message(i: Instant) -> Seq<char> {
    seq!['['] + spec_bar(spec_fill_count(spec_percentage(i))) + seq![']', ' ']
        + spec_udec(spec_percentage(i) as nat) + seq!['%']
}

/// A repeated character yields a sequence of that length holding only that
/// character.
pub proof fn lemma_repeat(c: char, n: int)
    requires
        n >= 0,
    ensures
        spec_repeat(c, n).len() == n,
        forall|j: int| 0 <= j < n ==> spec_repeat(c, n)[j] == c,
    decreases n,
{
    if n > 0 {
        lemma_repeat(c, n - 1);
    }
}

/// Number of filled glyphs in a sequence.
pub open spec fn spec_count_filled(s: Seq<char>) -> int
    decreases s.len(),
{
    if s.len() == 0 {
        0
    } else {
        spec_count_filled(s.drop_last()) + if s.last() == FILLED_GLYPH {
            1int
        } else {
            0int
        }
    }
}

proof fn lemma_count_repeat(c: char, n: int)
    requires
        n >= 0,
    ensures
        spec_count_filled(spec_repeat(c, n)) == if c == FILLED_GLYPH {
            n
        } else {
            0
        },
    decreases n,
{
    lemma_repeat(c, n);
    if n > 0 {
        lemma_count_repeat(c, n - 1);
        assert(spec_repeat(c, n).drop_last() =~= spec_repeat(c, n - 1));
    }
}

proof fn lemma_count_concat(a: Seq<char>, b: Seq<char>)
    ensures
        spec_count_filled(a + b) == spec_count_filled(a) + spec_count_filled(b),
    decreases b.len(),
{
    if b.len() == 0 {
        assert(a + b =~= a);
    } else {
        lemma_count_concat(a, b.drop_last());
        assert((a + b).drop_last() =~= a + b.drop_last());
        assert((a + b).len() > 0);
        assert((a + b).last() == b.last());
    }
}

/// The bar for any percentage between 0 and 100 is exactly the bar width
/// long, and the number of filled glyphs in it is the percentage scaled to
/// the bar width, truncated toward zero.
pub proof fn lemma_bar_filled_count(p: int)
    requires
        0 <= p <= 100,
    ensures
        spec_bar(spec_fill_count(p)).len() == 15,
        spec_count_filled(spec_bar(spec_fill_count(p))) == p * 15 / 100,
{
    let f = spec_fill_count(p);
    lemma_div_pos_is_pos(p * 15, 100);
    lemma_div_is_ordered(p * 15, 1500, 100);
    assert(1500int / 100 == 15);
    lemma_repeat(FILLED_GLYPH, f);
    lemma_repeat(EMPTY_GLYPH, 15 - f);
    lemma_count_repeat(FILLED_GLYPH, f);
    lemma_count_repeat(EMPTY_GLYPH, 15 - f);
    lemma_count_concat(spec_repeat(FILLED_GLYPH, f), spec_repeat(EMPTY_GLYPH, 15 - f));
}

/// For a well-formed instant the percentage lies between 0 and 100.
pub proof fn lemma_percentage_bounds(i: Instant)
    requires
        i.wf(),
    ensures
        0 <= spec_percentage(i) <= 100,
{
    let he = spec_hours_elapsed(i);
    let total = spec_total_hours_in_year(i.year as int);
    assert(he <= total - 1);
    lemma_div_pos_is_pos(he * 100, total);
    lemma_multiply_divide_lt(he * 100, total, 100);
}

/// Within one year, the percentage never decreases as time advances: a later
/// day, or a later hour of the same day, never lowers it.
pub proof fn lemma_percentage_monotonic(a: Instant, b: Instant)
    requires
        a.wf(),
        b.wf(),
        a.year == b.year,
        a.day_of_year < b.day_of_year || (a.day_of_year == b.day_of_year && a.hour <= b.hour),
    ensures
        spec_percentage(a) <= spec_percentage(b),
{
    let total = spec_total_hours_in_year(a.year as int);
    assert(spec_hours_elapsed(a) <= spec_hours_elapsed(b));
    lemma_div_is_ordered(spec_hours_elapsed(a) * 100, spec_hours_elapsed(b) * 100, total);
}

/// At the first hour of any year the percentage is back at zero.
pub proof fn lemma_percentage_resets(y: i32)
    requires
        0 <= y,
    ensures
        spec_percentage((Instant { year: y, day_of_year: 1, hour: 0 })) == 0,
{
}

/// The rendered report is a function of the instant alone: two renderings
/// for the same instant are identical.
pub proof fn lemma_progress_message_deterministic(i: Instant, r1: Seq<char>, r2: Seq<char>)
    requires
        r1 == spec_progress_message(i),
        r2 == spec_progress_message(i),
    ensures
        r1 == r2,
{
}

/// A computed year progress: the truncated percentage and the rendered bar.
pub struct YearProgress {
    /// Percentage of the year elapsed, between 0 and 100.
    pub percentage: u32,
    /// The bar: filled glyphs, then unfilled glyphs, exactly the bar width
    /// in characters.
    pub bar: String,
}

/// Renders the bar for a given number of filled cells.
fn render_bar(fill: u32) -> (s: String)
    requires
        fill <= 15,
    ensures
        s@ == spec_bar(fill as int),
        s@.len() == 15,
{
    let mut s = String::new();
    let mut i: u32 = 0;
    while i < fill
        invariant
            i <= fill <= 15,
            s@ == spec_repeat(FILLED_GLYPH, i as int),
        decreases fill - i,
    {
        s.append("▓");
        proof {
            reveal_strlit("▓");
            assert(s@ =~= spec_repeat(FILLED_GLYPH, i as int + 1));
        }
        i = i + 1;
    }
    let mut j: u32 = fill;
    while j < 15
        invariant
            fill <= j <= 15,
            s@ == spec_repeat(FILLED_GLYPH, fill as int) + spec_repeat(
                EMPTY_GLYPH,
                j as int - fill as int,
            ),
        decreases 15 - j,
    {
        s.append("░");
        proof {
            reveal_strlit("░");
            assert(s@ =~= spec_repeat(FILLED_GLYPH, fill as int) + spec_repeat(
                EMPTY_GLYPH,
                j as int + 1 - fill as int,
            ));
        }
        j = j + 1;
    }
    proof {
        lemma_repeat(FILLED_GLYPH, fill as int);
        lemma_repeat(EMPTY_GLYPH, 15 - fill as int);
    }
    s
}

/// Computes the year progress at the given instant: the percentage of the
/// year's hours that have elapsed, truncated toward zero, and the bar that
/// pictures it.
pub fn year_progress(now: &Instant) -> (r: YearProgress)
    requires
        now.wf(),
    ensures
        r.percentage == spec_percentage(*now),
        r.percentage <= 100,
        r.bar@ == spec_bar(spec_fill_count(spec_percentage(*now))),
        r.bar@.len() == 15,
{
    let total: u32 = total_hours_in_year(now.year);
    let hours: u32 = 24 * (now.day_of_year - 1) + now.hour;
    proof {
        lemma_percentage_bounds(*now);
        lemma_multiply_divide_lt(hours as int * 100, total as int, 100);
    }
    let percentage: u32 = hours * 100 / total;
    proof {
        lemma_div_pos_is_pos(percentage as int * 15, 100);
        lemma_div_is_ordered(percentage as int * 15, 1500, 100);
        assert(1500int / 100 == 15);
    }
    let fill: u32 = percentage * 15 / 100;
    let bar = render_bar(fill);
    YearProgress { percentage, bar }
}

/// Renders the full report for the given instant: the bracketed bar, a
/// space, the percentage and a percent sign.
pub fn progress_message(now: &Instant) -> (s: String)
    requires
        now.wf(),
    ensures
        s@ == spec_progress_message(*now),
{
    let yp = year_progress(now);
    let mut s = String::from_str("[");
    proof {
        reveal_strlit("[");
    }
    s.append(yp.bar.as_str());
    s.append("] ");
    proof {
        reveal_strlit("] ");
    }
    push_u64_decimal(&mut s, yp.percentage as u64);
    s.append("%");
    proof {
        reveal_strlit("%");
        assert(s@ =~= spec_progress_message(*now));
    }
    s
}

} // verus!
