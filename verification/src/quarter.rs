//! Quarter-block glyph selection: approximating a 2x2 pixel block with one
//! glyph plus foreground/background colors.
//!
//! Twelve candidate glyphs partition the four quadrants into a foreground
//! and a background set. Each candidate is scored by the squared color
//! distance of every present quadrant to its set's average color, with a
//! fixed penalty for a quadrant assigned to an empty set; the candidate
//! with the smallest error wins, earlier candidates winning ties.

use vstd::prelude::*;

use crate::config::RgbColor;

verus! {

/// The penalty charged when a present quadrant is assigned to a set with
/// no average color.
pub const EMPTY_SET_PENALTY: u32 = 10000;

/// A value larger than any reachable error sum.
pub const ERROR_INFINITY: u32 = 0x1000_0000;

/// The twelve quarter-block glyph shapes.
#[derive(Debug, Clone, Copy, PartialEq, Eq, Structural)]
pub enum QuarterBlock {
    Empty,
    TopLeft,
    TopRight,
    BotLeft,
    BotRight,
    Top,
    Bottom,
    Left,
    Right,
    TopLeftBotRight,
    TopRightBotLeft,
    Full,
}

/// The character each glyph shape prints as.
pub open spec fn spec_block_char(b: QuarterBlock) -> char {
    match b {
        QuarterBlock::Empty => ' ',
        QuarterBlock::TopLeft => '\u{2598}',
        QuarterBlock::TopRight => '\u{259d}',
        QuarterBlock::BotLeft => '\u{2596}',
        QuarterBlock::BotRight => '\u{2597}',
        QuarterBlock::Top => '\u{2580}',
        QuarterBlock::Bottom => '\u{2584}',
        QuarterBlock::Left => '\u{258c}',
        QuarterBlock::Right => '\u{2590}',
        QuarterBlock::TopLeftBotRight => '\u{259a}',
        QuarterBlock::TopRightBotLeft => '\u{259e}',
        QuarterBlock::Full => '\u{2588}',
    }
}

impl QuarterBlock {
    /// The character this glyph shape prints as.
    pub fn to_char(self) -> (c: char)
        ensures
            c == spec_block_char(self),
    {
        match self {
            QuarterBlock::Empty => ' ',
            QuarterBlock::TopLeft => '\u{2598}',
            QuarterBlock::TopRight => '\u{259d}',
            QuarterBlock::BotLeft => '\u{2596}',
            QuarterBlock::BotRight => '\u{2597}',
            QuarterBlock::Top => '\u{2580}',
            QuarterBlock::Bottom => '\u{2584}',
            QuarterBlock::Left => '\u{258c}',
            QuarterBlock::Right => '\u{2590}',
            QuarterBlock::TopLeftBotRight => '\u{259a}',
            QuarterBlock::TopRightBotLeft => '\u{259e}',
            QuarterBlock::Full => '\u{2588}',
        }
    }
}

/// The candidate glyphs in evaluation order; earlier candidates win ties.
pub open spec fn spec_candidate(i: int) -> QuarterBlock {
    if i == 0 { QuarterBlock::Empty }
    else if i == 1 { QuarterBlock::TopLeft }
    else if i == 2 { QuarterBlock::TopRight }
    else if i == 3 { QuarterBlock::BotLeft }
    else if i == 4 { QuarterBlock::BotRight }
    else if i == 5 { QuarterBlock::Top }
    else if i == 6 { QuarterBlock::Bottom }
    else if i == 7 { QuarterBlock::Left }
    else if i == 8 { QuarterBlock::Right }
    else if i == 9 { QuarterBlock::TopLeftBotRight }
    else if i == 10 { QuarterBlock::TopRightBotLeft }
    else { QuarterBlock::Full }
}

/// Whether quadrant `idx` (0 top-left, 1 top-right, 2 bottom-left,
/// 3 bottom-right) belongs to the glyph's foreground set.
pub open spec fn spec_is_fg(block: QuarterBlock, idx: int) -> bool {
    if idx == 0 {
        block is TopLeft || block is Top || block is Left || block is TopLeftBotRight
            || block is Full
    } else if idx == 1 {
        block is TopRight || block is Top || block is Right || block is TopRightBotLeft
            || block is Full
    } else if idx == 2 {
        block is BotLeft || block is Bottom || block is Left || block is TopRightBotLeft
            || block is Full
    } else {
        block is BotRight || block is Bottom || block is Right || block is TopLeftBotRight
            || block is Full
    }
}

/// Appends a quadrant's color to a set when the condition holds and the
/// quadrant is present.
pub open spec fn spec_maybe_push(s: Seq<RgbColor>, q: Option<RgbColor>, cond: bool) -> Seq<
    RgbColor,
> {
    match q {
        Some(c) => if cond { s.push(c) } else { s },
        None => s,
    }
}

/// The colors of the present quadrants assigned to the glyph's foreground
/// (`fg` true) or background (`fg` false) set, in quadrant order.
pub open spec fn spec_set_colors(
    tl: Option<RgbColor>,
    tr: Option<RgbColor>,
    bl: Option<RgbColor>,
    br: Option<RgbColor>,
    block: QuarterBlock,
    fg: bool,
) -> Seq<RgbColor> {
    let s = spec_maybe_push(Seq::empty(), tl, spec_is_fg(block, 0) == fg);
    let s = spec_maybe_push(s, tr, spec_is_fg(block, 1) == fg);
    let s = spec_maybe_push(s, bl, spec_is_fg(block, 2) == fg);
    spec_maybe_push(s, br, spec_is_fg(block, 3) == fg)
}

/// The sum of one channel over a color sequence.
pub open spec fn spec_channel_sum(colors: Seq<RgbColor>, ch: int) -> int
    decreases colors.len(),
{
    if colors.len() == 0 {
        0
    } else {
        spec_channel_sum(colors.drop_last(), ch) + (
        if ch == 0 { colors.last().r as int }
        else if ch == 1 { colors.last().g as int }
        else { colors.last().b as int })
    }
}

/// The channel-wise average of a color sequence (black for an empty one),
/// each channel truncated to a whole value.
pub open spec fn spec_average(colors: Seq<RgbColor>) -> RgbColor {
    if colors.len() == 0 {
        RgbColor { r: 0, g: 0, b: 0 }
    } else {
        RgbColor {
            r: (spec_channel_sum(colors, 0) / colors.len() as int) as u8,
            g: (spec_channel_sum(colors, 1) / colors.len() as int) as u8,
            b: (spec_channel_sum(colors, 2) / colors.len() as int) as u8,
        }
    }
}

/// The squared Euclidean distance of two colors in RGB space.
pub open spec fn spec_dist_sq(a: RgbColor, b: RgbColor) -> int {
    (a.r - b.r) * (a.r - b.r) + (a.g - b.g) * (a.g - b.g) + (a.b - b.b) * (a.b - b.b)
}

/// Whether every color lies within the similarity threshold (squared
/// distance below 900, that is Euclidean distance below 30) of `avg`.
pub open spec fn spec_colors_similar(colors: Seq<RgbColor>, avg: RgbColor) -> bool {
    forall|i: int| 0 <= i < colors.len() ==> spec_dist_sq(#[trigger] colors[i], avg) < 900
}

/// The error of one quadrant under a candidate: nothing for an absent
/// quadrant, the squared distance to its set's average, or the fixed
/// penalty when that set is empty.
pub open spec fn spec_quadrant_error(
    q: Option<RgbColor>,
    assigned_fg: bool,
    fg_avg: Option<RgbColor>,
    bg_avg: Option<RgbColor>,
) -> int {
    match q {
        None => 0,
        Some(c) => {
            let target = if assigned_fg { fg_avg } else { bg_avg };
            match target {
                Some(t) => spec_dist_sq(c, t),
                None => EMPTY_SET_PENALTY as int,
            }
        },
    }
}

/// The candidate's averages and total error over the four quadrants.
pub open spec fn spec_candidate_eval(
    tl: Option<RgbColor>,
    tr: Option<RgbColor>,
    bl: Option<RgbColor>,
    br: Option<RgbColor>,
    block: QuarterBlock,
) -> (Option<RgbColor>, Option<RgbColor>, int) {
    let fg_colors = spec_set_colors(tl, tr, bl, br, block, true);
    let bg_colors = spec_set_colors(tl, tr, bl, br, block, false);
    let fg_avg = if fg_colors.len() > 0 { Some(spec_average(fg_colors)) } else { None };
    let bg_avg = if bg_colors.len() > 0 { Some(spec_average(bg_colors)) } else { None };
    let error = spec_quadrant_error(tl, spec_is_fg(block, 0), fg_avg, bg_avg)
        + spec_quadrant_error(tr, spec_is_fg(block, 1), fg_avg, bg_avg)
        + spec_quadrant_error(bl, spec_is_fg(block, 2), fg_avg, bg_avg)
        + spec_quadrant_error(br, spec_is_fg(block, 3), fg_avg, bg_avg);
    (fg_avg, bg_avg, error)
}

/// A candidate is skipped when its foreground set is empty and it is not
/// the empty glyph.
pub open spec fn spec_candidate_skipped(
    tl: Option<RgbColor>,
    tr: Option<RgbColor>,
    bl: Option<RgbColor>,
    br: Option<RgbColor>,
    block: QuarterBlock,
) -> bool {
    spec_set_colors(tl, tr, bl, br, block, true).len() == 0 && !(block is Empty)
}

/// The best candidate among the first `i + 1`, as glyph, foreground,
/// background and error; a strictly smaller error replaces the best, so
/// earlier candidates win ties.
pub open spec fn spec_best_upto(
    tl: Option<RgbColor>,
    tr: Option<RgbColor>,
    bl: Option<RgbColor>,
    br: Option<RgbColor>,
    i: int,
) -> (QuarterBlock, Option<RgbColor>, Option<RgbColor>, int)
    decreases i,
{
    if i <= 0 {
        let ev = spec_candidate_eval(tl, tr, bl, br, QuarterBlock::Empty);
        (QuarterBlock::Empty, ev.0, ev.1, ev.2)
    } else {
        let prev = spec_best_upto(tl, tr, bl, br, i - 1);
        let block = spec_candidate(i);
        if spec_candidate_skipped(tl, tr, bl, br, block) {
            prev
        } else {
            let ev = spec_candidate_eval(tl, tr, bl, br, block);
            if ev.2 < prev.3 {
                (block, ev.0, ev.1, ev.2)
            } else {
                prev
            }
        }
    }
}

/// How many of the four quadrants are present.
pub open spec fn spec_present_count(
    tl: Option<RgbColor>,
    tr: Option<RgbColor>,
    bl: Option<RgbColor>,
    br: Option<RgbColor>,
) -> int {
    (if tl is Some { 1int } else { 0int }) + (if tr is Some { 1int } else { 0int })
        + (if bl is Some { 1int } else { 0int }) + (if br is Some { 1int } else { 0int })
}

/// All four quadrant colors, in order; meaningful when all are present.
pub open spec fn spec_all_four(
    tl: Option<RgbColor>,
    tr: Option<RgbColor>,
    bl: Option<RgbColor>,
    br: Option<RgbColor>,
) -> Seq<RgbColor> {
    seq![tl->0, tr->0, bl->0, br->0]
}

/// The glyph, foreground and background chosen for four resolved
/// quadrants: the empty glyph when nothing is present; the full block
/// with the average as foreground alone when all four are present and
/// mutually similar; otherwise the candidate minimizing the error.
#[verifier::opaque]
pub open spec fn spec_find_best_quarter(
    tl: Option<RgbColor>,
    tr: Option<RgbColor>,
    bl: Option<RgbColor>,
    br: Option<RgbColor>,
) -> (QuarterBlock, Option<RgbColor>, Option<RgbColor>) {
    let count = spec_present_count(tl, tr, bl, br);
    if count == 0 {
        (QuarterBlock::Empty, None, None)
    } else if count == 4 && spec_colors_similar(
        spec_all_four(tl, tr, bl, br),
        spec_average(spec_all_four(tl, tr, bl, br)),
    ) {
        (QuarterBlock::Full, Some(spec_average(spec_all_four(tl, tr, bl, br))), None)
    } else {
        let best = spec_best_upto(tl, tr, bl, br, 11);
        (best.0, best.1, best.2)
    }
}

proof fn lemma_best_upto_step(
    tl: Option<RgbColor>,
    tr: Option<RgbColor>,
    bl: Option<RgbColor>,
    br: Option<RgbColor>,
    j: int,
)
    requires
        1 <= j,
    ensures
        spec_best_upto(tl, tr, bl, br, j).3 <= spec_best_upto(tl, tr, bl, br, j - 1).3,
{
}

proof fn lemma_best_upto_mono(
    tl: Option<RgbColor>,
    tr: Option<RgbColor>,
    bl: Option<RgbColor>,
    br: Option<RgbColor>,
    j1: int,
    j2: int,
)
    requires
        0 <= j1 <= j2,
    ensures
        spec_best_upto(tl, tr, bl, br, j2).3 <= spec_best_upto(tl, tr, bl, br, j1).3,
    decreases j2 - j1,
{
    if j1 < j2 {
        lemma_best_upto_mono(tl, tr, bl, br, j1, j2 - 1);
        lemma_best_upto_step(tl, tr, bl, br, j2);
    }
}

/// The selector minimizes the error: whichever candidate is evaluated
/// (that is, not skipped for an empty foreground set), the error of the
/// final choice never exceeds that candidate's error.
pub proof fn lemma_selector_minimizes(
    tl: Option<RgbColor>,
    tr: Option<RgbColor>,
    bl: Option<RgbColor>,
    br: Option<RgbColor>,
    i: int,
)
    requires
        0 <= i < 12,
        !spec_candidate_skipped(tl, tr, bl, br, spec_candidate(i)),
    ensures
        spec_best_upto(tl, tr, bl, br, 11).3
            <= spec_candidate_eval(tl, tr, bl, br, spec_candidate(i)).2,
{
    if i == 0 {
        assert(spec_best_upto(tl, tr, bl, br, 0).3
            == spec_candidate_eval(tl, tr, bl, br, QuarterBlock::Empty).2);
        lemma_best_upto_mono(tl, tr, bl, br, 0, 11);
    } else {
        assert(spec_best_upto(tl, tr, bl, br, i).3
            <= spec_candidate_eval(tl, tr, bl, br, spec_candidate(i)).2);
        lemma_best_upto_mono(tl, tr, bl, br, i, 11);
    }
}

/// The squared Euclidean color distance.
pub fn color_distance_sq(a: RgbColor, b: RgbColor) -> (r: u32)
    ensures
        r == spec_dist_sq(a, b),
        r <= 195075,
{
    let dr = if a.r >= b.r { (a.r - b.r) as u32 } else { (b.r - a.r) as u32 };
    let dg = if a.g >= b.g { (a.g - b.g) as u32 } else { (b.g - a.g) as u32 };
    let db = if a.b >= b.b { (a.b - b.b) as u32 } else { (b.b - a.b) as u32 };
    proof {
        assert(dr * dr == (a.r - b.r) * (a.r - b.r) && dr * dr <= 255 * 255) by (nonlinear_arith)
            requires
                (dr == a.r - b.r || dr == b.r - a.r) && 0 <= dr <= 255;
        assert(dg * dg == (a.g - b.g) * (a.g - b.g) && dg * dg <= 255 * 255) by (nonlinear_arith)
            requires
                (dg == a.g - b.g || dg == b.g - a.g) && 0 <= dg <= 255;
        assert(db * db == (a.b - b.b) * (a.b - b.b) && db * db <= 255 * 255) by (nonlinear_arith)
            requires
                (db == a.b - b.b || db == b.b - a.b) && 0 <= db <= 255;
    }
    dr * dr + dg * dg + db * db
}

/// The channel-wise average of a set of colors; black when the set is
/// empty.
pub fn average_colors(colors: &Vec<RgbColor>) -> (r: RgbColor)
    ensures
        r == spec_average(colors@),
{
    if colors.len() == 0 {
        return RgbColor { r: 0, g: 0, b: 0 };
    }
    let n = colors.len();
    let mut sum_r: u128 = 0;
    let mut sum_g: u128 = 0;
    let mut sum_b: u128 = 0;
    let mut i: usize = 0;
    while i < n
        invariant
            i <= n,
            n == colors@.len(),
            n >= 1,
            sum_r == spec_channel_sum(colors@.subrange(0, i as int), 0),
            sum_g == spec_channel_sum(colors@.subrange(0, i as int), 1),
            sum_b == spec_channel_sum(colors@.subrange(0, i as int), 2),
            sum_r <= 255 * i,
            sum_g <= 255 * i,
            sum_b <= 255 * i,
        decreases n - i,
    {
        proof {
            assert(colors@.subrange(0, i + 1).drop_last() =~= colors@.subrange(0, i as int));
            assert(colors@.subrange(0, i + 1).last() == colors@[i as int]);
        }
        let c = colors[i];
        sum_r = sum_r + c.r as u128;
        sum_g = sum_g + c.g as u128;
        sum_b = sum_b + c.b as u128;
        i = i + 1;
    }
    proof {
        assert(colors@.subrange(0, n as int) =~= colors@);
        lemma_channel_sum_bounds(colors@, 0);
        lemma_channel_sum_bounds(colors@, 1);
        lemma_channel_sum_bounds(colors@, 2);
        assert(sum_r / (n as u128) <= 255 && sum_g / (n as u128) <= 255
            && sum_b / (n as u128) <= 255) by (nonlinear_arith)
            requires
                n >= 1 && 0 <= sum_r <= 255 * n && 0 <= sum_g <= 255 * n && 0 <= sum_b <= 255 * n;
    }
    RgbColor {
        r: (sum_r / (n as u128)) as u8,
        g: (sum_g / (n as u128)) as u8,
        b: (sum_b / (n as u128)) as u8,
    }
}

/// A channel sum over colors lies between zero and 255 per color.
proof fn lemma_channel_sum_bounds(colors: Seq<RgbColor>, ch: int)
    ensures
        0 <= spec_channel_sum(colors, ch) <= 255 * colors.len(),
    decreases colors.len(),
{
    if colors.len() > 0 {
        lemma_channel_sum_bounds(colors.drop_last(), ch);
    }
}

/// Whether every color lies within the similarity threshold of `avg`.
pub fn colors_similar(colors: &Vec<RgbColor>, avg: RgbColor) -> (r: bool)
    ensures
        r == spec_colors_similar(colors@, avg),
{
    let n = colors.len();
    let mut i: usize = 0;
    while i < n
        invariant
            i <= n,
            n == colors@.len(),
            forall|j: int| 0 <= j < i ==> spec_dist_sq(#[trigger] colors@[j], avg) < 900,
        decreases n - i,
    {
        if color_distance_sq(colors[i], avg) >= 900 {
            return false;
        }
        i = i + 1;
    }
    true
}

/// Whether quadrant `idx` belongs to the glyph's foreground set.
fn is_fg(block: QuarterBlock, idx: usize) -> (r: bool)
    requires
        idx < 4,
    ensures
        r == spec_is_fg(block, idx as int),
{
    if idx == 0 {
        matches!(block, QuarterBlock::TopLeft | QuarterBlock::Top | QuarterBlock::Left
            | QuarterBlock::TopLeftBotRight | QuarterBlock::Full)
    } else if idx == 1 {
        matches!(block, QuarterBlock::TopRight | QuarterBlock::Top | QuarterBlock::Right
            | QuarterBlock::TopRightBotLeft | QuarterBlock::Full)
    } else if idx == 2 {
        matches!(block, QuarterBlock::BotLeft | QuarterBlock::Bottom | QuarterBlock::Left
            | QuarterBlock::TopRightBotLeft | QuarterBlock::Full)
    } else {
        matches!(block, QuarterBlock::BotRight | QuarterBlock::Bottom | QuarterBlock::Right
            | QuarterBlock::TopLeftBotRight | QuarterBlock::Full)
    }
}

/// Collects the present quadrant colors of one set, in quadrant order.
fn collect_set(
    tl: Option<RgbColor>,
    tr: Option<RgbColor>,
    bl: Option<RgbColor>,
    br: Option<RgbColor>,
    block: QuarterBlock,
    fg: bool,
) -> (r: Vec<RgbColor>)
    ensures
        r@ == spec_set_colors(tl, tr, bl, br, block, fg),
{
    let mut out: Vec<RgbColor> = Vec::new();
    if is_fg(block, 0) == fg {
        if let Some(c) = tl {
            out.push(c);
        }
    }
    if is_fg(block, 1) == fg {
        if let Some(c) = tr {
            out.push(c);
        }
    }
    if is_fg(block, 2) == fg {
        if let Some(c) = bl {
            out.push(c);
        }
    }
    if is_fg(block, 3) == fg {
        if let Some(c) = br {
            out.push(c);
        }
    }
    proof {
        assert(out@ =~= spec_set_colors(tl, tr, bl, br, block, fg));
    }
    out
}

/// One quadrant's contribution to a candidate's error.
fn quadrant_error(
    q: Option<RgbColor>,
    assigned_fg: bool,
    fg_avg: Option<RgbColor>,
    bg_avg: Option<RgbColor>,
) -> (r: u32)
    ensures
        r == spec_quadrant_error(q, assigned_fg, fg_avg, bg_avg),
        r <= 195075,
{
    match q {
        None => 0,
        Some(c) => {
            let target = if assigned_fg { fg_avg } else { bg_avg };
            match target {
                Some(t) => color_distance_sq(c, t),
                None => EMPTY_SET_PENALTY,
            }
        },
    }
}

/// Evaluates one candidate glyph: its set averages and total error.
fn candidate_eval(
    tl: Option<RgbColor>,
    tr: Option<RgbColor>,
    bl: Option<RgbColor>,
    br: Option<RgbColor>,
    block: QuarterBlock,
) -> (r: (Option<RgbColor>, Option<RgbColor>, u32))
    ensures
        (r.0, r.1, r.2 as int) == spec_candidate_eval(tl, tr, bl, br, block),
        r.2 < ERROR_INFINITY,
{
    let fg_colors = collect_set(tl, tr, bl, br, block, true);
    let bg_colors = collect_set(tl, tr, bl, br, block, false);
    let fg_avg = if fg_colors.len() > 0 { Some(average_colors(&fg_colors)) } else { None };
    let bg_avg = if bg_colors.len() > 0 { Some(average_colors(&bg_colors)) } else { None };
    let error = quadrant_error(tl, is_fg(block, 0), fg_avg, bg_avg)
        + quadrant_error(tr, is_fg(block, 1), fg_avg, bg_avg)
        + quadrant_error(bl, is_fg(block, 2), fg_avg, bg_avg)
        + quadrant_error(br, is_fg(block, 3), fg_avg, bg_avg);
    (fg_avg, bg_avg, error)
}

/// The candidate glyphs in evaluation order.
fn candidate(i: usize) -> (b: QuarterBlock)
    requires
        i < 12,
    ensures
        b == spec_candidate(i as int),
{
    if i == 0 { QuarterBlock::Empty }
    else if i == 1 { QuarterBlock::TopLeft }
    else if i == 2 { QuarterBlock::TopRight }
    else if i == 3 { QuarterBlock::BotLeft }
    else if i == 4 { QuarterBlock::BotRight }
    else if i == 5 { QuarterBlock::Top }
    else if i == 6 { QuarterBlock::Bottom }
    else if i == 7 { QuarterBlock::Left }
    else if i == 8 { QuarterBlock::Right }
    else if i == 9 { QuarterBlock::TopLeftBotRight }
    else if i == 10 { QuarterBlock::TopRightBotLeft }
    else { QuarterBlock::Full }
}

/// Picks the glyph and colors approximating four resolved quadrants best:
/// the empty glyph when nothing is present; for four present, mutually
/// similar quadrants the full block with their average as foreground and
/// no background; otherwise the error-minimizing candidate, with earlier
/// candidates winning ties.
pub fn find_best_quarter_block(
    tl: Option<RgbColor>,
    tr: Option<RgbColor>,
    bl: Option<RgbColor>,
    br: Option<RgbColor>,
) -> (r: (QuarterBlock, Option<RgbColor>, Option<RgbColor>))
    ensures
        r == spec_find_best_quarter(tl, tr, bl, br),
        tl is Some && tr == tl && bl == tl && br == tl
            ==> r == (QuarterBlock::Full, tl, None::<RgbColor>),
{
    proof {
        reveal(spec_find_best_quarter);
    }
    let count: u32 = (if tl.is_some() { 1 } else { 0 }) + (if tr.is_some() { 1 } else { 0 })
        + (if bl.is_some() { 1 } else { 0 }) + (if br.is_some() { 1 } else { 0 });

    if count == 0 {
        return (QuarterBlock::Empty, None, None);
    }

    if count == 4 {
        let mut all: Vec<RgbColor> = Vec::new();
        all.push(tl.unwrap());
        all.push(tr.unwrap());
        all.push(bl.unwrap());
        all.push(br.unwrap());
        proof {
            assert(all@ =~= spec_all_four(tl, tr, bl, br));
        }
        let avg = average_colors(&all);
        if colors_similar(&all, avg) {
            proof {
                if tr == tl && bl == tl && br == tl {
                    lemma_average_of_equal(tl->0);
                }
            }
            return (QuarterBlock::Full, Some(avg), None);
        }
    }

    let mut best_block = QuarterBlock::Empty;
    let mut best_fg: Option<RgbColor> = None;
    let mut best_bg: Option<RgbColor> = None;
    let mut best_error: u32 = ERROR_INFINITY;

    let first = candidate_eval(tl, tr, bl, br, QuarterBlock::Empty);
    best_fg = first.0;
    best_bg = first.1;
    best_error = first.2;

    let mut i: usize = 1;
    while i < 12
        invariant
            1 <= i <= 12,
            (best_block, best_fg, best_bg, best_error as int)
                == spec_best_upto(tl, tr, bl, br, i - 1),
        decreases 12 - i,
    {
        let block = candidate(i);
        let fg_colors = collect_set(tl, tr, bl, br, block, true);
        if !(fg_colors.len() == 0 && !matches!(block, QuarterBlock::Empty)) {
            let ev = candidate_eval(tl, tr, bl, br, block);
            if ev.2 < best_error {
                best_block = block;
                best_fg = ev.0;
                best_bg = ev.1;
                best_error = ev.2;
            }
        }
        i = i + 1;
    }

    proof {
        if tl is Some && tr == tl && bl == tl && br == tl {
            lemma_average_of_equal(tl->0);
        }
    }
    (best_block, best_fg, best_bg)
}

/// The average of four copies of one color is that color, and each copy
/// lies within the similarity threshold of it.
proof fn lemma_average_of_equal(c: RgbColor)
    ensures
        spec_average(spec_all_four(Some(c), Some(c), Some(c), Some(c))) == c,
        spec_colors_similar(
            spec_all_four(Some(c), Some(c), Some(c), Some(c)),
            spec_average(spec_all_four(Some(c), Some(c), Some(c), Some(c))),
        ),
{
    let s = spec_all_four(Some(c), Some(c), Some(c), Some(c));
    assert(s.drop_last() =~= seq![c, c, c]);
    assert(seq![c, c, c].drop_last() =~= seq![c, c]);
    assert(seq![c, c].drop_last() =~= seq![c]);
    assert(seq![c].drop_last() =~= Seq::<RgbColor>::empty());
    assert(spec_channel_sum(s, 0) == 4 * (c.r as int)) by {
        reveal_with_fuel(spec_channel_sum, 6);
    };
    assert(spec_channel_sum(s, 1) == 4 * (c.g as int)) by {
        reveal_with_fuel(spec_channel_sum, 6);
    };
    assert(spec_channel_sum(s, 2) == 4 * (c.b as int)) by {
        reveal_with_fuel(spec_channel_sum, 6);
    };
    assert(4 * (c.r as int) / 4 == c.r as int
        && 4 * (c.g as int) / 4 == c.g as int
        && 4 * (c.b as int) / 4 == c.b as int) by (nonlinear_arith);
    assert(spec_average(s) == c);
    assert forall|i: int| 0 <= i < s.len()
        implies spec_dist_sq(#[trigger] s[i], spec_average(s)) < 900 by {
        assert(s[i] == c);
        assert(spec_dist_sq(c, c) == 0) by (nonlinear_arith);
    };
}

} // verus!
