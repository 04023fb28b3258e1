use vstd::prelude::*;

use crate::config::DisplayConfig;
use crate::config::DisplayConfigView;
use vstd::arithmetic::div_mod::lemma_div_is_ordered;
use vstd::arithmetic::div_mod::lemma_div_multiples_vanish;
use vstd::arithmetic::div_mod::lemma_div_non_zero;
use vstd::arithmetic::div_mod::lemma_div_pos_is_pos;
use vstd::arithmetic::div_mod::lemma_fundamental_div_mod;
use vstd::arithmetic::div_mod::lemma_mod_division_less_than_divisor;

verus! {

/// Length of one full pomodoro interval, in seconds (25 minutes).
pub const POMODORO_SECONDS: u64 = 1500;

/// Duration of one bar chunk in seconds: the pomodoro interval divided
/// evenly (rounding down) over the configured number of blocks.
pub open spec fn chunk_seconds(num_blocks: int) -> int {
    POMODORO_SECONDS as int / num_blocks
}

/// How many chunks of the interval have been completed after `elapsed`
/// seconds. Negative elapsed time (a start instant in the future) counts
/// as no progress at all.
pub open spec fn completed_chunks(elapsed: int, num_blocks: int) -> int {
    if elapsed <= 0 {
        0
    } else {
        elapsed / chunk_seconds(num_blocks)
    }
}

/// The glyph drawn at position `i` of a bar whose first `k` positions are
/// complete.
pub open spec fn seg_glyph(c: DisplayConfigView, k: int, i: int) -> Seq<char> {
    if i < k {
        c.complete_block
    } else {
        c.pending_block
    }
}

/// The first `i` positions of the bar, each glyph followed by one copy of
/// the delimiter.
pub open spec fn bar_prefix(c: DisplayConfigView, k: int, i: int) -> Seq<char>
    decreases i,
{
    if i <= 0 {
        Seq::empty()
    } else {
        bar_prefix(c, k, i - 1) + seg_glyph(c, k, i - 1) + c.delimiter
    }
}

/// The whole bar of `n` positions: a delimiter follows every glyph except
/// the last one.
pub open spec fn bar_chars(c: DisplayConfigView, k: int, n: int) -> Seq<char> {
    bar_prefix(c, k, n - 1) + seg_glyph(c, k, n - 1)
}

/// A body wrapped in the configured left and right padding.
pub open spec fn wrap_output(c: DisplayConfigView, body: Seq<char>) -> Seq<char> {
    c.left_pad + body + c.right_pad
}

/// The rendered output for a running timer: the finished message once every
/// chunk is complete, otherwise the bar.
pub open spec fn render_spec(elapsed: int, c: DisplayConfigView) -> Seq<char> {
    let k = completed_chunks(elapsed, c.num_blocks);
    if k >= c.num_blocks {
        wrap_output(c, c.finished_msg)
    } else {
        wrap_output(c, bar_chars(c, k, c.num_blocks))
    }
}

/// Renders the progress bar for a timer that has run for `diff_seconds`
/// seconds under the given configuration.
pub fn get_progress_bar(diff_seconds: i64, config: &DisplayConfig) -> (r: String)
    requires
        config@.wf(),
    ensures
        r@ == render_spec(diff_seconds as int, config@),
{
    let num_blocks: u64 = config.num_blocks as u64;
    let chunk: u64 = POMODORO_SECONDS / num_blocks;
    proof {
        lemma_div_non_zero(POMODORO_SECONDS as int, num_blocks as int);
    }
    let chunks: u64 = if diff_seconds <= 0 {
        0
    } else {
        (diff_seconds as u64) / chunk
    };
    proof {
        assert(chunks as int == completed_chunks(diff_seconds as int, config@.num_blocks));
    }

    if chunks >= num_blocks {
        let mut out = config.left_pad.clone();
        out.append(config.finished_msg.as_str());
        out.append(config.right_pad.as_str());
        return out;
    }

    let ghost cv = config@;
    let ghost k: int = chunks as int;
    let mut bar = String::new();
    let mut i: u64 = 0;
    while i < num_blocks - 1
        invariant
            cv == config@,
            config@.wf(),
            num_blocks == cv.num_blocks,
            k == chunks as int,
            0 <= k < num_blocks,
            i <= num_blocks - 1,
            bar@ == bar_prefix(cv, k, i as int),
        decreases num_blocks - 1 - i,
    {
        if i < chunks {
            bar.append(config.complete_block.as_str());
        } else {
            bar.append(config.pending_block.as_str());
        }
        if !config.delimiter.as_str().is_empty() {
            bar.append(config.delimiter.as_str());
        } else {
            proof {
                assert(cv.delimiter.len() == 0);
                assert(bar@ + cv.delimiter =~= bar@);
            }
        }
        i = i + 1;
    }
    proof {
        assert(seg_glyph(cv, k, num_blocks - 1) == cv.pending_block);
    }
    bar.append(config.pending_block.as_str());

    let mut out = config.left_pad.clone();
    out.append(bar.as_str());
    out.append(config.right_pad.as_str());
    out
}

/// `n` copies of the glyph `g`, joined by the separator `d`.
pub open spec fn glyph_run(g: Seq<char>, d: Seq<char>, n: int) -> Seq<char>
    decreases n,
{
    if n <= 1 {
        g
    } else {
        glyph_run(g, d, n - 1) + d + g
    }
}

proof fn lemma_bar_all_pending(c: DisplayConfigView, n: int)
    requires
        1 <= n,
    ensures
        bar_chars(c, 0, n) == glyph_run(c.pending_block, c.delimiter, n),
    decreases n,
{
    if n == 1 {
        assert(bar_chars(c, 0, 1) =~= c.pending_block);
    } else {
        lemma_bar_all_pending(c, n - 1);
        assert(bar_chars(c, 0, n) =~= bar_chars(c, 0, n - 1) + c.delimiter + c.pending_block);
    }
}

/// Law: at zero elapsed time the output is the left padding, then the
/// configured number of pending glyphs joined by the delimiter, then the
/// right padding.
pub proof fn lemma_render_at_zero(c: DisplayConfigView)
    requires
        c.wf(),
    ensures
        render_spec(0, c) == wrap_output(
            c,
            glyph_run(c.pending_block, c.delimiter, c.num_blocks),
        ),
{
    lemma_bar_all_pending(c, c.num_blocks);
}

/// Law: once the elapsed time reaches the full pomodoro interval, the
/// output is exactly the finished message between the two pads, however far
/// the timer has overrun.
pub proof fn lemma_render_finished(elapsed: int, c: DisplayConfigView)
    requires
        c.wf(),
        elapsed >= POMODORO_SECONDS,
    ensures
        render_spec(elapsed, c) == c.left_pad + c.finished_msg + c.right_pad,
{
    let n = c.num_blocks;
    let d = chunk_seconds(n);
    lemma_div_non_zero(POMODORO_SECONDS as int, n);
    lemma_fundamental_div_mod(POMODORO_SECONDS as int, n);
    lemma_mod_division_less_than_divisor(POMODORO_SECONDS as int, n);
    assert(n * d <= POMODORO_SECONDS);
    lemma_div_is_ordered(n * d, elapsed, d);
    lemma_div_multiples_vanish(n, d);
    assert(completed_chunks(elapsed, n) >= n);
}

/// Law: the number of completed chunks never decreases as elapsed time
/// grows, for a fixed configuration.
pub proof fn lemma_completed_chunks_monotonic(e1: int, e2: int, n: int)
    requires
        crate::config::num_blocks_in_range(n),
        e1 <= e2,
    ensures
        completed_chunks(e1, n) <= completed_chunks(e2, n),
{
    let d = chunk_seconds(n);
    lemma_div_non_zero(POMODORO_SECONDS as int, n);
    if e1 <= 0 {
        if e2 > 0 {
            lemma_div_pos_is_pos(e2, d);
        }
    } else {
        lemma_div_is_ordered(e1, e2, d);
    }
}

/// The glyphs of the bar alone, with no separator between them.
pub open spec fn glyphs_only(c: DisplayConfigView, k: int, i: int) -> Seq<char>
    decreases i,
{
    if i <= 0 {
        Seq::empty()
    } else {
        glyphs_only(c, k, i - 1) + seg_glyph(c, k, i - 1)
    }
}

proof fn lemma_prefix_no_delimiter(c: DisplayConfigView, k: int, i: int)
    requires
        c.delimiter.len() == 0,
        0 <= i,
    ensures
        bar_prefix(c, k, i) == glyphs_only(c, k, i),
    decreases i,
{
    if i > 0 {
        lemma_prefix_no_delimiter(c, k, i - 1);
        assert(bar_prefix(c, k, i) =~= glyphs_only(c, k, i));
    }
}

/// Law: with an empty delimiter, the in-progress output is the two pads
/// around the bare glyphs, with nothing between them.
pub proof fn lemma_render_no_delimiter(elapsed: int, c: DisplayConfigView)
    requires
        c.wf(),
        c.delimiter.len() == 0,
        completed_chunks(elapsed, c.num_blocks) < c.num_blocks,
    ensures
        render_spec(elapsed, c) == wrap_output(
            c,
            glyphs_only(c, completed_chunks(elapsed, c.num_blocks), c.num_blocks),
        ),
{
    let k = completed_chunks(elapsed, c.num_blocks);
    lemma_prefix_no_delimiter(c, k, c.num_blocks - 1);
    assert(bar_chars(c, k, c.num_blocks) == glyphs_only(c, k, c.num_blocks - 1) + seg_glyph(
        c,
        k,
        c.num_blocks - 1,
    ));
    assert(glyphs_only(c, k, c.num_blocks) == glyphs_only(c, k, c.num_blocks - 1) + seg_glyph(
        c,
        k,
        c.num_blocks - 1,
    ));
}

proof fn lemma_prefix_len(c: DisplayConfigView, k: int, i: int)
    requires
        0 <= k,
        0 <= i,
    ensures
        bar_prefix(c, k, i).len() == (if i <= k {
            i * c.complete_block.len()
        } else {
            k * c.complete_block.len() + (i - k) * c.pending_block.len()
        }) + i * c.delimiter.len(),
    decreases i,
{
    let cl = c.complete_block.len() as int;
    let pl = c.pending_block.len() as int;
    let dl = c.delimiter.len() as int;
    if i == 0 {
        assert(bar_prefix(c, k, 0).len() == 0);
        assert(0 * cl == 0) by (nonlinear_arith);
        assert(0 * dl == 0) by (nonlinear_arith);
    } else {
        lemma_prefix_len(c, k, i - 1);
        assert(bar_prefix(c, k, i).len() == bar_prefix(c, k, i - 1).len() + seg_glyph(
            c,
            k,
            i - 1,
        ).len() + dl);
        assert(i * dl == (i - 1) * dl + dl) by (nonlinear_arith);
        if i <= k {
            assert(seg_glyph(c, k, i - 1) == c.complete_block);
            assert(i * cl == (i - 1) * cl + cl) by (nonlinear_arith);
        } else if i - 1 <= k {
            assert(i - 1 == k);
            assert(seg_glyph(c, k, i - 1) == c.pending_block);
            assert((i - 1) * cl == k * cl);
            assert((i - k) * pl == pl) by (nonlinear_arith)
                requires
                    i - k == 1,
            ;
        } else {
            assert(seg_glyph(c, k, i - 1) == c.pending_block);
            assert((i - k) * pl == (i - 1 - k) * pl + pl) by (nonlinear_arith);
        }
    }
}

/// Law: in an in-progress bar, `completedChunks` glyphs are complete,
/// the rest pending, and exactly one copy of the delimiter stands after
/// every glyph but the last: the length of the output is determined
/// accordingly.
pub proof fn lemma_render_length(elapsed: int, c: DisplayConfigView)
    requires
        c.wf(),
        completed_chunks(elapsed, c.num_blocks) < c.num_blocks,
    ensures
        render_spec(elapsed, c).len() == c.left_pad.len() + completed_chunks(elapsed, c.num_blocks)
            * c.complete_block.len() + (c.num_blocks - completed_chunks(elapsed, c.num_blocks))
            * c.pending_block.len() + (c.num_blocks - 1) * c.delimiter.len()
            + c.right_pad.len(),
{
    let n = c.num_blocks;
    let k = completed_chunks(elapsed, n);
    if elapsed > 0 {
        lemma_div_non_zero(POMODORO_SECONDS as int, n);
        lemma_div_pos_is_pos(elapsed, chunk_seconds(n));
    }
    assert(0 <= k);
    lemma_prefix_len(c, k, n - 1);
    assert(seg_glyph(c, k, n - 1) == c.pending_block);
    let cl = c.complete_block.len() as int;
    let pl = c.pending_block.len() as int;
    assert((n - k) * pl == (n - 1 - k) * pl + pl) by (nonlinear_arith);
    assert(0 * pl == 0) by (nonlinear_arith);
    if k == n - 1 {
        assert((n - 1) * cl == k * cl);
    }
}

} // verus!
