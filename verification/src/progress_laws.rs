//! What holds of the progress bar over whole runs of poll ticks.

use crate::progress::{
    cells_due, is_crossed, lemma_cells_due_counts_crossed, per_cell, threshold, ProgressView,
};
use vstd::prelude::*;

verus! {

/// A poll tick keeps a state well formed, never empties a cell, never
/// changes the phase, and reports exactly the cells between the old and the
/// new position, one event each, in ascending order.
pub proof fn lemma_tick_advances_in_order(s: ProgressView, now: nat)
    requires
        s.wf(),
    ensures
        s.ticked(now).wf(),
        s.ticked(now).phase == s.phase,
        s.ticked(now).total_duration == s.total_duration,
        s.ticked(now).bar_width == s.bar_width,
        s.ticked(now).elapsed_reference == s.elapsed_reference,
        s.bar_position <= s.ticked(now).bar_position <= s.bar_width,
        s.next_threshold_index <= s.ticked(now).next_threshold_index,
        s.emitted(now).len() == s.ticked(now).bar_position - s.bar_position,
        forall|i: int|
            0 <= i < s.emitted(now).len() ==> #[trigger] s.emitted(now)[i] == s.bar_position + 1
                + i,
{
    if s.bar_position < s.bar_width {
        lemma_cells_due_counts_crossed(
            s.total_duration,
            s.bar_width,
            s.elapsed_at(now),
            s.bar_width,
        );
    }
}

/// Over any run of poll ticks, from any state: the indices of the crossed
/// thresholds come out one by one and strictly increasing, each names a
/// cell of the bar, so there are never more events than the bar has cells;
/// and the index of the next threshold never goes back.
pub proof fn lemma_run_indices_increase_within_bar(s: ProgressView, samples: Seq<nat>)
    requires
        s.wf(),
    ensures
        s.run(samples).wf(),
        s.run(samples).phase == s.phase,
        s.run(samples).total_duration == s.total_duration,
        s.run(samples).bar_width == s.bar_width,
        s.run(samples).elapsed_reference == s.elapsed_reference,
        s.run(samples).next_threshold_index == s.next_threshold_index + s.run_emitted(
            samples,
        ).len(),
        s.run(samples).bar_position == s.bar_position + s.run_emitted(samples).len(),
        s.run_emitted(samples).len() <= s.bar_width,
        forall|i: int|
            0 <= i < s.run_emitted(samples).len() ==> #[trigger] s.run_emitted(samples)[i]
                == s.bar_position + 1 + i,
        forall|i: int|
            0 <= i < s.run_emitted(samples).len() ==> 1 <= #[trigger] s.run_emitted(samples)[i]
                <= s.bar_width,
        forall|i: int, j: int|
            0 <= i < j < s.run_emitted(samples).len() ==> s.run_emitted(samples)[i]
                < s.run_emitted(samples)[j],
    decreases samples.len(),
{
    if samples.len() > 0 {
        let earlier = samples.drop_last();
        lemma_run_indices_increase_within_bar(s, earlier);
        lemma_tick_advances_in_order(s.run(earlier), samples.last());
    }
}

/// A track of zero duration never fills a cell, whatever the clock says
/// and however often it is read.
pub proof fn lemma_zero_duration_never_advances(s: ProgressView, samples: Seq<nat>)
    requires
        s.wf(),
        s.total_duration == 0,
    ensures
        s.run_emitted(samples) == Seq::<nat>::empty(),
        s.run(samples).bar_position == s.bar_position,
    decreases samples.len(),
{
    if samples.len() > 0 {
        let earlier = samples.drop_last();
        lemma_zero_duration_never_advances(s, earlier);
        lemma_run_indices_increase_within_bar(s, earlier);
        assert(s.run(earlier).emitted(samples.last()) =~= Seq::<nat>::empty());
        assert(s.run_emitted(samples) =~= Seq::<nat>::empty());
    }
}

/// Poll ticks alone never end playback: a player leaves the playing phase
/// only when it is told that the output device ran dry.
pub proof fn lemma_only_finish_ends_playback(s: ProgressView, samples: Seq<nat>)
    requires
        s.wf(),
        s.phase is Playing,
    ensures
        s.run(samples).phase is Playing,
        s.run(samples).finished().phase is Finished,
{
    lemma_run_indices_increase_within_bar(s, samples);
}

/// A sample taken just after the threshold of cell `k` (by no more than
/// the time of one cell) finds exactly `k` cells due: not one fewer, not
/// one more.
pub proof fn lemma_just_past_threshold_is_that_cell(
    total: nat,
    width: nat,
    k: nat,
    epsilon: nat,
)
    requires
        0 < width,
        1 <= k <= width,
        0 < per_cell(total, width),
        0 < epsilon <= per_cell(total, width),
    ensures
        cells_due(total, width, threshold(total, width, k) + epsilon) == k,
        is_crossed(total, width, k, threshold(total, width, k) + epsilon),
        k < width ==> !is_crossed(total, width, k + 1, threshold(total, width, k) + epsilon),
{
    let p = per_cell(total, width);
    let elapsed = threshold(total, width, k) + epsilon;
    assert(total > 0) by (nonlinear_arith)
        requires
            total / width > 0,
            width > 0,
    ;
    assert(threshold(total, width, k + 1) == threshold(total, width, k) + p)
        by (nonlinear_arith)
        requires
            threshold(total, width, k + 1) == p * (k + 1),
            threshold(total, width, k) == p * k,
    ;
    lemma_cells_due_counts_crossed(total, width, elapsed, k);
    if k < width {
        lemma_cells_due_counts_crossed(total, width, elapsed, k + 1);
    }
}

/// The same on a playing state that has not yet reached cell `k`: after
/// one poll tick just past the threshold of cell `k`, exactly `k` cells are
/// filled and cell `k` is the one reported last.
pub proof fn lemma_tick_just_past_threshold(s: ProgressView, k: nat, epsilon: nat)
    requires
        s.wf(),
        s.phase is Playing,
        s.bar_position < k <= s.bar_width,
        0 < per_cell(s.total_duration, s.bar_width),
        0 < epsilon <= per_cell(s.total_duration, s.bar_width),
    ensures
        ({
            let now = s.elapsed_reference + threshold(s.total_duration, s.bar_width, k) + epsilon;
            &&& s.ticked(now).bar_position == k
            &&& s.emitted(now).len() == k - s.bar_position
            &&& s.emitted(now).last() == k
        }),
{
    lemma_just_past_threshold_is_that_cell(s.total_duration, s.bar_width, k, epsilon);
}

/// However coarse the polling: if a single sample lies past the thresholds
/// of `skipped` further cells, the tick reports each of them as an event of
/// its own, in order, before the next poll.
pub proof fn lemma_coarse_poll_reports_every_cell(s: ProgressView, now: nat, skipped: nat)
    requires
        s.wf(),
        s.phase is Playing,
        1 <= skipped,
        s.bar_position + skipped <= s.bar_width,
        is_crossed(
            s.total_duration,
            s.bar_width,
            s.bar_position + skipped,
            s.elapsed_at(now),
        ),
    ensures
        s.emitted(now).len() >= skipped,
        s.ticked(now).bar_position >= s.bar_position + skipped,
        forall|i: int|
            0 <= i < skipped ==> #[trigger] s.emitted(now)[i] == s.bar_position + 1 + i,
{
    lemma_cells_due_counts_crossed(
        s.total_duration,
        s.bar_width,
        s.elapsed_at(now),
        s.bar_position + skipped,
    );
}

/// Once the bar is full nothing more is drawn: no crossing is due, and no
/// tick reports a cell.
pub proof fn lemma_full_bar_draws_nothing(s: ProgressView, now: nat)
    requires
        s.wf(),
        s.bar_position == s.bar_width,
    ensures
        !s.crossing_due(),
        !s.sampled(now).crossing_due(),
        s.emitted(now) == Seq::<nat>::empty(),
        s.ticked(now).bar_position == s.bar_width,
{
    lemma_tick_advances_in_order(s, now);
    assert(s.emitted(now) =~= Seq::<nat>::empty());
}

/// Filling the next cell by hand moves the position and the threshold
/// index one on, together, while the bar has room, and never past its end.
pub proof fn lemma_fill_moves_one_cell(s: ProgressView)
    requires
        s.wf(),
    ensures
        s.filled().wf(),
        s.bar_position < s.bar_width ==> s.filled().bar_position == s.bar_position + 1
            && s.filled().next_threshold_index == s.next_threshold_index + 1,
        s.bar_position == s.bar_width ==> s.filled() == s,
        s.filled().phase == s.phase,
        s.filled().current_elapsed == s.current_elapsed,
{
}

} // verus!
