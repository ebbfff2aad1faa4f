//! The progress bar: a state machine from elapsed-time samples to filled cells.
//!
//! A track of `total_duration` nanoseconds is shown on a bar of `bar_width`
//! cells. Cell `k` (counted from 1) is due once the elapsed time has passed
//! `k` times the duration of one cell. Every sample fills all the cells that
//! are due and reports each of them, in order, so that none is skipped however
//! coarse the sampling is.

use vstd::prelude::*;

verus! {

/// The bar width used when nothing else is configured.
pub const DEFAULT_BAR_WIDTH: u16 = 20;

/// The widest bar that can be drawn: the closing bracket stands one column
/// past the last cell, and that column must remain addressable.
pub const MAX_BAR_WIDTH: u16 = 65533;

/// Where the player is in its life.
#[derive(Clone, Copy, Debug, PartialEq, Eq, Structural)]
pub enum Phase {
    /// Nothing has been handed to the output device yet.
    Idle,
    /// Audio is queued or playing.
    Playing,
    /// The output device has consumed everything that was queued.
    Finished,
}

/// The time one cell stands for: the total duration divided by the width,
/// rounded down to whole nanoseconds.
pub open spec fn per_cell(total: nat, width: nat) -> nat {
    if width == 0 {
        0
    } else {
        total / width
    }
}

/// The elapsed time that must be exceeded for cell `index` to be due.
pub open spec fn threshold(total: nat, width: nat, index: nat) -> nat {
    per_cell(total, width) * index
}

/// Whether cell `index` is due at `elapsed`. A track of zero (or unknown)
/// duration never makes a cell due.
pub open spec fn is_crossed(total: nat, width: nat, index: nat, elapsed: nat) -> bool {
    total > 0 && elapsed > threshold(total, width, index)
}

/// How many cells of the bar are due at `elapsed`.
pub open spec fn cells_due(total: nat, width: nat, elapsed: nat) -> nat {
    if total == 0 || elapsed == 0 || width == 0 {
        0
    } else if per_cell(total, width) == 0 {
        width
    } else if (elapsed - 1) / (per_cell(total, width) as int) >= width {
        width
    } else {
        ((elapsed - 1) / (per_cell(total, width) as int)) as nat
    }
}

/// The mathematical content of a [`ProgressState`].
pub struct ProgressView {
    pub phase: Phase,
    pub elapsed_reference: nat,
    pub current_elapsed: nat,
    pub total_duration: nat,
    pub bar_position: nat,
    pub next_threshold_index: nat,
    pub bar_width: nat,
}

impl ProgressView {
    /// What every progress state satisfies: a drawable, non-empty bar whose
    /// filled part never exceeds it, and whose next threshold is that of the
    /// first unfilled cell.
    pub open spec fn wf(self) -> bool {
        &&& 0 < self.bar_width <= MAX_BAR_WIDTH
        &&& self.bar_position <= self.bar_width
        &&& self.next_threshold_index == self.bar_position + 1
    }

    /// The state before playback: idle, with an empty bar.
    pub open spec fn fresh(total_duration: nat, bar_width: nat) -> ProgressView {
        ProgressView {
            phase: Phase::Idle,
            elapsed_reference: 0,
            current_elapsed: 0,
            total_duration,
            bar_position: 0,
            next_threshold_index: 1,
            bar_width,
        }
    }

    /// The state after playback was handed to the output device at `now`.
    /// Only an idle player starts.
    pub open spec fn started(self, now: nat) -> ProgressView {
        if self.phase is Idle {
            ProgressView { phase: Phase::Playing, elapsed_reference: now, ..self }
        } else {
            self
        }
    }

    /// The state after the output device reported that it ran dry.
    /// Only a playing player finishes.
    pub open spec fn finished(self) -> ProgressView {
        if self.phase is Playing {
            ProgressView { phase: Phase::Finished, ..self }
        } else {
            self
        }
    }

    /// The time elapsed at clock reading `now`; a reading that lies before
    /// the reference counts as no time at all.
    pub open spec fn elapsed_at(self, now: nat) -> nat {
        if now >= self.elapsed_reference {
            (now - self.elapsed_reference) as nat
        } else {
            0
        }
    }

    /// The state after the clock was read at `now`, before any cell is filled.
    pub open spec fn sampled(self, now: nat) -> ProgressView {
        if self.phase is Playing {
            ProgressView { current_elapsed: self.elapsed_at(now), ..self }
        } else {
            self
        }
    }

    /// Whether the next unfilled cell is due at the current sample.
    pub open spec fn crossing_due(self) -> bool {
        &&& self.phase is Playing
        &&& self.bar_position < self.bar_width
        &&& is_crossed(
            self.total_duration,
            self.bar_width,
            self.next_threshold_index,
            self.current_elapsed,
        )
    }

    /// The state after one cell was filled.
    pub open spec fn advanced(self) -> ProgressView {
        ProgressView {
            bar_position: self.bar_position + 1,
            next_threshold_index: self.next_threshold_index + 1,
            ..self
        }
    }

    /// The state after the next cell was filled, if the bar had room for
    /// one: position and threshold index move together. A full bar stays
    /// as it is.
    pub open spec fn filled(self) -> ProgressView {
        if self.bar_position < self.bar_width {
            self.advanced()
        } else {
            self
        }
    }

    /// The bar position after a sample at `now`: every cell that is due is
    /// filled, and no filled cell is ever emptied.
    pub open spec fn position_after(self, now: nat) -> nat {
        let due = cells_due(self.total_duration, self.bar_width, self.elapsed_at(now));
        if self.phase is Playing && due > self.bar_position {
            due
        } else {
            self.bar_position
        }
    }

    /// The state after a poll tick at `now`.
    pub open spec fn ticked(self, now: nat) -> ProgressView {
        if self.phase is Playing {
            ProgressView {
                current_elapsed: self.elapsed_at(now),
                bar_position: self.position_after(now),
                next_threshold_index: self.position_after(now) + 1,
                ..self
            }
        } else {
            self
        }
    }

    /// The cells that a poll tick at `now` fills, in the order in which they
    /// are reported: one advance event for each.
    pub open spec fn emitted(self, now: nat) -> Seq<nat> {
        Seq::new(
            (self.position_after(now) - self.bar_position) as nat,
            |i: int| (self.bar_position + 1 + i) as nat,
        )
    }

    /// The state after one poll tick for each clock reading of `samples`.
    pub open spec fn run(self, samples: Seq<nat>) -> ProgressView
        decreases samples.len(),
    {
        if samples.len() == 0 {
            self
        } else {
            self.run(samples.drop_last()).ticked(samples.last())
        }
    }

    /// Every advance event of those poll ticks, in order.
    pub open spec fn run_emitted(self, samples: Seq<nat>) -> Seq<nat>
        decreases samples.len(),
    {
        if samples.len() == 0 {
            Seq::empty()
        } else {
            self.run_emitted(samples.drop_last()) + self.run(samples.drop_last()).emitted(
                samples.last(),
            )
        }
    }
}

/// The progress of one playback: when it started, how much time the last
/// sample saw, and how much of the bar is filled.
pub struct ProgressState {
    phase: Phase,
    elapsed_reference: u128,
    current_elapsed: u128,
    total_duration: u128,
    bar_position: u16,
    next_threshold_index: u16,
    bar_width: u16,
}

impl View for ProgressState {
    type V = ProgressView;

    closed spec fn view(&self) -> ProgressView {
        ProgressView {
            phase: self.phase,
            elapsed_reference: self.elapsed_reference as nat,
            current_elapsed: self.current_elapsed as nat,
            total_duration: self.total_duration as nat,
            bar_position: self.bar_position as nat,
            next_threshold_index: self.next_threshold_index as nat,
            bar_width: self.bar_width as nat,
        }
    }
}

/// One cell's time, times a cell index within the bar, never exceeds the
/// track's duration.
pub proof fn lemma_threshold_within_total(total: nat, width: nat, index: nat)
    requires
        0 < width,
        index <= width,
    ensures
        threshold(total, width, index) <= total,
{
    let p = total / width;
    assert(p * width <= total) by (nonlinear_arith)
        requires
            p == total / width,
            width > 0,
    ;
    assert(p * index <= p * width) by (nonlinear_arith)
        requires
            index <= width,
            0 <= p,
    ;
}

/// Thresholds grow with the cell index.
pub proof fn lemma_threshold_monotone(total: nat, width: nat, i: nat, j: nat)
    requires
        i <= j,
    ensures
        threshold(total, width, i) <= threshold(total, width, j),
{
    let p = per_cell(total, width);
    assert(p * i <= p * j) by (nonlinear_arith)
        requires
            i <= j,
            0 <= p,
    ;
}

/// `cells_due` counts exactly the crossed thresholds of the bar: cell `index`
/// is due if and only if it is among the first `cells_due` cells.
pub proof fn lemma_cells_due_counts_crossed(total: nat, width: nat, elapsed: nat, index: nat)
    requires
        0 < width,
        1 <= index <= width,
    ensures
        is_crossed(total, width, index, elapsed) <==> index <= cells_due(total, width, elapsed),
        cells_due(total, width, elapsed) <= width,
{
    let p = per_cell(total, width);
    if total == 0 || elapsed == 0 {
    } else if p == 0 {
        assert(p * index == 0) by (nonlinear_arith)
            requires
                p == 0,
        ;
    } else {
        let e = (elapsed - 1) as int;
        let q = e / (p as int);
        assert(q * p <= e < (q + 1) * p && q >= 0) by (nonlinear_arith)
            requires
                q == e / (p as int),
                p > 0,
                e >= 0,
        ;
        if index <= q {
            assert(p * index <= q * p) by (nonlinear_arith)
                requires
                    index <= q,
                    p > 0,
            ;
        } else {
            assert(p * index >= (q + 1) * p) by (nonlinear_arith)
                requires
                    index >= q + 1,
                    p > 0,
            ;
        }
    }
}

impl ProgressState {
    #[verifier::type_invariant]
    pub open spec fn inv(self) -> bool {
        self@.wf()
    }

    /// A progress state for a track of `total_duration` nanoseconds (zero
    /// where the duration is unknown) on a bar of `bar_width` cells.
    pub fn new(total_duration: u128, bar_width: u16) -> (state: ProgressState)
        requires
            0 < bar_width <= MAX_BAR_WIDTH,
        ensures
            state@ == ProgressView::fresh(total_duration as nat, bar_width as nat),
            state@.wf(),
    {
        ProgressState {
            phase: Phase::Idle,
            elapsed_reference: 0,
            current_elapsed: 0,
            total_duration,
            bar_position: 0,
            next_threshold_index: 1,
            bar_width,
        }
    }

    /// The phase of the player.
    pub fn phase(&self) -> (phase: Phase)
        ensures
            phase == self@.phase,
    {
        self.phase
    }

    /// The clock reading at which playback started.
    pub fn elapsed_reference(&self) -> (nanos: u128)
        ensures
            nanos == self@.elapsed_reference,
    {
        self.elapsed_reference
    }

    /// The elapsed time that the last sample saw.
    pub fn current_elapsed(&self) -> (nanos: u128)
        ensures
            nanos == self@.current_elapsed,
    {
        self.current_elapsed
    }

    /// The duration of the track.
    pub fn total_duration(&self) -> (nanos: u128)
        ensures
            nanos == self@.total_duration,
    {
        self.total_duration
    }

    /// The number of filled cells.
    pub fn bar_position(&self) -> (cells: u16)
        ensures
            cells == self@.bar_position,
            cells <= self@.bar_width,
    {
        proof {
            use_type_invariant(self);
        }
        self.bar_position
    }

    /// The index, counted from 1, of the first unfilled cell.
    pub fn next_threshold_index(&self) -> (index: u16)
        ensures
            index == self@.next_threshold_index,
            index == self@.bar_position + 1,
    {
        proof {
            use_type_invariant(self);
        }
        self.next_threshold_index
    }

    /// The number of cells of the bar.
    pub fn bar_width(&self) -> (cells: u16)
        ensures
            cells == self@.bar_width,
            0 < cells <= MAX_BAR_WIDTH,
    {
        proof {
            use_type_invariant(self);
        }
        self.bar_width
    }

    /// Whether every cell is filled.
    pub fn is_full(&self) -> (full: bool)
        ensures
            full == (self@.bar_position == self@.bar_width),
    {
        self.bar_position == self.bar_width
    }

    /// The elapsed time that the next unfilled cell waits for, or `None`
    /// when the bar is full.
    pub fn next_threshold(&self) -> (nanos: Option<u128>)
        ensures
            nanos == if self@.bar_position < self@.bar_width {
                Some(
                    threshold(
                        self@.total_duration,
                        self@.bar_width,
                        self@.next_threshold_index,
                    ) as u128,
                )
            } else {
                None
            },
            nanos matches Some(t) ==> t <= self@.total_duration,
    {
        proof {
            use_type_invariant(self);
        }
        if self.bar_position < self.bar_width {
            proof {
                lemma_threshold_within_total(
                    self@.total_duration,
                    self@.bar_width,
                    self@.next_threshold_index,
                );
            }
            let cell: u128 = self.total_duration / (self.bar_width as u128);
            Some(cell * (self.next_threshold_index as u128))
        } else {
            None
        }
    }

    /// Playback was handed to the output device at clock reading `now`:
    /// an idle player starts playing, with `now` as its reference. In any
    /// other phase nothing changes.
    pub fn start(&mut self, now: u128)
        ensures
            final(self)@ == old(self)@.started(now as nat),
            final(self)@.wf(),
    {
        proof {
            use_type_invariant(&*self);
        }
        if self.phase == Phase::Idle {
            *self = ProgressState {
                phase: Phase::Playing,
                elapsed_reference: now,
                current_elapsed: self.current_elapsed,
                total_duration: self.total_duration,
                bar_position: self.bar_position,
                next_threshold_index: self.next_threshold_index,
                bar_width: self.bar_width,
            };
        }
    }

    /// The output device reported that it ran dry: a playing player is
    /// finished. In any other phase nothing changes.
    pub fn finish(&mut self)
        ensures
            final(self)@ == old(self)@.finished(),
            final(self)@.wf(),
    {
        proof {
            use_type_invariant(&*self);
        }
        if self.phase == Phase::Playing {
            *self = ProgressState {
                phase: Phase::Finished,
                elapsed_reference: self.elapsed_reference,
                current_elapsed: self.current_elapsed,
                total_duration: self.total_duration,
                bar_position: self.bar_position,
                next_threshold_index: self.next_threshold_index,
                bar_width: self.bar_width,
            };
        }
    }

    /// Reads the clock: while playing, the current elapsed time becomes
    /// `now` minus the reference (zero if `now` lies before it).
    pub fn sample(&mut self, now: u128)
        ensures
            final(self)@ == old(self)@.sampled(now as nat),
            final(self)@.wf(),
    {
        proof {
            use_type_invariant(&*self);
        }
        if self.phase == Phase::Playing {
            let elapsed: u128 = if now >= self.elapsed_reference {
                now - self.elapsed_reference
            } else {
                0
            };
            *self = ProgressState {
                phase: self.phase,
                elapsed_reference: self.elapsed_reference,
                current_elapsed: elapsed,
                total_duration: self.total_duration,
                bar_position: self.bar_position,
                next_threshold_index: self.next_threshold_index,
                bar_width: self.bar_width,
            };
        }
    }

    /// Fills the next cell of the bar, whatever the clock says, and returns
    /// its index; on a full bar nothing changes and nothing is returned.
    pub fn advance(&mut self) -> (cell: Option<u16>)
        ensures
            final(self)@ == old(self)@.filled(),
            cell == if old(self)@.bar_position < old(self)@.bar_width {
                Some(old(self)@.next_threshold_index as u16)
            } else {
                None
            },
            final(self)@.wf(),
    {
        proof {
            use_type_invariant(&*self);
        }
        if self.bar_position < self.bar_width {
            let cell: u16 = self.next_threshold_index;
            *self = ProgressState {
                phase: self.phase,
                elapsed_reference: self.elapsed_reference,
                current_elapsed: self.current_elapsed,
                total_duration: self.total_duration,
                bar_position: self.bar_position + 1,
                next_threshold_index: self.next_threshold_index + 1,
                bar_width: self.bar_width,
            };
            Some(cell)
        } else {
            None
        }
    }

    /// Detects one threshold crossing at the current sample: if the next
    /// unfilled cell is due, it is filled and its index is returned.
    /// Otherwise nothing changes.
    pub fn step(&mut self) -> (cell: Option<u16>)
        ensures
            old(self)@.crossing_due() ==> final(self)@ == old(self)@.advanced() && cell == Some(
                old(self)@.next_threshold_index as u16,
            ),
            !old(self)@.crossing_due() ==> final(self)@ == old(self)@ && cell is None,
            final(self)@.wf(),
    {
        proof {
            use_type_invariant(&*self);
        }
        if self.phase != Phase::Playing || self.total_duration == 0 {
            return None;
        }
        proof {
            if self@.bar_position < self@.bar_width {
                lemma_threshold_within_total(
                    self@.total_duration,
                    self@.bar_width,
                    self@.next_threshold_index,
                );
            }
        }
        match self.next_threshold() {
            None => None,
            Some(limit) => {
                if self.current_elapsed > limit {
                    self.advance()
                } else {
                    None
                }
            },
        }
    }

    /// One poll tick at clock reading `now`: reads the clock, then fills
    /// every cell that is due, one crossing at a time, and returns the
    /// filled cells in order. Outside the playing phase nothing happens.
    pub fn on_tick(&mut self, now: u128) -> (cells: Vec<u16>)
        ensures
            final(self)@ == old(self)@.ticked(now as nat),
            cells@.map_values(|c: u16| c as nat) == old(self)@.emitted(now as nat),
            cells@.len() == old(self)@.emitted(now as nat).len(),
            forall|i: int|
                0 <= i < cells@.len() ==> #[trigger] cells@[i] == old(self)@.bar_position + 1 + i,
            final(self)@.wf(),
    {
        proof {
            use_type_invariant(&*self);
        }
        let ghost before = self@;
        let mut cells: Vec<u16> = Vec::new();
        self.sample(now);
        let ghost due = cells_due(before.total_duration, before.bar_width, before.elapsed_at(now as nat));
        loop
            invariant
                before.wf(),
                self@.wf(),
                self@ == (ProgressView {
                    bar_position: self@.bar_position,
                    next_threshold_index: self@.next_threshold_index,
                    ..before.sampled(now as nat)
                }),
                due == cells_due(before.total_duration, before.bar_width, before.elapsed_at(now as nat)),
                before.bar_position <= self@.bar_position <= before.position_after(now as nat),
                cells@.len() == self@.bar_position - before.bar_position,
                forall|i: int| 0 <= i < cells@.len() ==> cells@[i] == before.bar_position + 1 + i,
            ensures
                self@.bar_position == before.position_after(now as nat),
            decreases self@.bar_width - self@.bar_position,
        {
            proof {
                if self@.bar_position < self@.bar_width {
                    lemma_cells_due_counts_crossed(
                        before.total_duration,
                        before.bar_width,
                        before.elapsed_at(now as nat),
                        self@.next_threshold_index,
                    );
                }
            }
            let stepped = self.step();
            match stepped {
                None => {
                    break ;
                },
                Some(cell) => {
                    cells.push(cell);
                },
            }
        }
        assert(cells@.map_values(|c: u16| c as nat) =~= before.emitted(now as nat));
        cells
    }
}

} // verus!
