//! The player: one track, its progress, and what to do next.
//!
//! The player performs nothing itself. Whoever owns the audio device, the
//! clock and the terminal tells it what happened, as an [`Event`], and is
//! told what to do, as an [`Action`].

use crate::duration::{spec_track_length, track_length};
use crate::error::PlayerError;
use crate::metadata::{
    content_view, get_metadata, name_view, probe_outcome, MetadataView, TrackMetadata,
};
use crate::progress::{Phase, ProgressState, ProgressView, MAX_BAR_WIDTH};
use crate::render::{advance_ops, header_ops, ops_sequence, render_advance, render_header};
use vstd::prelude::*;

verus! {

/// What happened outside the player.
#[derive(Clone, Copy, Debug, PartialEq, Eq)]
pub enum Event {
    /// The audio output device was opened.
    DeviceReady,
    /// The audio output device could not be opened.
    DeviceUnavailable,
    /// The audio was handed to the output device, at this clock reading.
    Started { now: u128 },
    /// The output device was asked whether it still holds audio, at this
    /// clock reading.
    Polled { active: bool, now: u128 },
}

/// What the player asks for.
#[derive(Debug, PartialEq, Eq)]
pub enum Action {
    /// Nothing: go on.
    Wait,
    /// Send each of these texts to the terminal, in order, flushing after
    /// each.
    Draw(Vec<String>),
    /// Playback is over: let the device play out what it still holds, then
    /// stop it.
    Drain,
    /// Give up with this error.
    Fail(PlayerError),
}

/// The mathematical content of an [`Action`].
pub enum ActionView {
    Wait,
    Draw(Seq<Seq<char>>),
    Drain,
    Fail(PlayerError),
}

/// The texts of a list, each by its characters.
pub open spec fn frames_of(frames: Seq<String>) -> Seq<Seq<char>> {
    frames.map_values(|frame: String| frame@)
}

impl View for Action {
    type V = ActionView;

    open spec fn view(&self) -> ActionView {
        match *self {
            Action::Wait => ActionView::Wait,
            Action::Draw(frames) => ActionView::Draw(frames_of(frames@)),
            Action::Drain => ActionView::Drain,
            Action::Fail(error) => ActionView::Fail(error),
        }
    }
}

/// The text that draws the header for a track on a bar of the given width.
pub open spec fn header_frame(meta: MetadataView, bar_width: nat) -> Seq<char> {
    ops_sequence(header_ops(meta, bar_width))
}

/// The text that fills one cell of the bar.
pub open spec fn advance_frame(cell: nat) -> Seq<char> {
    ops_sequence(advance_ops(cell))
}

/// The texts that fill the given cells, one text for each.
pub open spec fn advance_frames(cells: Seq<nat>) -> Seq<Seq<char>> {
    cells.map_values(|cell: nat| advance_frame(cell))
}

/// The mathematical content of a [`Jukebox`].
pub struct JukeboxView {
    pub metadata: MetadataView,
    pub progress: ProgressView,
    pub header_drawn: bool,
}

impl JukeboxView {
    /// Whether the header is still to be drawn: only before playback, and
    /// only once.
    pub open spec fn header_due(self) -> bool {
        self.progress.phase is Idle && !self.header_drawn
    }

    /// The player after an event.
    pub open spec fn next(self, event: Event) -> JukeboxView {
        match event {
            Event::DeviceReady => if self.header_due() {
                JukeboxView { header_drawn: true, ..self }
            } else {
                self
            },
            Event::DeviceUnavailable => self,
            Event::Started { now } => JukeboxView {
                progress: self.progress.started(now as nat),
                ..self
            },
            Event::Polled { active, now } => if active {
                JukeboxView { progress: self.progress.ticked(now as nat), ..self }
            } else {
                JukeboxView { progress: self.progress.finished(), ..self }
            },
        }
    }

    /// What the player asks for upon an event.
    pub open spec fn action(self, event: Event) -> ActionView {
        match event {
            Event::DeviceReady => if self.header_due() {
                ActionView::Draw(seq![header_frame(self.metadata, self.progress.bar_width)])
            } else {
                ActionView::Wait
            },
            Event::DeviceUnavailable => if self.progress.phase is Idle {
                ActionView::Fail(PlayerError::PlaybackInit)
            } else {
                ActionView::Wait
            },
            Event::Started { now } => ActionView::Wait,
            Event::Polled { active, now } => if !(self.progress.phase is Playing) {
                ActionView::Wait
            } else if !active {
                ActionView::Drain
            } else if self.progress.emitted(now as nat).len() == 0 {
                ActionView::Wait
            } else {
                ActionView::Draw(advance_frames(self.progress.emitted(now as nat)))
            },
        }
    }
}

/// What making a player comes to: the record of the track as probing gives
/// it, the playing time as the decoder measures it, and an idle, empty bar.
pub open spec fn new_outcome(
    file_path: Seq<char>,
    file_name: Option<Seq<char>>,
    content: Option<Seq<u8>>,
    size_bytes: Option<u64>,
    bar_width: nat,
) -> Result<JukeboxView, PlayerError> {
    match probe_outcome(file_path, file_name, content, size_bytes) {
        Err(error) => Err(error),
        Ok(metadata) => match spec_track_length(content->0) {
            Err(error) => Err(error),
            Ok(total) => Ok(
                JukeboxView {
                    metadata,
                    progress: ProgressView::fresh(total as nat, bar_width),
                    header_drawn: false,
                },
            ),
        },
    }
}

/// A player for one track.
pub struct Jukebox {
    metadata: TrackMetadata,
    progress: ProgressState,
    header_drawn: bool,
}

impl View for Jukebox {
    type V = JukeboxView;

    closed spec fn view(&self) -> JukeboxView {
        JukeboxView {
            metadata: self.metadata@,
            progress: self.progress@,
            header_drawn: self.header_drawn,
        }
    }
}

impl Jukebox {
    /// A player for the track that the file system described: probes the
    /// file, measures its playing time, and starts with an empty bar of
    /// `bar_width` cells.
    pub fn new(
        file_path: &str,
        file_name: Option<&str>,
        content: Option<&[u8]>,
        size_bytes: Option<u64>,
        bar_width: u16,
    ) -> (outcome: Result<Jukebox, PlayerError>)
        requires
            0 < bar_width <= MAX_BAR_WIDTH,
        ensures
            match outcome {
                Ok(player) => new_outcome(
                    file_path@,
                    name_view(file_name),
                    content_view(content),
                    size_bytes,
                    bar_width as nat,
                ) == Ok::<JukeboxView, PlayerError>(player@),
                Err(error) => new_outcome(
                    file_path@,
                    name_view(file_name),
                    content_view(content),
                    size_bytes,
                    bar_width as nat,
                ) == Err::<JukeboxView, PlayerError>(error),
            },
    {
        let bytes = match content {
            Some(bytes) => bytes,
            None => {
                return Err(PlayerError::FileAccess);
            },
        };
        let metadata = match get_metadata(file_path, file_name, Some(bytes), size_bytes) {
            Ok(metadata) => metadata,
            Err(error) => {
                return Err(error);
            },
        };
        let total = match track_length(bytes) {
            Ok(total) => total,
            Err(error) => {
                return Err(error);
            },
        };
        Ok(Jukebox::with_duration(metadata, total, bar_width))
    }

    /// A player for a track whose record and playing time (in nanoseconds;
    /// zero where it is unknown) are known already.
    pub fn with_duration(metadata: TrackMetadata, total_duration: u128, bar_width: u16) -> (player:
        Jukebox)
        requires
            0 < bar_width <= MAX_BAR_WIDTH,
        ensures
            player@ == (JukeboxView {
                metadata: metadata@,
                progress: ProgressView::fresh(total_duration as nat, bar_width as nat),
                header_drawn: false,
            }),
    {
        Jukebox {
            metadata,
            progress: ProgressState::new(total_duration, bar_width),
            header_drawn: false,
        }
    }

    /// The record of the track.
    pub fn metadata(&self) -> (metadata: &TrackMetadata)
        ensures
            metadata@ == self@.metadata,
    {
        &self.metadata
    }

    /// The progress of the playback.
    pub fn progress(&self) -> (progress: &ProgressState)
        ensures
            progress@ == self@.progress,
            progress@.wf(),
    {
        proof {
            use_type_invariant(&self.progress);
        }
        &self.progress
    }

    /// The text that draws the header: it clears the screen and paints the
    /// metadata block and the empty bar from scratch.
    pub fn draw_metadata(&self) -> (frame: String)
        ensures
            frame@ == header_frame(self@.metadata, self@.progress.bar_width),
    {
        render_header(&self.metadata, self.progress.bar_width())
    }

    /// Fills the next cell of the bar and returns the text that draws it:
    /// one more cell, just right of the last filled one. On a full bar
    /// nothing changes and nothing is drawn.
    pub fn draw_progression(&mut self) -> (frame: Option<String>)
        ensures
            final(self)@ == (JukeboxView { progress: old(self)@.progress.filled(), ..old(self)@ }),
            old(self)@.progress.bar_position < old(self)@.progress.bar_width ==> frame is Some
                && frame->0@ == advance_frame(old(self)@.progress.bar_position + 1),
            old(self)@.progress.bar_position >= old(self)@.progress.bar_width ==> frame is None,
    {
        proof {
            use_type_invariant(&self.progress);
        }
        match self.progress.advance() {
            Some(cell) => Some(render_advance(cell)),
            None => None,
        }
    }

    /// One poll tick at clock reading `now`: fills every cell that is due
    /// and returns one text for each, in order.
    pub fn tick(&mut self, now: u128) -> (frames: Vec<String>)
        ensures
            final(self)@ == (JukeboxView {
                progress: old(self)@.progress.ticked(now as nat),
                ..old(self)@
            }),
            frames_of(frames@) == advance_frames(old(self)@.progress.emitted(now as nat)),
    {
        proof {
            use_type_invariant(&self.progress);
        }
        let ghost before = self@.progress;
        let cells = self.progress.on_tick(now);
        let ghost emitted = before.emitted(now as nat);
        assert(cells@.len() == emitted.len());
        let mut frames: Vec<String> = Vec::new();
        let mut i: usize = 0;
        while i < cells.len()
            invariant
                i <= cells@.len(),
                cells@.len() == emitted.len(),
                cells@.map_values(|c: u16| c as nat) == emitted,
                emitted == before.emitted(now as nat),
                before.position_after(now as nat) <= MAX_BAR_WIDTH,
                frames@.len() == i,
                forall|j: int| 0 <= j < i ==> (#[trigger] frames@[j])@ == advance_frame(emitted[j]),
            decreases cells@.len() - i,
        {
            let cell: u16 = cells[i];
            assert(cells@.map_values(|c: u16| c as nat)[i as int] == cell as nat);
            assert(emitted[i as int] == before.bar_position + 1 + i);
            frames.push(render_advance(cell));
            i += 1;
        }
        assert(frames_of(frames@) =~= advance_frames(emitted));
        frames
    }

    /// Takes an event and says what to do next.
    pub fn handle(&mut self, event: Event) -> (action: Action)
        ensures
            final(self)@ == old(self)@.next(event),
            action@ == old(self)@.action(event),
    {
        match event {
            Event::DeviceReady => {
                if self.progress.phase() == Phase::Idle && !self.header_drawn {
                    let frame = self.draw_metadata();
                    self.header_drawn = true;
                    let mut frames: Vec<String> = Vec::new();
                    frames.push(frame);
                    assert(frames_of(frames@) =~= seq![
                        header_frame(old(self)@.metadata, old(self)@.progress.bar_width),
                    ]);
                    Action::Draw(frames)
                } else {
                    Action::Wait
                }
            },
            Event::DeviceUnavailable => {
                if self.progress.phase() == Phase::Idle {
                    Action::Fail(PlayerError::PlaybackInit)
                } else {
                    Action::Wait
                }
            },
            Event::Started { now } => {
                self.progress.start(now);
                Action::Wait
            },
            Event::Polled { active, now } => {
                if self.progress.phase() != Phase::Playing {
                    Action::Wait
                } else if !active {
                    self.progress.finish();
                    Action::Drain
                } else {
                    let frames = self.tick(now);
                    assert(frames_of(frames@).len() == frames@.len());
                    assert(advance_frames(old(self)@.progress.emitted(now as nat)).len() == old(
                        self,
                    )@.progress.emitted(now as nat).len());
                    if frames.len() == 0 {
                        Action::Wait
                    } else {
                        Action::Draw(frames)
                    }
                }
            },
        }
    }
}

} // verus!
