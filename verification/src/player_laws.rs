//! What holds of the player over whole runs of events.

use crate::player::{Event, JukeboxView};
use vstd::prelude::*;

verus! {

/// Whether the player answers `event` by drawing the header.
pub open spec fn draws_header(player: JukeboxView, event: Event) -> bool {
    event is DeviceReady && player.header_due()
}

/// The player after a run of events.
pub open spec fn run(player: JukeboxView, events: Seq<Event>) -> JukeboxView
    decreases events.len(),
{
    if events.len() == 0 {
        player
    } else {
        run(player, events.drop_last()).next(events.last())
    }
}

/// How often the header is drawn over a run of events.
pub open spec fn header_draws(player: JukeboxView, events: Seq<Event>) -> nat
    decreases events.len(),
{
    if events.len() == 0 {
        0
    } else if draws_header(run(player, events.drop_last()), events.last()) {
        header_draws(player, events.drop_last()) + 1
    } else {
        header_draws(player, events.drop_last())
    }
}

/// No event takes a player back to the idle phase, and none takes a
/// finished player anywhere.
pub proof fn lemma_phases_only_go_forward(player: JukeboxView, event: Event)
    ensures
        !(player.progress.phase is Idle) ==> !(player.next(event).progress.phase is Idle),
        player.progress.phase is Finished ==> player.next(event).progress.phase is Finished,
        player.next(event).metadata == player.metadata,
{
}

/// Over any run of events the header is drawn at most once, only while the
/// player is idle, and never again once it was drawn.
pub proof fn lemma_header_is_drawn_at_most_once(player: JukeboxView, events: Seq<Event>)
    ensures
        header_draws(player, events) <= 1,
        player.header_drawn ==> header_draws(player, events) == 0,
        !(player.progress.phase is Idle) ==> header_draws(player, events) == 0,
        header_draws(player, events) == 1 ==> run(player, events).header_drawn,
        player.header_drawn ==> run(player, events).header_drawn,
        !(player.progress.phase is Idle) ==> !(run(player, events).progress.phase is Idle),
    decreases events.len(),
{
    if events.len() > 0 {
        lemma_header_is_drawn_at_most_once(player, events.drop_last());
        lemma_phases_only_go_forward(run(player, events.drop_last()), events.last());
    }
}

} // verus!
