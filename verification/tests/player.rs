use jukebox::error::PlayerError;
use jukebox::metadata::TrackMetadata;
use jukebox::player::{Action, Event, Jukebox};
use jukebox::progress::Phase;
use jukebox::render::{render_advance, render_header};

const SECOND: u128 = 1_000_000_000;

fn song() -> TrackMetadata {
    TrackMetadata::new(
        String::from("song.mp3"),
        String::from("song.mp3"),
        String::from("audio/mpeg"),
        4_000_000,
    )
}

fn frame() -> Vec<u8> {
    let mut bytes = vec![0xFF, 0xFB, 0x90, 0x00];
    bytes.resize(417, 0);
    bytes
}

fn playing_song() -> Jukebox {
    let mut player = Jukebox::with_duration(song(), 200 * SECOND, 20);
    assert!(matches!(player.handle(Event::DeviceReady), Action::Draw(_)));
    assert_eq!(player.handle(Event::Started { now: 0 }), Action::Wait);
    player
}

#[test]
fn song_of_200_seconds_after_30_seconds() {
    let mut player = Jukebox::with_duration(song(), 200 * SECOND, 20);
    assert_eq!(player.metadata().file_name(), "song.mp3");
    assert_eq!(player.metadata().mime_type(), "audio/mpeg");
    assert_eq!(player.metadata().size_bytes(), 4_000_000);
    assert_eq!(player.progress().total_duration(), 200 * SECOND);
    assert_eq!(player.progress().bar_width(), 20);

    let header = player.handle(Event::DeviceReady);
    assert_eq!(header, Action::Draw(vec![render_header(&song(), 20)]));
    assert_eq!(player.handle(Event::Started { now: 0 }), Action::Wait);

    let mut events = 0;
    for second in [4u128, 9, 11, 17, 22, 29, 30] {
        match player.handle(Event::Polled { active: true, now: second * SECOND }) {
            Action::Draw(frames) => events += frames.len(),
            Action::Wait => {}
            other => panic!("unexpected {:?}", other),
        }
    }
    assert_eq!(events, 2);
    assert_eq!(player.progress().bar_position(), 2);

    let action = player.handle(Event::Polled { active: true, now: 30 * SECOND + 1 });
    assert_eq!(action, Action::Draw(vec![render_advance(3)]));
    assert_eq!(player.progress().bar_position(), 3);
    assert_eq!(player.progress().next_threshold_index(), 4);
}

#[test]
fn one_coarse_poll_past_30_seconds_fires_three_events() {
    let mut player = playing_song();
    let action = player.handle(Event::Polled { active: true, now: 30 * SECOND + 1 });
    assert_eq!(
        action,
        Action::Draw(vec![render_advance(1), render_advance(2), render_advance(3)])
    );
    assert_eq!(player.progress().bar_position(), 3);
}

#[test]
fn new_probes_and_measures() {
    let content = frame();
    let player =
        Jukebox::new("/music/song.mp3", Some("song.mp3"), Some(&content), Some(417), 20).unwrap();
    assert_eq!(player.metadata().file_path(), "/music/song.mp3");
    assert_eq!(player.metadata().file_name(), "song.mp3");
    assert_eq!(player.metadata().mime_type(), "audio/mpeg");
    assert_eq!(player.metadata().size_bytes(), 417);
    assert_eq!(player.progress().total_duration(), 26_122_448);
    assert_eq!(player.progress().phase(), Phase::Idle);
    assert_eq!(player.progress().bar_position(), 0);
    assert_eq!(player.progress().bar_width(), 20);
}

#[test]
fn new_fails_as_probing_fails() {
    let content = frame();
    let missing = Jukebox::new("/music/gone.mp3", Some("gone.mp3"), None, None, 20);
    assert_eq!(missing.err(), Some(PlayerError::FileAccess));
    let nameless = Jukebox::new("..", None, Some(&content), Some(417), 20);
    assert_eq!(nameless.err(), Some(PlayerError::FileAccess));
    let junk = Jukebox::new("/tmp/junk", Some("junk"), Some(&[9, 9, 9, 9]), Some(4), 20);
    assert_eq!(junk.err(), Some(PlayerError::UnknownFormat));
    let sizeless = Jukebox::new("/music/song.mp3", Some("song.mp3"), Some(&content), None, 20);
    assert_eq!(sizeless.err(), Some(PlayerError::FileAccess));
}

#[test]
fn new_fails_when_audio_cannot_be_measured() {
    let wav = b"RIFF\x00\x00\x00\x00WAVEfmt ";
    let outcome = Jukebox::new("/music/a.wav", Some("a.wav"), Some(wav), Some(16), 20);
    assert_eq!(outcome.err(), Some(PlayerError::DurationUnavailable));
}

#[test]
fn device_failure_is_a_playback_init_error() {
    let mut player = Jukebox::with_duration(song(), 200 * SECOND, 20);
    assert_eq!(
        player.handle(Event::DeviceUnavailable),
        Action::Fail(PlayerError::PlaybackInit)
    );
    assert_eq!(player.progress().phase(), Phase::Idle);
}

#[test]
fn device_failure_after_start_is_ignored() {
    let mut player = playing_song();
    assert_eq!(player.handle(Event::DeviceUnavailable), Action::Wait);
    assert_eq!(player.progress().phase(), Phase::Playing);
}

#[test]
fn header_is_drawn_once_and_before_playback() {
    let mut player = Jukebox::with_duration(song(), 200 * SECOND, 20);
    assert_eq!(player.draw_metadata(), render_header(&song(), 20));
    assert_eq!(
        player.handle(Event::DeviceReady),
        Action::Draw(vec![render_header(&song(), 20)])
    );
    assert_eq!(player.handle(Event::DeviceReady), Action::Wait);
    player.handle(Event::Started { now: 0 });
    assert_eq!(player.handle(Event::DeviceReady), Action::Wait);

    let mut late = Jukebox::with_duration(song(), 200 * SECOND, 20);
    late.handle(Event::Started { now: 0 });
    assert_eq!(late.handle(Event::DeviceReady), Action::Wait);
}

#[test]
fn polls_before_start_do_nothing() {
    let mut player = Jukebox::with_duration(song(), 200 * SECOND, 20);
    assert_eq!(player.handle(Event::Polled { active: true, now: 500 * SECOND }), Action::Wait);
    assert_eq!(player.handle(Event::Polled { active: false, now: 500 * SECOND }), Action::Wait);
    assert_eq!(player.progress().phase(), Phase::Idle);
    assert_eq!(player.progress().bar_position(), 0);
}

#[test]
fn start_takes_the_clock_reading_as_reference() {
    let mut player = Jukebox::with_duration(song(), 200 * SECOND, 20);
    player.handle(Event::Started { now: 1_000 * SECOND });
    assert_eq!(player.progress().phase(), Phase::Playing);
    assert_eq!(player.progress().elapsed_reference(), 1_000 * SECOND);
    let action = player.handle(Event::Polled { active: true, now: 1_015 * SECOND });
    assert_eq!(action, Action::Draw(vec![render_advance(1)]));
    assert_eq!(player.progress().current_elapsed(), 15 * SECOND);
}

#[test]
fn inactive_poll_ends_playback() {
    let mut player = playing_song();
    player.handle(Event::Polled { active: true, now: 45 * SECOND });
    let action = player.handle(Event::Polled { active: false, now: 500 * SECOND });
    assert_eq!(action, Action::Drain);
    assert_eq!(player.progress().phase(), Phase::Finished);
    assert_eq!(player.progress().bar_position(), 4);
    assert_eq!(player.handle(Event::Polled { active: true, now: 600 * SECOND }), Action::Wait);
    assert_eq!(player.handle(Event::Polled { active: false, now: 600 * SECOND }), Action::Wait);
    assert_eq!(player.progress().bar_position(), 4);
}

#[test]
fn unknown_duration_draws_no_cell_until_the_device_runs_dry() {
    let mut player = Jukebox::with_duration(song(), 0, 20);
    player.handle(Event::DeviceReady);
    player.handle(Event::Started { now: 0 });
    for second in 1u128..50 {
        let action = player.handle(Event::Polled { active: true, now: second * SECOND });
        assert_eq!(action, Action::Wait);
        assert_eq!(player.progress().phase(), Phase::Playing);
    }
    assert_eq!(player.progress().bar_position(), 0);
    assert_eq!(player.handle(Event::Polled { active: false, now: 50 * SECOND }), Action::Drain);
    assert_eq!(player.progress().phase(), Phase::Finished);
}

#[test]
fn no_more_events_than_cells() {
    let mut player = playing_song();
    let mut cells = 0;
    for second in 0u128..400 {
        if let Action::Draw(frames) =
            player.handle(Event::Polled { active: true, now: second * SECOND })
        {
            cells += frames.len();
        }
    }
    assert_eq!(cells, 20);
    assert!(player.progress().is_full());
}

#[test]
fn tick_returns_one_text_per_cell() {
    let mut player = playing_song();
    assert_eq!(player.tick(5 * SECOND), Vec::<String>::new());
    assert_eq!(player.tick(25 * SECOND), vec![render_advance(1), render_advance(2)]);
    assert_eq!(player.tick(25 * SECOND), Vec::<String>::new());
    assert_eq!(player.progress().bar_position(), 2);
}

#[test]
fn draw_progression_fills_the_next_cell() {
    let mut player = Jukebox::with_duration(song(), 200 * SECOND, 20);
    player.handle(Event::DeviceReady);
    assert_eq!(player.draw_progression(), Some(render_advance(1)));
    assert_eq!(player.progress().bar_position(), 1);
    assert_eq!(player.progress().next_threshold_index(), 2);
    assert_eq!(player.draw_progression(), Some(render_advance(2)));
    assert_eq!(player.draw_progression(), Some(render_advance(3)));
    assert_eq!(player.progress().bar_position(), 3);
    assert_eq!(player.progress().next_threshold_index(), 4);
    assert_eq!(player.progress().phase(), Phase::Idle);
}

#[test]
fn draw_progression_after_a_tick_fills_the_cell_after_the_last() {
    let mut player = playing_song();
    assert_eq!(player.tick(25 * SECOND), vec![render_advance(1), render_advance(2)]);
    assert_eq!(player.draw_progression(), Some(render_advance(3)));
    assert_eq!(player.progress().bar_position(), 3);
    assert_eq!(player.tick(35 * SECOND), Vec::<String>::new());
    assert_eq!(player.tick(45 * SECOND), vec![render_advance(4)]);
}

#[test]
fn draw_progression_stops_at_the_full_bar() {
    let mut player = Jukebox::with_duration(song(), 200 * SECOND, 2);
    assert_eq!(player.draw_progression(), Some(render_advance(1)));
    assert_eq!(player.draw_progression(), Some(render_advance(2)));
    assert!(player.progress().is_full());
    assert_eq!(player.draw_progression(), None);
    assert_eq!(player.progress().bar_position(), 2);
    assert_eq!(player.progress().next_threshold_index(), 3);
}

#[test]
fn audio_inside_a_container_signature_is_probed_as_audio() {
    let content = b"PK\x03\x04ftypM4A ";
    let outcome = Jukebox::new("/music/odd.m4a", Some("odd.m4a"), Some(content), Some(12), 20);
    assert_eq!(outcome.err(), Some(PlayerError::DurationUnavailable));
}
