use jukebox::ansi::{style_is_bold, style_tint, styled_text, Style, Tint};
use jukebox::metadata::TrackMetadata;
use jukebox::render::{
    advance_commands, encode, header_commands, render_advance, render_header, DrawCommand,
    BAR_ROW, LABEL_COLUMN, NAME_ROW, SIZE_ROW, TYPE_ROW, VALUE_COLUMN,
};
use std::collections::HashMap;

fn song() -> TrackMetadata {
    TrackMetadata::new(
        String::from("/music/song.mp3"),
        String::from("song.mp3"),
        String::from("audio/mpeg"),
        4_000_000,
    )
}

fn print(text: &str, style: Style) -> DrawCommand {
    DrawCommand::Print { text: String::from(text), style }
}

fn at(column: u16, row: u16) -> DrawCommand {
    DrawCommand::MoveTo { column, row }
}

/// A screen for the tests: each printed character fills one cell.
struct Grid {
    cells: HashMap<(u16, u16), (char, Style)>,
    cursor: (u16, u16),
}

impl Grid {
    fn new() -> Grid {
        Grid { cells: HashMap::new(), cursor: (0, 0) }
    }

    fn paint(&mut self, commands: &[DrawCommand]) {
        for command in commands {
            match command {
                DrawCommand::ClearAll => self.cells.clear(),
                DrawCommand::MoveTo { column, row } => self.cursor = (*column, *row),
                DrawCommand::Print { text, style } => {
                    for symbol in text.chars() {
                        self.cells.insert(self.cursor, (symbol, *style));
                        self.cursor.0 += 1;
                    }
                }
            }
        }
    }

    fn row(&self, row: u16, width: u16) -> String {
        (0..width).map(|column| self.cells.get(&(column, row)).map_or(' ', |cell| cell.0)).collect()
    }
}

#[test]
fn layout_constants() {
    assert_eq!(LABEL_COLUMN, 0);
    assert_eq!(VALUE_COLUMN, 9);
    assert_eq!((NAME_ROW, TYPE_ROW, SIZE_ROW, BAR_ROW), (0, 1, 2, 3));
}

#[test]
fn header_commands_for_a_song() {
    let expected = vec![
        DrawCommand::ClearAll,
        at(0, 0),
        print("Playing:", Style::Label),
        at(9, 0),
        print("song.mp3", Style::Value),
        at(0, 1),
        print("Type:", Style::Label),
        at(9, 1),
        print("audio/mpeg", Style::Value),
        at(0, 2),
        print("Size:", Style::Label),
        at(9, 2),
        print("4000000 bytes", Style::Value),
        at(0, 3),
        print("[", Style::Label),
        at(21, 3),
        print("]", Style::Label),
    ];
    assert_eq!(header_commands(&song(), 20), expected);
}

#[test]
fn closing_bracket_follows_the_width() {
    let commands = header_commands(&song(), 35);
    assert_eq!(commands[15], at(36, 3));
    let commands = header_commands(&song(), 65533);
    assert_eq!(commands[15], at(65534, 3));
}

#[test]
fn advance_commands_for_a_cell() {
    assert_eq!(advance_commands(3), vec![at(3, 3), print("=", Style::Fill)]);
    assert_eq!(advance_commands(20), vec![at(20, 3), print("=", Style::Fill)]);
}

#[test]
fn header_text_for_a_song() {
    let expected = [
        "\x1b[2J",
        "\x1b[1;1H",
        "\x1b[38;5;7mPlaying:\x1b[39m",
        "\x1b[1;10H",
        "\x1b[38;5;10msong.mp3\x1b[39m",
        "\x1b[2;1H",
        "\x1b[38;5;7mType:\x1b[39m",
        "\x1b[2;10H",
        "\x1b[38;5;10maudio/mpeg\x1b[39m",
        "\x1b[3;1H",
        "\x1b[38;5;7mSize:\x1b[39m",
        "\x1b[3;10H",
        "\x1b[38;5;10m4000000 bytes\x1b[39m",
        "\x1b[4;1H",
        "\x1b[38;5;7m[\x1b[39m",
        "\x1b[4;22H",
        "\x1b[38;5;7m]\x1b[39m",
    ]
    .join("");
    assert_eq!(render_header(&song(), 20), expected);
}

#[test]
fn advance_text_for_a_cell() {
    assert_eq!(render_advance(3), "\x1b[4;4H\x1b[38;5;10m\x1b[1m=\x1b[0m");
    assert_eq!(render_advance(1), "\x1b[4;2H\x1b[38;5;10m\x1b[1m=\x1b[0m");
    assert_eq!(render_advance(65533), "\x1b[4;65534H\x1b[38;5;10m\x1b[1m=\x1b[0m");
}

#[test]
fn encode_of_each_command() {
    assert_eq!(encode(&vec![]), Some(String::new()));
    assert_eq!(encode(&vec![DrawCommand::ClearAll]), Some(String::from("\x1b[2J")));
    assert_eq!(encode(&vec![at(0, 0)]), Some(String::from("\x1b[1;1H")));
    assert_eq!(encode(&vec![at(9, 2)]), Some(String::from("\x1b[3;10H")));
    assert_eq!(encode(&vec![at(65534, 65534)]), Some(String::from("\x1b[65535;65535H")));
    assert_eq!(
        encode(&vec![print("a b", Style::Label)]),
        Some(String::from("\x1b[38;5;7ma b\x1b[39m"))
    );
    assert_eq!(
        encode(&vec![print("ü", Style::Value)]),
        Some(String::from("\x1b[38;5;10mü\x1b[39m"))
    );
    assert_eq!(
        encode(&vec![print("", Style::Fill)]),
        Some(String::from("\x1b[38;5;10m\x1b[1m\x1b[0m"))
    );
}

#[test]
fn encode_keeps_the_order() {
    let commands = vec![at(1, 3), print("=", Style::Fill), at(2, 3), print("=", Style::Fill)];
    assert_eq!(
        encode(&commands),
        Some(String::from(
            "\x1b[4;2H\x1b[38;5;10m\x1b[1m=\x1b[0m\x1b[4;3H\x1b[38;5;10m\x1b[1m=\x1b[0m"
        ))
    );
}

#[test]
fn encode_refuses_what_cannot_be_addressed() {
    assert_eq!(encode(&vec![at(65535, 0)]), None);
    assert_eq!(encode(&vec![at(0, 65535)]), None);
    assert_eq!(encode(&vec![DrawCommand::ClearAll, at(65535, 65535)]), None);
    assert_eq!(encode(&advance_commands(65535)), None);
}

#[test]
fn header_twice_is_header_once() {
    let header = header_commands(&song(), 20);
    assert_eq!(header, header_commands(&song(), 20));
    assert_eq!(render_header(&song(), 20), render_header(&song(), 20));

    let mut once = Grid::new();
    once.paint(&[at(5, 7), print("left over from before", Style::Value)]);
    once.paint(&header);
    let mut twice = Grid::new();
    twice.paint(&advance_commands(4));
    twice.paint(&header);
    twice.paint(&header);
    assert_eq!(once.cells, twice.cells);
    assert_eq!(once.cursor, twice.cursor);
    assert_eq!(once.row(7, 40).trim(), "");
}

#[test]
fn header_shows_block_above_empty_bar() {
    let mut grid = Grid::new();
    grid.paint(&header_commands(&song(), 20));
    assert_eq!(grid.row(0, 22), "Playing: song.mp3     ");
    assert_eq!(grid.row(1, 22), "Type:    audio/mpeg   ");
    assert_eq!(grid.row(2, 22), "Size:    4000000 bytes");
    assert_eq!(grid.row(3, 22), "[                    ]");
}

#[test]
fn fills_accumulate_from_the_left() {
    let mut grid = Grid::new();
    grid.paint(&header_commands(&song(), 20));
    grid.paint(&advance_commands(1));
    assert_eq!(grid.row(3, 22), "[=                   ]");
    grid.paint(&advance_commands(2));
    grid.paint(&advance_commands(3));
    assert_eq!(grid.row(3, 22), "[===                 ]");
    for cell in 4..=20 {
        grid.paint(&advance_commands(cell));
    }
    assert_eq!(grid.row(3, 22), "[====================]");
    assert_eq!(grid.row(0, 22), "Playing: song.mp3     ");
    assert_eq!(grid.cells[&(7, 3)], ('=', Style::Fill));
}

#[test]
fn styled_text_of_each_style() {
    assert_eq!(styled_text("Type:", Style::Label), "\x1b[38;5;7mType:\x1b[39m");
    assert_eq!(styled_text("audio/mpeg", Style::Value), "\x1b[38;5;10maudio/mpeg\x1b[39m");
    assert_eq!(styled_text("=", Style::Fill), "\x1b[38;5;10m\x1b[1m=\x1b[0m");
    assert_eq!(styled_text("", Style::Label), "\x1b[38;5;7m\x1b[39m");
}

#[test]
fn colour_and_weight_of_each_style() {
    assert_eq!(style_tint(Style::Label), Tint::Grey);
    assert_eq!(style_tint(Style::Value), Tint::Green);
    assert_eq!(style_tint(Style::Fill), Tint::Green);
    assert!(!style_is_bold(Style::Label));
    assert!(!style_is_bold(Style::Value));
    assert!(style_is_bold(Style::Fill));
}
