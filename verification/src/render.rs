//! What is drawn: the static header with the empty bar, and one cell of the
//! bar for each advance. Drawing is described as a list of commands, which
//! is then turned into the text that the terminal is sent.

use crate::ansi::{
    clear_all_sequence, clear_all_text, move_to_sequence, move_to_text, styled_sequence,
    styled_text, Style,
};
use crate::metadata::{MetadataView, TrackMetadata};
use crate::progress::MAX_BAR_WIDTH;
use crate::text::{decimal, push_decimal};
use vstd::prelude::*;
use vstd::string::StringExecFns;

verus! {

/// The column in which captions and the opening bracket start.
pub const LABEL_COLUMN: u16 = 0;

/// The column in which the values of the metadata block start.
pub const VALUE_COLUMN: u16 = 9;

/// The row of the file name.
pub const NAME_ROW: u16 = 0;

/// The row of the MIME type.
pub const TYPE_ROW: u16 = 1;

/// The row of the file size.
pub const SIZE_ROW: u16 = 2;

/// The row of the bar, below the metadata block.
pub const BAR_ROW: u16 = 3;

/// One drawing command, as the model sees it.
pub enum DrawOp {
    /// Blank the whole screen.
    ClearAll,
    /// Put the cursor at a column and a row, both counted from zero.
    MoveTo { column: nat, row: nat },
    /// Write text at the cursor, in a style.
    Print { text: Seq<char>, style: Style },
}

/// One drawing command.
#[derive(Debug, PartialEq, Eq)]
pub enum DrawCommand {
    /// Blank the whole screen.
    ClearAll,
    /// Put the cursor at a column and a row, both counted from zero.
    MoveTo { column: u16, row: u16 },
    /// Write text at the cursor, in a style.
    Print { text: String, style: Style },
}

impl View for DrawCommand {
    type V = DrawOp;

    open spec fn view(&self) -> DrawOp {
        match *self {
            DrawCommand::ClearAll => DrawOp::ClearAll,
            DrawCommand::MoveTo { column, row } => DrawOp::MoveTo {
                column: column as nat,
                row: row as nat,
            },
            DrawCommand::Print { text, style } => DrawOp::Print { text: text@, style },
        }
    }
}

/// The commands of a list, each as the model sees it.
pub open spec fn ops_of(commands: Seq<DrawCommand>) -> Seq<DrawOp> {
    commands.map_values(|c: DrawCommand| c@)
}

/// The text of the size line: the size in decimal, then ` bytes`.
pub open spec fn size_label(size_bytes: nat) -> Seq<char> {
    decimal(size_bytes) + " bytes"@
}

/// The header: clear the screen, then caption and value of the file name,
/// the MIME type and the size on three rows, then the two brackets that
/// frame `bar_width` empty cells on the row below.
pub open spec fn header_ops(meta: MetadataView, bar_width: nat) -> Seq<DrawOp> {
    seq![
        DrawOp::ClearAll,
        DrawOp::MoveTo { column: LABEL_COLUMN as nat, row: NAME_ROW as nat },
        DrawOp::Print { text: "Playing:"@, style: Style::Label },
        DrawOp::MoveTo { column: VALUE_COLUMN as nat, row: NAME_ROW as nat },
        DrawOp::Print { text: meta.file_name, style: Style::Value },
        DrawOp::MoveTo { column: LABEL_COLUMN as nat, row: TYPE_ROW as nat },
        DrawOp::Print { text: "Type:"@, style: Style::Label },
        DrawOp::MoveTo { column: VALUE_COLUMN as nat, row: TYPE_ROW as nat },
        DrawOp::Print { text: meta.mime_type, style: Style::Value },
        DrawOp::MoveTo { column: LABEL_COLUMN as nat, row: SIZE_ROW as nat },
        DrawOp::Print { text: "Size:"@, style: Style::Label },
        DrawOp::MoveTo { column: VALUE_COLUMN as nat, row: SIZE_ROW as nat },
        DrawOp::Print { text: size_label(meta.size_bytes), style: Style::Value },
        DrawOp::MoveTo { column: LABEL_COLUMN as nat, row: BAR_ROW as nat },
        DrawOp::Print { text: "["@, style: Style::Label },
        DrawOp::MoveTo { column: bar_width + 1, row: BAR_ROW as nat },
        DrawOp::Print { text: "]"@, style: Style::Label },
    ]
}

/// One advance: the fill glyph in the column of cell `cell` (cells are
/// counted from 1, and column 0 holds the opening bracket), on the bar's
/// row. Nothing else is touched.
pub open spec fn advance_ops(cell: nat) -> Seq<DrawOp> {
    seq![
        DrawOp::MoveTo { column: cell, row: BAR_ROW as nat },
        DrawOp::Print { text: "="@, style: Style::Fill },
    ]
}

/// Whether a command can be put on the wire: the terminal counts columns
/// and rows from one, so the largest `u16` cannot be addressed.
pub open spec fn op_encodable(op: DrawOp) -> bool {
    op matches DrawOp::MoveTo { column, row } ==> column < u16::MAX && row < u16::MAX
}

/// Whether every command of a list can be put on the wire.
pub open spec fn encodable(ops: Seq<DrawOp>) -> bool {
    forall|i: int| 0 <= i < ops.len() ==> op_encodable(#[trigger] ops[i])
}

/// The text that one command is on the wire.
pub open spec fn op_sequence(op: DrawOp) -> Seq<char> {
    match op {
        DrawOp::ClearAll => clear_all_sequence(),
        DrawOp::MoveTo { column, row } => move_to_sequence(column, row),
        DrawOp::Print { text, style } => styled_sequence(text, style),
    }
}

/// The text that a list of commands is on the wire: that of each command,
/// in order.
pub open spec fn ops_sequence(ops: Seq<DrawOp>) -> Seq<char>
    decreases ops.len(),
{
    if ops.len() == 0 {
        Seq::empty()
    } else {
        ops_sequence(ops.drop_last()) + op_sequence(ops.last())
    }
}

fn print_command(text: &str, style: Style) -> (command: DrawCommand)
    ensures
        command@ == (DrawOp::Print { text: text@, style }),
{
    DrawCommand::Print { text: String::from_str(text), style }
}

/// The commands that draw the header for `meta` and a bar of `bar_width`
/// cells.
pub fn header_commands(meta: &TrackMetadata, bar_width: u16) -> (commands: Vec<DrawCommand>)
    requires
        0 < bar_width <= MAX_BAR_WIDTH,
    ensures
        ops_of(commands@) == header_ops(meta@, bar_width as nat),
        encodable(ops_of(commands@)),
{
    let mut size_text = String::new();
    push_decimal(&mut size_text, meta.size_bytes());
    size_text.append(" bytes");
    let mut commands: Vec<DrawCommand> = Vec::new();
    commands.push(DrawCommand::ClearAll);
    commands.push(DrawCommand::MoveTo { column: LABEL_COLUMN, row: NAME_ROW });
    commands.push(print_command("Playing:", Style::Label));
    commands.push(DrawCommand::MoveTo { column: VALUE_COLUMN, row: NAME_ROW });
    commands.push(print_command(meta.file_name(), Style::Value));
    commands.push(DrawCommand::MoveTo { column: LABEL_COLUMN, row: TYPE_ROW });
    commands.push(print_command("Type:", Style::Label));
    commands.push(DrawCommand::MoveTo { column: VALUE_COLUMN, row: TYPE_ROW });
    commands.push(print_command(meta.mime_type(), Style::Value));
    commands.push(DrawCommand::MoveTo { column: LABEL_COLUMN, row: SIZE_ROW });
    commands.push(print_command("Size:", Style::Label));
    commands.push(DrawCommand::MoveTo { column: VALUE_COLUMN, row: SIZE_ROW });
    commands.push(DrawCommand::Print { text: size_text, style: Style::Value });
    commands.push(DrawCommand::MoveTo { column: LABEL_COLUMN, row: BAR_ROW });
    commands.push(print_command("[", Style::Label));
    commands.push(DrawCommand::MoveTo { column: bar_width + 1, row: BAR_ROW });
    commands.push(print_command("]", Style::Label));
    assert(ops_of(commands@) =~= header_ops(meta@, bar_width as nat));
    commands
}

/// The commands that fill cell `cell` of the bar.
pub fn advance_commands(cell: u16) -> (commands: Vec<DrawCommand>)
    ensures
        ops_of(commands@) == advance_ops(cell as nat),
        cell < u16::MAX ==> encodable(ops_of(commands@)),
{
    let mut commands: Vec<DrawCommand> = Vec::new();
    commands.push(DrawCommand::MoveTo { column: cell, row: BAR_ROW });
    commands.push(print_command("=", Style::Fill));
    assert(ops_of(commands@) =~= advance_ops(cell as nat));
    commands
}

/// Whether every command of the list can be put on the wire.
pub fn is_encodable(commands: &Vec<DrawCommand>) -> (ok: bool)
    ensures
        ok == encodable(ops_of(commands@)),
{
    let ghost ops = ops_of(commands@);
    let mut i: usize = 0;
    while i < commands.len()
        invariant
            i <= commands.len(),
            ops == ops_of(commands@),
            forall|j: int| 0 <= j < i ==> op_encodable(#[trigger] ops[j]),
        decreases commands.len() - i,
    {
        match &commands[i] {
            DrawCommand::MoveTo { column, row } => {
                if *column == u16::MAX || *row == u16::MAX {
                    assert(!op_encodable(ops[i as int]));
                    return false;
                }
            },
            _ => {},
        }
        i += 1;
    }
    true
}

/// The text that the terminal is sent for a list of commands that can all
/// be put on the wire.
fn encode_all(commands: &Vec<DrawCommand>) -> (text: String)
    requires
        encodable(ops_of(commands@)),
    ensures
        text@ == ops_sequence(ops_of(commands@)),
{
    let ghost ops = ops_of(commands@);
    let mut text = String::new();
    let mut i: usize = 0;
    while i < commands.len()
        invariant
            i <= commands.len(),
            ops == ops_of(commands@),
            encodable(ops),
            text@ == ops_sequence(ops.take(i as int)),
        decreases commands.len() - i,
    {
        assert(op_encodable(ops[i as int]));
        let piece = match &commands[i] {
            DrawCommand::ClearAll => clear_all_text(),
            DrawCommand::MoveTo { column, row } => move_to_text(*column, *row),
            DrawCommand::Print { text, style } => styled_text(text.as_str(), *style),
        };
        text.append(piece.as_str());
        proof {
            assert(ops.take(i + 1).drop_last() =~= ops.take(i as int));
            assert(ops.take(i + 1).last() == ops[i as int]);
        }
        i += 1;
    }
    assert(ops.take(i as int) =~= ops);
    text
}

/// The text that the terminal is sent for a list of commands, or `None`
/// where one of them addresses a column or row that cannot be put on the
/// wire.
pub fn encode(commands: &Vec<DrawCommand>) -> (text: Option<String>)
    ensures
        encodable(ops_of(commands@)) <==> text is Some,
        text matches Some(t) ==> t@ == ops_sequence(ops_of(commands@)),
{
    if is_encodable(commands) {
        Some(encode_all(commands))
    } else {
        None
    }
}

/// The text that draws the header: the screen is cleared and painted from
/// scratch.
pub fn render_header(meta: &TrackMetadata, bar_width: u16) -> (text: String)
    requires
        0 < bar_width <= MAX_BAR_WIDTH,
    ensures
        text@ == ops_sequence(header_ops(meta@, bar_width as nat)),
{
    let commands = header_commands(meta, bar_width);
    encode_all(&commands)
}

/// The text that fills cell `cell` of the bar and touches nothing else.
pub fn render_advance(cell: u16) -> (text: String)
    requires
        1 <= cell <= MAX_BAR_WIDTH,
    ensures
        text@ == ops_sequence(advance_ops(cell as nat)),
{
    let commands = advance_commands(cell);
    encode_all(&commands)
}

} // verus!
