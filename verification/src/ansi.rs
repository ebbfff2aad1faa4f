//! The escape sequences that the terminal is sent, as crossterm writes them.

use crate::text::decimal;
use crossterm::cursor::MoveTo;
use crossterm::style::{Attribute, Color, ResetColor, SetAttribute, SetForegroundColor};
use crossterm::terminal::{Clear, ClearType};
use crossterm::Command;
use vstd::prelude::*;
use vstd::string::StringExecFns;

verus! {

/// The role of a piece of text on the screen, which decides how it looks.
#[derive(Clone, Copy, Debug, PartialEq, Eq, Structural)]
pub enum Style {
    /// A caption or a frame marker: grey.
    Label,
    /// A value of the metadata block: green.
    Value,
    /// A filled cell of the bar: bold green.
    Fill,
}

/// A foreground colour.
#[derive(Clone, Copy, Debug, PartialEq, Eq, Structural)]
pub enum Tint {
    Grey,
    Green,
    /// Whatever colour the terminal writes in by default.
    Default,
}

/// The colour that text of a style is written in.
pub open spec fn tint_of(style: Style) -> Tint {
    match style {
        Style::Label => Tint::Grey,
        Style::Value => Tint::Green,
        Style::Fill => Tint::Green,
    }
}

/// Whether text of a style is written bold.
pub open spec fn is_bold(style: Style) -> bool {
    style is Fill
}

/// The control sequence introducer, `ESC [`.
pub open spec fn csi() -> Seq<char> {
    seq!['\x1b', '[']
}

/// The sequence that clears the whole screen.
pub open spec fn clear_all_sequence() -> Seq<char> {
    csi() + seq!['2', 'J']
}

/// The sequence that puts the cursor at `column` and `row`, both counted
/// from zero; on the wire both are counted from one, the row first.
pub open spec fn move_to_sequence(column: nat, row: nat) -> Seq<char> {
    csi() + decimal(row + 1) + seq![';'] + decimal(column + 1) + seq!['H']
}

/// The sequence that selects a foreground colour.
pub open spec fn foreground_sequence(tint: Tint) -> Seq<char> {
    match tint {
        Tint::Grey => csi() + seq!['3', '8', ';', '5', ';', '7', 'm'],
        Tint::Green => csi() + seq!['3', '8', ';', '5', ';', '1', '0', 'm'],
        Tint::Default => csi() + seq!['3', '9', 'm'],
    }
}

/// The sequence that switches bold on.
pub open spec fn bold_sequence() -> Seq<char> {
    csi() + seq!['1', 'm']
}

/// The sequence that puts every colour and attribute back to the default.
pub open spec fn reset_sequence() -> Seq<char> {
    csi() + seq!['0', 'm']
}

/// The text in the given style: the colour, for a bold style the bold
/// sequence, the text itself, and then the way back: the default
/// foreground, or a full reset where bold was set.
pub open spec fn styled_sequence(text: Seq<char>, style: Style) -> Seq<char> {
    if is_bold(style) {
        foreground_sequence(tint_of(style)) + bold_sequence() + text + reset_sequence()
    } else {
        foreground_sequence(tint_of(style)) + text + foreground_sequence(Tint::Default)
    }
}

/// Calls crossterm's `Command::write_ansi` on `Clear(ClearType::All)`,
/// writing into a fresh string. Trusted: the string is `ESC [ 2 J`.
#[verifier::external_body]
pub(crate) fn clear_all_text() -> (out: String)
    ensures
        out@ == clear_all_sequence(),
{
    let mut out = String::new();
    let _ = Clear(ClearType::All).write_ansi(&mut out);
    out
}

/// Calls crossterm's `Command::write_ansi` on `MoveTo(column, row)`,
/// writing into a fresh string. Trusted: the string is `ESC [`, the row
/// plus one in decimal, `;`, the column plus one in decimal, and `H`.
/// crossterm adds the one in `u16`, so neither coordinate may be the
/// largest `u16`.
#[verifier::external_body]
pub(crate) fn move_to_text(column: u16, row: u16) -> (out: String)
    requires
        column < u16::MAX,
        row < u16::MAX,
    ensures
        out@ == move_to_sequence(column as nat, row as nat),
{
    let mut out = String::new();
    let _ = MoveTo(column, row).write_ansi(&mut out);
    out
}

/// Calls crossterm's `Command::write_ansi` on `SetForegroundColor` of the
/// colour, writing into a fresh string. Trusted: the string is `ESC [`,
/// then `38;5;7` for grey, `38;5;10` for green or `39` for the default
/// colour, then `m`.
#[verifier::external_body]
pub(crate) fn foreground_text(tint: Tint) -> (out: String)
    ensures
        out@ == foreground_sequence(tint),
{
    let color = match tint {
        Tint::Grey => Color::Grey,
        Tint::Green => Color::Green,
        Tint::Default => Color::Reset,
    };
    let mut out = String::new();
    let _ = SetForegroundColor(color).write_ansi(&mut out);
    out
}

/// Calls crossterm's `Command::write_ansi` on `SetAttribute(Attribute::Bold)`,
/// writing into a fresh string. Trusted: the string is `ESC [ 1 m`.
#[verifier::external_body]
pub(crate) fn bold_text() -> (out: String)
    ensures
        out@ == bold_sequence(),
{
    let mut out = String::new();
    let _ = SetAttribute(Attribute::Bold).write_ansi(&mut out);
    out
}

/// Calls crossterm's `Command::write_ansi` on `ResetColor`, writing into a
/// fresh string. Trusted: the string is `ESC [ 0 m`.
#[verifier::external_body]
pub(crate) fn reset_text() -> (out: String)
    ensures
        out@ == reset_sequence(),
{
    let mut out = String::new();
    let _ = ResetColor.write_ansi(&mut out);
    out
}

/// The colour that text of a style is written in.
pub fn style_tint(style: Style) -> (tint: Tint)
    ensures
        tint == tint_of(style),
{
    match style {
        Style::Label => Tint::Grey,
        Style::Value => Tint::Green,
        Style::Fill => Tint::Green,
    }
}

/// Whether text of a style is written bold.
pub fn style_is_bold(style: Style) -> (bold: bool)
    ensures
        bold == is_bold(style),
{
    match style {
        Style::Fill => true,
        _ => false,
    }
}

/// The text in the given style, as the terminal is sent it.
pub fn styled_text(text: &str, style: Style) -> (out: String)
    ensures
        out@ == styled_sequence(text@, style),
{
    let mut out = foreground_text(style_tint(style));
    if style_is_bold(style) {
        out.append(bold_text().as_str());
        out.append(text);
        out.append(reset_text().as_str());
    } else {
        out.append(text);
        out.append(foreground_text(Tint::Default).as_str());
    }
    out
}

} // verus!
