//! The editing command surface, and the fixed mapping from key presses to
//! commands: exactly one command is derived from one press, depending on the
//! editor mode.

use vstd::prelude::*;

use crate::color_glyph::Color;
use crate::input::{Direction, Key, Modifier, Press};

verus! {

/// Which family of keys currently edits the grid.
#[derive(Clone, Copy, PartialEq, Eq, Structural, Debug)]
pub enum EditorMode {
    Glyph,
    Color,
    Save,
}

/// One discrete editing command.
#[derive(Clone, Copy, PartialEq, Eq, Structural, Debug)]
pub enum Command {
    Quit,
    MoveCursor(Direction),
    Resize(Direction, isize),
    SetChar(char),
    SetColor(Color),
    AddFrame,
    DeleteFrame,
    CycleFrame(isize),
    CycleMode,
    SaveMode,
}

/// An unmodified direction key moves the cursor.
pub open spec fn cursor_command(press: Press) -> Option<Direction> {
    match press.key {
        Key::Direction(d) => match press.modifier {
            None => Some(d),
            Some(_) => None,
        },
        _ => None,
    }
}

/// A direction key grows the grid by one with control held, and shrinks it
/// by one with shift held.
pub open spec fn resize_command(press: Press) -> Option<(Direction, isize)> {
    match press.key {
        Key::Direction(d) => match press.modifier {
            Some(Modifier::Control) => Some((d, 1isize)),
            Some(Modifier::Shift) => Some((d, -1isize)),
            _ => None,
        },
        _ => None,
    }
}

/// Page up cycles one frame forward, page down one frame back.
pub open spec fn frame_cycle_command(press: Press) -> Option<isize> {
    if press.key == Key::PageUp {
        Some(1isize)
    } else if press.key == Key::PageDown {
        Some(-1isize)
    } else {
        None
    }
}

/// Any printable key writes its character.
pub open spec fn glyph_command(press: Press) -> Option<char> {
    match press.key {
        Key::Glyph(g) => Some(g),
        _ => None,
    }
}

/// The lowercase palette keys pick the eight light colors.
pub open spec fn light_color_of(g: char) -> Option<Color> {
    if g == 'a' {
        Some(Color::DarkGrey)
    } else if g == 'r' {
        Some(Color::Red)
    } else if g == 'g' {
        Some(Color::Green)
    } else if g == 'y' {
        Some(Color::Yellow)
    } else if g == 'b' {
        Some(Color::Blue)
    } else if g == 'm' {
        Some(Color::Magenta)
    } else if g == 'c' {
        Some(Color::Cyan)
    } else if g == 'w' {
        Some(Color::White)
    } else {
        None
    }
}

/// The shifted palette keys pick the eight dark colors.
pub open spec fn dark_color_of(g: char) -> Option<Color> {
    if g == 'A' {
        Some(Color::Black)
    } else if g == 'R' {
        Some(Color::DarkRed)
    } else if g == 'G' {
        Some(Color::DarkGreen)
    } else if g == 'Y' {
        Some(Color::DarkYellow)
    } else if g == 'B' {
        Some(Color::DarkBlue)
    } else if g == 'M' {
        Some(Color::DarkMagenta)
    } else if g == 'C' {
        Some(Color::DarkCyan)
    } else if g == 'W' {
        Some(Color::Grey)
    } else {
        None
    }
}

/// A palette key picks a color: unmodified for the light palette, shifted
/// for the dark one.
pub open spec fn color_command(press: Press) -> Option<Color> {
    match press.key {
        Key::Glyph(g) => match press.modifier {
            None => light_color_of(g),
            Some(Modifier::Shift) => dark_color_of(g),
            Some(_) => None,
        },
        _ => None,
    }
}

/// The command a press maps to in `mode`: escape quits, tab cycles the mode,
/// enter opens the save menu; then cursor movement, resizing, frame
/// insertion, deletion and cycling; and last the mode-dependent edit of the
/// cell under the cursor.
pub open spec fn command_for(press: Press, mode: EditorMode) -> Option<Command> {
    if press.key == Key::Esc {
        Some(Command::Quit)
    } else if press.key == Key::Tab {
        Some(Command::CycleMode)
    } else if press.key == Key::Enter {
        Some(Command::SaveMode)
    } else {
        match cursor_command(press) {
            Some(d) => Some(Command::MoveCursor(d)),
            None => match resize_command(press) {
                Some((d, k)) => Some(Command::Resize(d, k)),
                None => if press.key == Key::Insert {
                    Some(Command::AddFrame)
                } else if press.key == Key::Delete {
                    Some(Command::DeleteFrame)
                } else {
                    match frame_cycle_command(press) {
                        Some(k) => Some(Command::CycleFrame(k)),
                        None => match mode {
                            EditorMode::Glyph => match glyph_command(press) {
                                Some(g) => Some(Command::SetChar(g)),
                                None => None,
                            },
                            EditorMode::Color => match color_command(press) {
                                Some(c) => Some(Command::SetColor(c)),
                                None => None,
                            },
                            EditorMode::Save => None,
                        },
                    }
                },
            },
        }
    }
}

/// Is this press the quit key?
pub fn exit(press: &Press) -> (b: bool)
    ensures
        b == (press.key == Key::Esc),
{
    match press.key {
        Key::Esc => true,
        _ => false,
    }
}

/// Is this press the mode-cycling key?
pub fn cycle_mode(press: &Press) -> (b: bool)
    ensures
        b == (press.key == Key::Tab),
{
    match press.key {
        Key::Tab => true,
        _ => false,
    }
}

/// Is this press the save-menu key?
pub fn save_mode(press: &Press) -> (b: bool)
    ensures
        b == (press.key == Key::Enter),
{
    match press.key {
        Key::Enter => true,
        _ => false,
    }
}

/// The cursor movement this press asks for, if any.
pub fn move_cursor(press: &Press) -> (r: Option<Direction>)
    ensures
        r == cursor_command(*press),
{
    if let Key::Direction(d) = press.key {
        if press.modifier.is_none() {
            return Some(d);
        }
    }
    None
}

/// The resize this press asks for, if any: by one outward with control, by
/// one inward with shift.
pub fn resize(press: &Press) -> (r: Option<(Direction, isize)>)
    ensures
        r == resize_command(*press),
{
    if let Key::Direction(d) = press.key {
        match press.modifier {
            Some(Modifier::Control) => {
                return Some((d, 1));
            },
            Some(Modifier::Shift) => {
                return Some((d, -1));
            },
            _ => {
                return None;
            },
        }
    }
    None
}

/// Is this press the frame-insertion key?
pub fn add_frame(press: &Press) -> (b: bool)
    ensures
        b == (press.key == Key::Insert),
{
    match press.key {
        Key::Insert => true,
        _ => false,
    }
}

/// Is this press the frame-deletion key?
pub fn delete_frame(press: &Press) -> (b: bool)
    ensures
        b == (press.key == Key::Delete),
{
    match press.key {
        Key::Delete => true,
        _ => false,
    }
}

/// The frame cycling this press asks for, if any.
pub fn cycle_frame(press: &Press) -> (r: Option<isize>)
    ensures
        r == frame_cycle_command(*press),
{
    match press.key {
        Key::PageUp => Some(1),
        Key::PageDown => Some(-1),
        _ => None,
    }
}

/// The character this press writes, if any.
pub fn set_glyph(press: &Press) -> (r: Option<char>)
    ensures
        r == glyph_command(*press),
{
    if let Key::Glyph(g) = press.key {
        return Some(g);
    }
    None
}

/// The color this press picks, if any.
pub fn set_color(press: &Press) -> (r: Option<Color>)
    ensures
        r == color_command(*press),
{
    if let Key::Glyph(g) = press.key {
        match press.modifier {
            None => {
                if g == 'a' {
                    return Some(Color::DarkGrey);
                } else if g == 'r' {
                    return Some(Color::Red);
                } else if g == 'g' {
                    return Some(Color::Green);
                } else if g == 'y' {
                    return Some(Color::Yellow);
                } else if g == 'b' {
                    return Some(Color::Blue);
                } else if g == 'm' {
                    return Some(Color::Magenta);
                } else if g == 'c' {
                    return Some(Color::Cyan);
                } else if g == 'w' {
                    return Some(Color::White);
                } else {
                    return None;
                }
            },
            Some(Modifier::Shift) => {
                if g == 'A' {
                    return Some(Color::Black);
                } else if g == 'R' {
                    return Some(Color::DarkRed);
                } else if g == 'G' {
                    return Some(Color::DarkGreen);
                } else if g == 'Y' {
                    return Some(Color::DarkYellow);
                } else if g == 'B' {
                    return Some(Color::DarkBlue);
                } else if g == 'M' {
                    return Some(Color::DarkMagenta);
                } else if g == 'C' {
                    return Some(Color::DarkCyan);
                } else if g == 'W' {
                    return Some(Color::Grey);
                } else {
                    return None;
                }
            },
            Some(_) => {
                return None;
            },
        }
    }
    None
}

/// Map one press to its command in `mode`, trying each family of keys in a
/// fixed order.
pub fn handle_input(press: &Press, mode: &EditorMode) -> (r: Option<Command>)
    ensures
        r == command_for(*press, *mode),
{
    if exit(press) {
        return Some(Command::Quit);
    } else if cycle_mode(press) {
        return Some(Command::CycleMode);
    } else if save_mode(press) {
        return Some(Command::SaveMode);
    } else if let Some(direction) = move_cursor(press) {
        return Some(Command::MoveCursor(direction));
    } else if let Some((direction, magnitude)) = resize(press) {
        return Some(Command::Resize(direction, magnitude));
    } else if add_frame(press) {
        return Some(Command::AddFrame);
    } else if delete_frame(press) {
        return Some(Command::DeleteFrame);
    } else if let Some(num) = cycle_frame(press) {
        return Some(Command::CycleFrame(num));
    }
    match mode {
        EditorMode::Glyph => {
            if let Some(character) = set_glyph(press) {
                return Some(Command::SetChar(character));
            }
        },
        EditorMode::Color => {
            if let Some(color) = set_color(press) {
                return Some(Command::SetColor(color));
            }
        },
        EditorMode::Save => {},
    }
    None
}

} // verus!
