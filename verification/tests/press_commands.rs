use byofish::color_glyph::Color;
use byofish::command::{
    add_frame, cycle_frame, cycle_mode, delete_frame, exit, handle_input, move_cursor, resize,
    save_mode, set_color, set_glyph, Command, EditorMode,
};
use byofish::input::{Direction, Key, Modifier, Press};

fn press(key: Key) -> Press {
    Press::new(key, None)
}

fn shifted(key: Key) -> Press {
    Press::new(key, Some(Modifier::Shift))
}

#[test]
fn special_keys_map_to_loop_commands() {
    assert!(exit(&press(Key::Esc)));
    assert!(!exit(&press(Key::Tab)));
    assert!(cycle_mode(&press(Key::Tab)));
    assert!(save_mode(&press(Key::Enter)));
    assert_eq!(handle_input(&press(Key::Esc), &EditorMode::Glyph), Some(Command::Quit));
    assert_eq!(handle_input(&press(Key::Tab), &EditorMode::Color), Some(Command::CycleMode));
    assert_eq!(handle_input(&press(Key::Enter), &EditorMode::Glyph), Some(Command::SaveMode));
}

#[test]
fn bare_arrows_move_the_cursor() {
    let p = press(Key::Direction(Direction::Down));
    assert_eq!(move_cursor(&p), Some(Direction::Down));
    assert_eq!(handle_input(&p, &EditorMode::Glyph), Some(Command::MoveCursor(Direction::Down)));
    // a modified arrow does not move the cursor
    assert_eq!(move_cursor(&shifted(Key::Direction(Direction::Down))), None);
}

#[test]
fn modified_arrows_resize() {
    let grow = Press::new(Key::Direction(Direction::Right), Some(Modifier::Control));
    assert_eq!(resize(&grow), Some((Direction::Right, 1)));
    assert_eq!(
        handle_input(&grow, &EditorMode::Glyph),
        Some(Command::Resize(Direction::Right, 1))
    );
    let shrink = shifted(Key::Direction(Direction::Up));
    assert_eq!(resize(&shrink), Some((Direction::Up, -1)));
    assert_eq!(resize(&press(Key::Direction(Direction::Up))), None);
    let alt = Press::new(Key::Direction(Direction::Up), Some(Modifier::Alt));
    assert_eq!(resize(&alt), None);
    assert_eq!(handle_input(&alt, &EditorMode::Glyph), None);
}

#[test]
fn frame_keys_map_to_frame_commands() {
    assert!(add_frame(&press(Key::Insert)));
    assert!(delete_frame(&press(Key::Delete)));
    assert_eq!(cycle_frame(&press(Key::PageUp)), Some(1));
    assert_eq!(cycle_frame(&press(Key::PageDown)), Some(-1));
    assert_eq!(cycle_frame(&press(Key::Home)), None);
    assert_eq!(handle_input(&press(Key::Insert), &EditorMode::Color), Some(Command::AddFrame));
    assert_eq!(handle_input(&press(Key::Delete), &EditorMode::Color), Some(Command::DeleteFrame));
    assert_eq!(
        handle_input(&press(Key::PageDown), &EditorMode::Glyph),
        Some(Command::CycleFrame(-1))
    );
}

#[test]
fn glyph_mode_writes_characters() {
    let p = press(Key::Glyph('x'));
    assert_eq!(set_glyph(&p), Some('x'));
    assert_eq!(handle_input(&p, &EditorMode::Glyph), Some(Command::SetChar('x')));
    // in color mode 'x' names no color, so the press does nothing
    assert_eq!(handle_input(&p, &EditorMode::Color), None);
}

#[test]
fn color_mode_picks_palette_colors() {
    assert_eq!(set_color(&press(Key::Glyph('r'))), Some(Color::Red));
    assert_eq!(set_color(&press(Key::Glyph('a'))), Some(Color::DarkGrey));
    assert_eq!(set_color(&press(Key::Glyph('w'))), Some(Color::White));
    assert_eq!(set_color(&shifted(Key::Glyph('R'))), Some(Color::DarkRed));
    assert_eq!(set_color(&shifted(Key::Glyph('A'))), Some(Color::Black));
    assert_eq!(set_color(&shifted(Key::Glyph('W'))), Some(Color::Grey));
    // the shifted light letters and bare dark letters name nothing
    assert_eq!(set_color(&shifted(Key::Glyph('r'))), None);
    assert_eq!(set_color(&press(Key::Glyph('R'))), None);
    assert_eq!(
        handle_input(&press(Key::Glyph('g')), &EditorMode::Color),
        Some(Command::SetColor(Color::Green))
    );
    assert_eq!(
        handle_input(&shifted(Key::Glyph('M')), &EditorMode::Color),
        Some(Command::SetColor(Color::DarkMagenta))
    );
    // in glyph mode the palette letter is just a character
    assert_eq!(
        handle_input(&press(Key::Glyph('g')), &EditorMode::Glyph),
        Some(Command::SetChar('g'))
    );
}

#[test]
fn save_mode_ignores_edits() {
    assert_eq!(handle_input(&press(Key::Glyph('x')), &EditorMode::Save), None);
    assert_eq!(handle_input(&press(Key::Backspace), &EditorMode::Save), None);
}
