use byofish::asset::Asset;
use byofish::color_glyph::{Color, ColorGlyph};
use byofish::command::Command;
use byofish::input::Direction;

fn blank_cell() -> ColorGlyph {
    ColorGlyph { glyph: ' ', foreground_color: None, background_color: None }
}

fn blank_grid(width: usize, height: usize, frames: usize) -> Asset {
    let frame: Vec<Vec<ColorGlyph>> = vec![vec![blank_cell(); width]; height];
    Asset::new(vec![frame; frames])
}

#[test]
fn new_grid_basics() {
    let asset = blank_grid(3, 2, 1);
    let size = asset.get_size();
    assert_eq!(size.width, 3);
    assert_eq!(size.height, 2);
    assert_eq!(asset.get_frame_num(), 1);
    assert_eq!(asset.get_frame_idx(), 0);
    let cursor = asset.get_cursor_position();
    assert_eq!((cursor.x, cursor.y), (0, 0));
    assert_eq!(asset.get_cell(0, 1, 2), blank_cell());
}

#[test]
fn grow_up_shifts_content_and_cursor() {
    // 3x3 grid, cursor at (0,0); Resize(Up, +1) gives 3x4 and cursor (0,1).
    let mut asset = blank_grid(3, 3, 1);
    asset.set_char('A');
    asset.resize(&Direction::Up, 1);
    let size = asset.get_size();
    assert_eq!((size.width, size.height), (3, 4));
    let cursor = asset.get_cursor_position();
    assert_eq!((cursor.x, cursor.y), (0, 1));
    // the content followed the shift and the cursor still points at it
    assert_eq!(asset.get_cell(0, 1, 0).glyph, 'A');
    assert_eq!(asset.get_cell(0, 0, 0).glyph, ' ');
}

#[test]
fn shrink_left_on_one_wide_grid_is_refused() {
    // Resize(Left, -1) on a 1-wide grid leaves the width alone.
    let mut asset = blank_grid(1, 3, 1);
    asset.resize(&Direction::Left, -1);
    let size = asset.get_size();
    assert_eq!((size.width, size.height), (1, 3));
}

#[test]
fn grow_left_shifts_content_and_cursor() {
    let mut asset = blank_grid(2, 2, 1);
    asset.set_char('A');
    asset.resize(&Direction::Left, 1);
    let size = asset.get_size();
    assert_eq!((size.width, size.height), (3, 2));
    let cursor = asset.get_cursor_position();
    assert_eq!((cursor.x, cursor.y), (1, 0));
    assert_eq!(asset.get_cell(0, 0, 1).glyph, 'A');
    assert_eq!(asset.get_cell(0, 0, 0).glyph, ' ');
}

#[test]
fn shrink_up_removes_top_row_and_pulls_cursor() {
    let mut asset = blank_grid(2, 3, 1);
    asset.move_cursor(&Direction::Down);
    asset.set_char('B');
    // cursor sits at (0,1) on 'B'; shrinking the top row pulls both up
    asset.resize(&Direction::Up, -1);
    let size = asset.get_size();
    assert_eq!((size.width, size.height), (2, 2));
    let cursor = asset.get_cursor_position();
    assert_eq!((cursor.x, cursor.y), (0, 0));
    assert_eq!(asset.get_cell(0, 0, 0).glyph, 'B');
}

#[test]
fn repeated_shrinks_floor_at_one() {
    // shrinking converges to and stays at width and height one.
    let mut asset = blank_grid(3, 3, 1);
    asset.resize(&Direction::Right, -5);
    assert_eq!(asset.get_size().width, 1);
    asset.resize(&Direction::Right, -1);
    assert_eq!(asset.get_size().width, 1);
    asset.resize(&Direction::Down, -10);
    assert_eq!(asset.get_size().height, 1);
    asset.resize(&Direction::Down, -1);
    let size = asset.get_size();
    assert_eq!((size.width, size.height), (1, 1));
}

#[test]
fn shrink_reclamps_cursor_into_bounds() {
    // the cursor never leaves the grid, even when a shrink removes the
    // columns it sat on.
    let mut asset = blank_grid(3, 3, 1);
    asset.move_cursor(&Direction::Right);
    asset.move_cursor(&Direction::Right);
    asset.move_cursor(&Direction::Down);
    let cursor = asset.get_cursor_position();
    assert_eq!((cursor.x, cursor.y), (2, 1));
    asset.resize(&Direction::Right, -2);
    let size = asset.get_size();
    assert_eq!(size.width, 1);
    let cursor = asset.get_cursor_position();
    assert!(cursor.x < size.width && cursor.y < size.height);
    assert_eq!((cursor.x, cursor.y), (0, 1));
}

#[test]
fn move_cursor_clamps_at_edges() {
    let mut asset = blank_grid(2, 2, 1);
    asset.move_cursor(&Direction::Left);
    asset.move_cursor(&Direction::Up);
    let cursor = asset.get_cursor_position();
    assert_eq!((cursor.x, cursor.y), (0, 0));
    asset.move_cursor(&Direction::Right);
    asset.move_cursor(&Direction::Down);
    asset.move_cursor(&Direction::Right);
    asset.move_cursor(&Direction::Down);
    let cursor = asset.get_cursor_position();
    assert_eq!((cursor.x, cursor.y), (1, 1));
}

#[test]
fn set_char_round_trip_keeps_colors() {
    // writing a glyph and reading it back; colors are untouched.
    let cell = ColorGlyph { glyph: 'o', foreground_color: Some(Color::Blue), background_color: Some(Color::Black) };
    let mut asset = Asset::new(vec![vec![vec![cell]]]);
    asset.set_char('x');
    let read = asset.get_cell(0, 0, 0);
    assert_eq!(read.glyph, 'x');
    assert_eq!(read.foreground_color, Some(Color::Blue));
    assert_eq!(read.background_color, Some(Color::Black));
}

#[test]
fn set_color_touches_only_foreground() {
    let cell = ColorGlyph { glyph: 'o', foreground_color: Some(Color::Blue), background_color: Some(Color::Black) };
    let mut asset = Asset::new(vec![vec![vec![cell]]]);
    asset.set_color(&Color::Green);
    let read = asset.get_cell(0, 0, 0);
    assert_eq!(read.glyph, 'o');
    assert_eq!(read.foreground_color, Some(Color::Green));
    assert_eq!(read.background_color, Some(Color::Black));
}

#[test]
fn cycle_frame_wraps_around() {
    // cycling by the frame count returns to the start; cycling back one
    // from index zero lands on the last frame.
    let mut asset = blank_grid(1, 1, 3);
    asset.cycle_frame(3);
    assert_eq!(asset.get_frame_idx(), 0);
    asset.cycle_frame(-1);
    assert_eq!(asset.get_frame_idx(), 2);
    asset.cycle_frame(1);
    assert_eq!(asset.get_frame_idx(), 0);
    asset.cycle_frame(-7);
    assert_eq!(asset.get_frame_idx(), 2);
}

#[test]
fn add_frame_inserts_blank_before_current() {
    // a 2-frame grid at index 0 gains a blank frame at index 0; the old
    // content moves to index 1 and the count becomes 3.
    let mut asset = blank_grid(2, 1, 2);
    asset.set_char('Q');
    assert_eq!(asset.get_cell(0, 0, 0).glyph, 'Q');
    asset.add_frame();
    assert_eq!(asset.get_frame_num(), 3);
    assert_eq!(asset.get_frame_idx(), 0);
    assert_eq!(asset.get_cell(0, 0, 0).glyph, ' ');
    assert_eq!(asset.get_cell(1, 0, 0).glyph, 'Q');
}

#[test]
fn delete_frame_on_single_frame_is_refused() {
    // deleting the only frame changes nothing.
    let mut asset = blank_grid(2, 2, 1);
    asset.set_char('Z');
    asset.delete_frame();
    assert_eq!(asset.get_frame_num(), 1);
    assert_eq!(asset.get_cell(0, 0, 0).glyph, 'Z');
}

#[test]
fn delete_last_frame_reindexes_to_zero() {
    let mut asset = blank_grid(1, 1, 2);
    asset.cycle_frame(1);
    assert_eq!(asset.get_frame_idx(), 1);
    asset.delete_frame();
    assert_eq!(asset.get_frame_num(), 1);
    assert_eq!(asset.get_frame_idx(), 0);
}

#[test]
fn delete_middle_frame_keeps_index() {
    let mut asset = blank_grid(1, 1, 3);
    asset.cycle_frame(1);
    asset.set_char('m');
    asset.cycle_frame(-1);
    asset.delete_frame();
    assert_eq!(asset.get_frame_num(), 2);
    assert_eq!(asset.get_frame_idx(), 0);
    // the old middle frame slid into index 0
    assert_eq!(asset.get_cell(0, 0, 0).glyph, 'm');
}

#[test]
fn handle_command_dispatches() {
    let mut asset = blank_grid(2, 2, 1);
    asset.handle_command(&Command::SetChar('k'));
    assert_eq!(asset.get_cell(0, 0, 0).glyph, 'k');
    asset.handle_command(&Command::MoveCursor(Direction::Right));
    assert_eq!(asset.get_cursor_position().x, 1);
    asset.handle_command(&Command::Resize(Direction::Down, 1));
    assert_eq!(asset.get_size().height, 3);
    asset.handle_command(&Command::AddFrame);
    assert_eq!(asset.get_frame_num(), 2);
    asset.handle_command(&Command::CycleFrame(1));
    assert_eq!(asset.get_frame_idx(), 1);
    asset.handle_command(&Command::DeleteFrame);
    assert_eq!(asset.get_frame_num(), 1);
    asset.handle_command(&Command::SetColor(Color::Red));
    // the quit and mode commands leave the grid alone
    asset.handle_command(&Command::Quit);
    asset.handle_command(&Command::CycleMode);
    asset.handle_command(&Command::SaveMode);
    assert_eq!(asset.get_frame_num(), 1);
    assert_eq!(asset.get_size().width, 2);
}

#[test]
fn every_frame_resizes_identically() {
    // after resizing, all frames still share one height and width.
    let mut asset = blank_grid(2, 2, 3);
    asset.resize(&Direction::Right, 2);
    asset.resize(&Direction::Up, 1);
    let size = asset.get_size();
    assert_eq!((size.width, size.height), (4, 3));
    for frame in 0..asset.get_frame_num() {
        for row in 0..size.height {
            for col in 0..size.width {
                // a panic-free read of every cell is only possible because
                // every frame has the same rectangular shape
                let _ = asset.get_cell(frame, row, col);
            }
        }
    }
}

#[test]
fn resize_zero_is_identity() {
    let mut asset = blank_grid(2, 3, 1);
    asset.resize(&Direction::Left, 0);
    let size = asset.get_size();
    assert_eq!((size.width, size.height), (2, 3));
    assert_eq!(asset.get_cursor_position().x, 0);
}
