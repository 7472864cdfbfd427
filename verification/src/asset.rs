//! The animation grid: an ordered sequence of frames, each a rectangular
//! matrix of glyph cells, together with a cursor and a current frame index.
//!
//! The mathematical model of the grid is [`GridModel`]; every mutation of an
//! [`Asset`] is specified as a pure transition function on the model, and the
//! structural invariant [`GridModel::wf`] (rectangular frames, at least one
//! frame, minimum size one by one, cursor and frame index in bounds) is
//! preserved by every transition.

use vstd::arithmetic::div_mod::{
    lemma_add_mod_noop_right, lemma_fundamental_div_mod, lemma_fundamental_div_mod_converse,
    lemma_mod_bound, lemma_mod_multiples_vanish, lemma_mod_self_0, lemma_small_mod,
};
use vstd::prelude::*;

use crate::color_glyph::{empty_color_glyph, empty_glyph, ColorGlyph};
use crate::command::Command;
use crate::input::Direction;

verus! {

/// A cell position: `x` is the column, `y` the row.
#[derive(Clone, Copy, PartialEq, Eq, Structural, Debug)]
pub struct Position {
    pub x: usize,
    pub y: usize,
}

/// The dimensions of every frame of a grid.
#[derive(Clone, Copy, PartialEq, Eq, Structural, Debug)]
pub struct Size {
    pub width: usize,
    pub height: usize,
}

/// The mathematical model of an animation grid: the frame contents as nested
/// sequences (frame, then row, then column), the current frame index, and the
/// cursor coordinates.
#[verifier::ext_equal]
pub ghost struct GridModel {
    pub frames: Seq<Seq<Seq<ColorGlyph>>>,
    pub frame_idx: nat,
    pub cursor_x: nat,
    pub cursor_y: nat,
}

/// The frame sequence is non-empty and rectangular: all frames share one
/// height, all rows share one width, and both are at least one.
pub open spec fn frames_ok(frames: Seq<Seq<Seq<ColorGlyph>>>) -> bool {
    &&& 1 <= frames.len()
    &&& 1 <= frames[0].len()
    &&& 1 <= frames[0][0].len()
    &&& forall|f: int|
        0 <= f < frames.len() ==> (#[trigger] frames[f]).len() == frames[0].len()
    &&& forall|f: int, r: int|
        0 <= f < frames.len() && 0 <= r < frames[f].len() ==> (#[trigger] frames[f][r]).len()
            == frames[0][0].len()
}

impl GridModel {
    /// Number of frames.
    pub open spec fn frame_count(self) -> nat {
        self.frames.len()
    }

    /// Shared row count of every frame.
    pub open spec fn height(self) -> nat {
        self.frames[0].len()
    }

    /// Shared column count of every row of every frame.
    pub open spec fn width(self) -> nat {
        self.frames[0][0].len()
    }

    /// The structural invariant: rectangular non-empty frames, and frame
    /// index and cursor in bounds.
    pub open spec fn wf(self) -> bool {
        &&& frames_ok(self.frames)
        &&& self.frame_idx < self.frame_count()
        &&& self.cursor_x < self.width()
        &&& self.cursor_y < self.height()
    }

    /// The cell the cursor points at in the current frame.
    pub open spec fn cell_at_cursor(self) -> ColorGlyph {
        self.frames[self.frame_idx as int][self.cursor_y as int][self.cursor_x as int]
    }
}

/// A row of `w` empty cells.
pub open spec fn blank_row(w: nat) -> Seq<ColorGlyph> {
    Seq::new(w, |i: int| empty_glyph())
}

/// A frame of `h` rows of `w` empty cells.
pub open spec fn blank_frame(w: nat, h: nat) -> Seq<Seq<ColorGlyph>> {
    Seq::new(h, |i: int| blank_row(w))
}

/// Cursor movement: one unit in `dir`, refused silently at the edges of the
/// grid.
pub open spec fn moved_cursor(m: GridModel, dir: Direction) -> GridModel {
    match dir {
        Direction::Left => if m.cursor_x >= 1 {
            GridModel { cursor_x: (m.cursor_x - 1) as nat, ..m }
        } else {
            m
        },
        Direction::Right => if m.cursor_x + 1 < m.width() {
            GridModel { cursor_x: (m.cursor_x + 1) as nat, ..m }
        } else {
            m
        },
        Direction::Up => if m.cursor_y >= 1 {
            GridModel { cursor_y: (m.cursor_y - 1) as nat, ..m }
        } else {
            m
        },
        Direction::Down => if m.cursor_y + 1 < m.height() {
            GridModel { cursor_y: (m.cursor_y + 1) as nat, ..m }
        } else {
            m
        },
    }
}

/// The grid with the cell under the cursor replaced by `cell`; nothing else
/// changes.
pub open spec fn with_cell_at_cursor(m: GridModel, cell: ColorGlyph) -> GridModel {
    let fi = m.frame_idx as int;
    let y = m.cursor_y as int;
    let x = m.cursor_x as int;
    GridModel {
        frames: m.frames.update(fi, m.frames[fi].update(y, m.frames[fi][y].update(x, cell))),
        ..m
    }
}

/// Overwrite only the character of the cell under the cursor.
pub open spec fn with_char(m: GridModel, glyph: char) -> GridModel {
    with_cell_at_cursor(m, ColorGlyph { glyph, ..m.cell_at_cursor() })
}

/// Overwrite only the foreground color of the cell under the cursor.
pub open spec fn with_foreground(m: GridModel, color: crate::color_glyph::Color) -> GridModel {
    with_cell_at_cursor(m, ColorGlyph { foreground_color: Some(color), ..m.cell_at_cursor() })
}

/// Frame cycling: the index moves by `delta` and wraps modulo the frame
/// count, with a remainder that is never negative.
pub open spec fn cycled(m: GridModel, delta: int) -> GridModel {
    GridModel { frame_idx: (((m.frame_idx + delta) % (m.frames.len() as int)) as nat), ..m }
}

/// Frame insertion: a blank frame of the shared size appears at the current
/// index, in front of the frame that was being viewed; the index itself is
/// unchanged and now names the blank frame.
pub open spec fn with_added_frame(m: GridModel) -> GridModel {
    GridModel {
        frames: m.frames.insert(m.frame_idx as int, blank_frame(m.width(), m.height())),
        ..m
    }
}

/// Frame deletion: a no-op on a one-frame grid; otherwise the current frame
/// is removed and the index is re-taken modulo the new frame count, which
/// sends it to zero exactly when the deleted frame was last.
pub open spec fn with_deleted_frame(m: GridModel) -> GridModel {
    if m.frames.len() <= 1 {
        m
    } else {
        let frames = m.frames.remove(m.frame_idx as int);
        GridModel {
            frames,
            frame_idx: (((m.frame_idx as int) % (frames.len() as int)) as nat),
            ..m
        }
    }
}

/// Does `dir` act on the height axis?
pub open spec fn is_vertical(dir: Direction) -> bool {
    dir == Direction::Up || dir == Direction::Down
}

/// `a - b`, floored at zero.
pub open spec fn sat_sub(a: nat, b: nat) -> nat {
    if a >= b {
        (a - b) as nat
    } else {
        0
    }
}

/// One frame grown by a single row or column of empty cells at the edge
/// named by `dir`.
pub open spec fn grown_frame(f: Seq<Seq<ColorGlyph>>, dir: Direction) -> Seq<Seq<ColorGlyph>> {
    match dir {
        Direction::Up => seq![blank_row(f[0].len())] + f,
        Direction::Down => f + seq![blank_row(f[0].len())],
        Direction::Left => f.map_values(|r: Seq<ColorGlyph>| seq![empty_glyph()] + r),
        Direction::Right => f.map_values(|r: Seq<ColorGlyph>| r + seq![empty_glyph()]),
    }
}

/// One frame shrunk by the row or column at the edge named by `dir`.
pub open spec fn shrunk_frame(f: Seq<Seq<ColorGlyph>>, dir: Direction) -> Seq<Seq<ColorGlyph>> {
    match dir {
        Direction::Up => f.drop_first(),
        Direction::Down => f.drop_last(),
        Direction::Left => f.map_values(|r: Seq<ColorGlyph>| r.drop_first()),
        Direction::Right => f.map_values(|r: Seq<ColorGlyph>| r.drop_last()),
    }
}

/// One single-unit resize step. A grow step adds a row or column of empty
/// cells to every frame at the edge named by `dir`; when the leading edge
/// grows (`Up` or `Left`) the cursor follows the shifted content. A shrink
/// step is refused outright when the axis is already at its minimum of one;
/// otherwise it removes the edge row or column from every frame, and a
/// shrinking leading edge pulls the cursor back by one, floored at zero.
pub open spec fn resize_step(m: GridModel, dir: Direction, grow: bool) -> GridModel {
    if grow {
        GridModel {
            frames: m.frames.map_values(|f: Seq<Seq<ColorGlyph>>| grown_frame(f, dir)),
            cursor_x: if dir == Direction::Left {
                m.cursor_x + 1
            } else {
                m.cursor_x
            },
            cursor_y: if dir == Direction::Up {
                m.cursor_y + 1
            } else {
                m.cursor_y
            },
            ..m
        }
    } else if (if is_vertical(dir) {
        m.height() <= 1
    } else {
        m.width() <= 1
    }) {
        m
    } else {
        GridModel {
            frames: m.frames.map_values(|f: Seq<Seq<ColorGlyph>>| shrunk_frame(f, dir)),
            cursor_x: if dir == Direction::Left {
                sat_sub(m.cursor_x, 1)
            } else {
                m.cursor_x
            },
            cursor_y: if dir == Direction::Up {
                sat_sub(m.cursor_y, 1)
            } else {
                m.cursor_y
            },
            ..m
        }
    }
}

/// `n` single-unit resize steps in sequence.
pub open spec fn resize_steps(m: GridModel, dir: Direction, grow: bool, n: nat) -> GridModel
    decreases n,
{
    if n == 0 {
        m
    } else {
        resize_step(resize_steps(m, dir, grow, (n - 1) as nat), dir, grow)
    }
}

/// The cursor clamped into the bounds of the grid's own size.
pub open spec fn with_clamped_cursor(m: GridModel) -> GridModel {
    GridModel {
        cursor_x: if m.cursor_x < m.width() {
            m.cursor_x
        } else {
            (m.width() - 1) as nat
        },
        cursor_y: if m.cursor_y < m.height() {
            m.cursor_y
        } else {
            (m.height() - 1) as nat
        },
        ..m
    }
}

/// The whole resize operation: `|delta|` single-unit steps — grow steps for
/// a non-negative `delta`, shrink steps otherwise — and then the cursor is
/// re-clamped to the resulting size.
pub open spec fn resized(m: GridModel, dir: Direction, delta: int) -> GridModel {
    with_clamped_cursor(resize_steps(m, dir, delta >= 0, vstd::math::abs(delta)))
}

/// The transition a single command makes on the grid; the commands aimed at
/// the surrounding editor loop (`Quit`, `CycleMode`, `SaveMode`) leave it
/// untouched.
pub open spec fn step(m: GridModel, cmd: Command) -> GridModel {
    match cmd {
        Command::MoveCursor(d) => moved_cursor(m, d),
        Command::Resize(d, delta) => resized(m, d, delta as int),
        Command::SetChar(g) => with_char(m, g),
        Command::SetColor(c) => with_foreground(m, c),
        Command::AddFrame => with_added_frame(m),
        Command::DeleteFrame => with_deleted_frame(m),
        Command::CycleFrame(delta) => cycled(m, delta as int),
        Command::Quit => m,
        Command::CycleMode => m,
        Command::SaveMode => m,
    }
}

/// The grid after a whole sequence of commands, applied left to right.
pub open spec fn steps(m: GridModel, cmds: Seq<Command>) -> GridModel
    decreases cmds.len(),
{
    if cmds.len() == 0 {
        m
    } else {
        steps(step(m, cmds[0]), cmds.drop_first())
    }
}

/// A grid holds frames of glyph cells, the index of the frame being edited,
/// and the cursor shared by all frames.
pub struct Asset {
    animation: Vec<Vec<Vec<ColorGlyph>>>,
    cursor_position: Position,
    current_frame: usize,
}

/// One frame of storage as a sequence of rows.
pub open spec fn frame_view(f: Vec<Vec<ColorGlyph>>) -> Seq<Seq<ColorGlyph>> {
    f@.map_values(|r: Vec<ColorGlyph>| r@)
}

/// The whole storage as a sequence of frames.
pub open spec fn frames_view(v: Vec<Vec<Vec<ColorGlyph>>>) -> Seq<Seq<Seq<ColorGlyph>>> {
    v@.map_values(|f: Vec<Vec<ColorGlyph>>| frame_view(f))
}

impl View for Asset {
    type V = GridModel;

    closed spec fn view(&self) -> GridModel {
        GridModel {
            frames: frames_view(self.animation),
            frame_idx: self.current_frame as nat,
            cursor_x: self.cursor_position.x as nat,
            cursor_y: self.cursor_position.y as nat,
        }
    }
}

/// A mutable reference to one element of a vector.
fn elem_mut<T>(v: &mut Vec<T>, i: usize) -> (e: &mut T)
    requires
        i < old(v).len(),
    ensures
        *e == old(v)@[i as int],
        final(v)@ == old(v)@.update(i as int, *final(e)),
{
    &mut v[i]
}

/// Replace one cell of the storage, leaving every other cell alone.
fn set_cell_in_storage(
    anim: &mut Vec<Vec<Vec<ColorGlyph>>>,
    fi: usize,
    y: usize,
    x: usize,
    cell: ColorGlyph,
)
    requires
        fi < old(anim)@.len(),
        y < old(anim)@[fi as int]@.len(),
        x < old(anim)@[fi as int]@[y as int]@.len(),
    ensures
        frames_view(*final(anim)) == frames_view(*old(anim)).update(
            fi as int,
            frames_view(*old(anim))[fi as int].update(
                y as int,
                frames_view(*old(anim))[fi as int][y as int].update(x as int, cell),
            ),
        ),
{
    let fr = elem_mut(anim, fi);
    let rw = elem_mut(fr, y);
    rw.set(x, cell);
    proof {
        let prev = frames_view(*old(anim));
        assert(frames_view(*anim) =~~= prev.update(
            fi as int,
            prev[fi as int].update(y as int, prev[fi as int][y as int].update(x as int, cell)),
        ));
    }
}

/// A row of `width` empty cells.
fn blank_row_exec(width: usize) -> (r: Vec<ColorGlyph>)
    ensures
        r@ == blank_row(width as nat),
{
    let mut r: Vec<ColorGlyph> = Vec::new();
    let mut i: usize = 0;
    while i < width
        invariant
            i <= width,
            r@.len() == i,
            forall|j: int| 0 <= j < i ==> r@[j] == empty_glyph(),
        decreases width - i,
    {
        r.push(empty_color_glyph());
        i += 1;
    }
    assert(r@ =~= blank_row(width as nat));
    r
}

/// Does `direction` act on the height axis?
fn is_vertical_exec(direction: &Direction) -> (b: bool)
    ensures
        b == is_vertical(*direction),
{
    match direction {
        Direction::Up | Direction::Down => true,
        Direction::Left | Direction::Right => false,
    }
}

/// Grow one frame by a single row or column of empty cells at the edge named
/// by `direction`.
fn grow_frame_exec(frame: &mut Vec<Vec<ColorGlyph>>, direction: &Direction)
    requires
        old(frame)@.len() >= 1,
    ensures
        frame_view(*final(frame)) == grown_frame(frame_view(*old(frame)), *direction),
{
    match direction {
        Direction::Up => {
            let w = frame[0].len();
            let row = blank_row_exec(w);
            frame.insert(0, row);
            proof {
                assert(frame_view(*frame) =~~= grown_frame(frame_view(*old(frame)), *direction));
            }
        },
        Direction::Down => {
            let w = frame[0].len();
            let row = blank_row_exec(w);
            frame.push(row);
            proof {
                assert(frame_view(*frame) =~~= grown_frame(frame_view(*old(frame)), *direction));
            }
        },
        Direction::Left => {
            let n = frame.len();
            let mut r: usize = 0;
            while r < n
                invariant
                    r <= n,
                    frame@.len() == n,
                    n == old(frame)@.len(),
                    forall|j: int|
                        0 <= j < r ==> (#[trigger] frame@[j])@ == seq![empty_glyph()]
                            + old(frame)@[j]@,
                    forall|j: int| r <= j < n ==> (#[trigger] frame@[j]) == old(frame)@[j],
                decreases n - r,
            {
                let rw = elem_mut(frame, r);
                rw.insert(0, empty_color_glyph());
                r += 1;
            }
            proof {
                assert(frame_view(*frame) =~~= grown_frame(frame_view(*old(frame)), *direction));
            }
        },
        Direction::Right => {
            let n = frame.len();
            let mut r: usize = 0;
            while r < n
                invariant
                    r <= n,
                    frame@.len() == n,
                    n == old(frame)@.len(),
                    forall|j: int|
                        0 <= j < r ==> (#[trigger] frame@[j])@ == old(frame)@[j]@ + seq![
                            empty_glyph(),
                        ],
                    forall|j: int| r <= j < n ==> (#[trigger] frame@[j]) == old(frame)@[j],
                decreases n - r,
            {
                let rw = elem_mut(frame, r);
                rw.push(empty_color_glyph());
                r += 1;
            }
            proof {
                assert(frame_view(*frame) =~~= grown_frame(frame_view(*old(frame)), *direction));
            }
        },
    }
}

/// Shrink one frame by the row or column at the edge named by `direction`.
fn shrink_frame_exec(frame: &mut Vec<Vec<ColorGlyph>>, direction: &Direction)
    requires
        old(frame)@.len() >= 1,
        forall|j: int| 0 <= j < old(frame)@.len() ==> (#[trigger] old(frame)@[j])@.len() >= 1,
    ensures
        frame_view(*final(frame)) == shrunk_frame(frame_view(*old(frame)), *direction),
{
    match direction {
        Direction::Up => {
            let _ = frame.remove(0);
            proof {
                assert(frame_view(*frame) =~~= shrunk_frame(frame_view(*old(frame)), *direction));
            }
        },
        Direction::Down => {
            let _ = frame.pop();
            proof {
                assert(frame_view(*frame) =~~= shrunk_frame(frame_view(*old(frame)), *direction));
            }
        },
        Direction::Left => {
            let n = frame.len();
            let mut r: usize = 0;
            while r < n
                invariant
                    r <= n,
                    frame@.len() == n,
                    n == old(frame)@.len(),
                    forall|j: int|
                        0 <= j < old(frame)@.len() ==> (#[trigger] old(frame)@[j])@.len() >= 1,
                    forall|j: int|
                        0 <= j < r ==> (#[trigger] frame@[j])@ == old(frame)@[j]@.drop_first(),
                    forall|j: int| r <= j < n ==> (#[trigger] frame@[j]) == old(frame)@[j],
                decreases n - r,
            {
                let rw = elem_mut(frame, r);
                let _ = rw.remove(0);
                r += 1;
            }
            proof {
                assert(frame_view(*frame) =~~= shrunk_frame(frame_view(*old(frame)), *direction));
            }
        },
        Direction::Right => {
            let n = frame.len();
            let mut r: usize = 0;
            while r < n
                invariant
                    r <= n,
                    frame@.len() == n,
                    n == old(frame)@.len(),
                    forall|j: int|
                        0 <= j < old(frame)@.len() ==> (#[trigger] old(frame)@[j])@.len() >= 1,
                    forall|j: int|
                        0 <= j < r ==> (#[trigger] frame@[j])@ == old(frame)@[j]@.drop_last(),
                    forall|j: int| r <= j < n ==> (#[trigger] frame@[j]) == old(frame)@[j],
                decreases n - r,
            {
                let rw = elem_mut(frame, r);
                let _ = rw.pop();
                r += 1;
            }
            proof {
                assert(frame_view(*frame) =~~= shrunk_frame(frame_view(*old(frame)), *direction));
            }
        },
    }
}

/// A frame of `height` blank rows of `width` cells.
fn blank_frame_exec(width: usize, height: usize) -> (f: Vec<Vec<ColorGlyph>>)
    ensures
        frame_view(f) == blank_frame(width as nat, height as nat),
{
    let mut f: Vec<Vec<ColorGlyph>> = Vec::new();
    let mut i: usize = 0;
    while i < height
        invariant
            i <= height,
            f@.len() == i,
            forall|j: int| 0 <= j < i ==> (#[trigger] f@[j])@ == blank_row(width as nat),
        decreases height - i,
    {
        f.push(blank_row_exec(width));
        i += 1;
    }
    assert(frame_view(f) =~= blank_frame(width as nat, height as nat));
    f
}

impl Asset {
    /// Wrap an already loaded, rectangular, non-empty animation into a grid
    /// with the cursor at the origin and the first frame current.
    ///
    /// Loading and validating asset data is the caller's concern; the grid is
    /// never created from an invalid animation.
    pub fn new(animation: Vec<Vec<Vec<ColorGlyph>>>) -> (a: Asset)
        requires
            frames_ok(frames_view(animation)),
        ensures
            a@ == (GridModel {
                frames: frames_view(animation),
                frame_idx: 0,
                cursor_x: 0,
                cursor_y: 0,
            }),
            a@.wf(),
    {
        Asset { animation, cursor_position: Position { x: 0, y: 0 }, current_frame: 0 }
    }

    /// The dimensions shared by every frame.
    pub fn get_size(&self) -> (s: Size)
        requires
            self@.wf(),
        ensures
            s.width as nat == self@.width(),
            s.height as nat == self@.height(),
    {
        Size { width: self.animation[0][0].len(), height: self.animation[0].len() }
    }

    /// The index of the frame being edited.
    pub fn get_frame_idx(&self) -> (i: usize)
        ensures
            i as nat == self@.frame_idx,
    {
        self.current_frame
    }

    /// How many frames the grid holds.
    pub fn get_frame_num(&self) -> (n: usize)
        ensures
            n as nat == self@.frame_count(),
    {
        self.animation.len()
    }

    /// The cursor position.
    pub fn get_cursor_position(&self) -> (p: Position)
        ensures
            p.x as nat == self@.cursor_x,
            p.y as nat == self@.cursor_y,
    {
        self.cursor_position
    }

    /// Read one cell.
    pub fn get_cell(&self, frame_idx: usize, line_idx: usize, glyph_idx: usize) -> (c: ColorGlyph)
        requires
            self@.wf(),
            frame_idx < self@.frame_count(),
            line_idx < self@.height(),
            glyph_idx < self@.width(),
        ensures
            c == self@.frames[frame_idx as int][line_idx as int][glyph_idx as int],
    {
        let fr: &Vec<Vec<ColorGlyph>> = &self.animation[frame_idx];
        let rw: &Vec<ColorGlyph> = &fr[line_idx];
        rw[glyph_idx]
    }

    /// Move the cursor one cell in `direction`, refusing silently at the
    /// edges of the grid.
    pub fn move_cursor(&mut self, direction: &Direction)
        requires
            old(self)@.wf(),
        ensures
            final(self)@ == moved_cursor(old(self)@, *direction),
            final(self)@.wf(),
    {
        match direction {
            Direction::Left => {
                if self.cursor_position.x >= 1 {
                    self.cursor_position.x = self.cursor_position.x - 1;
                }
            },
            Direction::Right => {
                if self.cursor_position.x < self.animation[0][0].len() - 1 {
                    self.cursor_position.x = self.cursor_position.x + 1;
                }
            },
            Direction::Up => {
                if self.cursor_position.y >= 1 {
                    self.cursor_position.y = self.cursor_position.y - 1;
                }
            },
            Direction::Down => {
                if self.cursor_position.y < self.animation[0].len() - 1 {
                    self.cursor_position.y = self.cursor_position.y + 1;
                }
            },
        }
        assert(self@ =~= moved_cursor(old(self)@, *direction));
    }

    /// Replace the cell under the cursor, leaving every other cell alone.
    fn set_cell_at_cursor(&mut self, cell: ColorGlyph)
        requires
            old(self)@.wf(),
        ensures
            final(self)@ == with_cell_at_cursor(old(self)@, cell),
            final(self)@.wf(),
    {
        let fi = self.current_frame;
        let y = self.cursor_position.y;
        let x = self.cursor_position.x;
        proof {
            assert(old(self)@.frames[fi as int] == frame_view(old(self).animation@[fi as int]));
            assert(old(self)@.frames[fi as int][y as int] == old(
                self,
            ).animation@[fi as int]@[y as int]@);
        }
        set_cell_in_storage(&mut self.animation, fi, y, x, cell);
        proof {
            assert(self@.frames =~~= with_cell_at_cursor(old(self)@, cell).frames);
            assert(self@ =~= with_cell_at_cursor(old(self)@, cell));
        }
    }

    /// Overwrite the character of the cell under the cursor; its colors are
    /// untouched.
    pub fn set_char(&mut self, glyph: char)
        requires
            old(self)@.wf(),
        ensures
            final(self)@ == with_char(old(self)@, glyph),
            final(self)@.wf(),
    {
        let cell = self.get_cell(self.current_frame, self.cursor_position.y, self.cursor_position.x);
        self.set_cell_at_cursor(
            ColorGlyph {
                glyph,
                foreground_color: cell.foreground_color,
                background_color: cell.background_color,
            },
        );
    }

    /// Overwrite the foreground color of the cell under the cursor; the
    /// character and background color are untouched.
    pub fn set_color(&mut self, color: &crate::color_glyph::Color)
        requires
            old(self)@.wf(),
        ensures
            final(self)@ == with_foreground(old(self)@, *color),
            final(self)@.wf(),
    {
        let cell = self.get_cell(self.current_frame, self.cursor_position.y, self.cursor_position.x);
        self.set_cell_at_cursor(
            ColorGlyph {
                glyph: cell.glyph,
                foreground_color: Some(*color),
                background_color: cell.background_color,
            },
        );
    }

    /// Apply one single-unit resize step to every frame, moving the cursor
    /// with a growing or shrinking leading edge as [`resize_step`] says.
    fn apply_resize_step(&mut self, direction: &Direction, grow: bool)
        requires
            frames_ok(old(self)@.frames),
            grow && *direction == Direction::Up ==> old(self)@.cursor_y < usize::MAX,
            grow && *direction == Direction::Left ==> old(self)@.cursor_x < usize::MAX,
        ensures
            final(self)@ == resize_step(old(self)@, *direction, grow),
    {
        proof {
            assert(old(self)@.frames.len() == old(self).animation@.len());
            assert(old(self)@.frames[0] == frame_view(old(self).animation@[0]));
        }
        if !grow {
            let at_min = if is_vertical_exec(direction) {
                self.animation[0].len() <= 1
            } else {
                self.animation[0][0].len() <= 1
            };
            if at_min {
                proof {
                    assert(self@ =~= resize_step(old(self)@, *direction, grow));
                }
                return ;
            }
        }
        let len = self.animation.len();
        let mut f: usize = 0;
        while f < len
            invariant
                f <= len,
                self.animation@.len() == len,
                len == old(self)@.frames.len(),
                frames_ok(old(self)@.frames),
                forall|j: int|
                    0 <= j < f ==> frame_view(#[trigger] self.animation@[j]) == (if grow {
                        grown_frame(old(self)@.frames[j], *direction)
                    } else {
                        shrunk_frame(old(self)@.frames[j], *direction)
                    }),
                forall|j: int|
                    f <= j < len ==> (#[trigger] self.animation@[j]) == old(self).animation@[j],
                self.cursor_position == old(self).cursor_position,
                self.current_frame == old(self).current_frame,
            decreases len - f,
        {
            proof {
                assert(old(self)@.frames[f as int] == frame_view(old(self).animation@[f as int]));
                assert forall|j: int|
                    0 <= j < old(self).animation@[f as int]@.len() implies (#[trigger] old(
                    self,
                ).animation@[f as int]@[j])@.len() >= 1 by {
                    assert(old(self)@.frames[f as int][j] == old(
                        self,
                    ).animation@[f as int]@[j]@);
                }
            }
            let fr = elem_mut(&mut self.animation, f);
            if grow {
                grow_frame_exec(fr, direction);
            } else {
                shrink_frame_exec(fr, direction);
            }
            f += 1;
        }
        if grow {
            match direction {
                Direction::Up => {
                    self.cursor_position.y = self.cursor_position.y + 1;
                },
                Direction::Left => {
                    self.cursor_position.x = self.cursor_position.x + 1;
                },
                _ => {},
            }
        } else {
            match direction {
                Direction::Up => {
                    if self.cursor_position.y >= 1 {
                        self.cursor_position.y = self.cursor_position.y - 1;
                    }
                },
                Direction::Left => {
                    if self.cursor_position.x >= 1 {
                        self.cursor_position.x = self.cursor_position.x - 1;
                    }
                },
                _ => {},
            }
        }
        proof {
            assert(self@.frames =~~= resize_step(old(self)@, *direction, grow).frames);
            assert(self@ =~= resize_step(old(self)@, *direction, grow));
        }
    }

    /// Resize the grid by `|delta|` single-unit steps in the axis implied by
    /// `direction`: grow steps for a positive `delta` insert rows or columns
    /// of empty cells at the named edge, shrink steps remove them and stop
    /// silently once the axis reaches its minimum of one. The cursor follows
    /// content shifted by a changing leading edge and is finally clamped to
    /// the resulting size.
    pub fn resize(&mut self, direction: &Direction, delta: isize)
        requires
            old(self)@.wf(),
            delta > 0 ==> (if is_vertical(*direction) {
                old(self)@.height()
            } else {
                old(self)@.width()
            }) + delta <= usize::MAX,
        ensures
            final(self)@ == resized(old(self)@, *direction, delta as int),
            final(self)@.wf(),
    {
        let grow = delta >= 0;
        let n: usize = if delta >= 0 {
            delta as usize
        } else {
            let mag_minus_one: isize = -(delta + 1);
            (mag_minus_one as usize) + 1
        };
        assert(n as nat == vstd::math::abs(delta as int));
        let ghost orig = old(self)@;
        let mut i: usize = 0;
        while i < n
            invariant_except_break
                i <= n,
                self@ == resize_steps(orig, *direction, grow, i as nat),
            invariant
                orig == old(self)@,
                orig.wf(),
                grow == (delta >= 0),
                n as nat == vstd::math::abs(delta as int),
                delta > 0 ==> (if is_vertical(*direction) {
                    orig.height()
                } else {
                    orig.width()
                }) + delta <= usize::MAX,
            ensures
                self@ == resize_steps(orig, *direction, grow, n as nat),
            decreases n - i,
        {
            proof {
                lemma_resize_steps_structure(orig, *direction, grow, i as nat);
            }
            let ghost cur = resize_steps(orig, *direction, grow, i as nat);
            if !grow {
                let at_min = if is_vertical_exec(direction) {
                    self.animation[0].len() <= 1
                } else {
                    self.animation[0][0].len() <= 1
                };
                proof {
                    assert(cur.frames.len() == self.animation@.len());
                    assert(cur.frames[0] == frame_view(self.animation@[0]));
                }
                if at_min {
                    proof {
                        assert(resize_step(cur, *direction, grow) == cur);
                        lemma_resize_steps_add(orig, *direction, grow, i as nat, (n - i) as nat);
                        lemma_resize_steps_stall(cur, *direction, grow, (n - i) as nat);
                    }
                    break ;
                }
            }
            self.apply_resize_step(direction, grow);
            i += 1;
        }
        proof {
            lemma_resize_steps_structure(orig, *direction, grow, n as nat);
            let s = resize_steps(orig, *direction, grow, n as nat);
            assert(s.frames.len() == self.animation@.len());
            assert(s.frames[0] == frame_view(self.animation@[0]));
        }
        let w = self.animation[0][0].len();
        let h = self.animation[0].len();
        if self.cursor_position.x >= w {
            self.cursor_position.x = w - 1;
        }
        if self.cursor_position.y >= h {
            self.cursor_position.y = h - 1;
        }
        proof {
            assert(self@ =~= resized(orig, *direction, delta as int));
        }
    }

    /// Dispatch one editing command to the operation it names; commands
    /// aimed at the surrounding editor loop leave the grid untouched.
    pub fn handle_command(&mut self, cmd: &Command)
        requires
            old(self)@.wf(),
            *cmd matches Command::Resize(d, delta) ==> (delta > 0 ==> (if is_vertical(d) {
                old(self)@.height()
            } else {
                old(self)@.width()
            }) + delta <= usize::MAX),
        ensures
            final(self)@ == step(old(self)@, *cmd),
            final(self)@.wf(),
    {
        match cmd {
            Command::MoveCursor(d) => self.move_cursor(d),
            Command::Resize(d, delta) => self.resize(d, *delta),
            Command::SetChar(g) => self.set_char(*g),
            Command::SetColor(c) => self.set_color(c),
            Command::AddFrame => self.add_frame(),
            Command::DeleteFrame => self.delete_frame(),
            Command::CycleFrame(delta) => self.cycle_frame(*delta),
            Command::Quit => {},
            Command::CycleMode => {},
            Command::SaveMode => {},
        }
    }

    /// Move the current frame index by `delta`, wrapping modulo the frame
    /// count; a negative remainder is brought back into range.
    pub fn cycle_frame(&mut self, delta: isize)
        requires
            old(self)@.wf(),
        ensures
            final(self)@ == cycled(old(self)@, delta as int),
            final(self)@.wf(),
    {
        let len = self.animation.len();
        assert(len as int == old(self)@.frames.len());
        let step: usize = if delta >= 0 {
            (delta as usize) % len
        } else {
            let mag_minus_one: isize = -(delta + 1);
            len - 1 - ((mag_minus_one as usize) % len)
        };
        let cur = self.current_frame;
        let next = if cur >= len - step {
            cur - (len - step)
        } else {
            cur + step
        };
        self.current_frame = next;
        proof {
            let li = len as int;
            let di = delta as int;
            let ci = cur as int;
            lemma_mod_bound(di, li);
            assert(step as int == di % li) by {
                if di < 0 {
                    let q0 = -(di + 1);
                    lemma_fundamental_div_mod(q0, li);
                    lemma_mod_bound(q0, li);
                    assert(li * (1 + q0 / li) == li + li * (q0 / li)) by (nonlinear_arith);
                    assert(step as int == li * (1 + q0 / li) + di);
                    lemma_mod_multiples_vanish(1 + q0 / li, di, li);
                    lemma_small_mod(step as nat, li as nat);
                }
            }
            if cur >= len - step {
                lemma_fundamental_div_mod_converse(ci + step, li, 1, next as int);
            } else {
                lemma_fundamental_div_mod_converse(ci + step, li, 0, next as int);
            }
            lemma_add_mod_noop_right(ci, di, li);
            lemma_small_mod(step as nat, li as nat);
            assert(next as int == (ci + di) % li);
            assert(self@ =~= cycled(old(self)@, delta as int));
        }
    }

    /// Insert a blank frame of the shared size at the current index; the
    /// index keeps its value and now names the blank frame.
    pub fn add_frame(&mut self)
        requires
            old(self)@.wf(),
        ensures
            final(self)@ == with_added_frame(old(self)@),
            final(self)@.wf(),
    {
        let size = self.get_size();
        let blank = blank_frame_exec(size.width, size.height);
        self.animation.insert(self.current_frame, blank);
        proof {
            assert(self@.frames =~~= with_added_frame(old(self)@).frames);
            assert(self@ =~= with_added_frame(old(self)@));
            lemma_with_added_frame_wf(old(self)@);
        }
    }

    /// Remove the current frame, unless it is the only one; the index is
    /// re-taken modulo the new frame count.
    pub fn delete_frame(&mut self)
        requires
            old(self)@.wf(),
        ensures
            final(self)@ == with_deleted_frame(old(self)@),
            final(self)@.wf(),
    {
        if self.animation.len() > 1 {
            self.animation.remove(self.current_frame);
            let new_len = self.animation.len();
            if self.current_frame >= new_len {
                self.current_frame = 0;
            }
            proof {
                let li = new_len as int;
                let fi = old(self)@.frame_idx as int;
                if fi >= li {
                    lemma_mod_self_0(li);
                } else {
                    lemma_small_mod(fi as nat, li as nat);
                }
                assert(self@.frames =~~= with_deleted_frame(old(self)@).frames);
                assert(self@ =~= with_deleted_frame(old(self)@));
                lemma_with_deleted_frame_wf(old(self)@);
            }
        }
    }
}

/// A blank frame inserted at the current index keeps the grid well formed.
proof fn lemma_with_added_frame_wf(m: GridModel)
    requires
        m.wf(),
    ensures
        with_added_frame(m).wf(),
{
    let m2 = with_added_frame(m);
    m.frames.insert_ensures(m.frame_idx as int, blank_frame(m.width(), m.height()));
    assert(m2.frames[0].len() == m.height());
    assert(m2.frames[0][0].len() == m.width());
    assert forall|f: int| 0 <= f < m2.frames.len() implies (#[trigger] m2.frames[f]).len()
        == m2.frames[0].len() by {
        if f < m.frame_idx {
        } else if f == m.frame_idx {
        } else {
            assert(m2.frames[f] == m.frames[f - 1]);
        }
    }
    assert forall|f: int, r: int|
        0 <= f < m2.frames.len() && 0 <= r < m2.frames[f].len() implies (
    #[trigger] m2.frames[f][r]).len() == m2.frames[0][0].len() by {
        if f < m.frame_idx {
        } else if f == m.frame_idx {
        } else {
            assert(m2.frames[f] == m.frames[f - 1]);
        }
    }
}

/// One resize step keeps the frames rectangular, preserves the frame count
/// and index, and changes the two dimensions exactly as the step direction
/// says: a grow step adds one to its axis, a shrink step takes one from its
/// axis unless the axis is already at one, in which case the step is the
/// identity.
proof fn lemma_resize_step_structure(m: GridModel, dir: Direction, grow: bool)
    requires
        frames_ok(m.frames),
    ensures
        resize_step(m, dir, grow).frames.len() == m.frames.len(),
        resize_step(m, dir, grow).frame_idx == m.frame_idx,
        frames_ok(resize_step(m, dir, grow).frames),
        grow ==> resize_step(m, dir, grow).height() as int == m.height() + (if is_vertical(dir) {
            1int
        } else {
            0int
        }),
        grow ==> resize_step(m, dir, grow).width() as int == m.width() + (if is_vertical(dir) {
            0int
        } else {
            1int
        }),
        !grow && is_vertical(dir) && m.height() <= 1 ==> resize_step(m, dir, grow) == m,
        !grow && !is_vertical(dir) && m.width() <= 1 ==> resize_step(m, dir, grow) == m,
        !grow && is_vertical(dir) && m.height() > 1 ==> resize_step(m, dir, grow).height() as int
            == m.height() - 1 && resize_step(m, dir, grow).width() == m.width(),
        !grow && !is_vertical(dir) && m.width() > 1 ==> resize_step(m, dir, grow).width() as int
            == m.width() - 1 && resize_step(m, dir, grow).height() == m.height(),
{
    let s = resize_step(m, dir, grow);
    if grow {
        let dh: int = if is_vertical(dir) {
            1
        } else {
            0
        };
        let dw: int = 1 - dh;
        assert forall|f: int| 0 <= f < s.frames.len() implies (#[trigger] s.frames[f]).len() as int
            == m.height() + dh by {
            assert(s.frames[f] == grown_frame(m.frames[f], dir));
            assert(m.frames[f].len() == m.height());
        }
        assert forall|f: int, r: int|
            0 <= f < s.frames.len() && 0 <= r < s.frames[f].len() implies (
        #[trigger] s.frames[f][r]).len() as int == m.width() + dw by {
            assert(s.frames[f] == grown_frame(m.frames[f], dir));
            assert(m.frames[f].len() == m.height());
            assert(m.frames[f][0].len() == m.width());
            match dir {
                Direction::Up => {
                    if r > 0 {
                        assert(s.frames[f][r] == m.frames[f][r - 1]);
                        assert(m.frames[f][r - 1].len() == m.width());
                    }
                },
                Direction::Down => {
                    if r < m.frames[f].len() {
                        assert(s.frames[f][r] == m.frames[f][r]);
                        assert(m.frames[f][r].len() == m.width());
                    }
                },
                Direction::Left => {
                    assert(s.frames[f][r] == seq![empty_glyph()] + m.frames[f][r]);
                    assert(m.frames[f][r].len() == m.width());
                },
                Direction::Right => {
                    assert(s.frames[f][r] == m.frames[f][r] + seq![empty_glyph()]);
                    assert(m.frames[f][r].len() == m.width());
                },
            }
        }
        assert(s.frames[0].len() as int == m.height() + dh);
        assert(s.frames[0][0].len() as int == m.width() + dw);
    } else {
        let refused = if is_vertical(dir) {
            m.height() <= 1
        } else {
            m.width() <= 1
        };
        if !refused {
            let dh: int = if is_vertical(dir) {
                1
            } else {
                0
            };
            let dw: int = 1 - dh;
            assert forall|f: int|
                0 <= f < s.frames.len() implies (#[trigger] s.frames[f]).len() as int == m.height()
                - dh by {
                assert(s.frames[f] == shrunk_frame(m.frames[f], dir));
                assert(m.frames[f].len() == m.height());
            }
            assert forall|f: int, r: int|
                0 <= f < s.frames.len() && 0 <= r < s.frames[f].len() implies (
            #[trigger] s.frames[f][r]).len() as int == m.width() - dw by {
                assert(s.frames[f] == shrunk_frame(m.frames[f], dir));
                assert(m.frames[f].len() == m.height());
                match dir {
                    Direction::Up => {
                        assert(s.frames[f][r] == m.frames[f][r + 1]);
                        assert(m.frames[f][r + 1].len() == m.width());
                    },
                    Direction::Down => {
                        assert(s.frames[f][r] == m.frames[f][r]);
                        assert(m.frames[f][r].len() == m.width());
                    },
                    Direction::Left => {
                        assert(s.frames[f][r] == m.frames[f][r].drop_first());
                        assert(m.frames[f][r].len() == m.width());
                    },
                    Direction::Right => {
                        assert(s.frames[f][r] == m.frames[f][r].drop_last());
                        assert(m.frames[f][r].len() == m.width());
                    },
                }
            }
            assert(s.frames[0].len() as int == m.height() - dh);
            assert(s.frames[0][0].len() as int == m.width() - dw);
        }
    }
}

/// Closed forms after `n` resize steps: the frames stay rectangular, the
/// frame count and index never change, a grown axis gains exactly `n`, a
/// shrunk axis loses up to `n` but never passes below one, and the cursor
/// follows a moving leading edge by the same amount the axis changed.
proof fn lemma_resize_steps_structure(m: GridModel, dir: Direction, grow: bool, n: nat)
    requires
        m.wf(),
    ensures
        frames_ok(resize_steps(m, dir, grow, n).frames),
        resize_steps(m, dir, grow, n).frames.len() == m.frames.len(),
        resize_steps(m, dir, grow, n).frame_idx == m.frame_idx,
        grow ==> {
            let s = resize_steps(m, dir, grow, n);
            &&& s.height() as int == m.height() + (if is_vertical(dir) {
                n as int
            } else {
                0int
            })
            &&& s.width() as int == m.width() + (if is_vertical(dir) {
                0int
            } else {
                n as int
            })
            &&& s.cursor_x as int == m.cursor_x + (if dir == Direction::Left {
                n as int
            } else {
                0int
            })
            &&& s.cursor_y as int == m.cursor_y + (if dir == Direction::Up {
                n as int
            } else {
                0int
            })
        },
        !grow ==> {
            let s = resize_steps(m, dir, grow, n);
            &&& s.height() as int == (if is_vertical(dir) {
                vstd::math::max(1, m.height() - n)
            } else {
                m.height() as int
            })
            &&& s.width() as int == (if is_vertical(dir) {
                m.width() as int
            } else {
                vstd::math::max(1, m.width() - n)
            })
            &&& s.cursor_x == (if dir == Direction::Left {
                sat_sub(m.cursor_x, (m.width() - s.width()) as nat)
            } else {
                m.cursor_x
            })
            &&& s.cursor_y == (if dir == Direction::Up {
                sat_sub(m.cursor_y, (m.height() - s.height()) as nat)
            } else {
                m.cursor_y
            })
        },
    decreases n,
{
    if n > 0 {
        lemma_resize_steps_structure(m, dir, grow, (n - 1) as nat);
        lemma_resize_step_structure(resize_steps(m, dir, grow, (n - 1) as nat), dir, grow);
    }
}

/// Running `a + b` resize steps is running `a` and then `b` of them.
proof fn lemma_resize_steps_add(m: GridModel, dir: Direction, grow: bool, a: nat, b: nat)
    ensures
        resize_steps(m, dir, grow, a + b) == resize_steps(
            resize_steps(m, dir, grow, a),
            dir,
            grow,
            b,
        ),
    decreases b,
{
    if b > 0 {
        lemma_resize_steps_add(m, dir, grow, a, (b - 1) as nat);
        assert(a + b - 1 == a + (b - 1));
    }
}

/// Once one resize step is the identity, any number of them is.
proof fn lemma_resize_steps_stall(m: GridModel, dir: Direction, grow: bool, n: nat)
    requires
        resize_step(m, dir, grow) == m,
    ensures
        resize_steps(m, dir, grow, n) == m,
    decreases n,
{
    if n > 0 {
        lemma_resize_steps_stall(m, dir, grow, (n - 1) as nat);
    }
}

/// Replacing the cell under the cursor keeps the grid well formed.
proof fn lemma_with_cell_at_cursor_wf(m: GridModel, cell: ColorGlyph)
    requires
        m.wf(),
    ensures
        with_cell_at_cursor(m, cell).wf(),
        with_cell_at_cursor(m, cell).height() == m.height(),
        with_cell_at_cursor(m, cell).width() == m.width(),
{
    let m2 = with_cell_at_cursor(m, cell);
    let fi = m.frame_idx as int;
    let cy = m.cursor_y as int;
    let cx = m.cursor_x as int;
    assert(m2.frames.len() == m.frames.len());
    assert forall|f: int| 0 <= f < m2.frames.len() implies (#[trigger] m2.frames[f]).len()
        == m.height() by {
        if f != fi {
            assert(m2.frames[f] == m.frames[f]);
        }
    }
    assert forall|f: int, r: int|
        0 <= f < m2.frames.len() && 0 <= r < m2.frames[f].len() implies (
    #[trigger] m2.frames[f][r]).len() == m.width() by {
        if f != fi {
            assert(m2.frames[f] == m.frames[f]);
        } else if r != cy {
            assert(m2.frames[f][r] == m.frames[f][r]);
        } else {
            assert(m2.frames[f][r] == m.frames[fi][cy].update(cx, cell));
        }
    }
    assert(m2.frames[0].len() == m.height());
    assert(m2.frames[0][0].len() == m.width());
}

/// Resizing keeps the grid well formed: the frames stay rectangular and
/// non-empty and the re-clamped cursor is in bounds (cursor containment).
pub proof fn lemma_resized_wf(m: GridModel, dir: Direction, delta: int)
    requires
        m.wf(),
    ensures
        resized(m, dir, delta).wf(),
{
    lemma_resize_steps_structure(m, dir, delta >= 0, vstd::math::abs(delta));
}

/// After a resize the two dimensions have closed forms: a grown axis gains
/// exactly `delta`, a shrunk axis loses `|delta|` but is floored at one —
/// so repeated shrinking converges to size one and stays there, never below
/// (minimum size).
pub proof fn lemma_resized_dimensions(m: GridModel, dir: Direction, delta: int)
    requires
        m.wf(),
    ensures
        resized(m, dir, delta).frame_count() == m.frame_count(),
        is_vertical(dir) ==> resized(m, dir, delta).width() == m.width(),
        !is_vertical(dir) ==> resized(m, dir, delta).height() == m.height(),
        delta >= 0 && is_vertical(dir) ==> resized(m, dir, delta).height() as int == m.height()
            + delta,
        delta >= 0 && !is_vertical(dir) ==> resized(m, dir, delta).width() as int == m.width()
            + delta,
        delta < 0 && is_vertical(dir) ==> resized(m, dir, delta).height() as int == vstd::math::max(
            1,
            m.height() + delta,
        ),
        delta < 0 && !is_vertical(dir) ==> resized(m, dir, delta).width() as int == vstd::math::max(
            1,
            m.width() + delta,
        ),
{
    lemma_resize_steps_structure(m, dir, delta >= 0, vstd::math::abs(delta));
}

/// Shrinking an axis that already has the minimum size of one changes
/// nothing at all: not the frames and not the cursor.
pub proof fn lemma_shrink_at_minimum_is_noop(m: GridModel, dir: Direction, delta: int)
    requires
        m.wf(),
        delta <= 0,
        is_vertical(dir) ==> m.height() == 1,
        !is_vertical(dir) ==> m.width() == 1,
    ensures
        resized(m, dir, delta) == m,
{
    if delta < 0 {
        assert(resize_step(m, dir, false) == m);
        lemma_resize_steps_stall(m, dir, false, vstd::math::abs(delta));
    }
    assert(resized(m, dir, delta) =~= m);
}

/// Every single command preserves the structural invariant: frames stay
/// rectangular (rectangularity), at least one frame remains (non-empty
/// frames), both dimensions stay at least one (minimum size), and the
/// cursor stays inside the grid (cursor containment).
pub proof fn lemma_step_preserves_wf(m: GridModel, cmd: Command)
    requires
        m.wf(),
    ensures
        step(m, cmd).wf(),
{
    match cmd {
        Command::MoveCursor(d) => {},
        Command::Resize(d, delta) => {
            lemma_resized_wf(m, d, delta as int);
        },
        Command::SetChar(g) => {
            lemma_with_cell_at_cursor_wf(m, ColorGlyph { glyph: g, ..m.cell_at_cursor() });
        },
        Command::SetColor(c) => {
            lemma_with_cell_at_cursor_wf(
                m,
                ColorGlyph { foreground_color: Some(c), ..m.cell_at_cursor() },
            );
        },
        Command::AddFrame => {
            lemma_with_added_frame_wf(m);
        },
        Command::DeleteFrame => {
            lemma_with_deleted_frame_wf(m);
        },
        Command::CycleFrame(delta) => {
            lemma_mod_bound(m.frame_idx + delta as int, m.frames.len() as int);
        },
        Command::Quit => {},
        Command::CycleMode => {},
        Command::SaveMode => {},
    }
}

/// The structural invariant holds after every command of any sequence of
/// commands (rectangularity, non-empty frames, minimum size and cursor
/// containment, for all sequences of operations).
pub proof fn lemma_steps_preserve_wf(m: GridModel, cmds: Seq<Command>)
    requires
        m.wf(),
    ensures
        steps(m, cmds).wf(),
    decreases cmds.len(),
{
    if cmds.len() > 0 {
        lemma_step_preserves_wf(m, cmds[0]);
        lemma_steps_preserve_wf(step(m, cmds[0]), cmds.drop_first());
    }
}

/// Deleting the only frame of a one-frame grid changes nothing.
pub proof fn lemma_delete_frame_on_single_frame(m: GridModel)
    requires
        m.wf(),
        m.frame_count() == 1,
    ensures
        with_deleted_frame(m) == m,
{
}

/// Cycling by the frame count is a round trip, and cycling back one step
/// from the first frame lands on the last.
pub proof fn lemma_cycle_wraparound(m: GridModel)
    requires
        m.wf(),
    ensures
        cycled(m, m.frame_count() as int) == m,
        m.frame_idx == 0 ==> cycled(m, -1).frame_idx == m.frame_count() - 1,
{
    let li = m.frames.len() as int;
    let fi = m.frame_idx as int;
    lemma_mod_multiples_vanish(1, fi, li);
    lemma_small_mod(m.frame_idx, m.frames.len());
    assert(cycled(m, li) =~= m);
    if m.frame_idx == 0 {
        lemma_fundamental_div_mod_converse(-1, li, -1, li - 1);
    }
}

/// Writing a glyph and immediately reading the targeted cell gives that
/// glyph back, with both colors exactly as they were; every other cell is
/// untouched (round trip of edits).
pub proof fn lemma_set_glyph_round_trip(m: GridModel, g: char)
    requires
        m.wf(),
    ensures
        step(m, Command::SetChar(g)).cell_at_cursor().glyph == g,
        step(m, Command::SetChar(g)).cell_at_cursor().foreground_color
            == m.cell_at_cursor().foreground_color,
        step(m, Command::SetChar(g)).cell_at_cursor().background_color
            == m.cell_at_cursor().background_color,
        forall|f: int, r: int, c: int|
            0 <= f < m.frame_count() && 0 <= r < m.height() && 0 <= c < m.width() && !(f
                == m.frame_idx && r == m.cursor_y && c == m.cursor_x) ==> step(
                m,
                Command::SetChar(g),
            ).frames[f][r][c] == m.frames[f][r][c],
{
    let m2 = step(m, Command::SetChar(g));
    assert forall|f: int, r: int, c: int|
        0 <= f < m.frame_count() && 0 <= r < m.height() && 0 <= c < m.width() && !(f
            == m.frame_idx && r == m.cursor_y && c == m.cursor_x) implies m2.frames[f][r][c]
        == m.frames[f][r][c] by {
        let fi = m.frame_idx as int;
        let cy = m.cursor_y as int;
        let cx = m.cursor_x as int;
        if f != fi {
            assert(m2.frames[f] == m.frames[f]);
        } else if r != cy {
            assert(m2.frames[f][r] == m.frames[f][r]);
        } else {
            assert(m2.frames[f][r] == m.frames[fi][cy].update(cx, ColorGlyph { glyph: g, ..m.cell_at_cursor() }));
        }
    }
}

/// Deleting a frame of a multi-frame grid keeps it well formed.
proof fn lemma_with_deleted_frame_wf(m: GridModel)
    requires
        m.wf(),
    ensures
        with_deleted_frame(m).wf(),
{
    let m2 = with_deleted_frame(m);
    if m.frames.len() > 1 {
        m.frames.remove_ensures(m.frame_idx as int);
        lemma_mod_bound(m.frame_idx as int, m2.frames.len() as int);
        assert forall|f: int| 0 <= f < m2.frames.len() implies (#[trigger] m2.frames[f]).len()
            == m.height() by {
            if f < m.frame_idx {
            } else {
                assert(m2.frames[f] == m.frames[f + 1]);
            }
        }
        assert(m2.frames[0].len() == m.height());
        assert forall|f: int, r: int|
            0 <= f < m2.frames.len() && 0 <= r < m2.frames[f].len() implies (
        #[trigger] m2.frames[f][r]).len() == m.width() by {
            if f < m.frame_idx {
            } else {
                assert(m2.frames[f] == m.frames[f + 1]);
            }
        }
        assert(m2.frames[0][0].len() == m.width());
    }
}

} // verus!
