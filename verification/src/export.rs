//! The exporter: serializes the grid into the four-channel export shape —
//! per-frame, per-row strings of cell characters, foreground color codes and
//! background color codes, duplicated into a forward and a flipped variant
//! (which in the current scope carry identical content).

use vstd::prelude::*;

use crate::asset::Asset;
use crate::color_glyph::{color_code, color_to_char, ColorGlyph};

verus! {

/// Three parallel per-frame, per-row string channels of one animation.
pub struct AnimationChannels {
    pub symbols: Vec<Vec<String>>,
    pub colors: Vec<Vec<String>>,
    pub highlights: Vec<Vec<String>>,
}

/// The export snapshot: a forward and a flipped logical variant.
pub struct Export {
    pub forward_animation: AnimationChannels,
    pub flipped_animation: AnimationChannels,
}

/// One row's cell characters, left to right.
pub open spec fn symbol_row(r: Seq<ColorGlyph>) -> Seq<char> {
    r.map_values(|g: ColorGlyph| g.glyph)
}

/// One row's foreground color codes.
pub open spec fn color_row(r: Seq<ColorGlyph>) -> Seq<char> {
    r.map_values(|g: ColorGlyph| color_code(g.foreground_color))
}

/// One row's background color codes.
pub open spec fn highlight_row(r: Seq<ColorGlyph>) -> Seq<char> {
    r.map_values(|g: ColorGlyph| color_code(g.background_color))
}

/// A whole frame's characters, row by row.
pub open spec fn symbol_frame(f: Seq<Seq<ColorGlyph>>) -> Seq<Seq<char>> {
    f.map_values(|r: Seq<ColorGlyph>| symbol_row(r))
}

/// A whole frame's foreground color codes, row by row.
pub open spec fn color_frame(f: Seq<Seq<ColorGlyph>>) -> Seq<Seq<char>> {
    f.map_values(|r: Seq<ColorGlyph>| color_row(r))
}

/// A whole frame's background color codes, row by row.
pub open spec fn highlight_frame(f: Seq<Seq<ColorGlyph>>) -> Seq<Seq<char>> {
    f.map_values(|r: Seq<ColorGlyph>| highlight_row(r))
}

/// A whole grid's characters, frame by frame.
pub open spec fn symbol_grid(frames: Seq<Seq<Seq<ColorGlyph>>>) -> Seq<Seq<Seq<char>>> {
    frames.map_values(|f: Seq<Seq<ColorGlyph>>| symbol_frame(f))
}

/// A whole grid's foreground color codes, frame by frame.
pub open spec fn color_grid(frames: Seq<Seq<Seq<ColorGlyph>>>) -> Seq<Seq<Seq<char>>> {
    frames.map_values(|f: Seq<Seq<ColorGlyph>>| color_frame(f))
}

/// A whole grid's background color codes, frame by frame.
pub open spec fn highlight_grid(frames: Seq<Seq<Seq<ColorGlyph>>>) -> Seq<Seq<Seq<char>>> {
    frames.map_values(|f: Seq<Seq<ColorGlyph>>| highlight_frame(f))
}

/// One channel as mathematics: every string replaced by its characters.
pub open spec fn channel_view(c: Vec<Vec<String>>) -> Seq<Seq<Seq<char>>> {
    c@.map_values(|f: Vec<String>| f@.map_values(|s: String| s@))
}

/// The channels hold exactly the grid's characters, foreground color codes
/// and background color codes.
pub open spec fn channels_match(c: AnimationChannels, frames: Seq<Seq<Seq<ColorGlyph>>>) -> bool {
    &&& channel_view(c.symbols) == symbol_grid(frames)
    &&& channel_view(c.colors) == color_grid(frames)
    &&& channel_view(c.highlights) == highlight_grid(frames)
}

/// Encode the whole grid into one set of channels.
fn build_channels(asset: &Asset) -> (c: AnimationChannels)
    requires
        asset@.wf(),
    ensures
        channels_match(c, asset@.frames),
{
    let num_frames = asset.get_frame_num();
    let size = asset.get_size();
    let mut symbols: Vec<Vec<String>> = Vec::new();
    let mut colors: Vec<Vec<String>> = Vec::new();
    let mut highlights: Vec<Vec<String>> = Vec::new();
    let mut fi: usize = 0;
    while fi < num_frames
        invariant
            fi <= num_frames,
            asset@.wf(),
            num_frames == asset@.frame_count(),
            size.width == asset@.width(),
            size.height == asset@.height(),
            symbols@.len() == fi,
            colors@.len() == fi,
            highlights@.len() == fi,
            forall|i: int|
                0 <= i < fi ==> (#[trigger] symbols@[i])@.map_values(|s: String| s@)
                    == symbol_frame(asset@.frames[i]),
            forall|i: int|
                0 <= i < fi ==> (#[trigger] colors@[i])@.map_values(|s: String| s@) == color_frame(
                    asset@.frames[i],
                ),
            forall|i: int|
                0 <= i < fi ==> (#[trigger] highlights@[i])@.map_values(|s: String| s@)
                    == highlight_frame(asset@.frames[i]),
        decreases num_frames - fi,
    {
        let mut sframe: Vec<String> = Vec::new();
        let mut cframe: Vec<String> = Vec::new();
        let mut hframe: Vec<String> = Vec::new();
        let mut y: usize = 0;
        while y < size.height
            invariant
                y <= size.height,
                asset@.wf(),
                fi < asset@.frame_count(),
                size.width == asset@.width(),
                size.height == asset@.height(),
                sframe@.len() == y,
                cframe@.len() == y,
                hframe@.len() == y,
                forall|r: int|
                    0 <= r < y ==> (#[trigger] sframe@[r])@ == symbol_row(
                        asset@.frames[fi as int][r],
                    ),
                forall|r: int|
                    0 <= r < y ==> (#[trigger] cframe@[r])@ == color_row(
                        asset@.frames[fi as int][r],
                    ),
                forall|r: int|
                    0 <= r < y ==> (#[trigger] hframe@[r])@ == highlight_row(
                        asset@.frames[fi as int][r],
                    ),
            decreases size.height - y,
        {
            let mut srow = String::new();
            let mut crow = String::new();
            let mut hrow = String::new();
            let mut x: usize = 0;
            while x < size.width
                invariant
                    x <= size.width,
                    asset@.wf(),
                    fi < asset@.frame_count(),
                    y < asset@.height(),
                    size.width == asset@.width(),
                    size.height == asset@.height(),
                    srow@.len() == x,
                    crow@.len() == x,
                    hrow@.len() == x,
                    forall|j: int|
                        0 <= j < x ==> srow@[j] == symbol_row(asset@.frames[fi as int][y as int])[j],
                    forall|j: int|
                        0 <= j < x ==> crow@[j] == color_row(asset@.frames[fi as int][y as int])[j],
                    forall|j: int|
                        0 <= j < x ==> hrow@[j] == highlight_row(
                            asset@.frames[fi as int][y as int],
                        )[j],
                decreases size.width - x,
            {
                let cell = asset.get_cell(fi, y, x);
                srow.push(cell.glyph);
                crow.push(color_to_char(&cell.foreground_color));
                hrow.push(color_to_char(&cell.background_color));
                x += 1;
            }
            proof {
                assert(srow@ =~= symbol_row(asset@.frames[fi as int][y as int]));
                assert(crow@ =~= color_row(asset@.frames[fi as int][y as int]));
                assert(hrow@ =~= highlight_row(asset@.frames[fi as int][y as int]));
            }
            sframe.push(srow);
            cframe.push(crow);
            hframe.push(hrow);
            y += 1;
        }
        proof {
            assert(sframe@.map_values(|s: String| s@) =~= symbol_frame(
                asset@.frames[fi as int],
            ));
            assert(cframe@.map_values(|s: String| s@) =~= color_frame(asset@.frames[fi as int]));
            assert(hframe@.map_values(|s: String| s@) =~= highlight_frame(
                asset@.frames[fi as int],
            ));
        }
        symbols.push(sframe);
        colors.push(cframe);
        highlights.push(hframe);
        fi += 1;
    }
    let c = AnimationChannels { symbols, colors, highlights };
    proof {
        assert(channel_view(c.symbols) =~~= symbol_grid(asset@.frames));
        assert(channel_view(c.colors) =~~= color_grid(asset@.frames));
        assert(channel_view(c.highlights) =~~= highlight_grid(asset@.frames));
    }
    c
}

impl Asset {
    /// Serialize the grid into the export snapshot. Both the forward and
    /// the flipped variant carry the grid's content unchanged: flipping
    /// duplicates the output channel without mirroring the cell data.
    pub fn export(&self) -> (e: Export)
        requires
            self@.wf(),
        ensures
            channels_match(e.forward_animation, self@.frames),
            channels_match(e.flipped_animation, self@.frames),
    {
        let forward_animation = build_channels(self);
        let flipped_animation = build_channels(self);
        Export { forward_animation, flipped_animation }
    }
}

} // verus!
