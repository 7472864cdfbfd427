//! The save menu: an asset type cycled left and right, and for ducks a
//! one-digit buoyancy setting.

use vstd::prelude::*;

use crate::input::{Direction, Key, Press};
use crate::text::{dec_rep, dec_string};
use vstd::string::StringExecFns;

verus! {

/// Settings of a fish asset: none yet.
pub struct FishSettings {}

/// Settings of a duck asset.
pub struct DuckSettings {
    pub buoyancy: usize,
}

/// Settings of a crab asset: none yet.
pub struct CrabSettings {}

/// The kind of asset being saved, with its settings.
pub enum AssetType {
    Fish(FishSettings),
    Duck(DuckSettings),
    Crab(CrabSettings),
}

/// The save menu: which asset type is selected.
pub struct SaveMenu {
    sort: AssetType,
}

impl View for SaveMenu {
    type V = AssetType;

    closed spec fn view(&self) -> AssetType {
        self.sort
    }
}

/// The next asset type in display order; a fresh duck floats at zero.
pub open spec fn next_asset_type(t: AssetType) -> AssetType {
    match t {
        AssetType::Fish(_) => AssetType::Duck(DuckSettings { buoyancy: 0 }),
        AssetType::Duck(_) => AssetType::Crab(CrabSettings {}),
        AssetType::Crab(_) => AssetType::Fish(FishSettings {}),
    }
}

/// The previous asset type in display order.
pub open spec fn prev_asset_type(t: AssetType) -> AssetType {
    match t {
        AssetType::Fish(_) => AssetType::Crab(CrabSettings {}),
        AssetType::Duck(_) => AssetType::Fish(FishSettings {}),
        AssetType::Crab(_) => AssetType::Duck(DuckSettings { buoyancy: 0 }),
    }
}

/// The asset type after cycling `delta` places: forward for positive
/// `delta`, backward for negative.
pub open spec fn cycled_asset_type(t: AssetType, delta: int) -> AssetType
    decreases vstd::math::abs(delta),
{
    if delta > 0 {
        cycled_asset_type(next_asset_type(t), delta - 1)
    } else if delta < 0 {
        cycled_asset_type(prev_asset_type(t), delta + 1)
    } else {
        t
    }
}

/// The menu state after one key press: escape leaves it untouched, a left
/// or right arrow cycles the asset type, and while a duck is selected a
/// digit key sets its buoyancy.
pub open spec fn menu_after_press(t: AssetType, press: Press) -> AssetType {
    if press.key == Key::Esc {
        t
    } else {
        let cycled = match press.key {
            Key::Direction(Direction::Left) => cycled_asset_type(t, -1),
            Key::Direction(Direction::Right) => cycled_asset_type(t, 1),
            _ => t,
        };
        match cycled {
            AssetType::Duck(_) => match press.key {
                Key::Glyph(g) => if '0' <= g && g <= '9' {
                    AssetType::Duck(DuckSettings { buoyancy: (g as int - 48) as usize })
                } else {
                    cycled
                },
                _ => cycled,
            },
            _ => cycled,
        }
    }
}

/// The lines the menu displays.
pub open spec fn menu_lines(t: AssetType) -> Seq<Seq<char>> {
    match t {
        AssetType::Fish(_) => seq!["Asset Type: < Fish > "@],
        AssetType::Duck(d) => seq![
            "Asset Type: < Duck > "@,
            "\rBuoyancy: ["@ + dec_rep(d.buoyancy as nat) + "]"@,
        ],
        AssetType::Crab(_) => seq!["Asset Type: < Crab > "@],
    }
}

impl SaveMenu {
    /// A menu starting on the given asset type.
    pub fn new(sort: AssetType) -> (m: SaveMenu)
        ensures
            m@ == sort,
    {
        SaveMenu { sort }
    }

    /// The menu's display lines: the asset type selector, and for a duck
    /// its buoyancy setting.
    pub fn print(&self) -> (lines: Vec<String>)
        ensures
            lines@.map_values(|s: String| s@) == menu_lines(self@),
    {
        let mut lines: Vec<String> = Vec::new();
        match &self.sort {
            AssetType::Fish(_) => {
                lines.push(String::from_str("Asset Type: < Fish > "));
            },
            AssetType::Duck(settings) => {
                lines.push(String::from_str("Asset Type: < Duck > "));
                let mut buoyancy_line = String::from_str("\rBuoyancy: [");
                let num = dec_string(settings.buoyancy);
                buoyancy_line.append(num.as_str());
                buoyancy_line.append("]");
                lines.push(buoyancy_line);
            },
            AssetType::Crab(_) => {
                lines.push(String::from_str("Asset Type: < Crab > "));
            },
        }
        proof {
            assert(lines@.map_values(|s: String| s@) =~~= menu_lines(self@));
        }
        lines
    }

    /// Step the menu by one asset type per unit of `delta`: forward for
    /// positive, backward for negative.
    pub fn cycle_asset_type(&mut self, delta: isize)
        ensures
            final(self)@ == cycled_asset_type(old(self)@, delta as int),
    {
        if delta >= 0 {
            let n = delta as usize;
            let mut i: usize = 0;
            while i < n
                invariant
                    i <= n,
                    cycled_asset_type(self@, (n - i) as int) == cycled_asset_type(
                        old(self)@,
                        delta as int,
                    ),
                decreases n - i,
            {
                self.step_forward();
                i += 1;
            }
        } else {
            let mag_minus_one: isize = -(delta + 1);
            let n = (mag_minus_one as usize) + 1;
            let mut i: usize = 0;
            while i < n
                invariant
                    i <= n,
                    cycled_asset_type(self@, -((n - i) as int)) == cycled_asset_type(
                        old(self)@,
                        delta as int,
                    ),
                decreases n - i,
            {
                self.step_backward();
                i += 1;
            }
        }
    }

    /// Handle one key press while the menu is open; the result says whether
    /// the menu stays open (everything but escape keeps it open).
    pub fn handle_blocking_input(&mut self, press: &Press) -> (keep_open: bool)
        ensures
            keep_open == (press.key != Key::Esc),
            final(self)@ == menu_after_press(old(self)@, *press),
    {
        match press.key {
            Key::Esc => {
                return false;
            },
            Key::Direction(Direction::Left) => {
                self.cycle_asset_type(-1);
            },
            Key::Direction(Direction::Right) => {
                self.cycle_asset_type(1);
            },
            _ => {},
        }
        let is_duck = match &self.sort {
            AssetType::Duck(_) => true,
            _ => false,
        };
        if is_duck {
            if let Key::Glyph(g) = press.key {
                if '0' <= g && g <= '9' {
                    let b = (g as usize) - 48;
                    self.sort = AssetType::Duck(DuckSettings { buoyancy: b });
                }
            }
        }
        true
    }

    /// One step forward through the asset types.
    fn step_forward(&mut self)
        ensures
            final(self)@ == next_asset_type(old(self)@),
    {
        let new_sort = match &self.sort {
            AssetType::Fish(_) => AssetType::Duck(DuckSettings { buoyancy: 0 }),
            AssetType::Duck(_) => AssetType::Crab(CrabSettings {}),
            AssetType::Crab(_) => AssetType::Fish(FishSettings {}),
        };
        self.sort = new_sort;
    }

    /// One step backward through the asset types.
    fn step_backward(&mut self)
        ensures
            final(self)@ == prev_asset_type(old(self)@),
    {
        let new_sort = match &self.sort {
            AssetType::Fish(_) => AssetType::Crab(CrabSettings {}),
            AssetType::Duck(_) => AssetType::Fish(FishSettings {}),
            AssetType::Crab(_) => AssetType::Duck(DuckSettings { buoyancy: 0 }),
        };
        self.sort = new_sort;
    }
}

} // verus!
