//! Textual decorations around the grid: the frame indicator line that
//! numbers every frame and stars the current one.

use vstd::prelude::*;

use crate::text::{dec_rep, dec_string};
use vstd::string::StringExecFns;

verus! {

/// One indicator entry: the frame number, then a starred box for the
/// current frame and an empty box for any other.
pub open spec fn indicator_entry(idx: nat, current: nat) -> Seq<char> {
    dec_rep(idx) + (if idx == current {
        "[*]"@
    } else {
        "[ ]"@
    })
}

/// The whole indicator line for `frame_num` frames.
pub open spec fn indicator_line(frame_idx: nat, frame_num: nat) -> Seq<char>
    decreases frame_num,
{
    if frame_num == 0 {
        Seq::empty()
    } else {
        indicator_line(frame_idx, (frame_num - 1) as nat) + indicator_entry(
            (frame_num - 1) as nat,
            frame_idx,
        )
    }
}

/// The line of frame indicators: one numbered box per frame, the current
/// one starred.
pub fn print_frame_indicator(frame_idx: usize, frame_num: usize) -> (r: String)
    ensures
        r@ == indicator_line(frame_idx as nat, frame_num as nat),
{
    let mut indicators = String::new();
    let mut idx: usize = 0;
    while idx < frame_num
        invariant
            idx <= frame_num,
            indicators@ == indicator_line(frame_idx as nat, idx as nat),
        decreases frame_num - idx,
    {
        let num = dec_string(idx);
        indicators.append(num.as_str());
        if idx == frame_idx {
            indicators.append("[*]");
        } else {
            indicators.append("[ ]");
        }
        idx += 1;
    }
    indicators
}

} // verus!
