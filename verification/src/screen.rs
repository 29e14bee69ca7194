//! Layout arithmetic for the rendered output: vertical centering of the
//! title label inside its slot.

use vstd::prelude::*;

verus! {

/// Top padding that vertically centers the title in a slot of height `h`:
/// half the height, lowered by one row when the height is even and nonzero
/// (even heights bias one row higher than true center), and never negative.
pub open spec fn title_pad_spec(h: u16) -> u16 {
    if h % 2 == 0 {
        if h == 0 {
            0u16
        } else {
            (h as int / 2 - 1) as u16
        }
    } else {
        (h as int / 2) as u16
    }
}

/// Rows of padding above the title label for a title slot of height `h`.
pub fn title_padding(h: u16) -> (r: u16)
    ensures
        r == title_pad_spec(h),
{
    if h % 2 != 0 {
        h / 2
    } else if h == 0 {
        0
    } else {
        h / 2 - 1
    }
}

} // verus!
