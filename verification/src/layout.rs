//! Where the chrome and the tab content sit in the window.

use vstd::prelude::*;

verus! {

/// The height of the chrome strip above the tab content, in logical pixels.
pub const CHROME_HEIGHT: u32 = 82;

/// A rectangle in logical pixels.
#[derive(Clone, Copy, Debug, PartialEq, Eq, Structural)]
pub struct ContentRect {
    pub x: u32,
    pub y: u32,
    pub width: u32,
    pub height: u32,
}

/// The area of a `width` by `height` window that tab content fills: below
/// the chrome (or from the bottom edge, in a window shorter than it), at
/// least one pixel wide and high.
pub open spec fn content_rect_spec(width: u32, height: u32) -> ContentRect {
    let y = if CHROME_HEIGHT <= height { CHROME_HEIGHT } else { height };
    ContentRect {
        x: 0,
        y,
        width: if width >= 1 { width } else { 1 },
        height: if height - y >= 1 { (height - y) as u32 } else { 1 },
    }
}

/// The area of a `width` by `height` window that tab content fills.
pub fn content_rect(width: u32, height: u32) -> (r: ContentRect)
    ensures
        r == content_rect_spec(width, height),
{
    let y = if CHROME_HEIGHT <= height { CHROME_HEIGHT } else { height };
    let below = height - y;
    let h = if below >= 1 { below } else { 1 };
    let w = if width >= 1 { width } else { 1 };
    ContentRect { x: 0, y, width: w, height: h }
}

/// The content never overlaps the chrome, fills a window taller than the
/// chrome down to its bottom edge, and is never empty.
pub proof fn law_content_below_chrome(width: u32, height: u32)
    ensures
        content_rect_spec(width, height).y <= CHROME_HEIGHT,
        content_rect_spec(width, height).width >= 1,
        content_rect_spec(width, height).height >= 1,
        height > CHROME_HEIGHT ==> content_rect_spec(width, height).y + content_rect_spec(
            width,
            height,
        ).height == height,
{
}

} // verus!
