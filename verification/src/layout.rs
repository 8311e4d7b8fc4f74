use vstd::prelude::*;

verus! {

/// A rectangle of terminal cells.
#[derive(Clone, Copy, Debug, PartialEq, Eq)]
pub struct Rect {
    pub x: u16,
    pub y: u16,
    pub width: u16,
    pub height: u16,
}

/// The area left for content once one column is kept for the scrollbar.
pub fn calculate_content_area(area: Rect) -> (r: Rect)
    ensures
        r.x == area.x,
        r.y == area.y,
        r.height == area.height,
        r.width == if area.width == 0 { 0 } else { area.width - 1 },
{
    Rect { x: area.x, y: area.y, width: area.width.saturating_sub(1), height: area.height }
}

} // verus!
