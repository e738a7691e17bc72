//! The system areas a page must keep clear of (status bar, cutout, home
//! indicator), in physical pixels: how far they reach on each side, and how
//! much of that the content rectangle already leaves free.

use vstd::prelude::*;

verus! {

/// A rectangle of the platform window, in physical pixels.
#[derive(Clone, Copy, Debug, Default)]
pub struct Rect {
    pub left: i32,
    pub top: i32,
    pub width: i32,
    pub height: i32,
}

/// An area the system draws over, by how far it reaches from each side.
#[derive(Clone, Copy, Debug, Default)]
pub struct AvoidArea {
    pub visible: bool,
    pub top_height: i32,
    pub right_width: i32,
    pub bottom_height: i32,
    pub left_width: i32,
}

/// Pixels on each side of the page.
#[derive(Clone, Copy, Debug, PartialEq, Eq, Structural)]
pub struct EdgePixels {
    pub top: i64,
    pub right: i64,
    pub bottom: i64,
    pub left: i64,
}

pub open spec fn clamp0(x: int) -> int {
    if x < 0 {
        0
    } else {
        x
    }
}

/// How far an area reaches from a side: 0 top, 1 right, 2 bottom, 3 left.
pub open spec fn side_reach(a: AvoidArea, side: int) -> int {
    if side == 0 {
        a.top_height as int
    } else if side == 1 {
        a.right_width as int
    } else if side == 2 {
        a.bottom_height as int
    } else {
        a.left_width as int
    }
}

/// The largest reach of the visible areas from one side (0 when none
/// reaches).
pub open spec fn reach(areas: Seq<AvoidArea>, side: int) -> int
    decreases areas.len(),
{
    if areas.len() == 0 {
        0
    } else {
        let rest = reach(areas.drop_last(), side);
        let a = areas.last();
        if a.visible && clamp0(side_reach(a, side)) > rest {
            clamp0(side_reach(a, side))
        } else {
            rest
        }
    }
}

/// How far the visible system areas reach on each side: on each side the
/// largest reach, negative reaches counting as none.
pub fn avoid_reach(areas: &Vec<AvoidArea>) -> (r: EdgePixels)
    ensures
        r.top == reach(areas@, 0),
        r.right == reach(areas@, 1),
        r.bottom == reach(areas@, 2),
        r.left == reach(areas@, 3),
{
    let mut r = EdgePixels { top: 0, right: 0, bottom: 0, left: 0 };
    let mut i: usize = 0;
    while i < areas.len()
        invariant
            0 <= i <= areas@.len(),
            r.top == reach(areas@.subrange(0, i as int), 0),
            r.right == reach(areas@.subrange(0, i as int), 1),
            r.bottom == reach(areas@.subrange(0, i as int), 2),
            r.left == reach(areas@.subrange(0, i as int), 3),
            0 <= r.top <= i32::MAX && 0 <= r.right <= i32::MAX,
            0 <= r.bottom <= i32::MAX && 0 <= r.left <= i32::MAX,
        decreases areas@.len() - i,
    {
        let a = areas[i];
        proof {
            assert(areas@.subrange(0, i + 1).drop_last() == areas@.subrange(0, i as int));
            assert(areas@.subrange(0, i + 1).last() == a);
        }
        if a.visible {
            let t: i64 = if a.top_height < 0 { 0 } else { a.top_height as i64 };
            let rt: i64 = if a.right_width < 0 { 0 } else { a.right_width as i64 };
            let b: i64 = if a.bottom_height < 0 { 0 } else { a.bottom_height as i64 };
            let l: i64 = if a.left_width < 0 { 0 } else { a.left_width as i64 };
            if t > r.top {
                r.top = t;
            }
            if rt > r.right {
                r.right = rt;
            }
            if b > r.bottom {
                r.bottom = b;
            }
            if l > r.left {
                r.left = l;
            }
        }
        i = i + 1;
    }
    proof {
        assert(areas@.subrange(0, areas@.len() as int) == areas@);
    }
    r
}

/// What the content rectangle already leaves free on each side of the
/// window: its own offset at the top and left, the rest of the window at the
/// right and bottom, none where that would be negative.
pub fn applied_margins(content: Rect, window: Rect) -> (r: EdgePixels)
    ensures
        r.top == clamp0(content.top as int),
        r.left == clamp0(content.left as int),
        r.right == clamp0(window.width - content.width - content.left),
        r.bottom == clamp0(window.height - content.height - content.top),
{
    let right: i64 = window.width as i64 - content.width as i64 - content.left as i64;
    let bottom: i64 = window.height as i64 - content.height as i64 - content.top as i64;
    EdgePixels {
        top: if content.top < 0 { 0 } else { content.top as i64 },
        right: if right < 0 { 0 } else { right },
        bottom: if bottom < 0 { 0 } else { bottom },
        left: if content.left < 0 { 0 } else { content.left as i64 },
    }
}

} // verus!
