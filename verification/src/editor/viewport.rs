//! The viewport: the visible pixel rectangle and the scroll offset that
//! places the text behind it.
//!
//! A point of the text at content position `p` is drawn at `p` minus the
//! scroll offset, measured from the viewport's origin. The part of the text
//! that shows is the window: the viewport moved by the scroll offset.

use crate::base::math::{Bounds, Position, Size};
use crate::base::pixel::{clamp_px, saturate, CellMetrics};
use vstd::prelude::*;

verus! {

/// The viewport and its scroll offset, as plain values.
pub struct ViewportState {
    /// The visible rectangle, in device pixels.
    pub viewport: Bounds<u32>,
    /// The offset taken from content coordinates before drawing.
    pub scroll_offset: Position<i64>,
}

/// The visible rectangle and the scroll offset.
pub struct ViewportController {
    viewport: Bounds<u32>,
    scroll_offset: Position<i64>,
}

/// Where a window starts on one axis once it has been moved to show a
/// target span. A window that ends at or before the target's end is first
/// moved to end with it; a window that then starts at or after the target's
/// start is moved to start with it.
pub open spec fn revealed_start(
    window_start: int,
    window_length: int,
    target_start: int,
    target_end: int,
) -> int {
    let shifted = if window_start + window_length <= target_end {
        target_end - window_length
    } else {
        window_start
    };
    if target_start <= shifted {
        target_start
    } else {
        shifted
    }
}

/// The scroll offset on one axis after the window has been moved to show a
/// target span: the start of the moved window, measured from the viewport's origin.
pub open spec fn revealed_offset(
    origin: u32,
    length: u32,
    offset: i64,
    target_start: i64,
    target_length: i64,
) -> i64 {
    clamp_px(
        revealed_start(origin + offset, length as int, target_start as int, target_start + target_length)
            - origin,
    )
}

/// The state after scrolling by `delta` pixels.
pub open spec fn scrolled(state: ViewportState, delta: Position<i64>) -> ViewportState {
    ViewportState {
        viewport: state.viewport,
        scroll_offset: Position {
            x: clamp_px(state.scroll_offset.x + delta.x),
            y: clamp_px(state.scroll_offset.y + delta.y),
        },
    }
}

/// The state after scrolling by `delta` cells of the given size.
pub open spec fn scrolled_by_cells(
    state: ViewportState,
    delta: Position<i64>,
    cell: CellMetrics,
) -> ViewportState {
    ViewportState {
        viewport: state.viewport,
        scroll_offset: Position {
            x: clamp_px(state.scroll_offset.x + delta.x * cell.width()),
            y: clamp_px(state.scroll_offset.y + delta.y * cell.height()),
        },
    }
}

/// The state after the window has been moved to show `target`, a box in
/// content pixels. Each axis is settled on its own.
pub open spec fn revealed(state: ViewportState, target: Bounds<i64>) -> ViewportState {
    ViewportState {
        viewport: state.viewport,
        scroll_offset: Position {
            x: revealed_offset(
                state.viewport.pos.x,
                state.viewport.size.w,
                state.scroll_offset.x,
                target.pos.x,
                target.size.w,
            ),
            y: revealed_offset(
                state.viewport.pos.y,
                state.viewport.size.h,
                state.scroll_offset.y,
                target.pos.y,
                target.size.h,
            ),
        },
    }
}

/// Whether the window shows a target span on one axis in full.
pub open spec fn shows(origin: u32, length: u32, offset: i64, target_start: i64, target_length: i64) -> bool {
    &&& origin + offset <= target_start
    &&& target_start + target_length <= origin + offset + length
}

/// Showing a target twice in a row scrolls no further than showing it once.
pub proof fn lemma_revealed_twice(state: ViewportState, target: Bounds<i64>)
    ensures
        revealed(revealed(state, target), target) == revealed(state, target),
{
}

/// After the window has been moved to show a target that fits it and lies
/// in the non-negative part of the content, the window shows the target in full.
pub proof fn lemma_revealed_shows_target(
    origin: u32,
    length: u32,
    offset: i64,
    target_start: i64,
    target_length: i64,
)
    requires
        0 <= target_start,
        0 <= target_length <= length,
        target_start + target_length <= i64::MAX,
    ensures
        shows(
            origin,
            length,
            revealed_offset(origin, length, offset, target_start, target_length),
            target_start,
            target_length,
        ),
{
}

impl View for ViewportController {
    type V = ViewportState;

    closed spec fn view(&self) -> ViewportState {
        ViewportState { viewport: self.viewport, scroll_offset: self.scroll_offset }
    }
}

impl ViewportController {
    /// A controller for `viewport`, not scrolled.
    pub fn new(viewport: Bounds<u32>) -> (controller: ViewportController)
        ensures
            controller@ == (ViewportState { viewport, scroll_offset: Position { x: 0, y: 0 } }),
    {
        ViewportController { viewport, scroll_offset: Position { x: 0, y: 0 } }
    }

    /// The visible rectangle.
    pub fn viewport(&self) -> (viewport: Bounds<u32>)
        ensures
            viewport == self@.viewport,
    {
        self.viewport
    }

    /// Replaces the visible rectangle. The scroll offset stays as it is.
    pub fn set_viewport(&mut self, viewport: Bounds<u32>)
        ensures
            final(self)@ == (ViewportState { viewport, scroll_offset: old(self)@.scroll_offset }),
    {
        self.viewport = viewport;
    }

    /// The scroll offset.
    pub fn scroll_offset(&self) -> (offset: Position<i64>)
        ensures
            offset == self@.scroll_offset,
    {
        self.scroll_offset
    }

    /// Replaces the scroll offset. The visible rectangle stays as it is.
    pub fn set_scroll_offset(&mut self, offset: Position<i64>)
        ensures
            final(self)@ == (ViewportState { viewport: old(self)@.viewport, scroll_offset: offset }),
    {
        self.scroll_offset = offset;
    }

    /// Replaces the size of the visible rectangle. Its origin and the
    /// scroll offset stay as they are.
    pub fn resize(&mut self, new_size: Size<u32>)
        ensures
            final(self)@ == (ViewportState {
                viewport: Bounds { pos: old(self)@.viewport.pos, size: new_size },
                scroll_offset: old(self)@.scroll_offset,
            }),
    {
        self.viewport.size = new_size;
    }

    /// Adds `delta` pixels to the scroll offset.
    pub fn scroll_by(&mut self, delta: Position<i64>)
        ensures
            final(self)@ == scrolled(old(self)@, delta),
    {
        self.scroll_offset = Position {
            x: saturate(self.scroll_offset.x as i128 + delta.x as i128),
            y: saturate(self.scroll_offset.y as i128 + delta.y as i128),
        };
    }

    /// Adds `delta` cells, turned into pixels by the size of a cell, to the
    /// scroll offset.
    pub fn scroll_by_cells(&mut self, delta: Position<i64>, cell: CellMetrics)
        ensures
            final(self)@ == scrolled_by_cells(old(self)@, delta, cell),
    {
        let width = cell.width();
        let height = cell.height();
        assert(-0x8000_0000_0000_0000 * 0xffff_ffff <= delta.x * width <= 0x8000_0000_0000_0000
            * 0xffff_ffff) by (nonlinear_arith)
            requires
                -0x8000_0000_0000_0000 <= delta.x <= 0x8000_0000_0000_0000,
                0 <= width <= 0xffff_ffff,
        ;
        assert(-0x8000_0000_0000_0000 * 0xffff_ffff <= delta.y * height <= 0x8000_0000_0000_0000
            * 0xffff_ffff) by (nonlinear_arith)
            requires
                -0x8000_0000_0000_0000 <= delta.y <= 0x8000_0000_0000_0000,
                0 <= height <= 0xffff_ffff,
        ;
        self.scroll_offset = Position {
            x: saturate(self.scroll_offset.x as i128 + delta.x as i128 * width as i128),
            y: saturate(self.scroll_offset.y as i128 + delta.y as i128 * height as i128),
        };
    }

    /// Scrolls as far as it takes to bring `target`, a box in content
    /// pixels, into the window. The four edges are settled in a fixed order:
    /// right, left, bottom, top.
    pub fn ensure_visible(&mut self, target: Bounds<i64>)
        ensures
            final(self)@ == revealed(old(self)@, target),
    {
        let origin = Position { x: self.viewport.pos.x as i128, y: self.viewport.pos.y as i128 };
        let mut window = Bounds {
            pos: Position {
                x: origin.x + self.scroll_offset.x as i128,
                y: origin.y + self.scroll_offset.y as i128,
            },
            size: Size { w: self.viewport.size.w as i128, h: self.viewport.size.h as i128 },
        };
        let target = Bounds {
            pos: Position { x: target.pos.x as i128, y: target.pos.y as i128 },
            size: Size { w: target.size.w as i128, h: target.size.h as i128 },
        };
        if window.right() <= target.right() {
            window.pos.x = target.right() - window.size.w;
        }
        if target.left() <= window.left() {
            window.pos.x = target.left();
        }
        if window.bottom() <= target.bottom() {
            window.pos.y = target.bottom() - window.size.h;
        }
        if target.top() <= window.top() {
            window.pos.y = target.top();
        }
        self.scroll_offset = Position {
            x: saturate(window.pos.x - origin.x),
            y: saturate(window.pos.y - origin.y),
        };
    }
}

} // verus!
