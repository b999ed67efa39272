//! Pixel coordinates and cell metrics.
//!
//! Coordinates are whole device pixels held in `i64`. A computed coordinate
//! that lies beyond the ends of that range is taken to the nearest end.

use super::math::{Bounds, Position, Size};
use vstd::prelude::*;

verus! {

/// The representable pixel coordinate nearest to `value`.
pub open spec fn clamp_px(value: int) -> i64 {
    if value < i64::MIN {
        i64::MIN
    } else if value > i64::MAX {
        i64::MAX
    } else {
        value as i64
    }
}

/// The representable pixel coordinate nearest to `value`.
pub fn saturate(value: i128) -> (px: i64)
    ensures
        px == clamp_px(value as int),
{
    if value < i64::MIN as i128 {
        i64::MIN
    } else if value > i64::MAX as i128 {
        i64::MAX
    } else {
        value as i64
    }
}

/// The pixel size of one monospace cell: the advance width of a glyph and
/// the height of a line. Both are at least one pixel.
#[derive(Debug, Clone, Copy)]
pub struct CellMetrics {
    width: u32,
    height: u32,
}

impl CellMetrics {
    #[verifier::type_invariant]
    spec fn positive(self) -> bool {
        self.width >= 1 && self.height >= 1
    }

    /// The width of a cell in pixels.
    pub closed spec fn spec_width(self) -> u32 {
        self.width
    }

    /// The height of a cell in pixels.
    pub closed spec fn spec_height(self) -> u32 {
        self.height
    }

    /// Metrics of the given cell size, or `None` where a side is zero.
    pub fn new(width: u32, height: u32) -> (metrics: Option<CellMetrics>)
        ensures
            (width >= 1 && height >= 1) <==> metrics is Some,
            metrics matches Some(cell) ==> cell.spec_width() == width && cell.spec_height()
                == height,
    {
        if width >= 1 && height >= 1 {
            Some(CellMetrics { width, height })
        } else {
            None
        }
    }

    /// The width of a cell in pixels.
    #[verifier::when_used_as_spec(spec_width)]
    pub fn width(self) -> (width: u32)
        ensures
            width == self.spec_width(),
            width >= 1,
    {
        proof {
            use_type_invariant(self);
        }
        self.width
    }

    /// The height of a cell in pixels.
    #[verifier::when_used_as_spec(spec_height)]
    pub fn height(self) -> (height: u32)
        ensures
            height == self.spec_height(),
            height >= 1,
    {
        proof {
            use_type_invariant(self);
        }
        self.height
    }

    /// The whole cells that fit an area of `size` pixels.
    pub open spec fn spec_cells_in(self, size: Size<u32>) -> Size<usize> {
        Size { w: (size.w / self.width()) as usize, h: (size.h / self.height()) as usize }
    }

    /// The whole cells that fit an area of `size` pixels.
    pub fn cells_in(self, size: Size<u32>) -> (cells: Size<usize>)
        ensures
            cells == self.spec_cells_in(size),
    {
        let width = self.width();
        let height = self.height();
        Size { w: (size.w / width) as usize, h: (size.h / height) as usize }
    }

    /// The box that the cell at `column` and `row` covers, in pixels from
    /// the top-left corner of the text.
    pub open spec fn spec_cell_bounds(self, row: nat, column: nat) -> Bounds<i64> {
        Bounds {
            pos: Position {
                x: clamp_px(column * self.width()),
                y: clamp_px(row * self.height()),
            },
            size: Size { w: self.width() as i64, h: self.height() as i64 },
        }
    }

    /// The box that the cell at `column` and `row` covers, in pixels from
    /// the top-left corner of the text.
    pub fn cell_bounds(self, row: usize, column: usize) -> (bounds: Bounds<i64>)
        ensures
            bounds == self.spec_cell_bounds(row as nat, column as nat),
    {
        let width = self.width();
        let height = self.height();
        assert(column * width <= 0xffff_ffff_ffff_ffff * 0xffff_ffff) by (nonlinear_arith)
            requires
                0 <= column <= 0xffff_ffff_ffff_ffff,
                0 <= width <= 0xffff_ffff,
        ;
        assert(row * height <= 0xffff_ffff_ffff_ffff * 0xffff_ffff) by (nonlinear_arith)
            requires
                0 <= row <= 0xffff_ffff_ffff_ffff,
                0 <= height <= 0xffff_ffff,
        ;
        assert(0 <= column * width) by (nonlinear_arith)
            requires
                0 <= column,
                0 <= width,
        ;
        assert(0 <= row * height) by (nonlinear_arith)
            requires
                0 <= row,
                0 <= height,
        ;
        Bounds {
            pos: Position {
                x: saturate(column as i128 * width as i128),
                y: saturate(row as i128 * height as i128),
            },
            size: Size { w: width as i64, h: height as i64 },
        }
    }
}

} // verus!
