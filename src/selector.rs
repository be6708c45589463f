//! The hovered cell and the world position under the cursor, kept from frame
//! to frame.
use vstd::prelude::*;
use crate::grid::{cell_of, world_to_cell};

verus! {

/// Integer grid coordinates of a cell.
#[derive(Clone, Copy, Debug, PartialEq, Eq, Structural)]
pub struct HoveredCell {
    pub grid_x: i64,
    pub grid_y: i64,
}

/// A world-space point, in the same integer unit as the cell size.
#[derive(Clone, Copy, Debug, PartialEq, Eq, Structural)]
pub struct WorldPoint {
    pub x: i64,
    pub y: i64,
}

/// The cell of a world point, axis by axis.
pub open spec fn cell_at(p: WorldPoint, cell_size: int) -> HoveredCell {
    HoveredCell { grid_x: cell_of(p.x as int, cell_size) as i64, grid_y: cell_of(p.y as int, cell_size) as i64 }
}

/// What the selector publishes: the last hovered cell and the last world
/// point under the cursor.
#[derive(Clone, Copy, Debug, PartialEq, Eq, Structural)]
pub struct GridSelector {
    pub hovered: HoveredCell,
    pub cursor_world: WorldPoint,
}

impl GridSelector {
    /// A selector over cell (0, 0) with the cursor at the origin.
    pub fn new() -> (r: GridSelector)
        ensures
            r.hovered == (HoveredCell { grid_x: 0, grid_y: 0 }),
            r.cursor_world == (WorldPoint { x: 0, y: 0 }),
    {
        GridSelector { hovered: HoveredCell { grid_x: 0, grid_y: 0 }, cursor_world: WorldPoint { x: 0, y: 0 } }
    }

    /// Recomputes the hovered cell from the world point under the cursor.
    /// With no point (cursor off the viewport, or no projection), the last
    /// published values stay as they were.
    pub fn get_hovered_block(&mut self, cursor_world: Option<WorldPoint>, cell_size: u32)
        requires
            cell_size >= 2,
        ensures
            cursor_world is None ==> *final(self) == *old(self),
            cursor_world is Some ==> final(self).cursor_world == cursor_world->0
                && final(self).hovered == cell_at(cursor_world->0, cell_size as int),
    {
        if let Some(p) = cursor_world {
            let grid_x = world_to_cell(p.x, cell_size);
            let grid_y = world_to_cell(p.y, cell_size);
            self.cursor_world = p;
            self.hovered = HoveredCell { grid_x, grid_y };
        }
    }

    /// Where the highlight sprite stands in world space: the hovered cell
    /// times the frame size times the pixel ratio, on each axis.
    pub fn update_selector_position(&self, frame_size: u32, pixel_ratio: u32) -> (r: (i128, i128))
        ensures
            r.0 == self.hovered.grid_x * frame_size * pixel_ratio,
            r.1 == self.hovered.grid_y * frame_size * pixel_ratio,
    {
        (scale_cell(self.hovered.grid_x, frame_size, pixel_ratio), scale_cell(self.hovered.grid_y, frame_size, pixel_ratio))
    }
}

fn scale_cell(cell: i64, frame_size: u32, pixel_ratio: u32) -> (r: i128)
    ensures
        r == cell * frame_size * pixel_ratio,
{
    proof {
        assert(0 <= frame_size * pixel_ratio <= 0xffff_fffe_0000_0001) by (nonlinear_arith)
            requires
                0 <= frame_size <= 0xffff_ffff,
                0 <= pixel_ratio <= 0xffff_ffff,
        ;
    }
    let step: u64 = frame_size as u64 * pixel_ratio as u64;
    proof {
        assert(-0x8000_0000_0000_0000 * 0xffff_fffe_0000_0001 <= cell * step
            <= 0x8000_0000_0000_0000 * 0xffff_fffe_0000_0001) by (nonlinear_arith)
            requires
                -0x8000_0000_0000_0000 <= cell <= 0x8000_0000_0000_0000,
                0 <= step <= 0xffff_fffe_0000_0001,
        ;
        assert(cell * frame_size * pixel_ratio == cell * (frame_size * pixel_ratio)) by (nonlinear_arith);
    }
    cell as i128 * step as i128
}

} // verus!
