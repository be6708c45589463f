//! Pixel scale of the world: the atlas frame size, how many screen pixels a
//! texture pixel covers, and the step between neighbouring map tiles.
use vstd::prelude::*;

verus! {

pub const PIXEL_RATIO: u32 = 4;
pub const FRAME_SIZE: u32 = 16;

#[derive(Clone, Copy, Debug)]
pub struct Resolution {
    pub pixel_ratio: u32,
    /// Width and height of one atlas frame, in texture pixels.
    pub frame_size: (u32, u32),
    /// World offset from one tile to the next along a row (x) and down a
    /// column (y); rows run downwards.
    pub map_translation: (i64, i64),
}

impl Resolution {
    /// Square frames of `FRAME_SIZE` texture pixels drawn `PIXEL_RATIO` times
    /// larger, so that tiles stand one scaled frame apart.
    pub fn setup_resolution() -> (r: Resolution)
        ensures
            r.pixel_ratio == PIXEL_RATIO,
            r.frame_size == (FRAME_SIZE, FRAME_SIZE),
            r.map_translation == (
                (PIXEL_RATIO * FRAME_SIZE) as i64,
                -(PIXEL_RATIO * FRAME_SIZE) as i64,
            ),
    {
        let step: i64 = PIXEL_RATIO as i64 * FRAME_SIZE as i64;
        Resolution {
            pixel_ratio: PIXEL_RATIO,
            frame_size: (FRAME_SIZE, FRAME_SIZE),
            map_translation: (step, -step),
        }
    }

    /// The width of one grid cell in world units: a frame scaled by the pixel
    /// ratio.
    pub fn cell_size(&self) -> (r: u64)
        ensures
            r == self.pixel_ratio * self.frame_size.0,
    {
        proof {
            assert(self.pixel_ratio * self.frame_size.0 <= 0xffff_ffff * 0xffff_ffff) by (nonlinear_arith)
                requires
                    self.pixel_ratio <= 0xffff_ffff,
                    self.frame_size.0 <= 0xffff_ffff,
            ;
        }
        self.pixel_ratio as u64 * self.frame_size.0 as u64
    }

    /// Where the tile at row `row`, column `col` of a chunk stands in the
    /// world.
    pub fn tile_translation(&self, row: usize, col: usize) -> (r: (i128, i128))
        ensures
            r.0 == col * self.map_translation.0,
            r.1 == row * self.map_translation.1,
    {
        proof {
            assert(-0xffff_ffff_ffff_ffff * 0x8000_0000_0000_0000 <= col * self.map_translation.0
                <= 0xffff_ffff_ffff_ffff * 0x8000_0000_0000_0000) by (nonlinear_arith)
                requires
                    0 <= col < 0x1_0000_0000_0000_0000,
                    -0x8000_0000_0000_0000 <= self.map_translation.0 < 0x8000_0000_0000_0000,
            ;
            assert(-0xffff_ffff_ffff_ffff * 0x8000_0000_0000_0000 <= row * self.map_translation.1
                <= 0xffff_ffff_ffff_ffff * 0x8000_0000_0000_0000) by (nonlinear_arith)
                requires
                    0 <= row < 0x1_0000_0000_0000_0000,
                    -0x8000_0000_0000_0000 <= self.map_translation.1 < 0x8000_0000_0000_0000,
            ;
        }
        (col as i128 * self.map_translation.0 as i128, row as i128 * self.map_translation.1 as i128)
    }
}

} // verus!
