//! A procedural square map of atlas indices: a framed border of edge and
//! corner tiles around ground, with a few decorated ground tiles drawn at
//! random.
use vstd::prelude::*;
use rand::Rng;

verus! {

pub const TOP_LEFT: usize = 41;
pub const TOP_RIGHT: usize = 43;
pub const BOTTOM_LEFT: usize = 22;
pub const BOTTOM_RIGHT: usize = 24;
pub const TOP_EDGE: usize = 1;
pub const BOTTOM_EDGE: usize = 23;
pub const LEFT_EDGE: usize = 11;
pub const RIGHT_EDGE: usize = 13;
pub const GROUND: usize = 12;
/// The decorated ground tiles are `FIRST_DECORATION..=LAST_DECORATION`.
pub const FIRST_DECORATION: usize = 56;
pub const LAST_DECORATION: usize = 60;
/// One ground tile in `DECORATION_ODDS` is decorated.
pub const DECORATION_ODDS: u32 = 10;

/// The border tile at row `i`, column `j` of a `size` by `size` map, or
/// `None` inside the border. Corners take precedence over edges; on a map of
/// one tile the bottom-right corner wins.
pub open spec fn border_tile(i: int, j: int, size: int) -> Option<usize> {
    let last = size - 1;
    if i == last && j == last {
        Some(BOTTOM_RIGHT)
    } else if i == last && j == 0 {
        Some(BOTTOM_LEFT)
    } else if i == 0 && j == last {
        Some(TOP_RIGHT)
    } else if i == 0 && j == 0 {
        Some(TOP_LEFT)
    } else if i == 0 {
        Some(TOP_EDGE)
    } else if i == last {
        Some(BOTTOM_EDGE)
    } else if j == 0 {
        Some(LEFT_EDGE)
    } else if j == last {
        Some(RIGHT_EDGE)
    } else {
        None
    }
}

/// A tile that may stand at row `i`, column `j` of a generated map.
pub open spec fn allowed_tile(i: int, j: int, size: int, t: usize) -> bool {
    match border_tile(i, j, size) {
        Some(b) => t == b,
        None => t == GROUND || FIRST_DECORATION <= t <= LAST_DECORATION,
    }
}

/// Relies on `rand::Rng::gen_ratio` on `rand::thread_rng()`: true with chance
/// `numerator / denominator`, surely false when `numerator` is 0 and surely
/// true when it equals `denominator`; it panics when `denominator` is 0 or
/// below `numerator`.
#[verifier::external_body]
fn chance(numerator: u32, denominator: u32) -> (r: bool)
    requires
        0 < denominator,
        numerator <= denominator,
    ensures
        numerator == 0 ==> !r,
        numerator == denominator ==> r,
{
    rand::thread_rng().gen_ratio(numerator, denominator)
}

/// Relies on `rand::Rng::gen_range` over `low..=high` on
/// `rand::thread_rng()`: a value within the range; it panics on an empty
/// range.
#[verifier::external_body]
fn random_between(low: usize, high: usize) -> (r: usize)
    requires
        low <= high,
    ensures
        low <= r <= high,
{
    rand::thread_rng().gen_range(low..=high)
}

/// The tile at row `i`, column `j` of a `size` by `size` map: the border
/// tile there, else the drawn decoration, else plain ground.
pub fn tile_at(i: usize, j: usize, size: usize, decoration: Option<usize>) -> (r: usize)
    requires
        size >= 1,
    ensures
        border_tile(i as int, j as int, size as int) is Some ==> r == border_tile(
            i as int,
            j as int,
            size as int,
        )->0,
        border_tile(i as int, j as int, size as int) is None ==> r == match decoration {
            Some(d) => d,
            None => GROUND,
        },
{
    let last = size - 1;
    if i == last && j == last {
        BOTTOM_RIGHT
    } else if i == last && j == 0 {
        BOTTOM_LEFT
    } else if i == 0 && j == last {
        TOP_RIGHT
    } else if i == 0 && j == 0 {
        TOP_LEFT
    } else if i == 0 {
        TOP_EDGE
    } else if i == last {
        BOTTOM_EDGE
    } else if j == 0 {
        LEFT_EDGE
    } else if j == last {
        RIGHT_EDGE
    } else {
        match decoration {
            Some(d) => d,
            None => GROUND,
        }
    }
}

/// A `size` by `size` map of atlas indices, row by row: the border framed by
/// edge and corner tiles, the inside ground, of which about one tile in
/// `DECORATION_ODDS` carries a random decoration.
pub fn generate_map(size: usize) -> (r: Vec<Vec<usize>>)
    requires
        size >= 1,
    ensures
        r@.len() == size,
        forall|i: int| 0 <= i < size ==> (#[trigger] r@[i])@.len() == size,
        forall|i: int, j: int|
            0 <= i < size && 0 <= j < size ==> allowed_tile(i, j, size as int, #[trigger] r@[i]@[j]),
{
    let mut map_data: Vec<Vec<usize>> = Vec::new();
    let mut i: usize = 0;
    while i < size
        invariant
            size >= 1,
            0 <= i <= size,
            map_data@.len() == i,
            forall|a: int| 0 <= a < i ==> (#[trigger] map_data@[a])@.len() == size,
            forall|a: int, b: int|
                0 <= a < i && 0 <= b < size ==> allowed_tile(a, b, size as int, #[trigger] map_data@[a]@[b]),
        decreases size - i,
    {
        let mut row: Vec<usize> = Vec::new();
        let mut j: usize = 0;
        while j < size
            invariant
                size >= 1,
                0 <= i < size,
                0 <= j <= size,
                row@.len() == j,
                forall|b: int| 0 <= b < j ==> allowed_tile(i as int, b, size as int, #[trigger] row@[b]),
            decreases size - j,
        {
            let inside = i > 0 && i < size - 1 && j > 0 && j < size - 1;
            let decoration = if inside && chance(1, DECORATION_ODDS) {
                Some(random_between(FIRST_DECORATION, LAST_DECORATION))
            } else {
                None
            };
            row.push(tile_at(i, j, size, decoration));
            j += 1;
        }
        map_data.push(row);
        i += 1;
    }
    map_data
}

} // verus!
