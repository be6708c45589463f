//! The tile-map model: blocks, chunks of blocks, and maps of chunks, with the
//! checks a loaded map must pass.
use vstd::prelude::*;

verus! {

/// How a block affects movement.
#[derive(Clone, Copy, Debug, PartialEq, Eq, Structural)]
pub enum Collision {
    Full,
    Middle,
    Slow,
    Passable,
}

/// One grid cell: an index into a texture atlas, its collision class, and
/// the key of the texture the atlas belongs to.
#[derive(Clone, Debug, PartialEq, Eq)]
pub struct Block {
    pub tile: usize,
    pub collision: Collision,
    pub texture: String,
}

/// A rectangular region of the world, row by row.
#[derive(Clone, Debug, PartialEq, Eq)]
pub struct Chunk {
    pub blocks: Vec<Vec<Block>>,
}

/// A whole map: a grid of chunks, row by row.
#[derive(Clone, Debug, PartialEq, Eq)]
pub struct TileMap {
    pub chunks: Vec<Vec<Chunk>>,
}

/// Why a map failed validation.
#[derive(Clone, Copy, Debug, PartialEq, Eq, Structural)]
pub enum MapError {
    /// Two rows of the chunk grid, or of some chunk's block grid, differ in
    /// length.
    Ragged,
    /// Some block names a texture outside the valid set.
    UnknownTexture,
}

/// Why a map could not be loaded.
#[derive(Clone, Copy, Debug, PartialEq, Eq, Structural)]
pub enum IoError {
    /// Nothing stands at the source.
    NotFound,
    /// The text does not describe a map: a missing field, an unknown
    /// collision name, or a ragged grid.
    Malformed,
}

/// Every row has as many entries as the first.
pub open spec fn rectangular<T>(rows: Seq<Vec<T>>) -> bool {
    forall|i: int| 0 <= i < rows.len() ==> #[trigger] rows[i]@.len() == rows[0]@.len()
}

/// The chunk grid and the block grid of every chunk are rectangular.
pub open spec fn map_rectangular(m: TileMap) -> bool {
    &&& rectangular(m.chunks@)
    &&& forall|i: int, j: int|
        0 <= i < m.chunks@.len() && 0 <= j < m.chunks@[i]@.len()
            ==> rectangular(#[trigger] m.chunks@[i]@[j].blocks@)
}

/// `t` is among the texture keys.
pub open spec fn known_texture(keys: Seq<String>, t: Seq<char>) -> bool {
    exists|n: int| 0 <= n < keys.len() && #[trigger] keys[n]@ == t
}

/// Every block of the chunk names a known texture.
pub open spec fn chunk_textures_known(c: Chunk, keys: Seq<String>) -> bool {
    forall|i: int, j: int|
        0 <= i < c.blocks@.len() && 0 <= j < c.blocks@[i]@.len()
            ==> known_texture(keys, #[trigger] c.blocks@[i]@[j].texture@)
}

/// Every block of the map names a known texture.
pub open spec fn map_textures_known(m: TileMap, keys: Seq<String>) -> bool {
    forall|i: int, j: int|
        0 <= i < m.chunks@.len() && 0 <= j < m.chunks@[i]@.len()
            ==> chunk_textures_known(#[trigger] m.chunks@[i]@[j], keys)
}

/// Whether every row of `rows` is as long as the first.
pub fn rows_rectangular<T>(rows: &Vec<Vec<T>>) -> (r: bool)
    ensures
        r == rectangular(rows@),
{
    if rows.len() == 0 {
        return true;
    }
    let width = rows[0].len();
    let mut i: usize = 1;
    while i < rows.len()
        invariant
            1 <= i <= rows@.len(),
            width == rows@[0]@.len(),
            forall|k: int| 0 <= k < i ==> #[trigger] rows@[k]@.len() == width,
        decreases rows@.len() - i,
    {
        if rows[i].len() != width {
            return false;
        }
        i += 1;
    }
    true
}

/// Whether the chunk grid and every chunk's block grid are rectangular.
pub fn is_rectangular(map: &TileMap) -> (r: bool)
    ensures
        r == map_rectangular(*map),
{
    if !rows_rectangular(&map.chunks) {
        return false;
    }
    let mut i: usize = 0;
    while i < map.chunks.len()
        invariant
            0 <= i <= map.chunks@.len(),
            forall|a: int, b: int|
                0 <= a < i && 0 <= b < map.chunks@[a]@.len()
                    ==> rectangular(#[trigger] map.chunks@[a]@[b].blocks@),
        decreases map.chunks@.len() - i,
    {
        let row = &map.chunks[i];
        let mut j: usize = 0;
        while j < row.len()
            invariant
                0 <= i < map.chunks@.len(),
                row == map.chunks@[i as int],
                0 <= j <= row@.len(),
                forall|a: int, b: int|
                    0 <= a < i && 0 <= b < map.chunks@[a]@.len()
                        ==> rectangular(#[trigger] map.chunks@[a]@[b].blocks@),
                forall|b: int| 0 <= b < j ==> rectangular(#[trigger] row@[b].blocks@),
            decreases row@.len() - j,
        {
            if !rows_rectangular(&row[j].blocks) {
                return false;
            }
            j += 1;
        }
        i += 1;
    }
    true
}

/// Whether `t` is one of the keys.
fn texture_known(keys: &Vec<String>, t: &String) -> (r: bool)
    ensures
        r == known_texture(keys@, t@),
{
    let mut n: usize = 0;
    while n < keys.len()
        invariant
            0 <= n <= keys@.len(),
            forall|k: int| 0 <= k < n ==> #[trigger] keys@[k]@ != t@,
        decreases keys@.len() - n,
    {
        if keys[n] == *t {
            return true;
        }
        n += 1;
    }
    false
}

/// Whether every block of the chunk names one of the keys.
fn chunk_known(c: &Chunk, keys: &Vec<String>) -> (r: bool)
    ensures
        r == chunk_textures_known(*c, keys@),
{
    let mut i: usize = 0;
    while i < c.blocks.len()
        invariant
            0 <= i <= c.blocks@.len(),
            forall|a: int, b: int|
                0 <= a < i && 0 <= b < c.blocks@[a]@.len()
                    ==> known_texture(keys@, #[trigger] c.blocks@[a]@[b].texture@),
        decreases c.blocks@.len() - i,
    {
        let row = &c.blocks[i];
        let mut j: usize = 0;
        while j < row.len()
            invariant
                0 <= i < c.blocks@.len(),
                row == c.blocks@[i as int],
                0 <= j <= row@.len(),
                forall|a: int, b: int|
                    0 <= a < i && 0 <= b < c.blocks@[a]@.len()
                        ==> known_texture(keys@, #[trigger] c.blocks@[a]@[b].texture@),
                forall|b: int| 0 <= b < j ==> known_texture(keys@, #[trigger] row@[b].texture@),
            decreases row@.len() - j,
        {
            if !texture_known(keys, &row[j].texture) {
                return false;
            }
            j += 1;
        }
        i += 1;
    }
    true
}

/// Whether every block of the map names one of the keys.
pub fn textures_known(map: &TileMap, keys: &Vec<String>) -> (r: bool)
    ensures
        r == map_textures_known(*map, keys@),
{
    let mut i: usize = 0;
    while i < map.chunks.len()
        invariant
            0 <= i <= map.chunks@.len(),
            forall|a: int, b: int|
                0 <= a < i && 0 <= b < map.chunks@[a]@.len()
                    ==> chunk_textures_known(#[trigger] map.chunks@[a]@[b], keys@),
        decreases map.chunks@.len() - i,
    {
        let row = &map.chunks[i];
        let mut j: usize = 0;
        while j < row.len()
            invariant
                0 <= i < map.chunks@.len(),
                row == map.chunks@[i as int],
                0 <= j <= row@.len(),
                forall|a: int, b: int|
                    0 <= a < i && 0 <= b < map.chunks@[a]@.len()
                        ==> chunk_textures_known(#[trigger] map.chunks@[a]@[b], keys@),
                forall|b: int| 0 <= b < j ==> chunk_textures_known(#[trigger] row@[b], keys@),
            decreases row@.len() - j,
        {
            if !chunk_known(&row[j], keys) {
                return false;
            }
            j += 1;
        }
        i += 1;
    }
    true
}

/// Checks a map before use: a ragged grid is reported first, then a block
/// whose texture is not among `valid_textures`.
pub fn validate(map: &TileMap, valid_textures: &Vec<String>) -> (r: Result<(), MapError>)
    ensures
        r == Err::<(), MapError>(MapError::Ragged) <==> !map_rectangular(*map),
        r == Err::<(), MapError>(MapError::UnknownTexture) <==> map_rectangular(*map)
            && !map_textures_known(*map, valid_textures@),
        r is Ok <==> map_rectangular(*map) && map_textures_known(*map, valid_textures@),
{
    if !is_rectangular(map) {
        Err(MapError::Ragged)
    } else if !textures_known(map, valid_textures) {
        Err(MapError::UnknownTexture)
    } else {
        Ok(())
    }
}

/// The last step of loading: a parsed map is taken only when its grids are
/// rectangular.
pub fn accept_loaded(map: TileMap) -> (r: Result<TileMap, IoError>)
    ensures
        map_rectangular(map) ==> r == Ok::<TileMap, IoError>(map),
        !map_rectangular(map) ==> r == Err::<TileMap, IoError>(IoError::Malformed),
{
    if is_rectangular(&map) {
        Ok(map)
    } else {
        Err(IoError::Malformed)
    }
}

} // verus!
