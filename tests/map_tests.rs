use tile_world::generate::{generate_map, tile_at};
use tile_world::tilemap::{accept_loaded, is_rectangular, validate, Block, Chunk, Collision, IoError, MapError, TileMap};

fn block(tile: usize, texture: &str) -> Block {
    Block { tile, collision: Collision::Passable, texture: texture.to_string() }
}

fn grass_chunk(rows: usize, cols: usize) -> Chunk {
    Chunk { blocks: (0..rows).map(|_| (0..cols).map(|t| block(t, "grass")).collect()).collect() }
}

fn keys() -> Vec<String> {
    vec!["grass".to_string(), "stone".to_string()]
}

#[test]
fn validate_accepts_rectangular_known_map() {
    let map = TileMap { chunks: vec![vec![grass_chunk(2, 3), grass_chunk(2, 3)], vec![grass_chunk(1, 1), grass_chunk(4, 2)]] };
    assert!(is_rectangular(&map));
    assert_eq!(validate(&map, &keys()), Ok(()));
}

#[test]
fn validate_accepts_empty_map() {
    let map = TileMap { chunks: vec![] };
    assert_eq!(validate(&map, &vec![]), Ok(()));
}

#[test]
fn validate_rejects_ragged_block_rows() {
    let mut chunk = grass_chunk(3, 3);
    chunk.blocks[1].pop();
    let map = TileMap { chunks: vec![vec![chunk]] };
    assert!(!is_rectangular(&map));
    assert_eq!(validate(&map, &keys()), Err(MapError::Ragged));
}

#[test]
fn validate_rejects_ragged_chunk_grid() {
    let map = TileMap { chunks: vec![vec![grass_chunk(1, 1), grass_chunk(1, 1)], vec![grass_chunk(1, 1)]] };
    assert_eq!(validate(&map, &keys()), Err(MapError::Ragged));
}

#[test]
fn validate_rejects_unknown_texture() {
    let mut chunk = grass_chunk(2, 2);
    chunk.blocks[1][1] = Block { tile: 7, collision: Collision::Full, texture: "lava".to_string() };
    let map = TileMap { chunks: vec![vec![chunk]] };
    assert_eq!(validate(&map, &keys()), Err(MapError::UnknownTexture));
}

#[test]
fn validate_reports_ragged_before_unknown_texture() {
    let mut chunk = grass_chunk(2, 2);
    chunk.blocks[0][0].texture = "lava".to_string();
    chunk.blocks[1].pop();
    let map = TileMap { chunks: vec![vec![chunk]] };
    assert_eq!(validate(&map, &keys()), Err(MapError::Ragged));
}

#[test]
fn generated_map_has_framed_border() {
    let m = generate_map(4);
    assert_eq!(m.len(), 4);
    assert_eq!(m[0], vec![41, 1, 1, 43]);
    assert_eq!(m[3], vec![22, 23, 23, 24]);
    assert_eq!((m[1][0], m[1][3], m[2][0], m[2][3]), (11, 13, 11, 13));
    for i in 1..3 {
        for j in 1..3 {
            let t = m[i][j];
            assert!(t == 12 || (56..=60).contains(&t));
        }
    }
}

#[test]
fn generated_inside_draws_stay_in_range() {
    let m = generate_map(40);
    for row in &m[1..39] {
        assert_eq!(row.len(), 40);
        for &t in &row[1..39] {
            assert!(t == 12 || (56..=60).contains(&t));
        }
    }
}

#[test]
fn generated_single_tile_is_last_corner() {
    assert_eq!(generate_map(1), vec![vec![24]]);
}

#[test]
fn generated_two_by_two_is_corners() {
    assert_eq!(generate_map(2), vec![vec![41, 43], vec![22, 24]]);
}

#[test]
fn tile_at_inside_takes_decoration() {
    assert_eq!(tile_at(1, 1, 3, Some(57)), 57);
    assert_eq!(tile_at(1, 1, 3, None), 12);
    assert_eq!(tile_at(0, 1, 3, Some(57)), 1);
    assert_eq!(tile_at(2, 2, 3, Some(57)), 24);
}

#[test]
fn accept_loaded_rejects_ragged_as_malformed() {
    let good = TileMap { chunks: vec![vec![grass_chunk(2, 2)]] };
    assert_eq!(accept_loaded(good.clone()), Ok(good));
    let mut chunk = grass_chunk(2, 2);
    chunk.blocks[0].pop();
    let bad = TileMap { chunks: vec![vec![chunk]] };
    assert_eq!(accept_loaded(bad), Err(IoError::Malformed));
}
