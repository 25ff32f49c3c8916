use structure_finder::chunk::{chunk_origin, generate_grid};
use structure_finder::config::{lin_index, SearchConfig};
use structure_finder::matcher::{find_first_match, match_at};
use structure_finder::rotation::Rotation;
use structure_finder::terrain::get_block_rotation;

fn small_config() -> SearchConfig {
    SearchConfig {
        chunk_size: 8,
        chunk_margin: 4,
        world_height: 8,
        grid_x: 1,
        grid_y: 1,
        grid_z: 1,
    }
}

/// Cross-validation of the two generation paths: the volume the search
/// backend generates equals per-cell hash evaluation, cell for cell.
#[test]
fn generated_volume_matches_per_cell_hash() {
    let cfg = small_config();
    for chunk_index in 0..3 {
        let (sx, sz) = chunk_origin(&cfg, chunk_index);
        let chunk = generate_grid(&cfg, sx, sz);
        assert_eq!(chunk.len(), cfg.chunk_size * cfg.chunk_size * cfg.world_height);
        for y in 0..cfg.world_height {
            for z in 0..cfg.chunk_size {
                for x in 0..cfg.chunk_size {
                    let i = lin_index(cfg.chunk_size, cfg.chunk_size, cfg.world_height, x, y, z);
                    assert_eq!(
                        chunk[i],
                        get_block_rotation(sx + x as i64, y as i64, sz + z as i64),
                        "cell ({x},{y},{z}) of chunk {chunk_index} differs"
                    );
                }
            }
        }
    }
}

/// A wildcard pattern matches at the scan order's first offset.
#[test]
fn wildcard_matches_first_offset() {
    let cfg = small_config();
    let chunk = generate_grid(&cfg, 0, 0);
    let pattern = vec![Rotation::new(0, 0).0];
    assert!(match_at(&cfg, &chunk, &pattern, 0, 0, 0));
    assert_eq!(find_first_match(&cfg, &chunk, &pattern), Some((0, 0, 0)));
}

/// An impossible constraint (a required orientation its own `max_rotation`
/// can never reach) matches nowhere.
#[test]
fn impossible_pattern_matches_nowhere() {
    let cfg = small_config();
    let chunk = generate_grid(&cfg, 0, 0);
    let pattern = vec![Rotation::new(4, 5).0];
    assert!(!match_at(&cfg, &chunk, &pattern, 0, 0, 0));
    assert_eq!(find_first_match(&cfg, &chunk, &pattern), None);
}

/// The first match is the scan order's first: a parity constraint is
/// satisfied first at offset (1, 0, 0) of the origin chunk, where the
/// terrain rotation is 1.
#[test]
fn first_match_respects_scan_order() {
    let cfg = small_config();
    let chunk = generate_grid(&cfg, 0, 0);
    let pattern = vec![Rotation::new(1, 2).0];
    assert_eq!(get_block_rotation(0, 0, 0) % 2, 0);
    assert_eq!(get_block_rotation(1, 0, 0), 1);
    assert_eq!(find_first_match(&cfg, &chunk, &pattern), Some((1, 0, 0)));
    assert!(!match_at(&cfg, &chunk, &pattern, 0, 0, 0));
    assert!(match_at(&cfg, &chunk, &pattern, 1, 0, 0));
}

/// A multi-cell pattern built from the terrain itself matches where it was
/// read off, and the match is found there if no earlier offset fits.
#[test]
fn terrain_cutout_matches_itself() {
    let cfg = SearchConfig {
        chunk_size: 8,
        chunk_margin: 4,
        world_height: 8,
        grid_x: 2,
        grid_y: 2,
        grid_z: 2,
    };
    let chunk = generate_grid(&cfg, 0, 0);
    // Read the terrain at offset (2, 3, 1) and demand exactly it.
    let (ox, oy, oz) = (2usize, 3usize, 1usize);
    let mut pattern = vec![0u8; 8];
    for py in 0..2 {
        for pz in 0..2 {
            for px in 0..2 {
                let t = get_block_rotation(
                    (ox + px) as i64,
                    (oy + py) as i64,
                    (oz + pz) as i64,
                );
                pattern[lin_index(2, 2, 2, px, py, pz)] = Rotation::new(t, 4).0;
            }
        }
    }
    assert!(match_at(&cfg, &chunk, &pattern, ox, oy, oz));
    let hit = find_first_match(&cfg, &chunk, &pattern).expect("the cutout must match somewhere");
    // The hit is the scan order's first: no offset before it matches, and
    // the cutout's own offset matches, so the hit comes no later.
    let dox = cfg.chunk_size - cfg.chunk_margin;
    let scan = |p: (u32, u32, u32)| p.0 as usize + p.2 as usize * dox + p.1 as usize * dox * dox;
    assert!(scan(hit) <= scan((ox as u32, oy as u32, oz as u32)));
    assert!(match_at(&cfg, &chunk, &pattern, hit.0 as usize, hit.1 as usize, hit.2 as usize));
}
