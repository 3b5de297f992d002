use kartina::mesh::sphere_grid;
use kartina::mesh::sphere_indices;

/// The index list for the default tessellation of 18 stacks and 36 sectors,
/// checked cell by cell against the emission rule.
#[test]
fn test_indices() {
    let indices = sphere_indices(18, 36);
    let mut test = Vec::new();

    for i in 0..18u32 {
        let mut k1 = i * 37;
        let mut k2 = k1 + 37;
        for _j in 0..36 {
            if i != 0 {
                test.push(k1);
                test.push(k2);
                test.push(k1 + 1);
            }
            if i != 17 {
                test.push(k1 + 1);
                test.push(k2);
                test.push(k2 + 1);
            }
            k1 += 1;
            k2 += 1;
        }
    }
    assert!(test == indices);
}

#[test]
fn test_vertex_counts() {
    assert_eq!(sphere_grid(18, 36).len(), 19 * 37);
    assert_eq!(sphere_grid(2, 4).len(), 15);
    assert_eq!(sphere_grid(1, 1).len(), 4);
    assert_eq!(sphere_grid(0, 0).len(), 1);
    assert_eq!(sphere_grid(5, 1).len(), 12);
}

#[test]
fn test_two_by_four_tessellation() {
    let grid = sphere_grid(2, 4);
    assert_eq!(grid.len(), 15);

    let indices = sphere_indices(2, 4);
    assert_eq!(indices.len(), 24);
    // Row 0 skips the degenerate north-pole triangle of each cell; row 1
    // skips the degenerate south-pole triangle. Twelve indices each.
    let expected: Vec<u32> = vec![
        1, 5, 6, 2, 6, 7, 3, 7, 8, 4, 8, 9, // row 0, lower triangles
        5, 10, 6, 6, 11, 7, 7, 12, 8, 8, 13, 9, // row 1, upper triangles
    ];
    assert_eq!(indices, expected);
    for &ix in &indices {
        assert!(ix < 15);
    }
}

#[test]
fn test_triangle_indices_pairwise_distinct() {
    for (stacks, sectors) in [(2u32, 4u32), (18, 36), (3, 3), (6, 12)] {
        let indices = sphere_indices(stacks, sectors);
        assert_eq!(indices.len() % 3, 0);
        for tri in indices.chunks(3) {
            assert_ne!(tri[0], tri[1]);
            assert_ne!(tri[0], tri[2]);
            assert_ne!(tri[1], tri[2]);
        }
    }
}

#[test]
fn test_indices_name_generated_vertices() {
    for (stacks, sectors) in [(2u32, 4u32), (18, 36), (1, 7), (4, 2)] {
        let count = sphere_grid(stacks, sectors).len() as u32;
        for ix in sphere_indices(stacks, sectors) {
            assert!(ix < count);
        }
    }
}

#[test]
fn test_grid_generation_order() {
    let grid = sphere_grid(2, 4);
    // Row by row from the north pole, west to east, seam duplicate last.
    assert_eq!((grid[0].stack, grid[0].sector), (0, 0));
    assert_eq!((grid[4].stack, grid[4].sector), (0, 4));
    assert_eq!((grid[5].stack, grid[5].sector), (1, 0));
    assert_eq!((grid[7].stack, grid[7].sector), (1, 2));
    assert_eq!((grid[14].stack, grid[14].sector), (2, 4));
}

#[test]
fn test_degenerate_tessellations_emit_no_triangles() {
    // A single stack touches both poles: every triangle degenerates.
    assert!(sphere_indices(1, 5).is_empty());
    // No sector cells at all.
    assert!(sphere_indices(0, 0).is_empty());
    assert!(sphere_indices(3, 0).is_empty());
}

#[test]
fn test_generate_couples_grid_and_indices() {
    let (grid, indices) = kartina::mesh::generate(18, 36);
    assert_eq!(grid.len(), 703);
    assert_eq!(indices, sphere_indices(18, 36));
    for ix in indices {
        assert!((ix as usize) < grid.len());
    }
}

#[test]
fn test_index_count_formula() {
    for (stacks, sectors) in [(2u32, 4u32), (18, 36), (3, 3), (5, 1)] {
        let indices = sphere_indices(stacks, sectors);
        assert_eq!(indices.len() as u64, 6 * sectors as u64 * (stacks as u64 - 1));
    }
}
