//! Tests of the dense grid storage and the gradient builders.

use rand::SeedableRng;

use lattice_noise::{
    CubeGradientBuilder1d, CubeGradientBuilder2d, GradientBuilder, GradientGrid, Grid2d, Grid3d,
    Lattice2, Lattice3, Noise, NoiseError, Perlin2d, Point2, Point3, RandomGradientBuilder2d,
    RandomGradientBuilder3d, FRAC_1_SQRT_2, ONE,
};

fn seeded(seed: u64) -> rand::rngs::StdRng {
    rand::rngs::StdRng::seed_from_u64(seed)
}

#[test]
fn grid2d_stores_row_major() {
    let data: Vec<i64> = vec![10, 11, 12, 20, 21, 22];
    let grid = Grid2d::with_data(3, 2, data).unwrap();
    assert_eq!(grid.width(), 3);
    assert_eq!(grid.height(), 2);
    assert_eq!(grid.size(), 6);
    assert_eq!(grid.index_from_coords((2, 1)), 5);
    assert_eq!(*grid.try_get(2, 1).unwrap(), 22);
    assert_eq!(*grid.try_get(0, 0).unwrap(), 10);
    assert_eq!(grid.try_get(3, 0).unwrap_err(), NoiseError::IndexOutOfRange);
    assert_eq!(grid.try_get(0, 2).unwrap_err(), NoiseError::IndexOutOfRange);
    assert_eq!(grid.data()[4], 21);
}

#[test]
fn grid2d_rejects_mismatched_data() {
    let data: Vec<i64> = vec![1, 2, 3];
    assert_eq!(
        Grid2d::with_data(2, 2, data).unwrap_err(),
        NoiseError::InvalidRange
    );
}

#[test]
fn grid3d_stores_row_major() {
    let data: Vec<i64> = (0..24).collect();
    let grid = Grid3d::with_data(2, 3, 4, data).unwrap();
    assert_eq!(grid.width(), 2);
    assert_eq!(grid.height(), 3);
    assert_eq!(grid.depth(), 4);
    assert_eq!(grid.size(), 24);
    // index = x + y * w + z * w * h
    assert_eq!(grid.index_from_coords((1, 2, 3)), 1 + 2 * 2 + 3 * 6);
    assert_eq!(*grid.try_get(1, 2, 3).unwrap(), 23);
    assert_eq!(
        grid.try_get(2, 0, 0).unwrap_err(),
        NoiseError::IndexOutOfRange
    );
}

#[test]
fn default_filled_grids_have_the_right_size() {
    let grid2: Grid2d<i64> = Grid2d::new(4, 5);
    assert_eq!(grid2.size(), 20);
    let grid3: Grid3d<i64> = Grid3d::new(2, 3, 4);
    assert_eq!(grid3.size(), 24);
}

#[test]
fn cube_builders_produce_unit_gradients() {
    let mut b1 = CubeGradientBuilder1d::new(seeded(1));
    for _ in 0..16 {
        let g: i64 = b1.make_gradient();
        assert!(g == ONE || g == -ONE);
    }
    let mut b2 = CubeGradientBuilder2d::new(seeded(2));
    for _ in 0..16 {
        let g: Point2 = b2.make_gradient();
        assert_eq!(g.x.abs(), FRAC_1_SQRT_2);
        assert_eq!(g.y.abs(), FRAC_1_SQRT_2);
    }
}

#[test]
fn random_builders_produce_near_unit_directions() {
    let mut b2 = RandomGradientBuilder2d::new(seeded(3));
    for _ in 0..32 {
        let g: Point2 = b2.make_gradient();
        assert!(-ONE <= g.x && g.x <= ONE);
        assert!(-ONE <= g.y && g.y <= ONE);
        let norm2 = g.x * g.x + g.y * g.y;
        // The direction is normalized by an integer square root, so its
        // squared length stays within a few units of ONE squared.
        assert!(norm2 >= (ONE - 3) * (ONE - 3));
        assert!(norm2 <= (ONE + 2) * (ONE + 2));
    }
    let mut b3 = RandomGradientBuilder3d::new(seeded(4));
    for _ in 0..32 {
        let g: Point3 = b3.make_gradient();
        let norm2 = g.x * g.x + g.y * g.y + g.z * g.z;
        assert!(norm2 >= (ONE - 4) * (ONE - 4));
        assert!(norm2 <= (ONE + 2) * (ONE + 2));
    }
}

#[test]
fn grids_back_bounded_noise() {
    let mut builder = CubeGradientBuilder2d::new(seeded(5));
    let grid: Grid2d<Point2> =
        Grid2d::build_grid(Lattice2 { x: 5, y: 5 }, &mut builder).unwrap();
    let noise = Perlin2d::from_grid(grid).unwrap();
    assert_eq!(
        noise.frequency(),
        Point2 { x: 4 * ONE, y: 4 * ONE }
    );
    assert_eq!(noise.value_at(Point2 { x: 0, y: 0 }), 0);
    let v = noise.value_at(Point2 { x: ONE / 3, y: ONE / 7 });
    assert!(-(2 * ONE) <= v && v <= 2 * ONE);
}

#[test]
fn gradient_grid_3d_builds_from_a_builder() {
    let mut builder = RandomGradientBuilder3d::new(seeded(6));
    let grid: Grid3d<Point3> =
        Grid3d::build_grid(Lattice3 { x: 3, y: 3, z: 3 }, &mut builder).unwrap();
    assert_eq!(grid.size(), 27);
    let direct = Grid3d::<Point3>::build_gradient_grid(3, 3, 3, &mut builder).unwrap();
    assert_eq!(direct.size(), 27);
}

#[test]
fn error_messages_name_the_condition() {
    assert!(NoiseError::ZeroSize.message().contains("zero"));
    assert!(NoiseError::InvalidRange.message().contains("bound"));
    assert!(NoiseError::FrequencyTooLarge.message().contains("frequency"));
    assert!(NoiseError::IndexOutOfRange.message().contains("outside"));
    assert!(NoiseError::EmptyOctaves.message().contains("empty"));
}
