//! Tests of the base evaluators: permutation tables, gradient tables, the
//! lattice hash and the gradient-noise cores.

use rand::SeedableRng;

use lattice_noise::{
    cube_gradient_table_2d, GradientBuilder, GradientFactory, GradientTable, GridlessPerlin2d,
    Lattice2, Noise, NoiseError, PermutationGradientFactory, PermutationTable,
    PermutedGradientTable, Perlin1d, Perlin2d, Perlin3d, Point2, Point3,
    RandomGradientBuilder3d, ONE,
};

fn seeded(seed: u64) -> rand::rngs::StdRng {
    rand::rngs::StdRng::seed_from_u64(seed)
}

#[test]
fn permutation_table_rejects_zero_size() {
    let mut rng = seeded(1);
    let result = PermutationTable::new(&mut rng, 0);
    assert_eq!(result.unwrap_err(), NoiseError::ZeroSize);
}

#[test]
fn permutation_table_is_a_bijection() {
    let mut rng = seeded(7);
    let table = PermutationTable::new(&mut rng, 8).unwrap();
    assert_eq!(table.len(), 8);
    let mut seen = [false; 8];
    for &v in table.values() {
        assert!(v < 8);
        assert!(!seen[v as usize]);
        seen[v as usize] = true;
    }
    assert!(seen.iter().all(|&s| s));
}

#[test]
fn permutation_table_is_deterministic_for_a_seed() {
    let mut rng_a = seeded(42);
    let table_a = PermutationTable::new(&mut rng_a, 8).unwrap();
    let mut rng_b = seeded(42);
    let table_b = PermutationTable::new(&mut rng_b, 8).unwrap();
    assert_eq!(table_a.values(), table_b.values());
    // The exact shuffle of the standard generator seeded with 42.
    assert_eq!(table_a.values(), &[6u32, 2, 5, 0, 4, 7, 3, 1]);
}

#[test]
fn gradient_table_checks_contents() {
    let empty: Vec<i64> = Vec::new();
    assert_eq!(
        GradientTable::from_gradients(empty).unwrap_err(),
        NoiseError::ZeroSize
    );
    let out_of_range: Vec<i64> = vec![ONE, 2 * ONE];
    assert_eq!(
        GradientTable::from_gradients(out_of_range).unwrap_err(),
        NoiseError::InvalidRange
    );
    let good: Vec<i64> = vec![ONE, -ONE];
    let table = GradientTable::from_gradients(good).unwrap();
    assert_eq!(table.len(), 2);
    assert!(!table.is_empty());
    assert_eq!(table.get(5), -ONE);
}

#[test]
fn permuted_table_requires_power_of_two() {
    let mut rng = seeded(3);
    let perm = PermutationTable::new(&mut rng, 12).unwrap();
    let grads = GradientTable::from_gradients(vec![ONE, -ONE]).unwrap();
    assert_eq!(
        PermutedGradientTable::from_parts(perm, grads).unwrap_err(),
        NoiseError::InvalidRange
    );
    let perm8 = PermutationTable::new(&mut rng, 8).unwrap();
    let grads2 = GradientTable::from_gradients(vec![ONE, -ONE]).unwrap();
    let table = PermutedGradientTable::from_parts(perm8, grads2).unwrap();
    assert_eq!(table.permutation_table().len(), 8);
    assert_eq!(table.gradient_table().len(), 2);
}

#[test]
fn adjust_size_rounds_up_to_powers_of_two() {
    assert_eq!(PermutedGradientTable::<i64>::adjust_size(1), 1);
    assert_eq!(PermutedGradientTable::<i64>::adjust_size(5), 8);
    assert_eq!(PermutedGradientTable::<i64>::adjust_size(256), 256);
    assert_eq!(PermutedGradientTable::<i64>::adjust_size(257), 512);
}

#[test]
fn lattice_hash_wraps_and_lands_in_table() {
    let mut rng = seeded(11);
    let perm = PermutationTable::new(&mut rng, 8).unwrap();
    let grads = GradientTable::from_gradients(vec![ONE, -ONE, ONE, -ONE]).unwrap();
    let table = PermutedGradientTable::from_parts(perm, grads).unwrap();
    // Wrapping by the bitmask: coordinates 8 apart hash identically.
    assert_eq!(table.index_1d(3), table.index_1d(11));
    assert_eq!(
        table.index_2d(Lattice2 { x: 1, y: 2 }),
        table.index_2d(Lattice2 { x: 9, y: 10 })
    );
    assert!((table.index_1d(5) as usize) < 8);
}

#[test]
fn one_dimensional_noise_vanishes_on_the_lattice() {
    let mut rng = seeded(5);
    let perm = PermutationTable::new(&mut rng, 8).unwrap();
    let grads = GradientTable::from_gradients(vec![ONE, -ONE, ONE, -ONE]).unwrap();
    let table = PermutedGradientTable::from_parts(perm, grads).unwrap();
    let noise = Perlin1d::new(4 * ONE, table).unwrap();
    // Frequency 4: coordinates 0 and 1/4 land exactly on lattice points.
    assert_eq!(noise.value_at(0), 0);
    assert_eq!(noise.value_at(ONE / 4), 0);
}

#[test]
fn one_dimensional_noise_stays_in_range() {
    let mut rng = seeded(9);
    let perm = PermutationTable::new(&mut rng, 256).unwrap();
    let grads = GradientTable::from_gradients(vec![ONE, -ONE, ONE, -ONE, ONE]).unwrap();
    let table = PermutedGradientTable::from_parts(perm, grads).unwrap();
    let noise = Perlin1d::new(7 * ONE, table).unwrap();
    let tolerance = 64;
    for i in 0..2000i64 {
        let x = i * ONE / 2000;
        let v = noise.value_at(x);
        assert!(-(ONE + tolerance) <= v && v <= ONE + tolerance);
    }
}

#[test]
fn two_dimensional_noise_stays_in_range_and_vanishes_on_the_lattice() {
    let mut rng = seeded(13);
    let table = cube_gradient_table_2d(&mut rng).unwrap();
    let noise = Perlin2d::new(Point2 { x: 4 * ONE, y: 4 * ONE }, table).unwrap();
    let tolerance = 64;
    for i in 0..64i64 {
        for j in 0..64i64 {
            let p = Point2 {
                x: i * ONE / 64,
                y: j * ONE / 64,
            };
            let v = noise.value_at(p);
            assert!(-(ONE + tolerance) <= v && v <= ONE + tolerance);
        }
    }
    // Multiples of 1/4 are lattice points at frequency 4.
    assert_eq!(
        noise.value_at(Point2 { x: ONE / 4, y: ONE / 2 }),
        0
    );
    assert_eq!(noise.value_at(Point2 { x: 0, y: 0 }), 0);
}

#[test]
fn evaluation_is_deterministic() {
    let mut rng = seeded(21);
    let table = cube_gradient_table_2d(&mut rng).unwrap();
    let noise = Perlin2d::new(Point2 { x: 8 * ONE, y: 8 * ONE }, table).unwrap();
    let p = Point2 {
        x: 21845,
        y: 49152,
    };
    assert_eq!(noise.value_at(p), noise.value_at(p));
}

#[test]
fn frequency_beyond_a_dense_grid_is_rejected() {
    // A dense one-dimensional grid of 5 vertices bounds 4 cells.
    let grid: Vec<i64> = vec![ONE, -ONE, ONE, -ONE, ONE];
    let err = Perlin1d::new(5 * ONE, grid).unwrap_err();
    assert_eq!(err, NoiseError::FrequencyTooLarge);
    let grid2: Vec<i64> = vec![ONE, -ONE, ONE, -ONE, ONE];
    assert!(Perlin1d::new(4 * ONE, grid2).is_ok());
}

#[test]
fn dense_grid_noise_from_grid() {
    let grid: Vec<i64> = vec![ONE, -ONE, ONE, -ONE, ONE];
    let noise = Perlin1d::from_grid(grid).unwrap();
    assert_eq!(noise.frequency(), 4 * ONE);
    assert_eq!(noise.value_at(0), 0);
    assert_eq!(noise.value_at(ONE / 4), 0);
}

#[test]
fn gridless_noise_vanishes_on_the_lattice() {
    let noise = GridlessPerlin2d::with_seed(77);
    assert_eq!(noise.value_at(Point2 { x: 2 * ONE, y: 3 * ONE }), 0);
    let v = noise.value_at(Point2 {
        x: 2 * ONE + ONE / 2,
        y: 3 * ONE + ONE / 4,
    });
    assert!(-(2 * ONE) <= v && v <= 2 * ONE);
}

#[test]
fn gridless_hash_masks_low_bytes() {
    assert_eq!(lattice_noise::hash_2d(3, 258), 3 ^ 2);
    assert_eq!(lattice_noise::hash_2d(256, 0), 0);
    assert!(lattice_noise::hash_2d(511, 511) < 256);
    let g = lattice_noise::get_2d_gradient(0);
    assert_eq!(g, Point2 { x: ONE, y: 0 });
    let g8 = lattice_noise::get_2d_gradient(8);
    assert_eq!(g8.x, g8.y);
}

#[test]
fn three_dimensional_noise_stays_in_range_and_vanishes_on_the_lattice() {
    let mut builder = RandomGradientBuilder3d::new(seeded(17));
    let mut gradients: Vec<Point3> = Vec::new();
    for _ in 0..16 {
        gradients.push(builder.make_gradient());
    }
    let mut rng = seeded(18);
    let perm = PermutationTable::new(&mut rng, 16).unwrap();
    let grads = GradientTable::from_gradients(gradients).unwrap();
    let table = PermutedGradientTable::from_parts(perm, grads).unwrap();
    let noise = Perlin3d::new(
        Point3 { x: 2 * ONE, y: 2 * ONE, z: 2 * ONE },
        table,
    )
    .unwrap();
    assert_eq!(
        noise.value_at(Point3 { x: 0, y: ONE / 2, z: ONE / 2 }),
        0
    );
    let tolerance = 64;
    for i in 0..12i64 {
        for j in 0..12i64 {
            for k in 0..12i64 {
                let p = Point3 {
                    x: i * ONE / 12,
                    y: j * ONE / 12,
                    z: k * ONE / 12,
                };
                let v = noise.value_at(p);
                assert!(-(ONE + tolerance) <= v && v <= ONE + tolerance);
            }
        }
    }
}

#[test]
fn frequency_and_kernel_can_be_exchanged() {
    let mut rng = seeded(23);
    let perm = PermutationTable::new(&mut rng, 8).unwrap();
    let grads = GradientTable::from_gradients(vec![ONE, -ONE]).unwrap();
    let table = PermutedGradientTable::from_parts(perm, grads).unwrap();
    let noise = Perlin1d::new(2 * ONE, table).unwrap();
    let faster = noise.with_frequency(8 * ONE).unwrap();
    assert_eq!(faster.frequency(), 8 * ONE);
    let linear = faster.with_interpolator(lattice_noise::LinearInterpolator::new());
    assert_eq!(linear.frequency(), 8 * ONE);
    assert_eq!(linear.value_at(0), 0);
}

#[test]
fn permutation_table_duplicate_copies_the_contents() {
    let mut rng = seeded(29);
    let table = PermutationTable::new(&mut rng, 16).unwrap();
    let copy = table.duplicate();
    assert_eq!(table.values(), copy.values());
}

#[test]
fn gridless_byte_table_holds_every_byte() {
    let mut rng = seeded(37);
    let table = lattice_noise::BytePermutationTable::new(&mut rng);
    assert_eq!(table.len(), 256);
    let mut counts = [0u32; 255];
    for i in 0..256usize {
        let b = table.get(i);
        assert!(b < 255);
        counts[b as usize] += 1;
    }
    // The bytes are a permutation of 0..256 reduced modulo 255: zero
    // appears twice (for the values 0 and 255), every other byte once.
    assert_eq!(counts[0], 2);
    for v in 1..255usize {
        assert_eq!(counts[v], 1);
    }
    let gridless = GridlessPerlin2d::with_seed(91);
    assert_eq!(gridless.permutation_table().len(), 256);
}

#[test]
fn permutation_resize_picks_the_least_power_of_two() {
    let mut rng = seeded(43);
    let perm = PermutationTable::new(&mut rng, 8).unwrap();
    let grads = GradientTable::from_gradients(vec![ONE, -ONE]).unwrap();
    let table = PermutedGradientTable::from_parts(perm, grads).unwrap();
    let resized = table.with_permutation_table_size(&mut rng, 100).unwrap();
    assert_eq!(resized.permutation_table().len(), 128);
    assert_eq!(resized.gradient_table().len(), 2);
    let mut rng2 = seeded(44);
    let perm2 = PermutationTable::new(&mut rng2, 8).unwrap();
    let grads2 = GradientTable::from_gradients(vec![ONE, -ONE]).unwrap();
    let table2 = PermutedGradientTable::from_parts(perm2, grads2).unwrap();
    let kept = table2.with_permutation_table_size(&mut rng2, 64).unwrap();
    assert_eq!(kept.permutation_table().len(), 64);
}

#[test]
fn shared_table_factory_hands_out_copies() {
    let mut rng = seeded(47);
    let table = cube_gradient_table_2d(&mut rng).unwrap();
    let expected: Vec<u32> = table.permutation_table().values().to_vec();
    let mut factory = PermutationGradientFactory::new(table);
    let first: PermutedGradientTable<Point2> =
        GradientFactory::<Lattice2, Point2, _>::build(&mut factory, 0);
    let second: PermutedGradientTable<Point2> =
        GradientFactory::<Lattice2, Point2, _>::build(&mut factory, 7);
    assert_eq!(first.permutation_table().values(), expected.as_slice());
    assert_eq!(second.permutation_table().values(), expected.as_slice());
    assert_eq!(first.gradient_table().len(), 12);
    assert_eq!(second.gradient_table().len(), 12);
}

#[test]
fn from_grid_names_the_failing_condition() {
    // Too few vertices for one cell.
    let short: Vec<i64> = vec![ONE];
    assert_eq!(
        Perlin1d::from_grid(short).unwrap_err(),
        NoiseError::ZeroSize
    );
    // An out-of-range gradient with valid sizes.
    let wild: Vec<i64> = vec![ONE, 3 * ONE, -ONE];
    assert_eq!(
        Perlin1d::from_grid(wild).unwrap_err(),
        NoiseError::InvalidRange
    );
}
