//! Tests of the adapter library and the octave machinery.

use rand::SeedableRng;

use lattice_noise::{
    cube_gradient_table_2d, hermite_3rd_order_blend,
    hermite_5th_order_blend, linear_blend, Add, BiasTransform, Blend, Clamp, ClampInput, Combine,
    Constant, Extension2d, Extension3d, Filter, FilterKind, FunctionValue, LinearBlend,
    LinearValue, MaxCombiner, Multiply, Negate, Noise, NoiseError, Octave, OctaveNoise,
    PermutationGradientFactory, PermutationTable, Perlin1d, Perlin2d, Point2, Point3, Scale,
    ScaleInput, Select, ShiftInput, Slice1d, Slice2d, Transform, WithRange, WrapInput, ONE,
};

fn seeded(seed: u64) -> rand::rngs::StdRng {
    rand::rngs::StdRng::seed_from_u64(seed)
}

/// A one-dimensional source computing twice its coordinate.
fn doubling() -> FunctionValue<LinearValue> {
    FunctionValue::new(LinearValue { slope: 2 * ONE })
}

#[test]
fn constant_value_everywhere() {
    let c = Constant::new(3 * ONE);
    assert_eq!(Noise::<i64>::value_at(&c, 123), 3 * ONE);
    assert_eq!(
        Noise::<Point2>::value_at(&c, Point2 { x: -5 * ONE, y: 7 }),
        3 * ONE
    );
    assert_eq!(Noise::<i64>::frequency(&c), ONE);
    assert_eq!(c.value(), 3 * ONE);
}

#[test]
fn function_value_delegates_to_the_function() {
    let f = doubling();
    assert_eq!(f.value_at(3 * ONE), 6 * ONE);
    assert_eq!(f.value_at(-ONE), -2 * ONE);
}

#[test]
fn extension_ignores_the_trailing_axis() {
    let extended = Extension2d::new(doubling());
    assert_eq!(
        extended.value_at(Point2 { x: 3 * ONE, y: 999 * ONE }),
        6 * ONE
    );
    assert_eq!(
        extended.value_at(Point2 { x: 3 * ONE, y: -4 * ONE }),
        6 * ONE
    );
    let doubly = Extension3d::new(Extension2d::new(doubling()));
    assert_eq!(
        doubly.value_at(Point3 { x: 3 * ONE, y: 1, z: 2 }),
        6 * ONE
    );
}

#[test]
fn slices_fix_the_last_axis() {
    let sliced = Slice1d::new(Extension2d::new(doubling()), 5 * ONE);
    assert_eq!(sliced.value_at(2 * ONE), 4 * ONE);
    assert_eq!(sliced.slice_height(), 5 * ONE);
    let sliced2 = Slice2d::new(Extension3d::new(Extension2d::new(doubling())), 9 * ONE);
    assert_eq!(
        sliced2.value_at(Point2 { x: 2 * ONE, y: 8 * ONE }),
        4 * ONE
    );
}

#[test]
fn add_and_multiply_combine_pointwise() {
    let sum = Add::new(Constant::new(3 * ONE), Constant::new(4 * ONE));
    assert_eq!(Noise::<i64>::value_at(&sum, 0), 7 * ONE);
    let product = Multiply::new(Constant::new(3 * ONE), Constant::new(-2 * ONE));
    assert_eq!(Noise::<i64>::value_at(&product, 0), -6 * ONE);
    let larger = Combine::new(Constant::new(ONE), Constant::new(2 * ONE), MaxCombiner);
    assert_eq!(Noise::<i64>::value_at(&larger, 0), 2 * ONE);
}

#[test]
fn add_of_extended_sources_follows_the_parts() {
    let left = Extension2d::new(doubling());
    let right = Constant::new(ONE / 2);
    let sum = Add::new(left, right);
    let p = Point2 { x: ONE, y: 0 };
    assert_eq!(sum.value_at(p), 2 * ONE + ONE / 2);
}

#[test]
fn negate_flips_the_sign() {
    let neg = Negate::new(Constant::new(3 * ONE));
    assert_eq!(Noise::<i64>::value_at(&neg, 17), -3 * ONE);
}

#[test]
fn select_takes_the_right_source_on_the_boundary() {
    let criteria = Constant::new(ONE);
    let select = Select::new(Constant::new(10 * ONE), Constant::new(20 * ONE), criteria, ONE);
    // Criteria equals the threshold exactly: strictly-greater semantics take
    // the right source.
    assert_eq!(Noise::<i64>::value_at(&select, 0), 20 * ONE);
    let select_above = Select::new(
        Constant::new(10 * ONE),
        Constant::new(20 * ONE),
        Constant::new(ONE + 1),
        ONE,
    );
    assert_eq!(Noise::<i64>::value_at(&select_above, 0), 10 * ONE);
}

#[test]
fn blend_follows_the_criteria() {
    let blend = Blend::new(
        Constant::new(0),
        Constant::new(ONE),
        Constant::new(ONE / 2),
        LinearBlend,
    );
    assert_eq!(Noise::<i64>::value_at(&blend, 0), ONE / 2);
}

#[test]
fn blend_helpers_match_their_formulas() {
    assert_eq!(linear_blend(0, ONE, ONE / 2), ONE / 2);
    assert_eq!(linear_blend(0, ONE, 2 * ONE), ONE);
    assert_eq!(linear_blend(0, ONE, -ONE), 0);
    assert_eq!(hermite_3rd_order_blend(0, ONE, ONE / 2), ONE / 2);
    assert_eq!(hermite_5th_order_blend(0, ONE, ONE / 2), ONE / 2);
    // smoothstep(1/4) = 5/32.
    assert_eq!(
        hermite_3rd_order_blend(0, ONE, ONE / 4),
        5 * ONE / 32
    );
}

#[test]
fn scale_scales_the_output() {
    let scaled = Scale::new(Constant::new(3 * ONE), ONE / 2);
    assert_eq!(Noise::<i64>::value_at(&scaled, 0), 3 * ONE / 2);
    assert_eq!(scaled.amplitude(), ONE / 2);
}

#[test]
fn with_range_remaps_the_midpoint() {
    let remapped = WithRange::new(Constant::new(0), 10 * ONE, 20 * ONE).unwrap();
    // A constant zero is the midpoint of [-1, 1], so it maps to 15.
    assert_eq!(Noise::<i64>::value_at(&remapped, 12345), 15 * ONE);
    assert_eq!(remapped.min(), 10 * ONE);
    assert_eq!(remapped.max(), 20 * ONE);
    let bad: Result<WithRange<Constant>, NoiseError> =
        WithRange::new(Constant::new(0), ONE, ONE);
    assert_eq!(bad.unwrap_err(), NoiseError::InvalidRange);
}

#[test]
fn clamp_bounds_the_output() {
    let clamped = Clamp::new(Constant::new(5 * ONE), -ONE, ONE).unwrap();
    assert_eq!(Noise::<i64>::value_at(&clamped, 0), ONE);
    let low = Clamp::new(Constant::new(-5 * ONE), -ONE, ONE).unwrap();
    assert_eq!(Noise::<i64>::value_at(&low, 0), -ONE);
    let pass = Clamp::new(Constant::new(ONE / 2), -ONE, ONE).unwrap();
    assert_eq!(Noise::<i64>::value_at(&pass, 0), ONE / 2);
    let bad: Result<Clamp<Constant>, NoiseError> = Clamp::new(Constant::new(0), ONE, -ONE);
    assert_eq!(bad.unwrap_err(), NoiseError::InvalidRange);
}

#[test]
fn filter_passes_and_flattens() {
    // Low-pass: below the window the value passes, above it flattens to 0.
    let low = Filter::new(Constant::new(ONE / 4), ONE / 2, ONE, FilterKind::LowPass, LinearBlend)
        .unwrap();
    assert_eq!(Noise::<i64>::value_at(&low, 0), ONE / 4);
    let flattened =
        Filter::new(Constant::new(2 * ONE), ONE / 2, ONE, FilterKind::LowPass, LinearBlend)
            .unwrap();
    assert_eq!(Noise::<i64>::value_at(&flattened, 0), 0);
    // Inside the window the baselines are blended: value 3/4 in [1/2, 1]
    // gives t = 1/2, blending 3/4 toward 0.
    let blended =
        Filter::new(Constant::new(3 * ONE / 4), ONE / 2, ONE, FilterKind::LowPass, LinearBlend)
            .unwrap();
    assert_eq!(Noise::<i64>::value_at(&blended, 0), 3 * ONE / 8);
    // High-pass: below the window the value flattens to 0.
    let high =
        Filter::new(Constant::new(ONE / 4), ONE / 2, ONE, FilterKind::HighPass, LinearBlend)
            .unwrap();
    assert_eq!(Noise::<i64>::value_at(&high, 0), 0);
    let bad: Result<Filter<Constant, LinearBlend>, NoiseError> =
        Filter::new(Constant::new(0), ONE, ONE, FilterKind::LowPass, LinearBlend);
    assert_eq!(bad.unwrap_err(), NoiseError::InvalidRange);
}

#[test]
fn transform_applies_pointwise() {
    let biased = Transform::new(Constant::new(ONE), BiasTransform { offset: ONE / 4 });
    assert_eq!(Noise::<i64>::value_at(&biased, 0), 5 * ONE / 4);
}

#[test]
fn input_transforms_adjust_the_coordinate() {
    let scaled = ScaleInput::new(doubling(), 3 * ONE);
    // The coordinate is scaled before evaluation: 2 * (3 * 2) = 12.
    assert_eq!(scaled.value_at(2 * ONE), 12 * ONE);
    let shifted = ShiftInput::new(doubling(), ONE);
    assert_eq!(shifted.value_at(2 * ONE), 6 * ONE);
    let clamped = ClampInput::new(doubling(), 0, 4 * ONE).unwrap();
    assert_eq!(clamped.value_at(9 * ONE), 8 * ONE);
    assert_eq!(clamped.value_at(-ONE), 0);
    let wrapped = WrapInput::new(doubling(), 0, 2 * ONE).unwrap();
    // 5.5 wraps into [0, 2) as 1.5.
    assert_eq!(wrapped.value_at(5 * ONE + ONE / 2), 3 * ONE);
    // Negative coordinates wrap upward: -0.5 becomes 1.5.
    assert_eq!(wrapped.value_at(-ONE / 2), 3 * ONE);
    let bad = ClampInput::new(doubling(), 4 * ONE, 0).unwrap_err();
    assert_eq!(bad, NoiseError::InvalidRange);
}

#[test]
fn octaves_weigh_and_sum() {
    let octave = Octave::new(Constant::new(ONE), ONE / 2);
    assert_eq!(Noise::<i64>::value_at(&octave, 0), ONE / 2);
    assert_eq!(octave.amplitude(), ONE / 2);
    let stack = OctaveNoise::from_octaves(vec![
        Octave::new(Constant::new(ONE), ONE / 2),
        Octave::new(Constant::new(ONE), ONE / 4),
    ]);
    assert_eq!(Noise::<i64>::value_at(&stack, 0), 3 * ONE / 4);
    assert_eq!(stack.num_octaves(), 2);
    assert_eq!(Noise::<i64>::frequency(&stack), ONE);
}

#[test]
fn empty_octave_noise_sums_to_zero_and_has_no_frequency() {
    let empty: OctaveNoise<Constant> = OctaveNoise::new();
    assert_eq!(Noise::<i64>::value_at(&empty, 5), 0);
    let err: Result<i64, NoiseError> = empty.try_frequency();
    assert_eq!(err.unwrap_err(), NoiseError::EmptyOctaves);
}

fn one_dimensional_fractal(
    num_octaves: u32,
    persistence: i64,
    seed: u64,
) -> lattice_noise::OctaveNoise<
    Perlin1d<
        lattice_noise::PermutedGradientTable<i64>,
        lattice_noise::Hermite5thOrderInterpolator,
    >,
> {
    let mut rng = seeded(seed);
    let perm = PermutationTable::new(&mut rng, 256).unwrap();
    let grads =
        lattice_noise::GradientTable::from_gradients(vec![ONE, -ONE, ONE, -ONE]).unwrap();
    let table = lattice_noise::PermutedGradientTable::from_parts(perm, grads).unwrap();
    let factory = PermutationGradientFactory::new(table);
    Perlin1d::build_geometric_octaves(ONE, num_octaves, 2 * ONE, persistence, factory)
}

#[test]
fn fractal_amplitudes_sum_to_one() {
    // Persistence 2, four octaves: weights 1/2, 1/4, 1/8, 1/16.
    let fractal = one_dimensional_fractal(4, 2 * ONE, 51);
    assert_eq!(fractal.num_octaves(), 4);
    let amps: Vec<i64> = fractal.octaves().iter().map(|o| o.amplitude()).collect();
    assert_eq!(amps.iter().sum::<i64>(), ONE);
    // Tail amplitudes follow the normalized inverse powers exactly; the
    // head takes the rounding remainder.
    assert_eq!(amps[1], 17476);
    assert_eq!(amps[2], 8738);
    assert_eq!(amps[3], 4369);
    assert_eq!(amps[0], ONE - 17476 - 8738 - 4369);
    for &a in &amps {
        assert!(0 <= a && a <= ONE);
    }
}

#[test]
fn fractal_amplitudes_sum_to_one_for_other_parameters() {
    for (n, persistence) in [(1u32, 2 * ONE), (3, 3 * ONE), (7, ONE + ONE / 2), (16, 2 * ONE)] {
        let fractal = one_dimensional_fractal(n, persistence, 52);
        let total: i64 = fractal.octaves().iter().map(|o| o.amplitude()).sum();
        assert_eq!(total, ONE);
    }
}

#[test]
fn perlin_fractal_builder_normalizes_and_evaluates() {
    let mut rng = seeded(31);
    let table = cube_gradient_table_2d(&mut rng).unwrap();
    let factory = PermutationGradientFactory::new(table);
    let fractal = Perlin2d::build_geometric_octaves(
        Point2 { x: ONE, y: ONE },
        4,
        Point2 { x: 2 * ONE, y: 2 * ONE },
        2 * ONE,
        factory,
    );
    assert_eq!(fractal.num_octaves(), 4);
    let total: i64 = fractal.octaves().iter().map(|o| o.amplitude()).sum();
    assert_eq!(total, ONE);
    // A fractal sum of unit-bounded octaves with amplitudes summing to one
    // stays within the single-octave range (plus rounding slack).
    let tolerance = 64;
    for i in 0..32i64 {
        for j in 0..32i64 {
            let p = Point2 {
                x: i * ONE / 32,
                y: j * ONE / 32,
            };
            let v = fractal.value_at(p);
            assert!(-(ONE + tolerance) <= v && v <= ONE + tolerance);
        }
    }
}

#[test]
fn deep_composition_evaluates_through_one_interface() {
    let mut rng = seeded(41);
    let table = cube_gradient_table_2d(&mut rng).unwrap();
    let noise = Perlin2d::new(Point2 { x: 4 * ONE, y: 4 * ONE }, table).unwrap();
    let composed = WithRange::new(
        Clamp::new(Scale::new(noise, ONE / 2), -ONE, ONE).unwrap(),
        0,
        ONE,
    )
    .unwrap();
    let v = composed.value_at(Point2 { x: ONE / 3, y: ONE / 5 });
    assert!(0 <= v && v <= ONE);
}
