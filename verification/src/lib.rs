//! Coherent procedural noise: gradient noise and its derivatives.
//!
//! The crate is a composable algebra over scalar fields indexed by one-,
//! two- or three-dimensional fixed-point coordinates: a gradient-noise
//! primitive evaluated over a permuted gradient lattice, an octave-summation
//! combinator for fractal Brownian motion, and a library of adapters
//! (arithmetic combination, selection and blending, input- and output-space
//! transforms, dimension extension and slicing) that compose noise sources
//! into new noise sources. All values are fixed-point integers scaled by
//! [`ONE`]; every evaluator's behavior is pinned by its specification.

mod adapter;
mod error;
mod fixed;
mod gradient;
mod grid;
mod gridless;
mod interpolate;
mod noise;
mod octave;
mod perlin;
mod point;
mod random;

pub use adapter::{
    BlendFn, LinearBlend, Hermite3rdOrderBlend, Hermite5thOrderBlend, linear_blend,
    hermite_3rd_order_blend, hermite_5th_order_blend, spec_linear_blend,
    spec_hermite_3rd_order_blend, spec_hermite_5th_order_blend,
};
pub use adapter::{
    Add, Multiply, Combine, Select, Blend, Combiner, MaxCombiner, lemma_add_law,
    lemma_select_boundary,
};
pub use adapter::{
    Extension2d, Extension3d, lemma_extension2d_ignores_trailing_axis,
    lemma_extension3d_ignores_trailing_axis,
};
pub use adapter::{Clamp, Filter, FilterKind, spec_filter_value, lemma_clamp_law};
pub use adapter::{Constant, FunctionValue, ValueFn, LinearValue};
pub use adapter::{ClampInput, ScaleInput, ShiftInput, WrapInput};
pub use adapter::{Scale, WithRange, spec_with_range};
pub use adapter::{Slice1d, Slice2d};
pub use adapter::{Negate, Transform, TransformFn, BiasTransform, lemma_negate_law};
pub use error::NoiseError;
pub use fixed::{ONE, SQRT_2, FRAC_1_SQRT_2};
pub use gradient::{
    CubeGradientBuilder1d, CubeGradientBuilder2d, GradientBuilder, GradientFactory,
    GradientProvider, GradientTable, GradientVector, Lattice2, Lattice3, LatticeIndex,
    PermutationGradientFactory, PermutationTable, PermutedGradientTable, lemma_permutation_is_bijection,
    RandomGradientBuilder1d, RandomGradientBuilder2d, RandomGradientBuilder3d,
    cube_gradient_table_2d, spec_square_norm_2d, spec_square_norm_3d,
};
pub use grid::{GradientGrid, Grid2d, Grid3d};
pub use gridless::{BytePermutationTable, GridlessPerlin2d, hash_2d, get_2d_gradient, spec_gradient_2d, lemma_gridless_table_holds_every_byte};
pub use interpolate::{
    InterpolationFunction, LinearInterpolator, Hermite3rdOrderInterpolator,
    Hermite5thOrderInterpolator,
};
pub use noise::{Noise, lemma_value_at_deterministic};
pub use octave::{
    NoiseFactory, Octave, OctaveNoise, amps_prefix_sum, build_geometric_fractal_noise,
    lemma_empty_octaves_value_zero, lemma_fractal_sum_preserves_range, lemma_octaves_sum_bounded, octaves_amplitude_sum, octaves_ok, octaves_sum, octaves_wf,
    spec_frequency_steps_ok, spec_geometric_weight, spec_normalized_amplitude, spec_weight_sum,
};
pub use perlin::{
    MAX_FREQUENCY, Perlin1d, Perlin2d, Perlin3d, lemma_perlin1d_lattice_zero,
    lemma_perlin1d_value_bounded, lemma_perlin2d_lattice_zero, lemma_perlin2d_value_bounded,
    lemma_perlin3d_lattice_zero, lemma_perlin3d_value_bounded, spec_corner, spec_dot2, spec_dot3,
    spec_offset,
};
pub use point::{Point2, Point3, PointUtil};
