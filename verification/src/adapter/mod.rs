//! The adapter library: generic wrapper types implementing the noise
//! evaluation interface over one or more inner sources, so that composition
//! stays closed under wrapping.

pub mod blend;
pub mod combine;
pub mod extend;
pub mod filter;
pub mod generate;
pub mod input;
pub mod scale;
pub mod slice;
pub mod transform;

pub use blend::{
    BlendFn, LinearBlend, Hermite3rdOrderBlend, Hermite5thOrderBlend, linear_blend,
    hermite_3rd_order_blend, hermite_5th_order_blend, spec_linear_blend,
    spec_hermite_3rd_order_blend, spec_hermite_5th_order_blend,
};
pub use combine::{
    Add, Multiply, Combine, Select, Blend, Combiner, MaxCombiner, lemma_add_law,
    lemma_select_boundary,
};
pub use extend::{
    Extension2d, Extension3d, lemma_extension2d_ignores_trailing_axis,
    lemma_extension3d_ignores_trailing_axis,
};
pub use filter::{Clamp, Filter, FilterKind, spec_filter_value, lemma_clamp_law};
pub use generate::{Constant, FunctionValue, ValueFn, LinearValue};
pub use input::{ClampInput, ScaleInput, ShiftInput, WrapInput};
pub use scale::{Scale, WithRange, spec_with_range};
pub use slice::{Slice1d, Slice2d};
pub use transform::{Negate, Transform, TransformFn, BiasTransform, lemma_negate_law};
