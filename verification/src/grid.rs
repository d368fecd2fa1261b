//! Dense grid storage.
//!
//! Row-major rectangular arrays used as backing store for dense gradient
//! grids: one gradient per lattice vertex, indexed directly with no hashing.
//! Out-of-range access is bounds-checked and reported as an error, never
//! read past the data.

use vstd::prelude::*;

verus! {

use vstd::arithmetic::mul::lemma_mul_inequality;
use crate::error::NoiseError;
use crate::gradient::{GradientBuilder, GradientVector, GradientProvider, Lattice2, Lattice3};

/// A dense rectangular grid builder: fills storage with one gradient per
/// cell of the given dimensions, in row-major order.
pub trait GradientGrid<G: GradientVector, D: Copy>: Sized {
    /// Whether storage of the given dimensions is addressable.
    spec fn spec_buildable(dimensions: D) -> bool;

    /// The built grid has exactly the given dimensions and holds one
    /// in-range gradient per cell.
    spec fn spec_built(dimensions: D, grid: Self) -> bool;

    /// Build a grid of the given dimensions from a gradient builder;
    /// unaddressable dimensions are the one failure.
    fn build_grid<B: GradientBuilder<G>>(dimensions: D, builder: &mut B) -> (result: Result<
        Self,
        NoiseError,
    >)
        ensures
            match result {
                Ok(g) => Self::spec_buildable(dimensions) && Self::spec_built(dimensions, g),
                Err(e) => {
                    &&& e == NoiseError::InvalidRange
                    &&& !Self::spec_buildable(dimensions)
                },
            },
    ;
}

/// A dense two-dimensional array in row-major order.
///
/// Invariant (`wf`): the data length equals `width * height`.
#[derive(Clone, Debug)]
pub struct Grid2d<T> {
    data: Vec<T>,
    width: u32,
    height: u32,
}

/// A dense three-dimensional array in row-major order.
///
/// Invariant (`wf`): the data length equals `width * height * depth`.
#[derive(Clone, Debug)]
pub struct Grid3d<T> {
    data: Vec<T>,
    width: u32,
    height: u32,
    depth: u32,
}

impl<T> View for Grid2d<T> {
    type V = Seq<T>;

    closed spec fn view(&self) -> Seq<T> {
        self.data@
    }
}

impl<T> View for Grid3d<T> {
    type V = Seq<T>;

    closed spec fn view(&self) -> Seq<T> {
        self.data@
    }
}

impl<T> Grid2d<T> {
    /// The number of columns.
    pub closed spec fn spec_width(&self) -> u32 {
        self.width
    }

    /// The number of rows.
    pub closed spec fn spec_height(&self) -> u32 {
        self.height
    }

    /// The data length equals the product of the dimensions.
    pub open spec fn wf(&self) -> bool {
        self@.len() == (self.spec_width() as int) * (self.spec_height() as int)
    }

    /// A grid filled with the default value of `T`.
    pub fn new(width: u32, height: u32) -> (r: Grid2d<T>)
        where T: Clone + Default
        requires
            (width as int) * (height as int) <= usize::MAX,
        ensures
            r.wf(),
            r.spec_width() == width,
            r.spec_height() == height,
    {
        proof {
            lemma_mul_inequality(width as int, u32::MAX as int, height as int);
            vstd::arithmetic::mul::lemma_mul_is_commutative(u32::MAX as int, height as int);
            lemma_mul_inequality(height as int, u32::MAX as int, u32::MAX as int);
        }
        let size_wide: u64 = (width as u64) * (height as u64);
        let size: usize = size_wide as usize;
        let data: Vec<T> = vec![T::default(); size];
        Grid2d { data, width, height }
    }

    /// Wrap existing row-major data; its length must match the dimensions.
    pub fn with_data(width: u32, height: u32, data: Vec<T>) -> (result: Result<
        Grid2d<T>,
        NoiseError,
    >)
        ensures
            match result {
                Ok(r) => {
                    &&& data@.len() == (width as int) * (height as int)
                    &&& r.wf()
                    &&& r@ == data@
                    &&& r.spec_width() == width
                    &&& r.spec_height() == height
                },
                Err(e) => {
                    &&& e == NoiseError::InvalidRange
                    &&& data@.len() != (width as int) * (height as int)
                },
            },
    {
        proof {
            lemma_mul_inequality(width as int, u32::MAX as int, height as int);
            vstd::arithmetic::mul::lemma_mul_is_commutative(u32::MAX as int, height as int);
            lemma_mul_inequality(height as int, u32::MAX as int, u32::MAX as int);
        }
        let expected: u64 = (width as u64) * (height as u64);
        if (data.len() as u64) != expected {
            return Err(NoiseError::InvalidRange);
        }
        Ok(Grid2d { data, width, height })
    }

    /// The row-major linear index of a coordinate pair.
    pub fn index_from_coords(&self, coords: (usize, usize)) -> (r: usize)
        requires
            self.wf(),
            coords.0 < self.spec_width(),
            coords.1 < self.spec_height(),
        ensures
            r == coords.0 + coords.1 * (self.spec_width() as int),
            r < self@.len(),
    {
        let (x, y) = coords;
        let total: usize = self.data.len();
        proof {
            lemma_grid2_index(
                x as int,
                y as int,
                self.spec_width() as int,
                self.spec_height() as int,
            );
            assert((x as int) + (y as int) * (self.spec_width() as int) < (total as int));
        }
        x + y * (self.width as usize)
    }

    /// The number of columns.
    pub fn width(&self) -> (r: u32)
        ensures
            r == self.spec_width(),
    {
        self.width
    }

    /// The number of rows.
    pub fn height(&self) -> (r: u32)
        ensures
            r == self.spec_height(),
    {
        self.height
    }

    /// The total number of cells.
    pub fn size(&self) -> (r: usize)
        requires
            self.wf(),
        ensures
            r == self@.len(),
    {
        self.data.len()
    }

    /// The stored values, in row-major order.
    pub fn data(&self) -> (r: &[T])
        ensures
            r@ == self@,
    {
        self.data.as_slice()
    }

    /// Read the value at a coordinate pair, bounds-checked: a coordinate
    /// outside the grid is reported, never read.
    pub fn try_get(&self, x: u32, y: u32) -> (result: Result<&T, NoiseError>)
        requires
            self.wf(),
        ensures
            match result {
                Ok(v) => {
                    &&& x < self.spec_width()
                    &&& y < self.spec_height()
                    &&& *v == self@[x as int + y as int * self.spec_width() as int]
                },
                Err(e) => {
                    &&& e == NoiseError::IndexOutOfRange
                    &&& (x >= self.spec_width() || y >= self.spec_height())
                },
            },
    {
        if x >= self.width || y >= self.height {
            return Err(NoiseError::IndexOutOfRange);
        }
        let idx = self.index_from_coords((x as usize, y as usize));
        Ok(&self.data[idx])
    }
}

/// In a `w` by `h` grid, the row-major index of an in-bounds coordinate lies
/// inside the data.
proof fn lemma_grid2_index(x: int, y: int, w: int, h: int)
    requires
        0 <= x < w,
        0 <= y < h,
    ensures
        0 <= x + y * w < w * h,
        0 <= y * w,
        x + y * w <= (w - 1) + (h - 1) * w,
{
    lemma_mul_inequality(y, h - 1, w);
    vstd::arithmetic::mul::lemma_mul_is_distributive_sub_other_way(w, h, 1);
    vstd::arithmetic::mul::lemma_mul_is_commutative(y, w);
    vstd::arithmetic::mul::lemma_mul_is_commutative(h - 1, w);
    vstd::arithmetic::mul::lemma_mul_is_commutative(h, w);
    assert(y * w <= (h - 1) * w);
    assert((h - 1) * w == h * w - w);
    vstd::arithmetic::mul::lemma_mul_nonnegative(y, w);
}

impl<T> Grid3d<T> {
    /// The number of columns.
    pub closed spec fn spec_width(&self) -> u32 {
        self.width
    }

    /// The number of rows.
    pub closed spec fn spec_height(&self) -> u32 {
        self.height
    }

    /// The number of layers.
    pub closed spec fn spec_depth(&self) -> u32 {
        self.depth
    }

    /// The data length equals the product of the dimensions.
    pub open spec fn wf(&self) -> bool {
        self@.len() == (self.spec_width() as int) * (self.spec_height() as int) * (
        self.spec_depth() as int)
    }

    /// A grid filled with the default value of `T`.
    pub fn new(width: u32, height: u32, depth: u32) -> (r: Grid3d<T>)
        where T: Clone + Default
        requires
            (width as int) * (height as int) * (depth as int) <= usize::MAX,
        ensures
            r.wf(),
            r.spec_width() == width,
            r.spec_height() == height,
            r.spec_depth() == depth,
    {
        proof {
            lemma_grid3_size_bounds(width as int, height as int, depth as int);
        }
        let size_wide: u128 = (width as u128) * (height as u128) * (depth as u128);
        let size: usize = size_wide as usize;
        let data: Vec<T> = vec![T::default(); size];
        Grid3d { data, width, height, depth }
    }

    /// Wrap existing row-major data; its length must match the dimensions.
    pub fn with_data(width: u32, height: u32, depth: u32, data: Vec<T>) -> (result: Result<
        Grid3d<T>,
        NoiseError,
    >)
        ensures
            match result {
                Ok(r) => {
                    &&& data@.len() == (width as int) * (height as int) * (depth as int)
                    &&& r.wf()
                    &&& r@ == data@
                    &&& r.spec_width() == width
                    &&& r.spec_height() == height
                    &&& r.spec_depth() == depth
                },
                Err(e) => {
                    &&& e == NoiseError::InvalidRange
                    &&& data@.len() != (width as int) * (height as int) * (depth as int)
                },
            },
    {
        proof {
            lemma_grid3_size_bounds(width as int, height as int, depth as int);
        }
        let expected: u128 = (width as u128) * (height as u128) * (depth as u128);
        if (data.len() as u128) != expected {
            return Err(NoiseError::InvalidRange);
        }
        Ok(Grid3d { data, width, height, depth })
    }

    /// Fill a grid of the given dimensions from a gradient builder.
    pub fn build_gradient_grid<G: GradientVector, B: GradientBuilder<G>>(
        width: u32,
        height: u32,
        depth: u32,
        builder: &mut B,
    ) -> (result: Result<Grid3d<G>, NoiseError>)
        requires
            (width as int) * (height as int) * (depth as int) <= usize::MAX,
        ensures
            match result {
                Ok(r) => {
                    &&& r.wf()
                    &&& r.spec_width() == width
                    &&& r.spec_height() == height
                    &&& r.spec_depth() == depth
                    &&& forall|i: int| 0 <= i < r@.len() ==> r@[i].gv_ok()
                },
                Err(e) => false,
            },
    {
        proof {
            lemma_grid3_size_bounds(width as int, height as int, depth as int);
        }
        let size_wide: u128 = (width as u128) * (height as u128) * (depth as u128);
        let size: usize = size_wide as usize;
        let mut data: Vec<G> = Vec::new();
        let mut i: usize = 0;
        while i < size
            invariant
                i <= size,
                data@.len() == i as int,
                forall|k: int| 0 <= k < i as int ==> data@[k].gv_ok(),
            decreases size - i,
        {
            let g = builder.make_gradient();
            data.push(g);
            i = i + 1;
        }
        Ok(Grid3d { data, width, height, depth })
    }

    /// The row-major linear index of a coordinate triple.
    pub fn index_from_coords(&self, coords: (usize, usize, usize)) -> (r: usize)
        requires
            self.wf(),
            coords.0 < self.spec_width(),
            coords.1 < self.spec_height(),
            coords.2 < self.spec_depth(),
        ensures
            r == coords.0 + coords.1 * (self.spec_width() as int) + coords.2 * ((
            self.spec_width() as int) * (self.spec_height() as int)),
            r < self@.len(),
    {
        let (x, y, z) = coords;
        let total: usize = self.data.len();
        proof {
            lemma_grid3_index(
                x as int,
                y as int,
                z as int,
                self.spec_width() as int,
                self.spec_height() as int,
                self.spec_depth() as int,
            );
            assert((self.spec_width() as int) * (self.spec_height() as int) <= (total as int));
        }
        let plane: usize = (self.width as usize) * (self.height as usize);
        x + y * (self.width as usize) + z * plane
    }

    /// The number of columns.
    pub fn width(&self) -> (r: u32)
        ensures
            r == self.spec_width(),
    {
        self.width
    }

    /// The number of rows.
    pub fn height(&self) -> (r: u32)
        ensures
            r == self.spec_height(),
    {
        self.height
    }

    /// The number of layers.
    pub fn depth(&self) -> (r: u32)
        ensures
            r == self.spec_depth(),
    {
        self.depth
    }

    /// The total number of cells.
    pub fn size(&self) -> (r: usize)
        requires
            self.wf(),
        ensures
            r == self@.len(),
    {
        self.data.len()
    }

    /// The stored values, in row-major order.
    pub fn data(&self) -> (r: &[T])
        ensures
            r@ == self@,
    {
        self.data.as_slice()
    }

    /// Read the value at a coordinate triple, bounds-checked: a coordinate
    /// outside the grid is reported, never read.
    pub fn try_get(&self, x: u32, y: u32, z: u32) -> (result: Result<&T, NoiseError>)
        requires
            self.wf(),
        ensures
            match result {
                Ok(v) => {
                    &&& x < self.spec_width()
                    &&& y < self.spec_height()
                    &&& z < self.spec_depth()
                    &&& *v == self@[x as int + y as int * self.spec_width() as int + z as int * ((
                    self.spec_width() as int) * (self.spec_height() as int))]
                },
                Err(e) => {
                    &&& e == NoiseError::IndexOutOfRange
                    &&& (x >= self.spec_width() || y >= self.spec_height() || z
                        >= self.spec_depth())
                },
            },
    {
        if x >= self.width || y >= self.height || z >= self.depth {
            return Err(NoiseError::IndexOutOfRange);
        }
        let idx = self.index_from_coords((x as usize, y as usize, z as usize));
        Ok(&self.data[idx])
    }
}

/// A product of three `u32` dimensions below `usize::MAX` also keeps each
/// pairwise product in range.
proof fn lemma_grid3_size_bounds(w: int, h: int, d: int)
    requires
        0 <= w <= u32::MAX,
        0 <= h <= u32::MAX,
        0 <= d <= u32::MAX,
    ensures
        0 <= w * h <= 0xffff_fffe_0000_0001,
        0 <= w * h * d <= 0xffff_fffe_0000_0001 * 0x1_0000_0000,
        (w * h) * d == w * h * d,
{
    vstd::arithmetic::mul::lemma_mul_nonnegative(w, h);
    lemma_mul_inequality(w, u32::MAX as int, h);
    vstd::arithmetic::mul::lemma_mul_is_commutative(u32::MAX as int, h);
    lemma_mul_inequality(h, u32::MAX as int, u32::MAX as int);
    vstd::arithmetic::mul::lemma_mul_nonnegative(w * h, d);
    vstd::arithmetic::mul::lemma_mul_is_associative(w, h, d);
    lemma_mul_inequality(w * h, 0xffff_fffe_0000_0001, d);
    vstd::arithmetic::mul::lemma_mul_is_commutative(0xffff_fffe_0000_0001, d);
    lemma_mul_inequality(d, 0x1_0000_0000, 0xffff_fffe_0000_0001);
}

/// In a `w` by `h` by `d` grid, the row-major index of an in-bounds
/// coordinate lies inside the data.
proof fn lemma_grid3_index(x: int, y: int, z: int, w: int, h: int, d: int)
    requires
        0 <= x < w,
        0 <= y < h,
        0 <= z < d,
    ensures
        0 <= x + y * w + z * (w * h) < w * h * d,
        0 <= y * w,
        0 <= z * (w * h),
        x + y * w < w * h,
        w * h <= w * h * d,
        x + y * w + z * (w * h) <= (w - 1) + (h - 1) * w + (d - 1) * (w * h),
{
    lemma_grid2_index(x, y, w, h);
    lemma_mul_inequality(z, d - 1, w * h);
    vstd::arithmetic::mul::lemma_mul_is_distributive_sub_other_way(w * h, d, 1);
    vstd::arithmetic::mul::lemma_mul_is_commutative(z, w * h);
    vstd::arithmetic::mul::lemma_mul_is_commutative(d - 1, w * h);
    vstd::arithmetic::mul::lemma_mul_is_commutative(d, w * h);
    vstd::arithmetic::mul::lemma_mul_nonnegative(z, w * h);
    vstd::arithmetic::mul::lemma_mul_nonnegative(w, h);
    assert(w * h * d == (w * h) * d) by {
        vstd::arithmetic::mul::lemma_mul_is_associative(w, h, d);
    }
    assert((w * h) * 1 <= (w * h) * d) by {
        vstd::arithmetic::mul::lemma_mul_is_commutative(w * h, d);
        lemma_mul_inequality(1, d, w * h);
        vstd::arithmetic::mul::lemma_mul_is_commutative(d, w * h);
        vstd::arithmetic::mul::lemma_mul_basics(w * h);
    }
}

impl<G: GradientVector> GradientGrid<G, Lattice2> for Grid2d<G> {
    open spec fn spec_buildable(dimensions: Lattice2) -> bool {
        (dimensions.x as int) * (dimensions.y as int) <= usize::MAX
    }

    open spec fn spec_built(dimensions: Lattice2, grid: Grid2d<G>) -> bool {
        &&& Grid2d::wf(&grid)
        &&& grid.spec_width() == dimensions.x
        &&& grid.spec_height() == dimensions.y
        &&& forall|i: int| 0 <= i < grid@.len() ==> (#[trigger] grid@[i]).gv_ok()
    }

    /// Fill a two-dimensional grid from a gradient builder.
    fn build_grid<B: GradientBuilder<G>>(dimensions: Lattice2, builder: &mut B) -> (result: Result<
        Self,
        NoiseError,
    >) {
        proof {
            lemma_mul_inequality(dimensions.x as int, u32::MAX as int, dimensions.y as int);
            vstd::arithmetic::mul::lemma_mul_is_commutative(u32::MAX as int, dimensions.y as int);
            lemma_mul_inequality(dimensions.y as int, u32::MAX as int, u32::MAX as int);
            vstd::arithmetic::mul::lemma_mul_nonnegative(dimensions.x as int, dimensions.y as int);
        }
        let size_wide: u64 = (dimensions.x as u64) * (dimensions.y as u64);
        if size_wide > (usize::MAX as u64) {
            return Err(NoiseError::InvalidRange);
        }
        let size: usize = size_wide as usize;
        let mut data: Vec<G> = Vec::new();
        let mut i: usize = 0;
        while i < size
            invariant
                i <= size,
                data@.len() == i as int,
                forall|k: int| 0 <= k < i as int ==> data@[k].gv_ok(),
            decreases size - i,
        {
            let g = builder.make_gradient();
            data.push(g);
            i = i + 1;
        }
        match Grid2d::with_data(dimensions.x, dimensions.y, data) {
            Ok(g) => Ok(g),
            Err(_) => {
                // The loop pushed exactly width * height gradients, so the
                // length check cannot fail.
                proof {
                    assert(false);
                }
                vstd::pervasive::unreached()
            },
        }
    }
}

impl<G: GradientVector> GradientGrid<G, Lattice3> for Grid3d<G> {
    open spec fn spec_buildable(dimensions: Lattice3) -> bool {
        (dimensions.x as int) * (dimensions.y as int) * (dimensions.z as int) <= usize::MAX
    }

    open spec fn spec_built(dimensions: Lattice3, grid: Grid3d<G>) -> bool {
        &&& Grid3d::wf(&grid)
        &&& grid.spec_width() == dimensions.x
        &&& grid.spec_height() == dimensions.y
        &&& grid.spec_depth() == dimensions.z
        &&& forall|i: int| 0 <= i < grid@.len() ==> (#[trigger] grid@[i]).gv_ok()
    }

    /// Fill a three-dimensional grid from a gradient builder.
    fn build_grid<B: GradientBuilder<G>>(dimensions: Lattice3, builder: &mut B) -> (result: Result<
        Self,
        NoiseError,
    >) {
        proof {
            lemma_grid3_size_bounds(dimensions.x as int, dimensions.y as int, dimensions.z as int);
        }
        let size_wide: u128 = (dimensions.x as u128) * (dimensions.y as u128) * (
        dimensions.z as u128);
        if size_wide > (usize::MAX as u128) {
            return Err(NoiseError::InvalidRange);
        }
        Grid3d::<G>::build_gradient_grid(dimensions.x, dimensions.y, dimensions.z, builder)
    }
}

impl<G: GradientVector> GradientProvider<Lattice2, G> for Grid2d<G> {
    open spec fn wf(&self) -> bool {
        &&& Grid2d::wf(self)
        &&& self.spec_width() > 0
        &&& self.spec_height() > 0
        &&& forall|i: int| 0 <= i < self@.len() ==> self@[i].gv_ok()
    }

    open spec fn in_extent(&self, index: Lattice2) -> bool {
        index.x < self.spec_width() && index.y < self.spec_height()
    }

    open spec fn spec_gradient(&self, index: Lattice2) -> G {
        self@[index.x as int + index.y as int * self.spec_width() as int]
    }

    open spec fn spec_max_dimensions(&self) -> Option<Lattice2> {
        Some(
            Lattice2 {
                x: (self.spec_width() - 1) as u32,
                y: (self.spec_height() - 1) as u32,
            },
        )
    }

    proof fn lemma_extent(&self, index: Lattice2) {
    }

    proof fn lemma_gradient_ok(&self, index: Lattice2) {
        lemma_grid2_index(
            index.x as int,
            index.y as int,
            self.spec_width() as int,
            self.spec_height() as int,
        );
    }

    fn get_gradient(&self, index: Lattice2) -> (g: G) {
        let idx = self.index_from_coords((index.x as usize, index.y as usize));
        self.data[idx]
    }

    fn max_dimensions(&self) -> (d: Option<Lattice2>) {
        Some(Lattice2 { x: self.width - 1, y: self.height - 1 })
    }
}

impl<G: GradientVector> GradientProvider<Lattice3, G> for Grid3d<G> {
    open spec fn wf(&self) -> bool {
        &&& Grid3d::wf(self)
        &&& self.spec_width() > 0
        &&& self.spec_height() > 0
        &&& self.spec_depth() > 0
        &&& forall|i: int| 0 <= i < self@.len() ==> self@[i].gv_ok()
    }

    open spec fn in_extent(&self, index: Lattice3) -> bool {
        index.x < self.spec_width() && index.y < self.spec_height() && index.z < self.spec_depth()
    }

    open spec fn spec_gradient(&self, index: Lattice3) -> G {
        self@[index.x as int + index.y as int * self.spec_width() as int + index.z as int * ((
        self.spec_width() as int) * (self.spec_height() as int))]
    }

    open spec fn spec_max_dimensions(&self) -> Option<Lattice3> {
        Some(
            Lattice3 {
                x: (self.spec_width() - 1) as u32,
                y: (self.spec_height() - 1) as u32,
                z: (self.spec_depth() - 1) as u32,
            },
        )
    }

    proof fn lemma_extent(&self, index: Lattice3) {
    }

    proof fn lemma_gradient_ok(&self, index: Lattice3) {
        lemma_grid3_index(
            index.x as int,
            index.y as int,
            index.z as int,
            self.spec_width() as int,
            self.spec_height() as int,
            self.spec_depth() as int,
        );
        assert(self.spec_width() as int * self.spec_height() as int * self.spec_depth() as int == (
        self.spec_width() as int * self.spec_height() as int) * self.spec_depth() as int) by {
            vstd::arithmetic::mul::lemma_mul_is_associative(
                self.spec_width() as int,
                self.spec_height() as int,
                self.spec_depth() as int,
            );
        }
    }

    fn get_gradient(&self, index: Lattice3) -> (g: G) {
        proof {
            lemma_grid3_index(
                index.x as int,
                index.y as int,
                index.z as int,
                self.spec_width() as int,
                self.spec_height() as int,
                self.spec_depth() as int,
            );
        }
        let idx = self.index_from_coords((index.x as usize, index.y as usize, index.z as usize));
        self.data[idx]
    }

    fn max_dimensions(&self) -> (d: Option<Lattice3>) {
        Some(Lattice3 { x: self.width - 1, y: self.height - 1, z: self.depth - 1 })
    }
}

impl<G: GradientVector> GradientGrid<G, u32> for Vec<G> {
    open spec fn spec_buildable(length: u32) -> bool {
        true
    }

    open spec fn spec_built(length: u32, grid: Vec<G>) -> bool {
        &&& grid@.len() == length
        &&& forall|i: int| 0 <= i < grid@.len() ==> (#[trigger] grid@[i]).gv_ok()
    }

    /// Fill a one-dimensional grid from a gradient builder.
    fn build_grid<B: GradientBuilder<G>>(length: u32, builder: &mut B) -> (result: Result<
        Self,
        NoiseError,
    >) {
        let mut data: Vec<G> = Vec::new();
        let mut i: u32 = 0;
        while i < length
            invariant
                i <= length,
                data@.len() == i as int,
                forall|k: int| 0 <= k < i as int ==> data@[k].gv_ok(),
            decreases length - i,
        {
            let g = builder.make_gradient();
            data.push(g);
            i = i + 1;
        }
        Ok(data)
    }
}

/// A plain vector as a one-dimensional dense gradient grid: index `i` holds
/// the gradient of lattice vertex `i`, with no hashing.
impl<G: GradientVector> GradientProvider<u32, G> for Vec<G> {
    open spec fn wf(&self) -> bool {
        &&& 0 < self@.len() <= u32::MAX
        &&& forall|i: int| 0 <= i < self@.len() ==> self@[i].gv_ok()
    }

    open spec fn in_extent(&self, index: u32) -> bool {
        (index as int) < self@.len()
    }

    open spec fn spec_gradient(&self, index: u32) -> G {
        self@[index as int]
    }

    open spec fn spec_max_dimensions(&self) -> Option<u32> {
        Some((self@.len() - 1) as u32)
    }

    proof fn lemma_extent(&self, index: u32) {
    }

    proof fn lemma_gradient_ok(&self, index: u32) {
    }

    fn get_gradient(&self, index: u32) -> (g: G) {
        self[index as usize]
    }

    fn max_dimensions(&self) -> (d: Option<u32>) {
        Some((self.len() - 1) as u32)
    }
}

} // verus!
