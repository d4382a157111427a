//! Mapping strategies between time and space.

use vstd::prelude::*;
use vstd::arithmetic::power2::{pow2, lemma_pow2_strictly_increases};
use vstd::bits::{lemma_u32_shl_is_mul, lemma_u32_pow2_no_overflow};

verus! {

/// A point in `N`-dimensional space.
pub type Coord<const N: usize> = [u32; N];

/// A mapping between a position in time (an index) and a point in
/// `N`-dimensional space.
pub trait SpaceStrategy<const N: usize> {
    /// Whether the strategy's parameters are within the machine's limits.
    spec fn well_formed(&self) -> bool;

    /// The number of values that coordinate `dimension` can take.
    spec fn spec_length(&self, dimension: int) -> nat;

    /// The number of indices that the space holds.
    spec fn spec_size(&self) -> nat;

    /// The point of `index`, meaningful for `index < spec_size()`.
    spec fn spec_coord(&self, index: int) -> Seq<u32>;

    /// Convert an index to a point in space: a point exactly for the indices
    /// below the size, each of whose coordinates is below the length of its
    /// dimension.
    fn index_to_coord(&self, index: usize) -> (r: Option<Coord<N>>)
        requires
            self.well_formed(),
        ensures
            r.is_some() <==> index < self.spec_size(),
            r matches Some(c) ==> c@ == self.spec_coord(index as int),
            r matches Some(c) ==> forall|d: int| 0 <= d < N ==> (#[trigger] c@[d]) < self.spec_length(d),
    ;

    /// The effective length of the given dimension.
    fn length(&self, dimension: usize) -> (r: u32)
        requires
            self.well_formed(),
            dimension < N,
        ensures
            r == self.spec_length(dimension as int),
    ;

    /// The number of indices that the space holds.
    fn size(&self) -> (r: usize)
        requires
            self.well_formed(),
        ensures
            r == self.spec_size(),
    ;
}

/// A space strategy that places index `i` at `i` on a line.
pub struct LineSpaceStrategy {
    length: usize,
}

impl LineSpaceStrategy {
    /// The number of points on the line.
    pub closed spec fn spec_line_length(&self) -> nat {
        self.length as nat
    }

    /// A line of `length` points; each coordinate must fit in a `u32`.
    pub fn new(length: usize) -> (r: LineSpaceStrategy)
        requires
            length <= u32::MAX,
        ensures
            r.spec_line_length() == length,
            r.well_formed(),
    {
        LineSpaceStrategy { length }
    }
}

impl SpaceStrategy<1> for LineSpaceStrategy {
    open spec fn well_formed(&self) -> bool {
        self.spec_line_length() <= u32::MAX
    }

    open spec fn spec_length(&self, dimension: int) -> nat {
        self.spec_line_length()
    }

    open spec fn spec_size(&self) -> nat {
        self.spec_line_length()
    }

    open spec fn spec_coord(&self, index: int) -> Seq<u32> {
        seq![index as u32]
    }

    fn index_to_coord(&self, index: usize) -> (r: Option<Coord<1>>) {
        if index < self.length {
            let c: Coord<1> = [index as u32];
            assert(c@ =~= seq![index as u32]);
            Some(c)
        } else {
            None
        }
    }

    fn length(&self, dimension: usize) -> (r: u32) {
        self.length as u32
    }

    fn size(&self) -> (r: usize) {
        self.length
    }
}

/// Lift a space strategy of dimension `A` into dimension `B > A`: the extra
/// coordinates are zero and their dimensions have length one.
pub struct SpaceStrategyAdapter<const A: usize, const B: usize, S: SpaceStrategy<A>> {
    inner: S,
}

impl<const A: usize, const B: usize, S: SpaceStrategy<A>> SpaceStrategyAdapter<A, B, S> {
    /// The lifted strategy.
    pub closed spec fn inner(&self) -> S {
        self.inner
    }

    pub fn new(inner: S) -> (r: Self)
        requires
            A < B,
        ensures
            r.inner() == inner,
    {
        Self { inner }
    }
}

impl<const A: usize, const B: usize, S: SpaceStrategy<A>> SpaceStrategy<B> for SpaceStrategyAdapter<
    A,
    B,
    S,
> {
    open spec fn well_formed(&self) -> bool {
        A < B && self.inner().well_formed()
    }

    open spec fn spec_length(&self, dimension: int) -> nat {
        if dimension < A {
            self.inner().spec_length(dimension)
        } else {
            1
        }
    }

    open spec fn spec_size(&self) -> nat {
        self.inner().spec_size()
    }

    open spec fn spec_coord(&self, index: int) -> Seq<u32> {
        self.inner().spec_coord(index) + Seq::new((B - A) as nat, |j: int| 0u32)
    }

    fn index_to_coord(&self, index: usize) -> (r: Option<Coord<B>>) {
        match self.inner.index_to_coord(index) {
            Some(from) => {
                let mut to: Coord<B> = [0u32; B];
                let mut i: usize = 0;
                while i < B
                    invariant
                        A < B,
                        i <= B,
                        from@ == self.inner().spec_coord(index as int),
                        forall|d: int| 0 <= d < A ==> (#[trigger] from@[d]) < self.inner().spec_length(d),
                        to@.len() == B,
                        forall|d: int| 0 <= d < i && d < A ==> (#[trigger] to@[d]) == from@[d],
                        forall|d: int| A <= d < i ==> (#[trigger] to@[d]) == 0,
                    decreases B - i,
                {
                    to[i] = if i < A {
                        from[i]
                    } else {
                        0
                    };
                    i = i + 1;
                }
                assert(to@ =~= self.spec_coord(index as int));
                Some(to)
            },
            None => None,
        }
    }

    fn length(&self, dimension: usize) -> (r: u32) {
        if dimension < A {
            self.inner.length(dimension)
        } else {
            1
        }
    }

    fn size(&self) -> (r: usize) {
        self.inner.size()
    }
}

/// Whether `n` is a power of two.
pub open spec fn is_power_of_two(n: nat) -> bool {
    exists|e: nat| pow2(e) == n
}

/// The point at distance `index` along the two-dimensional Hilbert curve whose
/// coordinates have `bits` bits, as the `hilbert` crate computes it.
pub uninterp spec fn hilbert_axes_of(index: nat, bits: nat) -> Seq<u32>;

/// Relies on `hilbert::fast_hilbert::hilbert_axes` for the point at distance
/// `index` along a two-dimensional Hilbert curve: it returns one coordinate per
/// dimension, each assembled from `bits` bits, and panics on zero bits.
#[verifier::external_body]
fn hilbert_point(index: usize, bits: u32) -> (r: Vec<u32>)
    requires
        1 <= bits <= 31,
    ensures
        r@ == hilbert_axes_of(index as nat, bits as nat),
        r@.len() == 2,
        forall|d: int| 0 <= d < 2 ==> (#[trigger] r@[d]) < pow2(bits as nat),
{
    hilbert::fast_hilbert::hilbert_axes(&num_bigint::BigUint::from(index), bits as usize, 2)
}

/// The largest base-two exponent of a Hilbert curve's side: the number of
/// cells, the side squared, must fit in a `u32`.
pub const MAX_SIZE_EXP: u32 = 15;

/// A space strategy that follows a Hilbert curve over a square whose side is a
/// power of two, so that consecutive indices are neighbouring points.
pub struct HilbertSpaceStrategy {
    size_exp: u32,
}

impl HilbertSpaceStrategy {
    /// The base-two exponent of the side.
    pub closed spec fn spec_size_exp(&self) -> nat {
        self.size_exp as nat
    }

    /// A curve over a square of side `size`, a power of two.
    pub fn from_size(size: u32) -> (r: Self)
        requires
            is_power_of_two(size as nat),
            size <= pow2(MAX_SIZE_EXP as nat),
        ensures
            pow2(r.spec_size_exp()) == size,
            r.well_formed(),
    {
        let mut exp: u32 = 0;
        while exp < MAX_SIZE_EXP && (1u32 << exp) != size
            invariant
                exp <= MAX_SIZE_EXP,
                forall|k: nat| k < exp ==> pow2(k) != size,
            decreases MAX_SIZE_EXP - exp,
        {
            proof {
                lemma_u32_pow2_no_overflow(exp as nat);
                lemma_u32_shl_is_mul(1u32, exp);
            }
            exp = exp + 1;
        }
        proof {
            lemma_u32_pow2_no_overflow(exp as nat);
            lemma_u32_shl_is_mul(1u32, exp);
            let e: nat = choose|e: nat| pow2(e) == size;
            if e > MAX_SIZE_EXP {
                lemma_pow2_strictly_increases(MAX_SIZE_EXP as nat, e);
            }
        }
        HilbertSpaceStrategy { size_exp: exp }
    }
}

impl SpaceStrategy<2> for HilbertSpaceStrategy {
    open spec fn well_formed(&self) -> bool {
        self.spec_size_exp() <= MAX_SIZE_EXP
    }

    open spec fn spec_length(&self, dimension: int) -> nat {
        pow2(self.spec_size_exp())
    }

    open spec fn spec_size(&self) -> nat {
        pow2(2 * self.spec_size_exp())
    }

    open spec fn spec_coord(&self, index: int) -> Seq<u32> {
        if self.spec_size_exp() == 0 {
            seq![0u32, 0u32]
        } else {
            hilbert_axes_of(index as nat, self.spec_size_exp())
        }
    }

    fn index_to_coord(&self, index: usize) -> (r: Option<Coord<2>>) {
        let size = self.size();
        if index >= size {
            None
        } else if self.size_exp == 0 {
            let c: Coord<2> = [0u32, 0u32];
            assert(c@ =~= seq![0u32, 0u32]);
            Some(c)
        } else {
            let p = hilbert_point(index, self.size_exp);
            let c: Coord<2> = [p[0], p[1]];
            assert(c@ =~= p@);
            Some(c)
        }
    }

    fn length(&self, dimension: usize) -> (r: u32) {
        proof {
            lemma_u32_pow2_no_overflow(self.size_exp as nat);
            lemma_u32_shl_is_mul(1u32, self.size_exp);
        }
        1u32 << self.size_exp
    }

    fn size(&self) -> (r: usize) {
        proof {
            lemma_pow2_strictly_increases(2 * self.size_exp as nat, 31);
            lemma_u32_pow2_no_overflow(2 * self.size_exp as nat);
            lemma_u32_shl_is_mul(1u32, (2 * self.size_exp) as u32);
        }
        (1u32 << (2 * self.size_exp)) as usize
    }
}

/// Lifting a one-dimensional strategy into the plane appends a zero to each of
/// its points, and the added dimension has length one.
pub proof fn lemma_adapter_pads_with_zero<S: SpaceStrategy<1>>(
    plane: SpaceStrategyAdapter<1, 2, S>,
    index: int,
    x: u32,
)
    requires
        plane.inner().spec_coord(index) == seq![x],
    ensures
        plane.spec_coord(index) == seq![x, 0u32],
        plane.spec_length(1) == 1,
{
    assert(plane.spec_coord(index) =~= seq![x, 0u32]);
}

/// A line, lifted into the plane, places each index `i` below its length at
/// `(i, 0)`, and holds exactly as many indices as its length.
pub proof fn lemma_line_in_plane(
    line: LineSpaceStrategy,
    plane: SpaceStrategyAdapter<1, 2, LineSpaceStrategy>,
    index: int,
)
    requires
        line.well_formed(),
        plane.inner() == line,
        0 <= index < line.spec_line_length(),
    ensures
        line.spec_coord(index) == seq![index as u32],
        plane.spec_coord(index) == seq![index as u32, 0u32],
        line.spec_size() == line.spec_line_length(),
        plane.spec_size() == line.spec_line_length(),
        plane.spec_length(0) == line.spec_line_length(),
        plane.spec_length(1) == 1,
{
    lemma_adapter_pads_with_zero(plane, index, index as u32);
}

} // verus!
