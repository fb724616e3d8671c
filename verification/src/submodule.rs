//! Ways to regroup the cells of a module into equal sub-modules.

use crate::electrical::Module;
use vstd::prelude::*;

verus! {

/// Series counts are split into fewer than this many sub-modules.
pub const MAX_SERIES_SUB: i32 = 25;

/// Parallel counts are split into fewer than this many sub-modules.
pub const MAX_PARALLEL_SUB: i32 = 25;

/// The lower voltage bound assumed of one cell of a sub-module, in
/// millivolts. It is the same for every chemistry.
pub const SUB_CELL_VMIN_MV: i64 = 3700;

/// The upper voltage bound assumed of one cell of a sub-module, in
/// millivolts. It is the same for every chemistry.
pub const SUB_CELL_VMAX_MV: i64 = 4100;

/// One way to regroup: `count` sub-modules of `size` cells each.
#[derive(Copy, Clone, Debug, PartialEq, Eq, Structural)]
pub struct Submodule {
    pub count: i32,
    pub size: i32,
}

/// Whether `count` groups of `size` make up `n` exactly, with the number of
/// groups at least one and below `limit`.
pub open spec fn is_split(n: int, limit: int, count: int, size: int) -> bool {
    1 <= count < limit && count * size == n
}

/// Whether `options` lists every split of `n` below `limit` once, by
/// increasing number of groups.
pub open spec fn lists_splits(n: int, limit: int, options: Seq<Submodule>) -> bool {
    &&& forall|k: int|
        0 <= k < options.len() ==> is_split(n, limit, (#[trigger] options[k]).count as int, options[k].size as int)
    &&& forall|j: int, k: int|
        0 <= j < k < options.len() ==> (#[trigger] options[j]).count < (#[trigger] options[k]).count
    &&& forall|count: int, size: int| #[trigger]
        is_split(n, limit, count, size) ==> exists|k: int|
            0 <= k < options.len() && (#[trigger] options[k]).count == count && options[k].size == size
}

/// A zero remainder of the machine's division means that the quotient
/// times the divisor gives the dividend back.
proof fn lemma_zero_remainder_is_exact(n: int, x: int)
    by (nonlinear_arith)
    requires
        x > 0,
        (if n >= 0 {
            n % x
        } else {
            -((-n) % x)
        }) == 0,
    ensures
        x * (if n >= 0 {
            n / x
        } else {
            -((-n) / x)
        }) == n,
{
}

/// A product of `x` leaves no remainder when divided by `x`, and its
/// factor is the only one that gives the product.
proof fn lemma_multiple_has_zero_remainder(n: int, x: int, q: int)
    by (nonlinear_arith)
    requires
        x > 0,
        x * q == n,
    ensures
        (if n >= 0 {
            n % x
        } else {
            -((-n) % x)
        }) == 0,
        q == (if n >= 0 {
            n / x
        } else {
            -((-n) / x)
        }),
{
}

/// Lists the ways to split `n` into fewer than `limit` equal groups.
fn even_splits(n: i32, limit: i32) -> (options: Vec<Submodule>)
    requires
        limit >= 1,
    ensures
        lists_splits(n as int, limit as int, options@),
{
    let mut options: Vec<Submodule> = Vec::new();
    let mut x: i32 = 1;
    while x < limit
        invariant
            1 <= x <= limit,
            forall|k: int|
                0 <= k < options@.len() ==> is_split(
                    n as int,
                    x as int,
                    (#[trigger] options@[k]).count as int,
                    options@[k].size as int,
                ),
            forall|j: int, k: int|
                0 <= j < k < options@.len() ==> (#[trigger] options@[j]).count < (#[trigger] options@[k]).count,
            forall|count: int, size: int| #[trigger]
                is_split(n as int, x as int, count, size) ==> exists|k: int|
                    0 <= k < options@.len() && (#[trigger] options@[k]).count == count && options@[k].size
                        == size,
        decreases limit - x,
    {
        let ghost before = options@;
        if n % x == 0 {
            proof {
                lemma_zero_remainder_is_exact(n as int, x as int);
                crate::arith::lemma_trunc_div_fits(n as int, x as int);
            }
            let size: i32 = n / x;
            options.push(Submodule { count: x, size });
            assert(options@[before.len() as int].count == x);
        }
        proof {
            assert forall|count: int, size: int| #[trigger]
                is_split(n as int, x + 1, count, size) implies exists|k: int|
                0 <= k < options@.len() && (#[trigger] options@[k]).count == count && options@[k].size
                    == size by {
                if count < x {
                    assert(is_split(n as int, x as int, count, size));
                    let k = choose|k: int|
                        0 <= k < before.len() && (#[trigger] before[k]).count == count && before[k].size
                            == size;
                    assert(options@[k] == before[k]);
                } else {
                    lemma_multiple_has_zero_remainder(n as int, x as int, size);
                    assert(options@[before.len() as int].count == count);
                }
            }
        }
        x = x + 1;
    }
    options
}

impl Module {
    /// Lists the ways to regroup the cells in series into fewer than
    /// `MAX_SERIES_SUB` equal sub-modules.
    pub fn series_submodules(self) -> (options: Vec<Submodule>)
        ensures
            lists_splits(self.series as int, MAX_SERIES_SUB as int, options@),
    {
        even_splits(self.series, MAX_SERIES_SUB)
    }

    /// Lists the ways to regroup the cells in parallel into fewer than
    /// `MAX_PARALLEL_SUB` equal sub-modules.
    pub fn parallel_submodules(self) -> (options: Vec<Submodule>)
        ensures
            lists_splits(self.parallel as int, MAX_PARALLEL_SUB as int, options@),
    {
        even_splits(self.parallel, MAX_PARALLEL_SUB)
    }
}

impl Submodule {
    /// Returns the voltage range of one sub-module of cells in series, in
    /// millivolts: each cell between `SUB_CELL_VMIN_MV` and
    /// `SUB_CELL_VMAX_MV`.
    pub fn voltage_range_mv(&self) -> (range: (i64, i64))
        ensures
            range.0 == self.size * SUB_CELL_VMIN_MV,
            range.1 == self.size * SUB_CELL_VMAX_MV,
    {
        let size: i64 = self.size as i64;
        (size * SUB_CELL_VMIN_MV, size * SUB_CELL_VMAX_MV)
    }
}

} // verus!
