//! The composition model: a module, a rectangular array of one module type,
//! and a battery of arrays connected in series.

use crate::arith::{div_defined, div_i32, fits_i32, in_i32_range, trunc_div, wide_product};
use vstd::prelude::*;

verus! {

/// The physical shape of a cell.
#[derive(Copy, Clone, Debug, PartialEq, Eq, Structural)]
pub enum Shape {
    Prism,
    Cylinder,
    Other,
}

/// How a cell is terminated.
#[derive(Copy, Clone, Debug, PartialEq, Eq, Structural)]
pub enum Term {
    End,
    Axial,
    Other,
}

/// Whether a descriptor stands for a single chemical cell or for a group of
/// cells that was assembled beforehand.
#[derive(Copy, Clone, Debug, PartialEq, Eq, Structural)]
pub enum ModType {
    Cell,
    Module,
}

/// The cathode chemistry of a cell.
#[derive(Copy, Clone, Debug, PartialEq, Eq, Structural)]
pub enum Chem {
    NMC,
    LFP,
    LMO,
    NCA,
    LTO,
    NiMH,
    Other,
}

/// The categorical and structural part of a cell or module descriptor: what
/// it is made of and how many cells it holds in series and in parallel.
#[derive(Copy, Clone, Debug, PartialEq, Eq, Structural)]
pub struct Module {
    pub shape: Shape,
    pub input_type: ModType,
    pub chem: Chem,
    pub series: i32,
    pub parallel: i32,
    pub termination: Term,
}

/// A rectangular arrangement of one module type: `series` modules in a
/// string, `parallel` such strings side by side.
#[derive(Copy, Clone, Debug, PartialEq, Eq, Structural)]
pub struct ModuleArray {
    pub module: Module,
    pub series: i32,
    pub parallel: i32,
}

/// Module arrays connected in series, in order.
#[derive(Clone, Debug)]
pub struct Battery {
    pub module_array: Vec<ModuleArray>,
}

impl Module {
    /// The number of cells inside the module.
    pub open spec fn cell_count(self) -> int {
        self.parallel * self.series
    }

    /// Returns the number of cells inside the module.
    pub fn get_cell_count(self) -> (count: i32)
        requires
            fits_i32(self.cell_count()),
        ensures
            count == self.cell_count(),
    {
        self.parallel * self.series
    }
}

impl ModuleArray {
    /// The invariant of an array that can be built: at least one module in
    /// each direction.
    pub open spec fn valid(self) -> bool {
        self.series >= 1 && self.parallel >= 1
    }

    /// Cells in series along one string of the array.
    pub open spec fn cell_series(self) -> int {
        self.series * self.module.series
    }

    /// Cells in parallel across the array.
    pub open spec fn cell_parallel(self) -> int {
        self.parallel * self.module.parallel
    }

    /// The number of modules in the array.
    pub open spec fn module_count(self) -> int {
        self.series * self.parallel
    }

    /// The number of cells in the array.
    pub open spec fn cell_count(self) -> int {
        self.cell_series() * self.cell_parallel()
    }

    /// Whether both components of the cell-level topology fit in `i32`.
    pub open spec fn topology_fits(self) -> bool {
        fits_i32(self.cell_series()) && fits_i32(self.cell_parallel())
    }

    /// The quotient of the array's own series count by its parallel count,
    /// rounded toward zero: the factor by which the array scales the
    /// resistance of one module.
    pub open spec fn resistance_scale(self) -> int {
        trunc_div(self.series as int, self.parallel as int)
    }

    /// Arranges `s` modules in series and `p` such strings in parallel.
    pub fn new(m: Module, s: i32, p: i32) -> (array: ModuleArray)
        ensures
            array.module == m,
            array.series == s,
            array.parallel == p,
            array.valid() <==> s >= 1 && p >= 1,
    {
        ModuleArray { module: m, series: s, parallel: p }
    }

    /// Tells whether the cell-level topology of the array fits in `i32`,
    /// which is what `get_topology` asks of its caller.
    pub fn topology_in_range(&self) -> (fits: bool)
        ensures
            fits == self.topology_fits(),
    {
        in_i32_range(wide_product(self.series, self.module.series)) && in_i32_range(
            wide_product(self.parallel, self.module.parallel),
        )
    }

    /// Returns the topology of the array at cell level, series first.
    pub fn get_topology(&self) -> (topology: (i32, i32))
        requires
            self.topology_fits(),
        ensures
            topology.0 == self.cell_series(),
            topology.1 == self.cell_parallel(),
    {
        let s: i32 = self.series * self.module.series;
        let p: i32 = self.parallel * self.module.parallel;
        (s, p)
    }

    /// Returns the number of modules in the array.
    pub fn get_module_count(&self) -> (count: i32)
        requires
            fits_i32(self.module_count()),
        ensures
            count == self.module_count(),
    {
        self.series * self.parallel
    }

    /// Returns the number of cells in the array.
    pub fn get_cell_count(&self) -> (count: i32)
        requires
            self.topology_fits(),
            fits_i32(self.cell_count()),
        ensures
            count == self.cell_count(),
            count == (self.series * self.module.series) * (self.parallel * self.module.parallel),
    {
        let topology = self.get_topology();
        topology.0 * topology.1
    }

    /// Returns the factor by which the array scales the resistance of one
    /// module: series over parallel, rounded toward zero.
    pub fn get_resistance_scale(&self) -> (scale: i32)
        requires
            div_defined(self.series as int, self.parallel as int),
        ensures
            scale == self.resistance_scale(),
    {
        div_i32(self.series, self.parallel)
    }
}

/// The sum over `arrays` of the cells that each holds in series.
pub open spec fn series_total(arrays: Seq<ModuleArray>) -> int
    decreases arrays.len(),
{
    if arrays.len() == 0 {
        0
    } else {
        series_total(arrays.drop_last()) + arrays.last().cell_series()
    }
}

/// The least cell-level parallel count among `arrays`, which must not be
/// empty.
pub open spec fn parallel_min(arrays: Seq<ModuleArray>) -> int
    decreases arrays.len(),
{
    if arrays.len() <= 1 {
        arrays[0].cell_parallel()
    } else {
        let rest = parallel_min(arrays.drop_last());
        let last = arrays.last().cell_parallel();
        if last <= rest {
            last
        } else {
            rest
        }
    }
}

/// `parallel_min` is a lower bound of the cell-level parallel counts of the
/// arrays, and one of the arrays attains it.
pub proof fn lemma_parallel_min_is_least(arrays: Seq<ModuleArray>)
    requires
        arrays.len() > 0,
    ensures
        forall|j: int| 0 <= j < arrays.len() ==> parallel_min(arrays) <= #[trigger] arrays[j].cell_parallel(),
        exists|i: int| 0 <= i < arrays.len() && #[trigger] arrays[i].cell_parallel() == parallel_min(arrays),
    decreases arrays.len(),
{
    if arrays.len() == 1 {
        assert(arrays[0].cell_parallel() == parallel_min(arrays));
    } else {
        let front = arrays.drop_last();
        lemma_parallel_min_is_least(front);
        let i = choose|i: int| 0 <= i < front.len() && #[trigger] front[i].cell_parallel() == parallel_min(front);
        assert(front[i] == arrays[i]);
        let last = arrays.len() - 1;
        if arrays[last].cell_parallel() <= parallel_min(front) {
            assert(arrays[last].cell_parallel() == parallel_min(arrays));
        } else {
            assert(arrays[i].cell_parallel() == parallel_min(arrays));
        }
        assert forall|j: int| 0 <= j < arrays.len() implies parallel_min(arrays) <= #[trigger] arrays[j].cell_parallel() by {
            if j < last {
                assert(front[j] == arrays[j]);
            }
        }
    }
}

/// The product of two counts that are at least one is at least one.
proof fn lemma_positive_product(a: int, b: int)
    by (nonlinear_arith)
    requires
        a >= 1,
        b >= 1,
    ensures
        a * b >= 1,
{
}

/// Arrays that keep their invariant, of modules that hold at least one
/// cell each way, make a string that is at least as long as there are
/// arrays and as long as any one of them, and at least one cell wide.
pub proof fn lemma_valid_arrays_have_positive_topology(arrays: Seq<ModuleArray>)
    requires
        forall|i: int|
            0 <= i < arrays.len() ==> (#[trigger] arrays[i]).valid() && arrays[i].module.series >= 1
                && arrays[i].module.parallel >= 1,
    ensures
        series_total(arrays) >= arrays.len(),
        forall|i: int| 0 <= i < arrays.len() ==> (#[trigger] arrays[i]).cell_series() <= series_total(arrays),
        arrays.len() > 0 ==> parallel_min(arrays) >= 1,
    decreases arrays.len(),
{
    if arrays.len() > 0 {
        let front = arrays.drop_last();
        let last = arrays.last();
        assert forall|i: int| 0 <= i < front.len() implies (#[trigger] front[i]).valid() && front[i].module.series
            >= 1 && front[i].module.parallel >= 1 by {
            assert(front[i] == arrays[i]);
        }
        lemma_valid_arrays_have_positive_topology(front);
        assert(last == arrays[arrays.len() - 1]);
        lemma_positive_product(last.series as int, last.module.series as int);
        lemma_positive_product(last.parallel as int, last.module.parallel as int);
        assert forall|i: int| 0 <= i < arrays.len() implies (#[trigger] arrays[i]).cell_series() <= series_total(
            arrays,
        ) by {
            if i < front.len() {
                assert(front[i] == arrays[i]);
            }
        }
    }
}

impl Battery {
    /// The cells in series along the whole battery: each array is a stage of
    /// its own, and the stages add up.
    pub open spec fn series_total(&self) -> int {
        series_total(self.module_array@)
    }

    /// The cells in parallel that the whole battery can rely on: the stage
    /// with the fewest limits the string.
    pub open spec fn parallel_min(&self) -> int {
        parallel_min(self.module_array@)
    }

    /// Whether the cell-level topology of the battery exists and fits in
    /// `i32`: there is at least one array, the topology of each array fits,
    /// and so does the series total.
    pub open spec fn topology_defined(&self) -> bool {
        &&& self.module_array@.len() > 0
        &&& forall|i: int| 0 <= i < self.module_array@.len() ==> (#[trigger] self.module_array@[i]).topology_fits()
        &&& fits_i32(self.series_total())
    }

    /// The number of cells in the battery at its minimum topology.
    pub open spec fn cell_count(&self) -> int {
        self.series_total() * self.parallel_min()
    }

    /// How many times the topology of the first array goes into that of the
    /// battery, in series, rounded toward zero.
    pub open spec fn series_multiple(&self) -> int {
        trunc_div(self.series_total(), self.module_array@[0].cell_series())
    }

    /// How many times the topology of the first array goes into that of the
    /// battery, in parallel, rounded toward zero.
    pub open spec fn parallel_multiple(&self) -> int {
        trunc_div(self.parallel_min(), self.module_array@[0].cell_parallel())
    }

    /// Whether both quotients of the module count are defined.
    pub open spec fn module_count_defined(&self) -> bool {
        &&& self.topology_defined()
        &&& div_defined(self.series_total(), self.module_array@[0].cell_series())
        &&& div_defined(self.parallel_min(), self.module_array@[0].cell_parallel())
    }

    /// The number of first-array-sized modules in the battery.
    pub open spec fn module_count(&self) -> int {
        self.series_multiple() * self.parallel_multiple()
    }

    /// Creates a battery without any array.
    pub fn new() -> (battery: Battery)
        ensures
            battery.module_array@ == Seq::<ModuleArray>::empty(),
    {
        Battery { module_array: Vec::new() }
    }

    /// Creates a battery of one array: `s` modules `m` in series, `p` such
    /// strings in parallel.
    pub fn new_from(m: Module, s: i32, p: i32) -> (battery: Battery)
        ensures
            battery.module_array@ == seq![(ModuleArray { module: m, series: s, parallel: p })],
    {
        let mut arrays: Vec<ModuleArray> = Vec::new();
        arrays.push(ModuleArray::new(m, s, p));
        Battery { module_array: arrays }
    }

    /// Tells whether the battery has a cell-level topology that fits in
    /// `i32`, which is what `get_topology` asks of its caller.
    pub fn topology_in_range(&self) -> (defined: bool)
        ensures
            defined == self.topology_defined(),
    {
        let n: usize = self.module_array.len();
        if n == 0 {
            return false;
        }
        let ghost arrays = self.module_array@;
        let mut s: i128 = 0;
        let mut i: usize = 0;
        while i < n
            invariant
                arrays == self.module_array@,
                n == arrays.len(),
                i <= n,
                forall|k: int| 0 <= k < i ==> (#[trigger] arrays[k]).topology_fits(),
                s == series_total(arrays.subrange(0, i as int)),
                -(i * 0x8000_0000) <= s <= i * 0x8000_0000,
            decreases n - i,
        {
            if !self.module_array[i].topology_in_range() {
                return false;
            }
            let topo_i = self.module_array[i].get_topology();
            proof {
                let next = arrays.subrange(0, i + 1);
                assert(next.drop_last() == arrays.subrange(0, i as int));
                assert(next.last() == arrays[i as int]);
            }
            s = s + topo_i.0 as i128;
            i = i + 1;
        }
        assert(arrays.subrange(0, n as int) == arrays);
        -0x8000_0000 <= s && s <= 0x7fff_ffff
    }

    /// Returns the minimum topology of the battery at cell level: the series
    /// counts of the arrays summed, and the least of their parallel counts.
    pub fn get_topology(&self) -> (topology: (i32, i32))
        requires
            self.topology_defined(),
        ensures
            topology.0 == self.series_total(),
            topology.1 == self.parallel_min(),
            forall|j: int|
                0 <= j < self.module_array@.len() ==> topology.1 <= (#[trigger] self.module_array@[j]).cell_parallel(),
            exists|i: int|
                0 <= i < self.module_array@.len() && (#[trigger] self.module_array@[i]).cell_parallel()
                    == topology.1,
    {
        let n: usize = self.module_array.len();
        let ghost arrays = self.module_array@;
        proof {
            lemma_parallel_min_is_least(arrays);
        }
        let mut s: i128 = 0;
        let mut p: i32 = self.module_array[0].get_topology().1;
        let mut i: usize = 0;
        while i < n
            invariant
                arrays == self.module_array@,
                n == arrays.len(),
                n > 0,
                i <= n,
                forall|k: int| 0 <= k < arrays.len() ==> (#[trigger] arrays[k]).topology_fits(),
                s == series_total(arrays.subrange(0, i as int)),
                -(i * 0x8000_0000) <= s <= i * 0x8000_0000,
                i == 0 ==> p == arrays[0].cell_parallel(),
                i > 0 ==> p == parallel_min(arrays.subrange(0, i as int)),
            decreases n - i,
        {
            let topo_i = self.module_array[i].get_topology();
            proof {
                let next = arrays.subrange(0, i + 1);
                assert(next.drop_last() == arrays.subrange(0, i as int));
                assert(next.last() == arrays[i as int]);
                if i == 0 {
                    assert(next[0] == arrays[0]);
                }
            }
            s = s + topo_i.0 as i128;
            if topo_i.1 <= p {
                p = topo_i.1;
            }
            i = i + 1;
        }
        assert(arrays.subrange(0, n as int) == arrays);
        (s as i32, p)
    }

    /// Returns the number of first-array-sized modules in the battery: the
    /// series and the parallel count of the battery, each divided by that of
    /// the first array, multiplied.
    pub fn get_module_count(&self) -> (count: i32)
        requires
            self.module_count_defined(),
            fits_i32(self.module_count()),
        ensures
            count == self.module_count(),
    {
        let a = self.get_topology();
        let b = self.module_array[0].get_topology();
        let x: i32 = div_i32(a.0, b.0);
        let y: i32 = div_i32(a.1, b.1);
        x * y
    }

    /// Returns the number of cells in the battery at its minimum topology.
    pub fn get_cell_count(&self) -> (count: i32)
        requires
            self.topology_defined(),
            fits_i32(self.cell_count()),
        ensures
            count == self.cell_count(),
    {
        let a = self.get_topology();
        a.0 * a.1
    }

    /// Whether the cell counts that the packed volume weighs can be
    /// computed: the battery has an array, and the cell count of every
    /// array but the last fits in `i32`.
    pub open spec fn packed_counts_defined(&self) -> bool {
        &&& self.module_array@.len() > 0
        &&& forall|i: int| 0 <= i < self.module_array@.len() - 1 ==> {
            &&& (#[trigger] self.module_array@[i]).topology_fits()
            &&& fits_i32(self.module_array@[i].cell_count())
        }
    }

    /// Returns the cell counts by which the packed volume of the battery
    /// weighs the packed volume of one module, array by array. The sum runs
    /// over every array but the last, so a battery of one array has no term.
    pub fn packed_volume_cell_counts(&self) -> (counts: Vec<i32>)
        requires
            self.packed_counts_defined(),
        ensures
            counts@.len() == self.module_array@.len() - 1,
            forall|i: int| 0 <= i < counts@.len() ==> counts@[i] == (#[trigger] self.module_array@[i]).cell_count(),
    {
        let n: usize = self.module_array.len();
        let mut counts: Vec<i32> = Vec::new();
        let mut i: usize = 0;
        while i < n - 1
            invariant
                n == self.module_array@.len(),
                self.packed_counts_defined(),
                i <= n - 1,
                counts@.len() == i,
                forall|k: int| 0 <= k < i ==> counts@[k] == (#[trigger] self.module_array@[k]).cell_count(),
            decreases n - 1 - i,
        {
            let cc: i32 = self.module_array[i].get_cell_count();
            counts.push(cc);
            i = i + 1;
        }
        counts
    }
}

/// The ratings that a chemistry implies where a descriptor gives none.
/// Voltages are in millivolts, the cycle life in cycles, the rate as a
/// multiple of the capacity, the specific heat in J/(kg K).
#[derive(Copy, Clone, Debug, PartialEq, Eq, Structural)]
pub struct ChemDefaults {
    pub vmin_mv: i32,
    pub vnom_mv: i32,
    pub vmax_mv: i32,
    pub cycle_life: i32,
    pub current_max_c: i32,
    pub specific_heat: i32,
    pub temp_max: i32,
    pub temp_min: i32,
}

/// The continuous rate assumed of every chemistry, as a multiple of the
/// capacity.
pub const DEFAULT_CURRENT_MAX_C: i32 = 2;

/// The specific heat assumed of every chemistry.
pub const DEFAULT_SPECIFIC_HEAT: i32 = 800;

/// The first of the two temperature limits assumed of every chemistry. It
/// is recorded below `DEFAULT_TEMP_MIN`: the two limits are kept as the
/// table has always held them, not as their names suggest.
pub const DEFAULT_TEMP_MAX: i32 = -20;

/// The second of the two temperature limits assumed of every chemistry.
pub const DEFAULT_TEMP_MIN: i32 = 60;

/// The voltage window of a chemistry in millivolts: minimum, nominal and
/// maximum.
pub open spec fn voltage_window_mv(chem: Chem) -> (int, int, int) {
    match chem {
        Chem::NMC => (3000, 3700, 4200),
        Chem::NCA => (3000, 3700, 4300),
        Chem::LFP => (3000, 3200, 3600),
        Chem::LMO => (3200, 3800, 4200),
        Chem::LTO => (1800, 2300, 2800),
        Chem::NiMH => (1000, 1200, 1300),
        Chem::Other => (0, 0, 0),
    }
}

/// The number of cycles that a chemistry lasts.
pub open spec fn cycle_life(chem: Chem) -> int {
    match chem {
        Chem::NMC => 700,
        Chem::NCA => 1000,
        Chem::LFP => 2000,
        Chem::LMO => 700,
        Chem::LTO => 5000,
        Chem::NiMH => 1000,
        Chem::Other => 0,
    }
}

/// The table of defaults: the voltage window and the cycle life of the
/// chemistry, and four values that are the same for all of them.
pub open spec fn chem_defaults(chem: Chem) -> ChemDefaults {
    ChemDefaults {
        vmin_mv: voltage_window_mv(chem).0 as i32,
        vnom_mv: voltage_window_mv(chem).1 as i32,
        vmax_mv: voltage_window_mv(chem).2 as i32,
        cycle_life: cycle_life(chem) as i32,
        current_max_c: DEFAULT_CURRENT_MAX_C,
        specific_heat: DEFAULT_SPECIFIC_HEAT,
        temp_max: DEFAULT_TEMP_MAX,
        temp_min: DEFAULT_TEMP_MIN,
    }
}

/// Looks up the default ratings of a chemistry.
pub fn defaults_from_chem(chem: &Chem) -> (defaults: ChemDefaults)
    ensures
        defaults == chem_defaults(*chem),
        defaults.vmin_mv == voltage_window_mv(*chem).0,
        defaults.vnom_mv == voltage_window_mv(*chem).1,
        defaults.vmax_mv == voltage_window_mv(*chem).2,
        defaults.cycle_life == cycle_life(*chem),
{
    let (vmin_mv, vnom_mv, vmax_mv, cycle_life): (i32, i32, i32, i32) = match chem {
        Chem::NMC => (3000, 3700, 4200, 700),
        Chem::NCA => (3000, 3700, 4300, 1000),
        Chem::LFP => (3000, 3200, 3600, 2000),
        Chem::LMO => (3200, 3800, 4200, 700),
        Chem::LTO => (1800, 2300, 2800, 5000),
        Chem::NiMH => (1000, 1200, 1300, 1000),
        Chem::Other => (0, 0, 0, 0),
    };
    ChemDefaults {
        vmin_mv,
        vnom_mv,
        vmax_mv,
        cycle_life,
        current_max_c: DEFAULT_CURRENT_MAX_C,
        specific_heat: DEFAULT_SPECIFIC_HEAT,
        temp_max: DEFAULT_TEMP_MAX,
        temp_min: DEFAULT_TEMP_MIN,
    }
}

/// The voltage window of every chemistry is ordered: the minimum is not
/// above the nominal voltage, which is not above the maximum. For every
/// chemistry but `Other`, whose window is all zero, the three are positive
/// and strictly ordered.
pub proof fn lemma_voltage_window_ordered(chem: Chem)
    ensures
        chem_defaults(chem).vmin_mv <= chem_defaults(chem).vnom_mv <= chem_defaults(chem).vmax_mv,
        chem != Chem::Other ==> 0 < chem_defaults(chem).vmin_mv < chem_defaults(chem).vnom_mv
            < chem_defaults(chem).vmax_mv,
        chem == Chem::Other ==> chem_defaults(chem).vmin_mv == 0 && chem_defaults(chem).vnom_mv == 0
            && chem_defaults(chem).vmax_mv == 0 && chem_defaults(chem).cycle_life == 0,
{
}

} // verus!
