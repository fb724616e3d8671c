//! The mechanical side of a module: how single cells are described and how
//! densely each shape packs.

use crate::electrical::{chem_defaults, defaults_from_chem, Chem, ChemDefaults, ModType, Module, Shape, Term};
use vstd::prelude::*;

verus! {

/// The share of a packed volume that cells of a shape fill, in percent.
pub open spec fn packing_efficiency_percent(shape: Shape) -> int {
    match shape {
        Shape::Cylinder => 90,
        Shape::Prism => 98,
        Shape::Other => 100,
    }
}

/// The module that stands for one cell of a shape and a chemistry: one
/// cell in series, one in parallel, with axial terminals.
pub open spec fn single_cell(shape: Shape, chem: Chem) -> Module {
    Module {
        shape,
        input_type: ModType::Cell,
        chem,
        series: 1,
        parallel: 1,
        termination: Term::Axial,
    }
}

impl Module {
    /// Describes one rectangular cell of the chemistry `chem`: the cell,
    /// and the ratings that the table of defaults gives for its chemistry.
    pub fn new_rec_cell(chem: Chem) -> (cell: (Module, ChemDefaults))
        ensures
            cell.0 == single_cell(Shape::Prism, chem),
            cell.1 == chem_defaults(chem),
            cell.1 == chem_defaults(cell.0.chem),
    {
        let module = Module {
            shape: Shape::Prism,
            input_type: ModType::Cell,
            chem,
            series: 1,
            parallel: 1,
            termination: Term::Axial,
        };
        (module, defaults_from_chem(&chem))
    }

    /// Describes one cylindrical cell of the chemistry `chem`: the cell,
    /// and the ratings that the table of defaults gives for its chemistry.
    pub fn new_cyl_cell(chem: Chem) -> (cell: (Module, ChemDefaults))
        ensures
            cell.0 == single_cell(Shape::Cylinder, chem),
            cell.1 == chem_defaults(chem),
            cell.1 == chem_defaults(cell.0.chem),
    {
        let module = Module {
            shape: Shape::Cylinder,
            input_type: ModType::Cell,
            chem,
            series: 1,
            parallel: 1,
            termination: Term::Axial,
        };
        (module, defaults_from_chem(&chem))
    }

    /// Returns the share of a packed volume that modules of this shape
    /// fill, in percent. It never exceeds 100, so a packed volume is never
    /// below the volume of the cells in it.
    pub fn get_packing_efficiency_percent(self) -> (percent: i32)
        ensures
            percent == packing_efficiency_percent(self.shape),
            1 <= percent <= 100,
    {
        match self.shape {
            Shape::Cylinder => 90,
            Shape::Prism => 98,
            Shape::Other => 100,
        }
    }
}

} // verus!
