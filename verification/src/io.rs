//! Decoding of module descriptors: free-form tags become categories, and
//! a tag that is not known becomes the default category instead of an
//! error.

use crate::electrical::{Chem, ModType, Module, Shape, Term};
use vstd::prelude::*;

verus! {

/// A module descriptor as it is read: the categories are still text.
#[derive(Clone, Debug)]
pub struct InputModule {
    pub shape: String,
    pub input_type: String,
    pub chem: String,
    pub series: i32,
    pub parallel: i32,
    pub termination: String,
}

/// The shape that a tag names.
pub open spec fn shape_of(tag: Seq<char>) -> Shape {
    if tag == "cylinder"@ {
        Shape::Cylinder
    } else if tag == "prism"@ {
        Shape::Prism
    } else {
        Shape::Other
    }
}

/// The descriptor type that a tag names.
pub open spec fn mod_type_of(tag: Seq<char>) -> ModType {
    if tag == "cell"@ {
        ModType::Cell
    } else {
        ModType::Module
    }
}

/// The termination that a tag names.
pub open spec fn term_of(tag: Seq<char>) -> Term {
    if tag == "axial"@ {
        Term::Axial
    } else if tag == "end"@ {
        Term::End
    } else {
        Term::Other
    }
}

/// The chemistry that a tag in lower case names.
pub open spec fn chem_of(lowered: Seq<char>) -> Chem {
    if lowered == "lmo"@ {
        Chem::LMO
    } else if lowered == "nmc"@ {
        Chem::NMC
    } else if lowered == "nca"@ {
        Chem::NCA
    } else if lowered == "lfp"@ {
        Chem::LFP
    } else {
        Chem::Other
    }
}

/// The lower-case form of a text, as `str::to_lowercase` gives it.
pub uninterp spec fn lowercase_of(text: Seq<char>) -> Seq<char>;

/// Calls `str::to_lowercase`. The contract names the result and claims
/// nothing else of it: the call is a function of the text alone, fixed by
/// the Unicode tables that the standard library holds.
#[verifier::external_body]
fn to_lowercase(text: &str) -> (lowered: String)
    ensures
        lowered@ == lowercase_of(text@),
{
    text.to_lowercase()
}

/// Whether two texts hold the same characters.
fn same_text(a: &str, b: &str) -> (same: bool)
    ensures
        same == (a@ == b@),
{
    a.to_owned() == b.to_owned()
}

/// Decodes the shape tag of a descriptor.
pub fn shape_from_tag(tag: &str) -> (shape: Shape)
    ensures
        shape == shape_of(tag@),
{
    if same_text(tag, "cylinder") {
        Shape::Cylinder
    } else if same_text(tag, "prism") {
        Shape::Prism
    } else {
        Shape::Other
    }
}

/// Decodes the type tag of a descriptor.
pub fn mod_type_from_tag(tag: &str) -> (input_type: ModType)
    ensures
        input_type == mod_type_of(tag@),
{
    if same_text(tag, "cell") {
        ModType::Cell
    } else {
        ModType::Module
    }
}

/// Decodes the termination tag of a descriptor.
pub fn term_from_tag(tag: &str) -> (termination: Term)
    ensures
        termination == term_of(tag@),
{
    if same_text(tag, "axial") {
        Term::Axial
    } else if same_text(tag, "end") {
        Term::End
    } else {
        Term::Other
    }
}

/// Decodes a chemistry tag that is already in lower case.
pub fn chem_from_lowered(lowered: &str) -> (chem: Chem)
    ensures
        chem == chem_of(lowered@),
{
    if same_text(lowered, "lmo") {
        Chem::LMO
    } else if same_text(lowered, "nmc") {
        Chem::NMC
    } else if same_text(lowered, "nca") {
        Chem::NCA
    } else if same_text(lowered, "lfp") {
        Chem::LFP
    } else {
        Chem::Other
    }
}

/// Decodes the chemistry tag of a descriptor, whatever its case.
pub fn chem_from_tag(tag: &str) -> (chem: Chem)
    ensures
        chem == chem_of(lowercase_of(tag@)),
{
    let lowered = to_lowercase(tag);
    chem_from_lowered(lowered.as_str())
}

/// The module that a descriptor stands for.
pub open spec fn decoded(m: InputModule) -> Module {
    Module {
        shape: shape_of(m.shape@),
        input_type: mod_type_of(m.input_type@),
        chem: chem_of(lowercase_of(m.chem@)),
        series: m.series,
        parallel: m.parallel,
        termination: term_of(m.termination@),
    }
}

/// Decodes a descriptor: each tag becomes its category, the counts are
/// kept as they are.
pub fn input_module_to_module(m: InputModule) -> (module: Module)
    ensures
        module == decoded(m),
{
    Module {
        shape: shape_from_tag(m.shape.as_str()),
        input_type: mod_type_from_tag(m.input_type.as_str()),
        chem: chem_from_tag(m.chem.as_str()),
        series: m.series,
        parallel: m.parallel,
        termination: term_from_tag(m.termination.as_str()),
    }
}

} // verus!
