//! An RX1200 preset as its file describes it.

use vstd::prelude::*;
use crate::FloatBits;

verus! {

/// The root element of an `.rx1200` file: the preset's name and its tags, in file order.
pub struct Preset {
    pub name: String,
    pub tags: Vec<Tag>,
}

/// One child element of the root.
pub enum Tag {
    Param(Param),
    Samples(Samples),
    Gui(Gui),
}

/// A named parameter, with a value where the file gives one.
pub struct Param {
    pub id: String,
    pub value: Option<ParamValue>,
}

/// A parameter's value, together with the rounded multiples of it that a preset takes:
/// the reader of the file computes them from the value.
#[derive(Clone, Copy, Debug, PartialEq, Eq, Structural)]
pub struct ParamValue {
    /// The value itself.
    pub bits: FloatBits,
    /// Fifteen times the value, rounded half away from zero, converted to `u8`.
    pub fifteenths: u8,
    /// Seven times the value, rounded half away from zero, converted to `u8`.
    pub sevenths: u8,
}

/// The list of samples that the pads play.
pub struct Samples {
    pub items: Vec<Sample>,
}

/// The sample that one pad plays.
pub struct Sample {
    pub id: String,
    pub reversed: bool,
    pub gain: FloatBits,
    pub start: u32,
    pub end: u32,
    pub references: Option<References>,
}

/// Where a sample's audio file is found.
pub struct References {
    pub reference: Option<Reference>,
}

/// A file reference: its kind and its path (absolute, or relative to a data folder).
pub struct Reference {
    pub ref_type: String,
    pub value: String,
}

/// The parameters of the editor's interface.
pub struct Gui {
    pub params: Vec<Param>,
}

} // verus!
