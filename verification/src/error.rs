use vstd::prelude::*;

verus! {

/// The closed set of ways in which generating flag enums can fail.
#[derive(PartialEq, Eq, Structural, Clone, Copy, Debug)]
pub enum BairiakError {
    /// The spec source could not be read.
    ReadSpecError,
    /// The spec text is not a well-formed list of enum definitions.
    DeserializeYamlError,
    /// An enum or variant name has the wrong shape, or an enum has no variants.
    ParseBairiakEnumsError,
    /// The generated text could not be written.
    WriteFileError,
    /// An enum declares more variants than the widest container has positions.
    PositionOutOfRangeError,
}

} // verus!
