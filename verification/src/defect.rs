use crate::decimal::{decimal, to_decimal};
use crate::error::BairiakError;
use crate::text::{lemma_occurs_between, occurs_in};
use crate::width::MAX_POSITIONS;
use vstd::prelude::*;
use vstd::string::*;

verus! {

/// Why an enum definition is refused.
#[derive(PartialEq, Eq, Structural, Clone, Copy, Debug)]
pub enum Defect {
    /// The enum's name has not the shape of a name.
    EnumName,
    /// The enum has no variants.
    NoVariants,
    /// A variant's name has not the shape of a name.
    VariantName,
    /// The enum has this many variants, too many for any container.
    TooManyVariants(usize),
}

// The pieces of the diagnostics for the defects of an enum definition.
pub const PARSE_FAILED: &'static str = "Error parsing Bairiak enums\nError: ";

pub const ENUM_NAME_REFUSED: &'static str = "Invalid enum name. Enum name should be in CamelCase.";

pub const NO_VARIANTS: &'static str = "Enum variants cannot be empty.";

pub const VARIANT_NAME_REFUSED: &'static str =
    "Invalid enum variant. Enum variant should be in CamelCase.";

pub const OUT_OF_RANGE: &'static str = "Position out of range: ";

pub const MAXIMUM_IS: &'static str = ". Maximum positions supported is ";

pub const SENTENCE_END: &'static str = ".";

/// The diagnostic for a defect. That for too many variants cites the
/// number of variants and the maximum.
pub open spec fn defect_message(defect: Defect) -> Seq<char> {
    match defect {
        Defect::EnumName => PARSE_FAILED@ + ENUM_NAME_REFUSED@,
        Defect::NoVariants => PARSE_FAILED@ + NO_VARIANTS@,
        Defect::VariantName => PARSE_FAILED@ + VARIANT_NAME_REFUSED@,
        Defect::TooManyVariants(count) => PARSE_FAILED@ + OUT_OF_RANGE@ + decimal(count as nat)
            + MAXIMUM_IS@ + decimal(MAX_POSITIONS as nat) + SENTENCE_END@,
    }
}

impl Defect {
    /// The error that a defect is reported as: too many variants are out
    /// of range, every other defect is a parse error.
    pub open spec fn error(self) -> BairiakError {
        match self {
            Defect::TooManyVariants(_) => BairiakError::PositionOutOfRangeError,
            _ => BairiakError::ParseBairiakEnumsError,
        }
    }

    /// The error that this defect is reported as.
    pub fn to_error(&self) -> (error: BairiakError)
        ensures
            error == self.error(),
    {
        match self {
            Defect::TooManyVariants(_) => BairiakError::PositionOutOfRangeError,
            _ => BairiakError::ParseBairiakEnumsError,
        }
    }

    /// The diagnostic for this defect.
    pub fn message(&self) -> (text: String)
        ensures
            text@ == defect_message(*self),
    {
        let mut text = String::from_str(PARSE_FAILED);
        match self {
            Defect::EnumName => {
                text.append(ENUM_NAME_REFUSED);
            },
            Defect::NoVariants => {
                text.append(NO_VARIANTS);
            },
            Defect::VariantName => {
                text.append(VARIANT_NAME_REFUSED);
            },
            Defect::TooManyVariants(count) => {
                let cited = to_decimal(*count);
                let maximum = to_decimal(MAX_POSITIONS);
                text.append(OUT_OF_RANGE);
                text.append(cited.as_str());
                text.append(MAXIMUM_IS);
                text.append(maximum.as_str());
                text.append(SENTENCE_END);
            },
        }
        assert(text@ =~= defect_message(*self));
        text
    }
}

/// The diagnostic for too many variants cites the offending number of
/// variants and the maximum, 128, both in decimal.
pub proof fn lemma_out_of_range_message_cites_count_and_maximum(count: usize)
    ensures
        occurs_in(decimal(count as nat), defect_message(Defect::TooManyVariants(count))),
        occurs_in(decimal(MAX_POSITIONS as nat), defect_message(Defect::TooManyVariants(count))),
        decimal(MAX_POSITIONS as nat) == "128"@,
{
    let message = defect_message(Defect::TooManyVariants(count));
    let cited = decimal(count as nat);
    let maximum = decimal(MAX_POSITIONS as nat);
    assert(occurs_in(cited, message)) by {
        let before = PARSE_FAILED@ + OUT_OF_RANGE@;
        let after = MAXIMUM_IS@ + maximum + SENTENCE_END@;
        lemma_occurs_between(before, cited, after);
        assert(message =~= before + cited + after);
    }
    assert(occurs_in(maximum, message)) by {
        let before = PARSE_FAILED@ + OUT_OF_RANGE@ + cited + MAXIMUM_IS@;
        lemma_occurs_between(before, maximum, SENTENCE_END@);
        assert(message =~= before + maximum + SENTENCE_END@);
    }
    assert(maximum =~= "128"@) by {
        reveal_strlit("128");
        reveal_with_fuel(decimal, 4);
    }
}

} // verus!
