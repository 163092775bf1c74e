use crate::defect::Defect;
use crate::error::BairiakError;
use vstd::prelude::*;
use vstd::string::*;

verus! {

/// The number of positions of the widest container. An enum must have
/// fewer variants than this.
pub const MAX_POSITIONS: usize = 128;

// The expressions for the empty container of each width.
pub const ZERO_U8: &'static str = "Bairiak::U8(0u8)";

pub const ZERO_U16: &'static str = "Bairiak::U16(0u16)";

pub const ZERO_U32: &'static str = "Bairiak::U32(0u32)";

pub const ZERO_U64: &'static str = "Bairiak::U64(0u64)";

pub const ZERO_U128: &'static str = "Bairiak::U128(0u128)";

/// The width, in bits, of the container chosen for an enum of `count`
/// variants: the narrowest of the five that has more positions than the
/// enum has variants.
pub open spec fn selected_width(count: nat) -> nat
    recommends
        count < MAX_POSITIONS,
{
    if count < 8 {
        8
    } else if count < 16 {
        16
    } else if count < 32 {
        32
    } else if count < 64 {
        64
    } else {
        128
    }
}

/// The expression that builds the empty container of the width chosen for
/// `count` variants.
pub open spec fn zero_bairiak_source(count: nat) -> Seq<char>
    recommends
        count < MAX_POSITIONS,
{
    if selected_width(count) == 8 {
        ZERO_U8@
    } else if selected_width(count) == 16 {
        ZERO_U16@
    } else if selected_width(count) == 32 {
        ZERO_U32@
    } else if selected_width(count) == 64 {
        ZERO_U64@
    } else {
        ZERO_U128@
    }
}

/// The defect of an enum of `count` variants that comes from their number:
/// with 128 variants or more no container holds them, and the defect
/// carries the number.
pub open spec fn count_defect_of(count: nat) -> Option<Defect> {
    if count >= MAX_POSITIONS {
        Some(Defect::TooManyVariants(count as usize))
    } else {
        None
    }
}

/// Tells whether `variants_len` variants are too many for any container,
/// and if so reports their number.
pub fn count_defect(variants_len: usize) -> (defect: Option<Defect>)
    ensures
        defect == count_defect_of(variants_len as nat),
{
    if variants_len >= MAX_POSITIONS {
        Some(Defect::TooManyVariants(variants_len))
    } else {
        None
    }
}

/// Chooses the container for an enum of `variants_len` variants and gives
/// the expression for its empty value. An enum of 128 variants or more
/// fits no container: the error is that of the defect which carries the
/// number of variants, and whose diagnostic cites it and the maximum.
pub fn generete_zero_bairiak(variants_len: usize) -> (source: Result<String, BairiakError>)
    ensures
        match count_defect_of(variants_len as nat) {
            Some(defect) => defect == Defect::TooManyVariants(variants_len) && source == Err::<
                String,
                BairiakError,
            >(defect.error()),
            None => source is Ok && source->Ok_0@ == zero_bairiak_source(variants_len as nat),
        },
        variants_len >= MAX_POSITIONS <==> source == Err::<String, BairiakError>(
            BairiakError::PositionOutOfRangeError,
        ),
{
    match count_defect(variants_len) {
        Some(defect) => {
            return Err(defect.to_error());
        },
        None => {},
    }
    let zero_bairiak = if variants_len < 8 {
        ZERO_U8
    } else if variants_len < 16 {
        ZERO_U16
    } else if variants_len < 32 {
        ZERO_U32
    } else if variants_len < 64 {
        ZERO_U64
    } else {
        ZERO_U128
    };
    Ok(String::from_str(zero_bairiak))
}

/// Every variant of an enum that gets a container has a position in it:
/// the index of a variant is below the selected width.
pub proof fn lemma_selected_width_holds_every_variant(count: nat, index: nat)
    requires
        index < count,
        count < MAX_POSITIONS,
    ensures
        index < selected_width(count),
        selected_width(count) <= MAX_POSITIONS,
{
}

/// The selected container is the narrowest that will do: no container
/// with more positions than the enum has variants is narrower.
pub proof fn lemma_selected_width_is_narrowest(count: nat, width: nat)
    requires
        count < MAX_POSITIONS,
        width == 8 || width == 16 || width == 32 || width == 64 || width == 128,
        count < width,
    ensures
        selected_width(count) <= width,
{
}

} // verus!
