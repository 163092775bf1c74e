use crate::codegen::{
    defect_of, enums_source, find_validation_defect, lemma_defect_persists, Enum, EnumModel,
    EnumSpec,
};
use crate::defect::Defect;
use crate::width::count_defect;
use vstd::prelude::*;

verus! {

/// The first defect of an enum definition, or `None` where it is accepted:
/// what validation finds, and for a definition that passes it, whether its
/// variants are too many.
pub fn find_defect(e: &Enum) -> (defect: Option<Defect>)
    ensures
        defect == defect_of(e@),
{
    match find_validation_defect(e.name.as_str(), &e.variants) {
        Some(defect) => Some(defect),
        None => count_defect(e.variants.len()),
    }
}

/// The defect that ends the generation from a list of enums: the first
/// defect of the first enum that has one.
pub open spec fn first_defect(enums: Seq<EnumModel>) -> Option<Defect> {
    match enums_source(enums) {
        Ok(_) => None,
        Err(defect) => Some(defect),
    }
}

/// Finds the defect that ends the generation from `enums`, or `None` where
/// every enum is accepted.
pub fn find_first_defect(enums: &EnumSpec) -> (defect: Option<Defect>)
    ensures
        defect == first_defect(enums@),
{
    let count = enums.enums.len();
    let mut i: usize = 0;
    assert(enums@.take(0) =~= Seq::empty());
    while i < count
        invariant
            i <= count,
            count == enums@.len(),
            count == enums.enums@.len(),
            enums_source(enums@.take(i as int)) is Ok,
        decreases count - i,
    {
        proof {
            assert(enums@.take(i + 1).drop_last() =~= enums@.take(i as int));
            assert(enums@.take(i + 1).last() == enums.enums@[i as int]@);
        }
        match find_defect(&enums.enums[i]) {
            Some(defect) => {
                proof {
                    lemma_defect_persists(enums@, i + 1);
                }
                return Some(defect);
            },
            None => {},
        }
        i = i + 1;
    }
    assert(enums@.take(count as int) =~= enums@);
    None
}

} // verus!
