use crate::decimal::{decimal, to_decimal};
use crate::defect::Defect;
use crate::error::BairiakError;
use crate::name::{is_camel_case, valid_name};
use crate::text::{lemma_occurs_between, occurs_in};
use crate::width::{count_defect_of, generete_zero_bairiak, zero_bairiak_source, MAX_POSITIONS};
use vstd::prelude::*;
use vstd::string::*;

verus! {

/// One flag enum of a spec: its name and its variants. The place of a
/// variant in the list is its bit position.
#[derive(Debug)]
pub struct Enum {
    pub name: String,
    pub variants: Vec<String>,
}

/// The enums of a spec, in the order in which their definitions are
/// generated.
#[derive(Debug)]
pub struct EnumSpec {
    pub enums: Vec<Enum>,
}

/// An enum definition as plain text: what the generator reads of an
/// [`Enum`].
pub struct EnumModel {
    pub name: Seq<char>,
    pub variants: Seq<Seq<char>>,
}

impl View for Enum {
    type V = EnumModel;

    open spec fn view(&self) -> EnumModel {
        EnumModel { name: self.name@, variants: variant_names(self.variants@) }
    }
}

impl View for EnumSpec {
    type V = Seq<EnumModel>;

    open spec fn view(&self) -> Seq<EnumModel> {
        Seq::new(self.enums@.len(), |i: int| self.enums@[i]@)
    }
}

/// The texts of a list of variant names.
pub open spec fn variant_names(variants: Seq<String>) -> Seq<Seq<char>> {
    Seq::new(variants.len(), |i: int| variants[i]@)
}

// The pieces of the generated text, in the order in which they are written.
pub const ATTRIBUTES: &'static str =
    "\n#[repr(u8)]\n#[allow(dead_code)]\n#[derive(Hash, Eq, PartialEq, Debug)]\n";

pub const ENUM_KEYWORD: &'static str = "enum ";

pub const BODY_OPEN: &'static str = " {\n";

pub const INDENT: &'static str = "    ";

pub const ASSIGN: &'static str = " = ";

pub const LINE_END: &'static str = ",\n";

pub const IMPL_OPEN: &'static str = "}\n\nimpl BairiakEnum for ";

pub const ZERO_OPEN: &'static str = " {\n    fn get_zero_bairiak() -> Bairiak {\n        ";

pub const IMPL_CLOSE: &'static str =
    "\n    }\n\n    fn to_u8(self) -> u8 {\n        self as u8\n    }\n}\n";

/// The opening of an enum definition: its attributes and its name.
pub open spec fn enum_head(name: Seq<char>) -> Seq<char> {
    ATTRIBUTES@ + ENUM_KEYWORD@ + name + BODY_OPEN@
}

/// The line that binds the variant `variant` to its position `index`.
pub open spec fn variant_line(variant: Seq<char>, index: nat) -> Seq<char> {
    INDENT@ + variant + ASSIGN@ + decimal(index) + LINE_END@
}

/// The lines of the first `count` variants, in list order.
pub open spec fn variant_lines(variants: Seq<Seq<char>>, count: nat) -> Seq<char>
    recommends
        count <= variants.len(),
    decreases count,
{
    if count == 0 {
        Seq::empty()
    } else {
        variant_lines(variants, (count - 1) as nat) + variant_line(
            variants[count - 1],
            (count - 1) as nat,
        )
    }
}

/// The end of an enum definition and the implementation of the flag trait:
/// the zero container of the selected width, and the discriminant as the
/// position.
pub open spec fn enum_tail(name: Seq<char>, count: nat) -> Seq<char> {
    IMPL_OPEN@ + name + ZERO_OPEN@ + zero_bairiak_source(count) + IMPL_CLOSE@
}

/// The whole text generated for one enum.
pub open spec fn enum_source(e: EnumModel) -> Seq<char> {
    enum_head(e.name) + variant_lines(e.variants, e.variants.len()) + enum_tail(
        e.name,
        e.variants.len(),
    )
}

/// The first defect that validating an enum definition finds: its name is
/// looked at first, then whether it has a variant, then the variants'
/// names in list order. `None` for a definition that passes.
pub open spec fn validation_defect_of(e: EnumModel) -> Option<Defect> {
    if !valid_name(e.name) {
        Some(Defect::EnumName)
    } else if e.variants.len() == 0 {
        Some(Defect::NoVariants)
    } else if exists|i: int| 0 <= i < e.variants.len() && !valid_name(#[trigger] e.variants[i]) {
        Some(Defect::VariantName)
    } else {
        None
    }
}

/// The first defect of an enum definition: the name and the variants are
/// validated first, and only a definition that passes is asked for the
/// number of its variants. `None` for a definition that is accepted.
pub open spec fn defect_of(e: EnumModel) -> Option<Defect> {
    match validation_defect_of(e) {
        Some(defect) => Some(defect),
        None => count_defect_of(e.variants.len()),
    }
}

impl EnumModel {
    /// What an enum definition must meet to be generated: a name of the
    /// right shape, at least one variant and fewer than the widest
    /// container has positions, and every variant's name of the right
    /// shape.
    pub open spec fn well_formed(self) -> bool {
        &&& valid_name(self.name)
        &&& 0 < self.variants.len() < MAX_POSITIONS
        &&& forall|i: int| 0 <= i < self.variants.len() ==> valid_name(#[trigger] self.variants[i])
    }
}

/// An enum definition has no defect exactly when it is well formed.
pub proof fn lemma_no_defect_iff_well_formed(e: EnumModel)
    ensures
        defect_of(e) is None <==> e.well_formed(),
{
}

/// Validation comes before the selection of the container: a definition
/// that validation refuses is refused with a parse error, however many
/// variants it has.
pub proof fn lemma_validation_comes_before_width(e: EnumModel)
    requires
        validation_defect_of(e) is Some,
    ensures
        defect_of(e) == validation_defect_of(e),
        defect_of(e)->Some_0.error() == BairiakError::ParseBairiakEnumsError,
{
}

/// Only a definition that passes validation is refused for the number of
/// its variants, and then the defect carries that number.
pub proof fn lemma_out_of_range_carries_count(e: EnumModel)
    requires
        defect_of(e) is Some,
        defect_of(e)->Some_0.error() == BairiakError::PositionOutOfRangeError,
    ensures
        validation_defect_of(e) is None,
        e.variants.len() >= MAX_POSITIONS,
        defect_of(e) == Some(Defect::TooManyVariants(e.variants.len() as usize)),
{
}

/// Whether `source` is what generating the enum `e` gives.
pub open spec fn is_enum_result(e: EnumModel, source: Result<String, BairiakError>) -> bool {
    match defect_of(e) {
        Some(defect) => source == Err::<String, BairiakError>(defect.error()),
        None => source is Ok && source->Ok_0@ == enum_source(e),
    }
}

/// Validates an enum definition and names the first defect: the enum's
/// name, an empty variant list, the first variant name of the wrong shape.
pub fn find_validation_defect(name: &str, variants: &Vec<String>) -> (defect: Option<Defect>)
    ensures
        defect == validation_defect_of(
            EnumModel { name: name@, variants: variant_names(variants@) },
        ),
{
    if !is_camel_case(name) {
        return Some(Defect::EnumName);
    }
    let count = variants.len();
    if count == 0 {
        return Some(Defect::NoVariants);
    }
    let ghost names = variant_names(variants@);
    let mut i: usize = 0;
    while i < count
        invariant
            i <= count,
            count == variants@.len(),
            names == variant_names(variants@),
            valid_name(name@),
            count > 0,
            forall|j: int| 0 <= j < i ==> valid_name(#[trigger] names[j]),
        decreases count - i,
    {
        let v = &variants[i];
        assert(v@ == names[i as int]);
        if !is_camel_case(v.as_str()) {
            assert(!valid_name(names[i as int]));
            return Some(Defect::VariantName);
        }
        i = i + 1;
    }
    None
}

/// Validates an enum definition: its name and every variant's name must
/// have the shape of a name, and there must be a variant.
pub fn validate_enum(name: &str, variants: &Vec<String>) -> (checked: Result<(), BairiakError>)
    ensures
        checked == if validation_defect_of(
            EnumModel { name: name@, variants: variant_names(variants@) },
        ) is None {
            Ok::<(), BairiakError>(())
        } else {
            Err::<(), BairiakError>(BairiakError::ParseBairiakEnumsError)
        },
{
    match find_validation_defect(name, variants) {
        Some(defect) => Err(defect.to_error()),
        None => Ok(()),
    }
}

/// Generates the definition of one flag enum and its implementation of the
/// flag trait, or refuses the enum for its first defect. The definition is
/// validated first, then the container is selected, and only then is text
/// written: an enum that is refused leaves nothing behind.
pub fn generate_enum(e: &Enum) -> (source: Result<String, BairiakError>)
    ensures
        is_enum_result(e@, source),
{
    match validate_enum(e.name.as_str(), &e.variants) {
        Err(error) => {
            return Err(error);
        },
        Ok(_) => {},
    }
    let zero_bairiak = match generete_zero_bairiak(e.variants.len()) {
        Err(error) => {
            return Err(error);
        },
        Ok(zero_bairiak) => zero_bairiak,
    };

    let mut enum_code = String::from_str(ATTRIBUTES);
    enum_code.append(ENUM_KEYWORD);
    enum_code.append(e.name.as_str());
    enum_code.append(BODY_OPEN);

    let ghost names = e@.variants;
    let count = e.variants.len();
    let mut i: usize = 0;
    while i < count
        invariant
            i <= count,
            count == e.variants@.len(),
            names == e@.variants,
            enum_code@ == enum_head(e@.name) + variant_lines(names, i as nat),
        decreases count - i,
    {
        let v = &e.variants[i];
        assert(v@ == names[i as int]);
        let index = to_decimal(i);
        let ghost before = enum_code@;
        enum_code.append(INDENT);
        enum_code.append(v.as_str());
        enum_code.append(ASSIGN);
        enum_code.append(index.as_str());
        enum_code.append(LINE_END);
        assert(enum_code@ =~= before + variant_line(names[i as int], i as nat));
        i = i + 1;
    }

    let ghost lines = enum_code@;
    enum_code.append(IMPL_OPEN);
    enum_code.append(e.name.as_str());
    enum_code.append(ZERO_OPEN);
    enum_code.append(zero_bairiak.as_str());
    enum_code.append(IMPL_CLOSE);
    assert(enum_code@ =~= lines + enum_tail(e@.name, count as nat));
    Ok(enum_code)
}

/// What generating a list of enums gives: the texts of the enums one after
/// another in list order, or the first defect of the first enum that has
/// one.
pub open spec fn enums_source(enums: Seq<EnumModel>) -> Result<Seq<char>, Defect>
    decreases enums.len(),
{
    if enums.len() == 0 {
        Ok(Seq::empty())
    } else {
        match enums_source(enums.drop_last()) {
            Err(defect) => Err(defect),
            Ok(text) => match defect_of(enums.last()) {
                Some(defect) => Err(defect),
                None => Ok(text + enum_source(enums.last())),
            },
        }
    }
}

/// Whether `source` is what generating the list `enums` gives.
pub open spec fn is_enums_result(
    enums: Seq<EnumModel>,
    source: Result<String, BairiakError>,
) -> bool {
    match enums_source(enums) {
        Ok(text) => source is Ok && source->Ok_0@ == text,
        Err(defect) => source == Err::<String, BairiakError>(defect.error()),
    }
}

/// A defect among the first `k` enums is the outcome for the whole list.
pub proof fn lemma_defect_persists(enums: Seq<EnumModel>, k: int)
    requires
        0 <= k <= enums.len(),
        enums_source(enums.take(k)) is Err,
    ensures
        enums_source(enums) == enums_source(enums.take(k)),
    decreases enums.len() - k,
{
    if k == enums.len() {
        assert(enums.take(k) =~= enums);
    } else {
        assert(enums.take(k + 1).drop_last() =~= enums.take(k));
        lemma_defect_persists(enums, k + 1);
    }
}

/// Generates the definitions of all enums of a spec, in spec order. The
/// first enum that is refused ends the generation with its error, and
/// nothing of the text generated before it is returned.
pub fn generate_enums(enums: &EnumSpec) -> (source: Result<String, BairiakError>)
    ensures
        is_enums_result(enums@, source),
{
    let mut enums_code = String::new();
    let count = enums.enums.len();
    let mut i: usize = 0;
    assert(enums@.take(0) =~= Seq::empty());
    while i < count
        invariant
            i <= count,
            count == enums@.len(),
            count == enums.enums@.len(),
            enums_source(enums@.take(i as int)) == Ok::<Seq<char>, Defect>(enums_code@),
        decreases count - i,
    {
        let e = &enums.enums[i];
        proof {
            assert(enums@.take(i + 1).drop_last() =~= enums@.take(i as int));
            assert(enums@.take(i + 1).last() == e@);
        }
        match generate_enum(e) {
            Err(error) => {
                proof {
                    lemma_defect_persists(enums@, i + 1);
                }
                return Err(error);
            },
            Ok(enum_code) => {
                enums_code.append(enum_code.as_str());
            },
        }
        i = i + 1;
    }
    assert(enums@.take(count as int) =~= enums@);
    Ok(enums_code)
}

/// The enums before the first one with a defect are all generated.
proof fn lemma_sound_prefix_is_generated(enums: Seq<EnumModel>, k: int)
    requires
        0 <= k <= enums.len(),
        forall|j: int| 0 <= j < k ==> defect_of(#[trigger] enums[j]) is None,
    ensures
        enums_source(enums.take(k)) is Ok,
    decreases k,
{
    if k == 0 {
        assert(enums.take(0) =~= Seq::empty());
    } else {
        lemma_sound_prefix_is_generated(enums, k - 1);
        assert(enums.take(k).drop_last() =~= enums.take(k - 1));
        assert(enums.take(k).last() == enums[k - 1]);
    }
}

/// Generation fails fast: the first enum of the list that has a defect
/// decides the outcome, whatever follows it.
pub proof fn lemma_first_defect_ends_generation(enums: Seq<EnumModel>, i: int)
    requires
        0 <= i < enums.len(),
        forall|j: int| 0 <= j < i ==> defect_of(#[trigger] enums[j]) is None,
        defect_of(enums[i]) is Some,
    ensures
        enums_source(enums) == Err::<Seq<char>, Defect>(defect_of(enums[i])->Some_0),
{
    lemma_sound_prefix_is_generated(enums, i);
    assert(enums.take(i + 1).drop_last() =~= enums.take(i));
    assert(enums.take(i + 1).last() == enums[i]);
    lemma_defect_persists(enums, i + 1);
}

/// A list of enums is generated exactly when every enum of it is well
/// formed.
pub proof fn lemma_generated_iff_all_well_formed(enums: Seq<EnumModel>)
    ensures
        enums_source(enums) is Ok <==> forall|j: int|
            0 <= j < enums.len() ==> (#[trigger] enums[j]).well_formed(),
    decreases enums.len(),
{
    if enums.len() > 0 {
        let front = enums.drop_last();
        lemma_generated_iff_all_well_formed(front);
        assert(forall|j: int| 0 <= j < front.len() ==> front[j] == enums[j]);
        if enums_source(enums) is Ok {
            assert forall|j: int| 0 <= j < enums.len() implies (#[trigger] enums[j]).well_formed() by {
                if j < front.len() {
                    assert(front[j].well_formed());
                }
            }
        }
        if forall|j: int| 0 <= j < enums.len() ==> (#[trigger] enums[j]).well_formed() {
            assert forall|j: int| 0 <= j < front.len() implies (#[trigger] front[j]).well_formed() by {
                assert(enums[j].well_formed());
            }
            assert(enums.last().well_formed());
        }
    }
}

/// The text `variant = index` of the variant at `index`.
pub open spec fn assignment(e: EnumModel, index: int) -> Seq<char> {
    e.variants[index] + ASSIGN@ + decimal(index as nat)
}

/// The lines of the first `count` variants hold the line of each of them.
proof fn lemma_lines_hold_line(variants: Seq<Seq<char>>, count: nat, index: int) -> (around: (
    Seq<char>,
    Seq<char>,
))
    requires
        0 <= index < count <= variants.len(),
    ensures
        variant_lines(variants, count) == around.0 + variant_line(variants[index], index as nat)
            + around.1,
    decreases count,
{
    let shorter = variant_lines(variants, (count - 1) as nat);
    if index == count - 1 {
        let around = (shorter, Seq::<char>::empty());
        assert(variant_lines(variants, count) =~= around.0 + variant_line(
            variants[index],
            index as nat,
        ) + around.1);
        around
    } else {
        let inner = lemma_lines_hold_line(variants, (count - 1) as nat, index);
        let last = variant_line(variants[count - 1], (count - 1) as nat);
        let around = (inner.0, inner.1 + last);
        assert(variant_lines(variants, count) =~= around.0 + variant_line(
            variants[index],
            index as nat,
        ) + around.1);
        around
    }
}

/// The text generated for an accepted enum holds the keyword `enum`
/// followed by the enum's name, and for each variant its name, ` = ` and
/// its index in the list, in decimal.
pub proof fn lemma_source_names_enum_and_discriminants(e: EnumModel)
    requires
        e.well_formed(),
    ensures
        occurs_in(ENUM_KEYWORD@ + e.name, enum_source(e)),
        forall|i: int|
            0 <= i < e.variants.len() ==> occurs_in(#[trigger] assignment(e, i), enum_source(e)),
{
    let count = e.variants.len();
    let lines = variant_lines(e.variants, count);
    let tail = enum_tail(e.name, count);
    assert(occurs_in(ENUM_KEYWORD@ + e.name, enum_source(e))) by {
        let piece = ENUM_KEYWORD@ + e.name;
        let after = BODY_OPEN@ + lines + tail;
        lemma_occurs_between(ATTRIBUTES@, piece, after);
        assert(enum_source(e) =~= ATTRIBUTES@ + piece + after);
    }
    assert forall|i: int| 0 <= i < count implies occurs_in(
        #[trigger] assignment(e, i),
        enum_source(e),
    ) by {
        let around = lemma_lines_hold_line(e.variants, count, i);
        let before = enum_head(e.name) + around.0 + INDENT@;
        let after = LINE_END@ + around.1 + tail;
        lemma_occurs_between(before, assignment(e, i), after);
        assert(enum_source(e) =~= before + assignment(e, i) + after);
    }
}

/// An enum without variants is refused with a parse error, whatever its
/// name.
pub proof fn lemma_empty_variant_list_refused(e: EnumModel)
    requires
        e.variants.len() == 0,
    ensures
        defect_of(e) is Some,
        defect_of(e)->Some_0.error() == BairiakError::ParseBairiakEnumsError,
{
}

/// Generating from the same enums twice gives the same outcome: the same
/// text, character for character, or the same error.
pub proof fn lemma_generation_is_deterministic(
    enums: Seq<EnumModel>,
    first: Result<String, BairiakError>,
    second: Result<String, BairiakError>,
)
    requires
        is_enums_result(enums, first),
        is_enums_result(enums, second),
    ensures
        first is Ok <==> second is Ok,
        first is Ok ==> first->Ok_0@ == second->Ok_0@,
        first is Err ==> first->Err_0 == second->Err_0,
{
}

} // verus!
