use std::collections::HashSet;
use vstd::prelude::*;

verus! {

/// A set of flags packed into the bits of one unsigned integer. The variant
/// fixes the number of positions; setting a flag never changes it.
#[derive(Debug)]
pub enum Bairiak {
    U8(u8),
    U16(u16),
    U32(u32),
    U64(u64),
    U128(u128),
}

impl Bairiak {
    /// The number of positions that the active variant has.
    pub open spec fn width(&self) -> u8 {
        match self {
            Bairiak::U8(_) => 8,
            Bairiak::U16(_) => 16,
            Bairiak::U32(_) => 32,
            Bairiak::U64(_) => 64,
            Bairiak::U128(_) => 128,
        }
    }

    /// The stored integer, widened to 128 bits.
    pub open spec fn bits(&self) -> u128 {
        match self {
            Bairiak::U8(v) => *v as u128,
            Bairiak::U16(v) => *v as u128,
            Bairiak::U32(v) => *v as u128,
            Bairiak::U64(v) => *v as u128,
            Bairiak::U128(v) => *v,
        }
    }

    /// Whether the flag at position `pos` is set.
    pub open spec fn holds(&self, pos: u8) -> bool {
        pos < self.width() && self.bits() & (1u128 << pos) != 0
    }

    /// What `is_false` returns for a flag at position `pos`.
    pub open spec fn spec_is_false(&self, pos: u8) -> bool {
        !self@.contains(pos)
    }

    /// What `is_true` returns for a flag at position `pos`.
    pub open spec fn spec_is_true(&self, pos: u8) -> bool {
        self@.contains(pos)
    }
}

impl View for Bairiak {
    type V = Set<u8>;

    /// The positions of the flags that are set.
    open spec fn view(&self) -> Set<u8> {
        Set::new(|pos: u8| self.holds(pos))
    }
}

/// What a flag enum must offer to be stored in a [`Bairiak`]: the empty
/// container of the width that fits the enum, and the bit position of each
/// of its variants.
pub trait BairiakEnum: Sized {
    /// The container that `get_zero_bairiak` returns. An implementation
    /// that is verified names it; otherwise it stands for the one container
    /// that the implementation returns.
    open spec fn zero_bairiak() -> Bairiak {
        arbitrary()
    }

    /// The bit position that `to_u8` returns for this variant. An
    /// implementation that is verified names it; otherwise it stands for
    /// the mapping that the implementation computes.
    open spec fn position(self) -> u8 {
        arbitrary::<spec_fn(Self) -> u8>()(self)
    }

    /// The container of this enum's width with no flag set.
    fn get_zero_bairiak() -> (zero: Bairiak)
        ensures
            zero == Self::zero_bairiak(),
            zero.bits() == 0,
    ;

    /// The bit position of this variant.
    fn to_u8(self) -> (pos: u8)
        ensures
            pos == self.position(),
    ;
}

impl Bairiak {
    /// Whether the flag is absent from the set.
    ///
    /// The flag's position must lie within the container's width; a flag
    /// enum produced by the generator for this width always meets this.
    pub fn is_false<B: BairiakEnum>(&self, flag: B) -> (absent: bool)
        requires
            flag.position() < self.width(),
        ensures
            absent == self.spec_is_false(flag.position()),
    {
        let pos: u8 = flag.to_u8();
        match self {
            Bairiak::U8(value) => {
                let v: u8 = *value;
                assert((v & (1u8 << pos) == 0) == ((v as u128) & (1u128 << pos) == 0)) by (bit_vector)
                    requires
                        pos < 8,
                ;
                v & (1u8 << pos) == 0
            },
            Bairiak::U16(value) => {
                let v: u16 = *value;
                assert((v & (1u16 << pos) == 0) == ((v as u128) & (1u128 << pos) == 0)) by (bit_vector)
                    requires
                        pos < 16,
                ;
                v & (1u16 << pos) == 0
            },
            Bairiak::U32(value) => {
                let v: u32 = *value;
                assert((v & (1u32 << pos) == 0) == ((v as u128) & (1u128 << pos) == 0)) by (bit_vector)
                    requires
                        pos < 32,
                ;
                v & (1u32 << pos) == 0
            },
            Bairiak::U64(value) => {
                let v: u64 = *value;
                assert((v & (1u64 << pos) == 0) == ((v as u128) & (1u128 << pos) == 0)) by (bit_vector)
                    requires
                        pos < 64,
                ;
                v & (1u64 << pos) == 0
            },
            Bairiak::U128(value) => {
                let v: u128 = *value;
                v & (1u128 << pos) == 0
            },
        }
    }

    /// Whether the flag is in the set: the negation of [`Bairiak::is_false`].
    pub fn is_true<B: BairiakEnum>(&self, flag: B) -> (present: bool)
        requires
            flag.position() < self.width(),
        ensures
            present == self.spec_is_true(flag.position()),
    {
        !self.is_false(flag)
    }
}

impl Bairiak {
    /// The same container with the flag at `pos` set as well.
    pub fn with_flag(self, pos: u8) -> (next: Bairiak)
        requires
            pos < self.width(),
        ensures
            next.width() == self.width(),
            next@ == self@.insert(pos),
    {
        let next = match self {
            Bairiak::U8(v) => {
                assert(forall|q: u8|
                    q < 8 ==> ((((v | (1u8 << pos)) as u128) & (1u128 << q) != 0) <==> ((v as u128)
                        & (1u128 << q) != 0 || q == pos))) by (bit_vector)
                    requires
                        pos < 8,
                ;
                Bairiak::U8(v | (1u8 << pos))
            },
            Bairiak::U16(v) => {
                assert(forall|q: u8|
                    q < 16 ==> ((((v | (1u16 << pos)) as u128) & (1u128 << q) != 0) <==> ((v as u128)
                        & (1u128 << q) != 0 || q == pos))) by (bit_vector)
                    requires
                        pos < 16,
                ;
                Bairiak::U16(v | (1u16 << pos))
            },
            Bairiak::U32(v) => {
                assert(forall|q: u8|
                    q < 32 ==> ((((v | (1u32 << pos)) as u128) & (1u128 << q) != 0) <==> ((v as u128)
                        & (1u128 << q) != 0 || q == pos))) by (bit_vector)
                    requires
                        pos < 32,
                ;
                Bairiak::U32(v | (1u32 << pos))
            },
            Bairiak::U64(v) => {
                assert(forall|q: u8|
                    q < 64 ==> ((((v | (1u64 << pos)) as u128) & (1u128 << q) != 0) <==> ((v as u128)
                        & (1u128 << q) != 0 || q == pos))) by (bit_vector)
                    requires
                        pos < 64,
                ;
                Bairiak::U64(v | (1u64 << pos))
            },
            Bairiak::U128(v) => {
                assert(forall|q: u8|
                    q < 128 ==> (((v | (1u128 << pos)) & (1u128 << q) != 0) <==> (v & (1u128 << q)
                        != 0 || q == pos))) by (bit_vector)
                    requires
                        pos < 128,
                ;
                Bairiak::U128(v | (1u128 << pos))
            },
        };
        assert(next@ =~= self@.insert(pos));
        next
    }
}

/// The bit positions of the flags in `flags`.
pub open spec fn positions<B: BairiakEnum>(flags: Set<B>) -> Set<u8> {
    Set::new(|pos: u8| exists|flag: B| flags.contains(flag) && flag.position() == pos)
}

/// Whether `bairiak` is the container built from the flags in `flags`: it
/// has the width of the enum's zero container and holds exactly the
/// positions of those flags.
pub open spec fn is_bairiak_of<B: BairiakEnum>(flags: Set<B>, bairiak: Bairiak) -> bool {
    &&& bairiak.width() == B::zero_bairiak().width()
    &&& bairiak@ == positions(flags)
}

/// `Vec::from_iter` of std, on a hash set: the vector holds the members of
/// the set, in an order that nothing is said about.
#[verifier::external_body]
fn members<B>(flags: HashSet<B>) -> (items: Vec<B>)
    ensures
        items@.to_set() == flags@,
{
    Vec::from_iter(flags)
}

/// Builds the container that holds exactly the given flags: the zero
/// container of the enum, with the bit of each flag set.
///
/// Every flag's position must lie within the width of the enum's zero
/// container, as it does for an enum that the generator produced.
pub fn generate_bairiak<B: BairiakEnum>(flags: HashSet<B>) -> (bairiak: Bairiak)
    requires
        forall|flag: B| flags@.contains(flag) ==> flag.position() < B::zero_bairiak().width(),
    ensures
        is_bairiak_of(flags@, bairiak),
{
    let mut bairiak = B::get_zero_bairiak();
    let mut items = members(flags);
    let ghost all = items@;
    assert(forall|q: u8| 0u128 & (1u128 << q) == 0) by (bit_vector);
    assert(forall|i: int| 0 <= i < all.len() ==> all.to_set().contains(#[trigger] all[i]));
    loop
        invariant
            items@ == all.take(items@.len() as int),
            items@.len() <= all.len(),
            bairiak.width() == B::zero_bairiak().width(),
            forall|i: int| 0 <= i < all.len() ==> (#[trigger] all[i]).position() < bairiak.width(),
            forall|pos: u8|
                bairiak@.contains(pos) <==> exists|i: int|
                    items@.len() <= i < all.len() && (#[trigger] all[i]).position() == pos,
        ensures
            items@.len() == 0,
        decreases items@.len(),
    {
        let ghost before = bairiak@;
        let ghost rest = items@.len();
        match items.pop() {
            Some(flag) => {
                assert(flag == all[rest - 1]);
                let pos = flag.to_u8();
                bairiak = bairiak.with_flag(pos);
                assert forall|q: u8|
                    bairiak@.contains(q) <==> exists|i: int|
                        items@.len() <= i < all.len() && (#[trigger] all[i]).position() == q by {
                    if before.contains(q) {
                        let i = choose|i: int|
                            rest <= i < all.len() && (#[trigger] all[i]).position() == q;
                        assert(items@.len() <= i < all.len() && all[i].position() == q);
                    }
                    if q == pos {
                        assert(all[rest - 1].position() == q);
                    }
                }
            },
            None => {
                break ;
            },
        }
    }
    assert(bairiak@ =~= positions(flags@)) by {
        assert forall|q: u8| bairiak@.contains(q) <==> positions(flags@).contains(q) by {
            if bairiak@.contains(q) {
                let i = choose|i: int| 0 <= i < all.len() && (#[trigger] all[i]).position() == q;
                assert(flags@.contains(all[i]));
            }
            if positions(flags@).contains(q) {
                let flag = choose|flag: B| flags@.contains(flag) && flag.position() == q;
                assert(all.to_set().contains(flag));
                assert(all.contains(flag));
            }
        }
    }
    bairiak
}

/// The lowest `n` bits of `x`.
spec fn low_bits(x: u128, n: u8) -> u128 {
    x & !(u128::MAX << n)
}

/// Two integers that agree in every bit agree in their lowest `n` bits.
proof fn lemma_low_bits_agree(a: u128, b: u128, n: u8)
    requires
        n <= 128,
        forall|q: u8| q < 128 ==> ((a & (1u128 << q) != 0) <==> (b & (1u128 << q) != 0)),
    ensures
        low_bits(a, n) == low_bits(b, n),
    decreases n,
{
    if n == 0 {
        assert(a & !(u128::MAX << 0u8) == b & !(u128::MAX << 0u8)) by (bit_vector);
    } else {
        let m = (n - 1) as u8;
        lemma_low_bits_agree(a, b, m);
        assert((a & (1u128 << m) != 0) <==> (b & (1u128 << m) != 0));
        assert(a & !(u128::MAX << n) == b & !(u128::MAX << n)) by (bit_vector)
            requires
                m < 128,
                n == m + 1,
                a & !(u128::MAX << m) == b & !(u128::MAX << m),
                (a & (1u128 << m) != 0) <==> (b & (1u128 << m) != 0),
        ;
    }
}

/// An integer is determined by its bits.
proof fn lemma_bits_determine_integer(a: u128, b: u128)
    requires
        forall|q: u8| q < 128 ==> ((a & (1u128 << q) != 0) <==> (b & (1u128 << q) != 0)),
    ensures
        a == b,
{
    lemma_low_bits_agree(a, b, 128);
    assert(a == b) by (bit_vector)
        requires
            a & !(u128::MAX << 128u8) == b & !(u128::MAX << 128u8),
    ;
}

/// A container is determined by its width and the flags that are set: two
/// containers of one width that hold the same flags are the same value.
pub proof fn lemma_flags_determine_bairiak(a: Bairiak, b: Bairiak)
    requires
        a.width() == b.width(),
        a@ == b@,
    ensures
        a == b,
{
    let w = a.width();
    let x = a.bits();
    let y = b.bits();
    match (a, b) {
        (Bairiak::U8(v), Bairiak::U8(u)) => {
            assert(forall|q: u8| 8 <= q < 128 ==> (v as u128) & (1u128 << q) == 0) by (bit_vector);
            assert(forall|q: u8| 8 <= q < 128 ==> (u as u128) & (1u128 << q) == 0) by (bit_vector);
        },
        (Bairiak::U16(v), Bairiak::U16(u)) => {
            assert(forall|q: u8| 16 <= q < 128 ==> (v as u128) & (1u128 << q) == 0)
                by (bit_vector);
            assert(forall|q: u8| 16 <= q < 128 ==> (u as u128) & (1u128 << q) == 0)
                by (bit_vector);
        },
        (Bairiak::U32(v), Bairiak::U32(u)) => {
            assert(forall|q: u8| 32 <= q < 128 ==> (v as u128) & (1u128 << q) == 0)
                by (bit_vector);
            assert(forall|q: u8| 32 <= q < 128 ==> (u as u128) & (1u128 << q) == 0)
                by (bit_vector);
        },
        (Bairiak::U64(v), Bairiak::U64(u)) => {
            assert(forall|q: u8| 64 <= q < 128 ==> (v as u128) & (1u128 << q) == 0)
                by (bit_vector);
            assert(forall|q: u8| 64 <= q < 128 ==> (u as u128) & (1u128 << q) == 0)
                by (bit_vector);
        },
        _ => {},
    }
    assert forall|q: u8| q < 128 implies ((x & (1u128 << q) != 0) <==> (y & (1u128 << q)
        != 0)) by {
        if q < w {
            assert(a@.contains(q) == a.holds(q));
            assert(b@.contains(q) == b.holds(q));
        }
    }
    lemma_bits_determine_integer(x, y);
}

/// Building a container does not depend on the order in which the flags
/// are taken: whatever two runs on the same set of flags return is the same
/// value.
pub proof fn lemma_generate_bairiak_ignores_order<B: BairiakEnum>(
    flags: Set<B>,
    first: Bairiak,
    second: Bairiak,
)
    requires
        is_bairiak_of(flags, first),
        is_bairiak_of(flags, second),
    ensures
        first == second,
{
    lemma_flags_determine_bairiak(first, second);
}

/// `is_true` and `is_false` are complements of each other, for every
/// container and every flag.
pub proof fn lemma_is_true_complements_is_false<B: BairiakEnum>(bairiak: Bairiak, flag: B)
    ensures
        bairiak.spec_is_true(flag.position()) == !bairiak.spec_is_false(flag.position()),
{
}

} // verus!
