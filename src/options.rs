//! The option bits of the control record, as a set of named options.
use vstd::prelude::*;

verus! {

/// One flag of the control record's option mask.
#[derive(Clone, Copy, Debug, PartialEq, Eq, Structural)]
pub enum MdOption {
    /// Clustered I/O, implied for file- and swap-backed devices.
    Cluster,
    /// Reserve all backing storage up front.
    Reserve,
    /// Let the driver pick the unit number.
    AutoUnit,
    /// Refuse writes.
    ReadOnly,
    /// Compress memory-backed contents.
    Compress,
    /// Proceed even where data may be lost or the device is busy.
    Force,
    /// Skip synchronous writes to the backing file.
    Async,
    /// Ask for verification of the backing file.
    Verify,
    /// Cache backing-file data in the system caches.
    Cache,
    /// Fail deletes that the backing file system cannot deallocate.
    MustDealloc,
}

/// Bit position of an option in the packed mask.
pub open spec fn bit_index(o: MdOption) -> u32 {
    match o {
        MdOption::Cluster => 0,
        MdOption::Reserve => 1,
        MdOption::AutoUnit => 2,
        MdOption::ReadOnly => 3,
        MdOption::Compress => 4,
        MdOption::Force => 5,
        MdOption::Async => 6,
        MdOption::Verify => 7,
        MdOption::Cache => 8,
        MdOption::MustDealloc => 9,
    }
}

/// The single bit that stands for an option in the packed mask.
pub open spec fn spec_mask(o: MdOption) -> u32 {
    1u32 << bit_index(o)
}

/// The bits of the mask that name an option.
pub const KNOWN_BITS: u32 = 0x3ff;

/// The mask that packs exactly the options of `s`.
pub open spec fn pack(s: Set<MdOption>) -> u32 {
    (if s.contains(MdOption::Cluster) { 0x001u32 } else { 0 })
        | (if s.contains(MdOption::Reserve) { 0x002u32 } else { 0 })
        | (if s.contains(MdOption::AutoUnit) { 0x004u32 } else { 0 })
        | (if s.contains(MdOption::ReadOnly) { 0x008u32 } else { 0 })
        | (if s.contains(MdOption::Compress) { 0x010u32 } else { 0 })
        | (if s.contains(MdOption::Force) { 0x020u32 } else { 0 })
        | (if s.contains(MdOption::Async) { 0x040u32 } else { 0 })
        | (if s.contains(MdOption::Verify) { 0x080u32 } else { 0 })
        | (if s.contains(MdOption::Cache) { 0x100u32 } else { 0 })
        | (if s.contains(MdOption::MustDealloc) { 0x200u32 } else { 0 })
}

proof fn lemma_unpack(b: u32)
    by (bit_vector)
    requires
        b & !0x3ffu32 == 0,
    ensures
        b == (if b & (1u32 << 0u32) != 0 { 0x001u32 } else { 0 })
            | (if b & (1u32 << 1u32) != 0 { 0x002u32 } else { 0 })
            | (if b & (1u32 << 2u32) != 0 { 0x004u32 } else { 0 })
            | (if b & (1u32 << 3u32) != 0 { 0x008u32 } else { 0 })
            | (if b & (1u32 << 4u32) != 0 { 0x010u32 } else { 0 })
            | (if b & (1u32 << 5u32) != 0 { 0x020u32 } else { 0 })
            | (if b & (1u32 << 6u32) != 0 { 0x040u32 } else { 0 })
            | (if b & (1u32 << 7u32) != 0 { 0x080u32 } else { 0 })
            | (if b & (1u32 << 8u32) != 0 { 0x100u32 } else { 0 })
            | (if b & (1u32 << 9u32) != 0 { 0x200u32 } else { 0 }),
{
}

proof fn lemma_pack_bits(
    c0: bool,
    c1: bool,
    c2: bool,
    c3: bool,
    c4: bool,
    c5: bool,
    c6: bool,
    c7: bool,
    c8: bool,
    c9: bool,
)
    by (bit_vector)
    ensures
        ({
            let p = (if c0 { 0x001u32 } else { 0 }) | (if c1 { 0x002u32 } else { 0 }) | (if c2 {
                0x004u32
            } else { 0 }) | (if c3 { 0x008u32 } else { 0 }) | (if c4 { 0x010u32 } else { 0 }) | (
            if c5 { 0x020u32 } else { 0 }) | (if c6 { 0x040u32 } else { 0 }) | (if c7 {
                0x080u32
            } else { 0 }) | (if c8 { 0x100u32 } else { 0 }) | (if c9 { 0x200u32 } else { 0 });
            &&& (p & (1u32 << 0u32) != 0 <==> c0)
            &&& (p & (1u32 << 1u32) != 0 <==> c1)
            &&& (p & (1u32 << 2u32) != 0 <==> c2)
            &&& (p & (1u32 << 3u32) != 0 <==> c3)
            &&& (p & (1u32 << 4u32) != 0 <==> c4)
            &&& (p & (1u32 << 5u32) != 0 <==> c5)
            &&& (p & (1u32 << 6u32) != 0 <==> c6)
            &&& (p & (1u32 << 7u32) != 0 <==> c7)
            &&& (p & (1u32 << 8u32) != 0 <==> c8)
            &&& (p & (1u32 << 9u32) != 0 <==> c9)
            &&& p & !0x3ffu32 == 0
        }),
{
}

/// An option's bit is set in a packed mask exactly when the option is in
/// the set, and no other bit is.
pub proof fn lemma_pack(s: Set<MdOption>)
    ensures
        forall|o: MdOption| #[trigger] (pack(s) & spec_mask(o)) != 0 <==> s.contains(o),
        pack(s) & !KNOWN_BITS == 0,
{
    lemma_pack_bits(
        s.contains(MdOption::Cluster),
        s.contains(MdOption::Reserve),
        s.contains(MdOption::AutoUnit),
        s.contains(MdOption::ReadOnly),
        s.contains(MdOption::Compress),
        s.contains(MdOption::Force),
        s.contains(MdOption::Async),
        s.contains(MdOption::Verify),
        s.contains(MdOption::Cache),
        s.contains(MdOption::MustDealloc),
    );
}

proof fn lemma_set_bit(b: u32, i: u32, j: u32)
    by (bit_vector)
    requires
        i < 32,
        j < 32,
    ensures
        (b | (1u32 << i)) & (1u32 << j) != 0 <==> (i == j || b & (1u32 << j) != 0),
        (b & !(1u32 << i)) & (1u32 << j) != 0 <==> (i != j && b & (1u32 << j) != 0),
{
}

proof fn lemma_known_bits(b: u32, i: u32)
    by (bit_vector)
    requires
        i < 10,
        b & !0x3ffu32 == 0,
    ensures
        (b | (1u32 << i)) & !0x3ffu32 == 0,
        (b & !(1u32 << i)) & !0x3ffu32 == 0,
{
}

impl MdOption {
    /// The option's bit in the packed mask.
    pub fn mask(self) -> (r: u32)
        ensures
            r == spec_mask(self),
    {
        let i: u32 = match self {
            MdOption::Cluster => 0,
            MdOption::Reserve => 1,
            MdOption::AutoUnit => 2,
            MdOption::ReadOnly => 3,
            MdOption::Compress => 4,
            MdOption::Force => 5,
            MdOption::Async => 6,
            MdOption::Verify => 7,
            MdOption::Cache => 8,
            MdOption::MustDealloc => 9,
        };
        1u32 << i
    }
}

/// A set of options, packed into the record's mask only when asked for.
#[derive(Clone, Copy, Debug)]
pub struct Options {
    bits: u32,
}

impl View for Options {
    type V = Set<MdOption>;

    closed spec fn view(&self) -> Set<MdOption> {
        Set::new(|o: MdOption| self.bits & spec_mask(o) != 0)
    }
}

impl Options {
    /// Well-formedness: no bit outside those of the options is set.
    pub closed spec fn wf(&self) -> bool {
        self.bits & !KNOWN_BITS == 0
    }

    /// The set with no option.
    pub fn empty() -> (r: Options)
        ensures
            r.wf(),
            r@ == Set::<MdOption>::empty(),
    {
        let r = Options { bits: 0 };
        assert forall|o: MdOption| !r@.contains(o) by {
            let m = spec_mask(o);
            assert(0u32 & m == 0) by (bit_vector);
        }
        assert(0u32 & !0x3ffu32 == 0) by (bit_vector);
        assert(r@ =~= Set::<MdOption>::empty());
        r
    }

    /// Whether `o` is in the set.
    pub fn contains(&self, o: MdOption) -> (r: bool)
        ensures
            r == self@.contains(o),
    {
        self.bits & o.mask() != 0
    }

    /// Adds `o` to the set.
    pub fn insert(&mut self, o: MdOption)
        requires
            old(self).wf(),
        ensures
            final(self).wf(),
            final(self)@ == old(self)@.insert(o),
    {
        let ghost b = self.bits;
        self.bits = self.bits | o.mask();
        proof {
            lemma_known_bits(b, bit_index(o));
            assert forall|p: MdOption| #[trigger] self@.contains(p) == old(self)@.insert(o).contains(p) by {
                lemma_set_bit(b, bit_index(o), bit_index(p));
            }
            assert(self@ =~= old(self)@.insert(o));
        }
    }

    /// Takes `o` out of the set.
    pub fn remove(&mut self, o: MdOption)
        requires
            old(self).wf(),
        ensures
            final(self).wf(),
            final(self)@ == old(self)@.remove(o),
    {
        let ghost b = self.bits;
        self.bits = self.bits & !o.mask();
        proof {
            lemma_known_bits(b, bit_index(o));
            assert forall|p: MdOption| #[trigger] self@.contains(p) == old(self)@.remove(o).contains(p) by {
                lemma_set_bit(b, bit_index(o), bit_index(p));
            }
            assert(self@ =~= old(self)@.remove(o));
        }
    }

    /// Puts `o` in the set when `on` holds, else takes it out.
    pub fn set(&mut self, o: MdOption, on: bool)
        requires
            old(self).wf(),
        ensures
            final(self).wf(),
            final(self)@ == (if on { old(self)@.insert(o) } else { old(self)@.remove(o) }),
    {
        if on {
            self.insert(o);
        } else {
            self.remove(o);
        }
    }

    /// The packed mask of the record.
    pub fn bits(&self) -> (r: u32)
        requires
            self.wf(),
        ensures
            r == pack(self@),
    {
        proof {
            lemma_unpack(self.bits);
        }
        self.bits
    }
}

} // verus!
