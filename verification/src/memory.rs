//! Device memory: property flags, memory types, requirements reported for
//! unbound resources, heaps, and the caller-side helpers of the two-phase
//! binding protocol (alignment rounding and memory-type selection).

use vstd::prelude::*;
use vstd::arithmetic::div_mod::{
    lemma_add_mod_noop, lemma_fundamental_div_mod, lemma_mod_self_0, lemma_mod_twice,
    lemma_small_mod, lemma_sub_mod_noop,
};

verus! {

/// Properties of a memory type, a set of the `Properties::*` bits.
#[derive(Clone, Copy, Debug, PartialEq, Eq, Structural, Hash)]
pub struct Properties {
    /// Raw bit set.
    pub bits: u16,
}

impl Properties {
    /// Fastest memory for GPU access.
    pub fn device_local() -> (r: Properties)
        ensures
            r.bits == 0x1,
    {
        Properties { bits: 0x1 }
    }

    /// The host may map memory of this type.
    pub fn cpu_visible() -> (r: Properties)
        ensures
            r.bits == 0x2,
    {
        Properties { bits: 0x2 }
    }

    /// Host writes are visible to the device without an explicit flush.
    pub fn coherent() -> (r: Properties)
        ensures
            r.bits == 0x4,
    {
        Properties { bits: 0x4 }
    }

    /// Host reads of this memory are cached.
    pub fn cpu_cached() -> (r: Properties)
        ensures
            r.bits == 0x8,
    {
        Properties { bits: 0x8 }
    }

    /// No properties at all.
    pub fn empty() -> (r: Properties)
        ensures
            r.bits == 0,
    {
        Properties { bits: 0 }
    }

    /// Union of two flag sets.
    pub fn union(self, other: Properties) -> (r: Properties)
        ensures
            r.bits == self.bits | other.bits,
    {
        Properties { bits: self.bits | other.bits }
    }

    /// Whether every bit of `other` is set in `self`.
    pub fn contains(self, other: Properties) -> (r: bool)
        ensures
            r == crate::buffer::spec_contains(self.bits, other.bits),
    {
        self.bits & other.bits == other.bits
    }
}

/// One memory type offered by a device, identified by its index in the
/// device's memory-type list.
#[derive(Clone, Copy, Debug, PartialEq, Eq, Structural, Hash)]
pub struct MemoryType {
    /// Property flags of allocations from this type.
    pub properties: Properties,
}

/// What an unbound resource needs of the memory it is bound into.
#[derive(Clone, Copy, Debug, PartialEq, Eq, Structural, Hash)]
pub struct MemoryRequirements {
    /// Number of bytes of backing memory, measured from the bind offset.
    pub size: u64,
    /// Required alignment of the bind offset, always at least 1.
    pub alignment: u64,
    /// Bit `i` is set when memory type `i` may back the resource.
    pub type_mask: u32,
}

/// Whether memory type number `index` satisfies a resource's `type_mask`
/// and carries every property of `required`.
pub open spec fn type_matches(
    types: Seq<MemoryType>,
    index: int,
    type_mask: u32,
    required: Properties,
) -> bool {
    &&& 0 <= index < types.len()
    &&& index < 32
    &&& (type_mask >> (index as u32)) & 1 == 1
    &&& crate::buffer::spec_contains(types[index].properties.bits, required.bits)
}

/// Picks the memory type to allocate from: the lowest-numbered type whose
/// bit is set in `type_mask` and whose properties contain `required`.
pub fn select_memory_type(
    types: &Vec<MemoryType>,
    type_mask: u32,
    required: Properties,
) -> (r: Option<usize>)
    ensures
        match r {
            Some(i) => type_matches(types@, i as int, type_mask, required) && forall|j: int|
                0 <= j < i ==> !type_matches(types@, j, type_mask, required),
            None => forall|j: int| !type_matches(types@, j, type_mask, required),
        },
{
    let mut i: usize = 0;
    while i < types.len()
        invariant
            i <= types@.len(),
            forall|j: int| 0 <= j < i ==> !type_matches(types@, j, type_mask, required),
        decreases types@.len() - i,
    {
        if i < 32 {
            let bit_set = (type_mask >> (i as u32)) & 1 == 1;
            if bit_set && types[i].properties.contains(required) {
                return Some(i);
            }
        }
        i = i + 1;
    }
    None
}

/// The type mask reported for a device with `n` memory types: one bit per
/// existing type.
pub open spec fn spec_full_mask(n: nat) -> u32 {
    if n >= 32 {
        0xffff_ffffu32
    } else {
        ((1u64 << (n as u64)) - 1) as u32
    }
}

/// In the mask of a device with `n` memory types, exactly the bits of the
/// existing types are set.
pub proof fn lemma_full_mask_bit(n: nat, i: u32)
    requires
        n <= 32,
        i < 32,
    ensures
        ((spec_full_mask(n) >> i) & 1 == 1) <==> (i < n),
{
    if n >= 32 {
        assert((0xffff_ffffu32 >> i) & 1 == 1) by (bit_vector)
            requires
                i < 32,
        ;
    } else {
        let nn = n as u64;
        assert(((((1u64 << nn) - 1) as u32) >> i) & 1 == 1 <==> i < nn) by (bit_vector)
            requires
                nn < 32,
                i < 32,
        ;
    }
}

/// Builds the type mask of a device with `n` memory types.
pub fn full_mask(n: usize) -> (r: u32)
    requires
        n <= 32,
    ensures
        r == spec_full_mask(n as nat),
{
    if n == 32 {
        0xffff_ffffu32
    } else {
        proof {
            let nn = n as u64;
            assert((1u64 << nn) - 1 <= 0xffff_ffffu64 && (((1u64 << nn) - 1) as u32) as u64 == (
            1u64 << nn) - 1) by (bit_vector)
                requires
                    nn < 32,
            ;
        }
        ((1u64 << (n as u64)) - 1u64) as u32
    }
}

/// A single device-memory allocation: one or more resources bind into it
/// at caller-chosen offsets.  Its bytes are host-accessible through a
/// scoped mapping writer when the memory type is CPU-visible.
#[derive(Clone, Debug, PartialEq, Eq, Hash)]
pub struct Heap {
    /// Handle of the allocation.
    pub id: u64,
    /// Size in bytes.
    pub size: u64,
    /// Index of the memory type allocated from.
    pub memory_type: usize,
    /// Properties of that memory type.
    pub properties: Properties,
    /// The backing bytes.
    pub data: Vec<u8>,
}

impl Heap {
    /// The backing store holds exactly `size` bytes.
    pub open spec fn wf(&self) -> bool {
        self.data@.len() == self.size
    }
}

/// A vector of `n` zero bytes.
pub fn zeroed_bytes(n: usize) -> (r: Vec<u8>)
    ensures
        r@.len() == n,
        forall|i: int| 0 <= i < n ==> r@[i] == 0u8,
{
    let mut v: Vec<u8> = Vec::new();
    let mut i: usize = 0;
    while i < n
        invariant
            i <= n,
            v@.len() == i,
            forall|j: int| 0 <= j < i ==> v@[j] == 0u8,
        decreases n - i,
    {
        v.push(0u8);
        i = i + 1;
    }
    v
}

/// `value` rounded up to the next multiple of `alignment`.
pub open spec fn spec_align_up(value: u64, alignment: u64) -> int
    recommends
        alignment >= 1,
{
    if value as int % alignment as int == 0 {
        value as int
    } else {
        value + alignment - value as int % alignment as int
    }
}

/// Rounding up to an alignment yields the least multiple of the alignment
/// that is not below the value.
pub proof fn lemma_align_up(value: u64, alignment: u64)
    requires
        alignment >= 1,
    ensures
        spec_align_up(value, alignment) % alignment as int == 0,
        value <= spec_align_up(value, alignment) < value + alignment,
{
    let v = value as int;
    let a = alignment as int;
    let m = v % a;
    lemma_fundamental_div_mod(v, a);
    if m != 0 {
        lemma_sub_mod_noop(v + a, m, a);
        lemma_mod_self_0(a);
        lemma_add_mod_noop(v, a, a);
        lemma_mod_twice(v, a);
        assert((v + a) % a == m);
        assert((v + a - m) % a == (m - m % a) % a);
        lemma_small_mod((m - m % a) as nat, a as nat);
        lemma_mod_twice(v, a);
    }
}

/// Rounds `value` up to the next multiple of `alignment`, as a caller must
/// do between sub-buffers packed into one heap.
pub fn align_up(value: u64, alignment: u64) -> (r: u64)
    requires
        alignment >= 1,
        value + alignment <= u64::MAX + 1,
    ensures
        r == spec_align_up(value, alignment),
        r % alignment == 0,
        value <= r < value + alignment,
{
    proof {
        lemma_align_up(value, alignment);
    }
    let rem = value % alignment;
    if rem == 0 {
        value
    } else {
        value + (alignment - rem)
    }
}

} // verus!
