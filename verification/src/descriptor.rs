//! The interface descriptor builder.
//!
//! Given a concrete type and an interface, this module computes the
//! dispatch-table pointer that a reference to that type, viewed as that
//! interface, would carry — without needing a live value of the type.  A
//! dispatch table is a property of the (type, interface) pair alone, so it is
//! modeled as the `u64` that `vtable_of` derives from the two identifiers;
//! distinct pairs get distinct tables.
//!
//! An interface reference is represented as a two-word (data pointer,
//! dispatch-table pointer) pair.  A descriptor whose reference representation
//! has a different size must be rejected rather than silently producing
//! garbage; `shape_ok` is that precondition.

use vstd::prelude::*;

verus! {

/// Interface identifier of the universal "any erased value" capability,
/// registered on every container at construction.
pub const TRAIT_ID_ANY: u32 = 1;

/// Interface identifier of the clone capability.
pub const TRAIT_ID_RAW_CLONE: u32 = 2;

/// Interface identifier of the equality-comparison capability.
pub const TRAIT_ID_PARTIAL_EQ_ANY: u32 = 3;

/// Interface identifier of the debug-formatting capability.
pub const TRAIT_ID_DEBUG: u32 = 4;

/// The byte size of a well-formed interface reference: two machine words,
/// one for the data pointer and one for the dispatch-table pointer.
pub const FAT_POINTER_SIZE: u64 = 16;

/// The two-word representation of an interface reference: a data pointer
/// paired with a dispatch-table pointer, each modeled as a machine word.
#[derive(Clone, Copy, Debug, PartialEq, Eq, Structural)]
pub struct FatPointer {
    pub data: u64,
    pub vptr: u64,
}

/// Names an interface: its unique identifier, and the byte size of the
/// reference representation a view through it would use.
#[derive(Clone, Copy, Debug, PartialEq, Eq, Structural)]
pub struct TraitDesc {
    pub id: u32,
    pub ref_size: u64,
}

/// Whether references shaped by this descriptor use the two-word layout the
/// container requires.
pub open spec fn shape_ok(tr: TraitDesc) -> bool {
    tr.ref_size == FAT_POINTER_SIZE
}

/// The dispatch-table pointer of the (concrete type, interface) pair.
/// Distinct pairs give distinct pointers; see `lemma_vtable_of_injective`.
pub open spec fn vtable_of(type_id: u32, trait_id: u32) -> u64 {
    ((type_id as u64) * 0x1_0000_0000 + (trait_id as u64)) as u64
}

/// Two different (type, interface) pairs never share a dispatch table, so
/// registry lookups keyed by interface identity cannot collide.
pub proof fn lemma_vtable_of_injective(t1: u32, i1: u32, t2: u32, i2: u32)
    requires
        vtable_of(t1, i1) == vtable_of(t2, i2),
    ensures
        t1 == t2 && i1 == i2,
{
    assert(t1 == t2 && i1 == i2) by (nonlinear_arith)
        requires
            (t1 as u64) * 0x1_0000_0000 + (i1 as u64) == (t2 as u64) * 0x1_0000_0000 + (
            i2 as u64),
            t1 <= 0xFFFF_FFFFu32,
            t2 <= 0xFFFF_FFFFu32,
            i1 <= 0xFFFF_FFFFu32,
            i2 <= 0xFFFF_FFFFu32,
    ;
}

impl TraitDesc {
    /// The descriptor of an ordinary interface: two-word references.
    pub fn interface(id: u32) -> (r: TraitDesc)
        ensures
            r.id == id,
            shape_ok(r),
    {
        TraitDesc { id, ref_size: FAT_POINTER_SIZE }
    }
}

/// Computes `vtable_of` executably.
pub fn vtable_for(type_id: u32, trait_id: u32) -> (v: u64)
    ensures
        v == vtable_of(type_id, trait_id),
{
    (type_id as u64) * 0x1_0000_0000 + (trait_id as u64)
}

/// Builds the interface reference that a value of type `type_id`, viewed
/// through the interface `tr`, would carry — from a null sentinel in place of
/// real data, so no live value is needed.  Only the dispatch-table half is
/// meaningful; the data half is the sentinel.  Rejects descriptors whose
/// reference representation is not the two-word shape.
pub fn fat_pointer(type_id: u32, tr: &TraitDesc) -> (r: Option<FatPointer>)
    ensures
        r == if shape_ok(*tr) {
            Some(FatPointer { data: 0u64, vptr: vtable_of(type_id, tr.id) })
        } else {
            None::<FatPointer>
        },
{
    if tr.ref_size == FAT_POINTER_SIZE {
        Some(FatPointer { data: 0u64, vptr: vtable_for(type_id, tr.id) })
    } else {
        None
    }
}

} // verus!
