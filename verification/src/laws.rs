//! General properties of the container, stated and proved once for all
//! values.
//!
//! The one-shot nature of the consuming downcasts is not stated here: the
//! operations take the container by value, so the host language's ownership
//! discipline already makes any later use of the source container
//! impossible, rather than a recoverable error.

use vstd::prelude::*;

use crate::descriptor::{TraitDesc, shape_ok, vtable_of};
use crate::object::MultitraitObject;
use crate::trait_impl::try_partial_eq::try_eq_spec;
use crate::value::{Value, value_type_id};

verus! {

/// Construct, then downcast to the concrete type: a container built from a
/// value `v` — as `new`'s contract describes it — hands `v` itself back when
/// asked for `v`'s own type identity, and reports absence for every other
/// identity.
pub proof fn lemma_construct_then_downcast(m: MultitraitObject, v: Value, u: u32)
    requires
        m.stored() == v,
        m.type_id_spec() == value_type_id(v),
    ensures
        m.downcast_spec(value_type_id(v)) == Some(v),
        u != value_type_id(v) ==> m.downcast_spec(u) is None,
{
}

/// Downcast to a registered interface: on a well-formed container it
/// succeeds, and the reference it yields carries the dispatch table computed
/// from the stored value's own concrete type paired with that interface —
/// so, by the dispatchers' contracts, every operation invoked through the
/// reference returns exactly what the operation applied directly to the
/// original value returns.
pub proof fn lemma_registered_interface_downcast(m: MultitraitObject, tr: TraitDesc)
    requires
        m.wf(),
        shape_ok(tr),
        m.implements_spec(tr.id),
    ensures
        m.downcast_trait_spec(tr) == Some(vtable_of(value_type_id(m.stored()), tr.id)),
{
}

/// Downcast to an unregistered interface: it reports absence, whatever else
/// the container holds.
pub proof fn lemma_unregistered_interface_absent(m: MultitraitObject, tr: TraitDesc)
    requires
        !m.implements_spec(tr.id),
    ensures
        m.downcast_trait_spec(tr) is None,
{
}

/// Clone round-trip: any container `c` that `try_clone` can hand back for
/// `m` — same type identity, model-equal stored value — downcasts to the
/// same concrete type as `m` does, with a value equal in model to `m`'s.
/// The two values occupy distinct storage by ownership: each container owns
/// its value exclusively, so mutation through one cannot reach the other.
pub proof fn lemma_clone_roundtrip(m: MultitraitObject, c: MultitraitObject)
    requires
        c.stored()@ == m.stored()@,
        c.type_id_spec() == m.type_id_spec(),
    ensures
        c.downcast_spec(m.type_id_spec()) is Some,
        m.downcast_spec(m.type_id_spec()) is Some,
        c.downcast_spec(m.type_id_spec()).unwrap()@ == m.downcast_spec(m.type_id_spec()).unwrap()@,
{
}

/// Registry lookups are keyed by interface identity: on a well-formed
/// container, two different registered interfaces never share a dispatch
/// table, because each table is computed injectively from its (type,
/// interface) pair.
pub proof fn lemma_distinct_interfaces_never_collide(m: MultitraitObject, t1: u32, t2: u32)
    requires
        m.wf(),
        m.implements_spec(t1),
        m.implements_spec(t2),
        t1 != t2,
    ensures
        m.traits_map()[t1] != m.traits_map()[t2],
{
    if m.traits_map()[t1] == m.traits_map()[t2] {
        crate::descriptor::lemma_vtable_of_injective(
            m.type_id_spec(),
            t1,
            m.type_id_spec(),
            t2,
        );
    }
}

/// Equality reporting: with the comparison capability registered on both
/// operands, model-equal values compare as true and model-unequal values as
/// false; with the capability unregistered on either side the comparison is
/// indeterminate — absent, never false.
pub proof fn lemma_equality_reporting(a: MultitraitObject, b: MultitraitObject)
    ensures
        a.implements_spec(crate::descriptor::TRAIT_ID_PARTIAL_EQ_ANY) && b.implements_spec(
            crate::descriptor::TRAIT_ID_PARTIAL_EQ_ANY,
        ) && a.stored()@ == b.stored()@ ==> try_eq_spec(a, b) == Some(true),
        a.implements_spec(crate::descriptor::TRAIT_ID_PARTIAL_EQ_ANY) && b.implements_spec(
            crate::descriptor::TRAIT_ID_PARTIAL_EQ_ANY,
        ) && a.stored()@ != b.stored()@ ==> try_eq_spec(a, b) == Some(false),
        !a.implements_spec(crate::descriptor::TRAIT_ID_PARTIAL_EQ_ANY) || !b.implements_spec(
            crate::descriptor::TRAIT_ID_PARTIAL_EQ_ANY,
        ) ==> try_eq_spec(a, b) is None,
{
}

} // verus!
