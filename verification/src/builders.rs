//! Registration builders: declarative helpers that populate a container's
//! registry using the interface descriptor builder.
//!
//! Two forms: a reusable declaration that a concrete type always carries a
//! fixed interface set (`IntoMultitrait`), and a one-off constructor that
//! builds a container and registers an explicit interface list inline
//! (`create_object`).  Both are convenience over the descriptor builder and
//! the core's privileged insertion; they introduce no new invariants.

use vstd::prelude::*;

use crate::descriptor::{
    TraitDesc, shape_ok, TRAIT_ID_ANY, TRAIT_ID_DEBUG, TRAIT_ID_PARTIAL_EQ_ANY, TRAIT_ID_RAW_CLONE,
};
use crate::object::MultitraitObject;
use crate::value::{Value, value_type_id};

verus! {

/// Implementing this declares once and for all which interfaces a concrete
/// type carries, producing a conversion from a bare value into a
/// fully-populated container.
pub trait IntoMultitrait {
    fn into_multitrait(self) -> MultitraitObject;
}

impl IntoMultitrait for Value {
    /// Every concrete value kind carries the three built-in optional
    /// capabilities — clone, equality and debug — beside the universal one.
    fn into_multitrait(self) -> (r: MultitraitObject)
        ensures
            r.wf(),
            r.stored() == self,
            r.type_id_spec() == value_type_id(self),
            r.traits_map().dom() =~= set![
                TRAIT_ID_ANY,
                TRAIT_ID_RAW_CLONE,
                TRAIT_ID_PARTIAL_EQ_ANY,
                TRAIT_ID_DEBUG,
            ],
    {
        let mut mto = MultitraitObject::new(self);
        mto.register_trait(&TraitDesc::interface(TRAIT_ID_RAW_CLONE));
        mto.register_trait(&TraitDesc::interface(TRAIT_ID_PARTIAL_EQ_ANY));
        mto.register_trait(&TraitDesc::interface(TRAIT_ID_DEBUG));
        mto
    }
}

/// Builds a container around `value` and registers each listed interface in
/// order, skipping any whose reference shape is rejected.  The resulting
/// registry holds the universal capability and exactly the accepted
/// interfaces of the list.
pub fn create_object(value: Value, traits: &Vec<TraitDesc>) -> (r: MultitraitObject)
    ensures
        r.wf(),
        r.stored() == value,
        r.type_id_spec() == value_type_id(value),
        forall|t: u32|
            #[trigger] r.traits_map().dom().contains(t) <==> (t == TRAIT_ID_ANY || exists|i: int|
                0 <= i < traits@.len() && (#[trigger] traits@[i]).id == t && shape_ok(traits@[i])),
{
    let mut mto = MultitraitObject::new(value);
    let n = traits.len();
    let mut i: usize = 0;
    while i < n
        invariant
            n == traits@.len(),
            0 <= i <= n,
            mto.wf(),
            mto.stored() == value,
            mto.type_id_spec() == value_type_id(value),
            forall|t: u32|
                #[trigger] mto.traits_map().dom().contains(t) <==> (t == TRAIT_ID_ANY || exists|
                    j: int,
                |
                    0 <= j < i && (#[trigger] traits@[j]).id == t && shape_ok(traits@[j])),
        decreases n - i,
    {
        let tr = traits[i];
        mto.register_trait(&tr);
        i += 1;
    }
    mto
}

} // verus!
