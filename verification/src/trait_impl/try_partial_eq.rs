//! The equality-comparison capability: compare the stored value against an
//! opaque reference to the universal any-value capability.

use vstd::prelude::*;

use crate::descriptor::{TraitDesc, TRAIT_ID_ANY, TRAIT_ID_PARTIAL_EQ_ANY};
use crate::object::{MultitraitObject, TraitRef};
use crate::value::{Value, ValueView};

verus! {

/// Compares the value with a reference through the universal any-value
/// capability: true iff the other value has the same concrete type and is
/// value-equal.  Every concrete value kind supports value-equality and the
/// type-identity check, so every kind can carry this capability.
pub trait PartialEqAny: View<V = ValueView> {
    fn partial_equal_any(&self, other: &TraitRef<'_>) -> (r: bool)
        requires
            other.is_for(TRAIT_ID_ANY),
        ensures
            r == (self@ == other.referent()@),
    ;
}

impl PartialEqAny for Value {
    /// The generic comparison: narrow the other side to this value's own
    /// concrete type; a different type compares unequal, the same type
    /// compares by value.
    fn partial_equal_any(&self, other: &TraitRef<'_>) -> (r: bool) {
        match other.any_downcast_ref(self.type_id()) {
            Some(v) => self.eq(v),
            None => false,
        }
    }
}

impl<'a> TraitRef<'a> {
    /// Invokes the equality capability through this interface reference.
    pub fn partial_equal_any(&self, other: &TraitRef<'_>) -> (r: bool)
        requires
            self.is_for(TRAIT_ID_PARTIAL_EQ_ANY),
            other.is_for(TRAIT_ID_ANY),
        ensures
            r == (self.referent()@ == other.referent()@),
    {
        self.referent_ref().partial_equal_any(other)
    }
}

/// What a comparison of two containers reports: indeterminate when either
/// operand lacks the equality capability, else whether the stored values are
/// model-equal — which covers both concrete type identity and field values.
pub open spec fn try_eq_spec(a: MultitraitObject, b: MultitraitObject) -> Option<bool> {
    if a.implements_spec(TRAIT_ID_PARTIAL_EQ_ANY) && b.implements_spec(TRAIT_ID_PARTIAL_EQ_ANY) {
        Some(a.stored()@ == b.stored()@)
    } else {
        None
    }
}

/// Tries comparing two objects, reporting absence — indeterminate, distinct
/// from false — when the comparison capability is not registered.
pub trait TryPartialEq {
    /// What a comparison may assume of its operands.
    spec fn eq_operands_ok(&self, other: &Self) -> bool;

    fn try_eq(&self, other: &Self) -> (r: Option<bool>)
        requires
            self.eq_operands_ok(other),
    ;
}

impl TryPartialEq for MultitraitObject {
    /// Both containers must be well-formed to invoke what their registries
    /// hold.
    open spec fn eq_operands_ok(&self, other: &MultitraitObject) -> bool {
        self.wf() && other.wf()
    }

    /// Tries comparing this container's value with another container's.
    /// Looks the equality capability up on both operands; with it present on
    /// both, it obtains the right operand's universal any-value reference
    /// and delegates.  With the capability unregistered on either side the
    /// comparison is indeterminate — reported as absence, distinct from
    /// false.
    fn try_eq(&self, other: &MultitraitObject) -> (r: Option<bool>)
        ensures
            r == try_eq_spec(*self, *other),
    {
        if !other.implements(TRAIT_ID_PARTIAL_EQ_ANY) {
            return None;
        }
        let eq_desc = TraitDesc::interface(TRAIT_ID_PARTIAL_EQ_ANY);
        match self.downcast_trait(&eq_desc) {
            Some(eq_ref) => {
                let any_desc = TraitDesc::interface(TRAIT_ID_ANY);
                match other.downcast_trait(&any_desc) {
                    Some(any_ref) => Some(eq_ref.partial_equal_any(&any_ref)),
                    None => {
                        proof {
                            assert(false);
                        }
                        None
                    },
                }
            },
            None => None,
        }
    }
}

} // verus!
