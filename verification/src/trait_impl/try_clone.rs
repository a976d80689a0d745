//! The clone capability: produce a new owned storage holding a value-copy of
//! the current value.

use vstd::prelude::*;

use crate::descriptor::{TraitDesc, TRAIT_ID_RAW_CLONE};
use crate::object::{MultitraitObject, TraitRef};
use crate::value::{Value, ValueView};

verus! {

/// Produces a new owned storage holding a value-copy of the current value.
/// Every concrete value kind supports value-copying, so every kind can carry
/// this capability; a registered container becomes clonable through it.
pub trait RawClone: View<V = ValueView> {
    fn raw_clone(&self) -> (r: Value)
        ensures
            r@ == self@,
    ;
}

impl RawClone for Value {
    /// The generic value-copy: a fresh value, equal in model to this one.
    fn raw_clone(&self) -> (r: Value) {
        match self {
            Value::Record { a, text } => Value::Record { a: *a, text: text.clone() },
            Value::Text(s) => Value::Text(s.clone()),
        }
    }
}

impl<'a> TraitRef<'a> {
    /// Invokes the clone capability through this interface reference.
    pub fn raw_clone(&self) -> (r: Value)
        requires
            self.is_for(TRAIT_ID_RAW_CLONE),
        ensures
            r@ == self.referent()@,
    {
        self.referent_ref().raw_clone()
    }
}

/// Tries cloning an object, reporting absence when it does not carry the
/// clone capability.
pub trait TryClone: Sized {
    /// What a clone attempt may assume of its source.
    spec fn clone_source_ok(&self) -> bool;

    fn try_clone(&self) -> (r: Option<Self>)
        requires
            self.clone_source_ok(),
    ;
}

impl TryClone for MultitraitObject {
    /// A container must be well-formed to invoke what its registry holds.
    open spec fn clone_source_ok(&self) -> bool {
        self.wf()
    }

    /// Tries cloning the container.  Looks the clone capability up; if it is
    /// absent the attempt reports absence, otherwise the capability supplies
    /// a value-copy in fresh storage, and a new container is built around it
    /// reusing the same concrete type identity and a copy of the same
    /// registry — dispatch tables are (type, interface) constants, so they
    /// remain valid for the new instance of the same concrete type.
    fn try_clone(&self) -> (r: Option<MultitraitObject>)
        ensures
            r is Some <==> self.implements_spec(TRAIT_ID_RAW_CLONE),
            r matches Some(c) ==> {
                &&& c.wf()
                &&& c.stored()@ == self.stored()@
                &&& c.type_id_spec() == self.type_id_spec()
                &&& c.traits_map() == self.traits_map()
            },
    {
        let rc_desc = TraitDesc::interface(TRAIT_ID_RAW_CLONE);
        match self.downcast_trait(&rc_desc) {
            Some(clone_ref) => {
                let data = clone_ref.raw_clone();
                let tid = self.type_id_raw();
                let registry = self.duplicate_registry();
                Some(MultitraitObject::from_parts(data, tid, registry))
            },
            None => None,
        }
    }
}

} // verus!
