//! The capability registry core: the container itself.
//!
//! A `MultitraitObject` owns one erased value, records the identifier of the
//! value's concrete type, and holds a registry from interface identifier to
//! dispatch-table pointer.  Every downcast reports absence — not an error —
//! when the requested capability or type was never registered or the shape
//! precondition fails; that is an expected outcome, not an exceptional one.

use vstd::prelude::*;

use crate::descriptor::{TraitDesc, fat_pointer, shape_ok, vtable_of, vtable_for, FAT_POINTER_SIZE, TRAIT_ID_ANY};
use crate::registry::Registry;
use crate::value::{Value, value_type_id};

verus! {

/// A container that stores one value with its concrete type identity and the
/// dispatch tables of the interfaces registered for it, allowing later casts
/// down to those interfaces or to the concrete type.
pub struct MultitraitObject {
    pub(crate) data: Value,
    pub(crate) original_typeid: u32,
    pub(crate) traits: Registry,
}

/// A reference to the stored value viewed through a registered interface:
/// the model of the (data pointer, dispatch-table pointer) pair, borrowing
/// from the container.
pub struct TraitRef<'a> {
    pub(crate) value: &'a Value,
    pub(crate) vptr: u64,
}

/// An owned handle to a value of interface shape: the stored value moved out
/// of its container together with the interface's dispatch-table pointer.
pub struct BoxedTrait {
    pub(crate) value: Value,
    pub(crate) vptr: u64,
}

impl<'a> TraitRef<'a> {
    /// The value this interface reference points at.
    pub closed spec fn referent(&self) -> Value {
        *self.value
    }

    /// The dispatch-table pointer half of the reference.
    pub closed spec fn vptr_spec(&self) -> u64 {
        self.vptr
    }

    /// Whether this reference is a well-formed view of its value through the
    /// interface `trait_id`: its dispatch table is the one computed from the
    /// value's own concrete type paired with that interface.
    pub open spec fn is_for(&self, trait_id: u32) -> bool {
        self.vptr_spec() == vtable_of(value_type_id(self.referent()), trait_id)
    }

    /// The dispatch-table pointer, executably.
    pub fn vptr(&self) -> (v: u64)
        ensures
            v == self.vptr_spec(),
    {
        self.vptr
    }

    /// The data half of the reference, for the capability dispatchers.
    pub(crate) fn referent_ref(&self) -> (v: &'a Value)
        ensures
            *v == self.referent(),
    {
        self.value
    }

    /// The universal capability's type-checked narrowing: hands the concrete
    /// value back iff the requested type identity matches the value's own.
    pub fn any_downcast_ref(&self, type_id: u32) -> (r: Option<&'a Value>)
        requires
            self.is_for(TRAIT_ID_ANY),
        ensures
            r is Some <==> type_id == value_type_id(self.referent()),
            r matches Some(v) ==> *v == self.referent(),
    {
        let vt = self.value.type_id();
        if vt == type_id {
            Some(self.value)
        } else {
            None
        }
    }
}

impl BoxedTrait {
    /// The value this owned handle carries.
    pub closed spec fn referent(&self) -> Value {
        self.value
    }

    /// The dispatch-table pointer half of the handle.
    pub closed spec fn vptr_spec(&self) -> u64 {
        self.vptr
    }

    /// Whether this handle is a well-formed view of its value through the
    /// interface `trait_id`.
    pub open spec fn is_for(&self, trait_id: u32) -> bool {
        self.vptr_spec() == vtable_of(value_type_id(self.referent()), trait_id)
    }

    /// The data half of the handle, for the capability dispatchers.
    pub(crate) fn referent_ref(&self) -> (v: &Value)
        ensures
            *v == self.referent(),
    {
        &self.value
    }
}

impl MultitraitObject {
    /// The stored value.
    pub closed spec fn stored(&self) -> Value {
        self.data
    }

    /// The recorded identifier of the stored value's concrete type.
    pub closed spec fn type_id_spec(&self) -> u32 {
        self.original_typeid
    }

    /// The registry: interface identifier to dispatch-table pointer.
    pub closed spec fn traits_map(&self) -> Map<u32, u64> {
        self.traits.as_map()
    }

    /// The registry representation's own invariant.
    pub closed spec fn registry_wf(&self) -> bool {
        self.traits.wf()
    }

    /// Well-formedness: the recorded type identity is the stored value's own;
    /// the universal capability is registered; and every registered dispatch
    /// table was computed from this container's concrete type paired with the
    /// entry's interface, so no table of a foreign type can be invoked.
    pub open spec fn wf(&self) -> bool {
        &&& self.registry_wf()
        &&& self.type_id_spec() == value_type_id(self.stored())
        &&& self.traits_map().dom().contains(TRAIT_ID_ANY)
        &&& forall|t: u32|
            #[trigger] self.traits_map().dom().contains(t) ==> self.traits_map()[t] == vtable_of(
                self.type_id_spec(),
                t,
            )
    }

    /// Whether an interface is registered.
    pub open spec fn implements_spec(&self, trait_id: u32) -> bool {
        self.traits_map().dom().contains(trait_id)
    }

    /// Whether the stored value's concrete type has the given identity.
    pub open spec fn is_spec(&self, type_id: u32) -> bool {
        self.type_id_spec() == type_id
    }

    /// What a concrete downcast returns: the stored value iff the requested
    /// type identity matches, absence otherwise.
    pub open spec fn downcast_spec(&self, type_id: u32) -> Option<Value> {
        if self.is_spec(type_id) {
            Some(self.stored())
        } else {
            None
        }
    }

    /// What an interface downcast carries on success: the registered
    /// dispatch-table pointer, present iff the shape precondition holds and
    /// the interface is registered.
    pub open spec fn downcast_trait_spec(&self, tr: TraitDesc) -> Option<u64> {
        if shape_ok(tr) && self.implements_spec(tr.id) {
            Some(self.traits_map()[tr.id])
        } else {
            None
        }
    }

    /// Creates a new multitrait object from the given value: moves the value
    /// in, records its concrete type identity, and self-registers the
    /// universal "any erased value" capability.  All other interfaces must be
    /// registered on this object in order to access them.
    pub fn new(value: Value) -> (r: MultitraitObject)
        ensures
            r.wf(),
            r.stored() == value,
            r.type_id_spec() == value_type_id(value),
            r.traits_map() == Map::<u32, u64>::empty().insert(
                TRAIT_ID_ANY,
                vtable_of(value_type_id(value), TRAIT_ID_ANY),
            ),
    {
        let tid = value.type_id();
        let any_vptr = vtable_for(tid, TRAIT_ID_ANY);
        let mut this = MultitraitObject {
            data: value,
            original_typeid: tid,
            traits: Registry::new(),
        };
        this._register(TRAIT_ID_ANY, any_vptr);
        this
    }

    /// Inserts `(trait_id, vtable_ptr)` into the registry, overwriting any
    /// prior entry for the interface.  Privileged: the caller must supply the
    /// dispatch table computed from this container's exact concrete type —
    /// the precondition states it — and the registration builders are the
    /// intended callers.
    pub fn _register(&mut self, trait_id: u32, vtable_ptr: u64)
        requires
            old(self).registry_wf(),
            vtable_ptr == vtable_of(old(self).type_id_spec(), trait_id),
        ensures
            final(self).registry_wf(),
            final(self).stored() == old(self).stored(),
            final(self).type_id_spec() == old(self).type_id_spec(),
            final(self).traits_map() == old(self).traits_map().insert(trait_id, vtable_ptr),
            old(self).wf() ==> final(self).wf(),
    {
        self.traits.insert(trait_id, vtable_ptr);
    }

    /// Computes the interface's dispatch table for this container's own
    /// concrete type via the descriptor builder and registers it; reports
    /// whether the descriptor's reference shape was accepted.
    pub fn register_trait(&mut self, tr: &TraitDesc) -> (ok: bool)
        requires
            old(self).registry_wf(),
        ensures
            final(self).registry_wf(),
            final(self).stored() == old(self).stored(),
            final(self).type_id_spec() == old(self).type_id_spec(),
            ok == shape_ok(*tr),
            ok ==> final(self).traits_map() == old(self).traits_map().insert(
                tr.id,
                vtable_of(old(self).type_id_spec(), tr.id),
            ),
            !ok ==> final(self).traits_map() == old(self).traits_map(),
            old(self).wf() ==> final(self).wf(),
    {
        match fat_pointer(self.original_typeid, tr) {
            Some(fp) => {
                self._register(tr.id, fp.vptr);
                true
            },
            None => false,
        }
    }

    /// Downcasts the object into a reference viewed through the given
    /// interface.  Reports absence if the descriptor's reference shape is not
    /// the two-word layout, or if the interface was never registered;
    /// otherwise reconstructs the reference from the stored data and the
    /// registry's dispatch-table pointer.
    pub fn downcast_trait<'a>(&'a self, tr: &TraitDesc) -> (r: Option<TraitRef<'a>>)
        requires
            self.registry_wf(),
        ensures
            r is Some <==> (shape_ok(*tr) && self.implements_spec(tr.id)),
            r matches Some(p) ==> {
                &&& p.referent() == self.stored()
                &&& Some(p.vptr_spec()) == self.downcast_trait_spec(*tr)
                &&& (self.wf() ==> p.is_for(tr.id))
            },
    {
        if tr.ref_size != FAT_POINTER_SIZE {
            None
        } else {
            match self.traits.lookup(tr.id) {
                Some(vptr) => Some(TraitRef { value: &self.data, vptr }),
                None => None,
            }
        }
    }

    /// Downcasts the object into a mutable view of the stored value through
    /// the given interface, granting exclusive access.  The caller that
    /// mutates through it must leave a value of the same concrete type, as
    /// the interface's operations would; the final clause says that this
    /// restores well-formedness.
    pub fn downcast_trait_mut<'a>(&'a mut self, tr: &TraitDesc) -> (r: Option<&'a mut Value>)
        requires
            old(self).registry_wf(),
        ensures
            final(self).registry_wf(),
            final(self).type_id_spec() == old(self).type_id_spec(),
            final(self).traits_map() == old(self).traits_map(),
            r is Some <==> (shape_ok(*tr) && old(self).implements_spec(tr.id)),
            r is Some ==> *r.unwrap() == old(self).stored(),
            r is Some ==> final(self).stored() == *final(r.unwrap()),
            r is None ==> final(self).stored() == old(self).stored(),
            r is Some && value_type_id(*final(r.unwrap())) == value_type_id(old(self).stored())
                && old(self).wf() ==> final(self).wf(),
    {
        if tr.ref_size != FAT_POINTER_SIZE {
            None
        } else {
            match self.traits.lookup(tr.id) {
                Some(_) => Some(&mut self.data),
                None => None,
            }
        }
    }

    /// Downcasts the object to an owned, interface-shaped handle, consuming
    /// the container; ownership of the stored value transfers out exactly
    /// once, so the container releases nothing afterwards.
    pub fn downcast_trait_boxed(self, tr: &TraitDesc) -> (r: Option<BoxedTrait>)
        requires
            self.registry_wf(),
        ensures
            r is Some <==> (shape_ok(*tr) && self.implements_spec(tr.id)),
            r matches Some(b) ==> {
                &&& b.referent() == self.stored()
                &&& Some(b.vptr_spec()) == self.downcast_trait_spec(*tr)
                &&& (self.wf() ==> b.is_for(tr.id))
            },
    {
        if tr.ref_size != FAT_POINTER_SIZE {
            None
        } else {
            match self.traits.lookup(tr.id) {
                Some(vptr) => Some(BoxedTrait { value: self.data, vptr }),
                None => None,
            }
        }
    }

    /// Downcasts the object into a reference of the given concrete type,
    /// delegating the type check to the universal capability's narrowing.
    pub fn downcast_ref<'a>(&'a self, type_id: u32) -> (r: Option<&'a Value>)
        requires
            self.wf(),
        ensures
            r is Some <==> type_id == self.type_id_spec(),
            r matches Some(v) ==> *v == self.stored(),
    {
        let any_desc = TraitDesc::interface(TRAIT_ID_ANY);
        match self.downcast_trait(&any_desc) {
            Some(any) => any.any_downcast_ref(type_id),
            None => {
                proof {
                    assert(false);
                }
                None
            },
        }
    }

    /// Downcasts the object into a mutable reference of the given concrete
    /// type, through the universal capability; the caller's writes land in
    /// the container, which stays well-formed as long as they keep the
    /// value's concrete type — which holding a reference to the concrete
    /// type is meant to do.
    pub fn downcast_mut<'a>(&'a mut self, type_id: u32) -> (r: Option<&'a mut Value>)
        requires
            old(self).wf(),
        ensures
            final(self).registry_wf(),
            final(self).type_id_spec() == old(self).type_id_spec(),
            final(self).traits_map() == old(self).traits_map(),
            r is Some <==> type_id == old(self).type_id_spec(),
            r is Some ==> *r.unwrap() == old(self).stored(),
            r is Some ==> final(self).stored() == *final(r.unwrap()),
            r is None ==> *final(self) == *old(self),
            r is Some && value_type_id(*final(r.unwrap())) == value_type_id(old(self).stored())
                ==> final(self).wf(),
    {
        let tid = self.original_typeid;
        if tid != type_id {
            return None;
        }
        let any_desc = TraitDesc::interface(TRAIT_ID_ANY);
        match self.downcast_trait_mut(&any_desc) {
            Some(v) => Some(v),
            None => {
                proof {
                    assert(false);
                }
                None
            },
        }
    }

    /// Downcasts the object into the given concrete type, consuming it; the
    /// stored value moves out iff the type identity matches the recorded one.
    pub fn downcast(self, type_id: u32) -> (r: Option<Value>)
        ensures
            r == self.downcast_spec(type_id),
    {
        if type_id == self.original_typeid {
            Some(self.data)
        } else {
            None
        }
    }

    /// Returns whether the object stores the given concrete type.  Use
    /// `implements` to ask for an interface instead.
    pub fn is(&self, type_id: u32) -> (r: bool)
        ensures
            r == self.is_spec(type_id),
    {
        self.original_typeid == type_id
    }

    /// The recorded type identifier, for the capability dispatchers.
    pub(crate) fn type_id_raw(&self) -> (t: u32)
        ensures
            t == self.type_id_spec(),
    {
        self.original_typeid
    }

    /// A copy of this container's registry, denoting the same mapping.
    pub(crate) fn duplicate_registry(&self) -> (r: Registry)
        requires
            self.registry_wf(),
        ensures
            r.wf(),
            r.as_map() == self.traits_map(),
    {
        self.traits.duplicate()
    }

    /// Assembles a container from its parts, for the capability dispatchers.
    pub(crate) fn from_parts(data: Value, original_typeid: u32, traits: Registry) -> (r:
        MultitraitObject)
        requires
            traits.wf(),
        ensures
            r.stored() == data,
            r.type_id_spec() == original_typeid,
            r.traits_map() == traits.as_map(),
            r.registry_wf(),
    {
        MultitraitObject { data, original_typeid, traits }
    }

    /// Returns whether the object has the given interface registered.
    pub fn implements(&self, trait_id: u32) -> (r: bool)
        requires
            self.registry_wf(),
        ensures
            r == self.implements_spec(trait_id),
    {
        self.traits.contains(trait_id)
    }
}

} // verus!
