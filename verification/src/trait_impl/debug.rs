//! The debug-formatting capability: render a human-readable representation
//! of the stored value.

use vstd::prelude::*;

use crate::descriptor::{TraitDesc, TRAIT_ID_DEBUG};
use crate::object::{BoxedTrait, MultitraitObject, TraitRef};
use crate::render::{debug_repr, value_debug};

verus! {

impl<'a> TraitRef<'a> {
    /// Invokes the debug capability through this interface reference.
    pub fn debug_fmt(&self) -> (s: String)
        requires
            self.is_for(TRAIT_ID_DEBUG),
        ensures
            s@ == debug_repr(self.referent()@),
    {
        value_debug(self.referent_ref())
    }
}

impl BoxedTrait {
    /// Invokes the debug capability through this owned interface handle.
    pub fn debug_fmt(&self) -> (s: String)
        requires
            self.is_for(TRAIT_ID_DEBUG),
        ensures
            s@ == debug_repr(self.referent()@),
    {
        value_debug(self.referent_ref())
    }
}

impl MultitraitObject {
    /// Renders the container for debugging.  Delegates to the debug
    /// capability when it is registered; otherwise emits a fixed placeholder
    /// — formatting never fails, even without the capability.
    pub fn fmt_debug(&self) -> (s: String)
        requires
            self.wf(),
        ensures
            self.implements_spec(TRAIT_ID_DEBUG) ==> s@ == debug_repr(self.stored()@),
            !self.implements_spec(TRAIT_ID_DEBUG) ==> s@ == "<unavailable>"@,
    {
        let debug_desc = TraitDesc::interface(TRAIT_ID_DEBUG);
        match self.downcast_trait(&debug_desc) {
            Some(debug_ref) => debug_ref.debug_fmt(),
            None => String::from_str("<unavailable>"),
        }
    }
}

} // verus!
