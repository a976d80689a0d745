//! A runtime type-erasure container.
//!
//! A `MultitraitObject` stores exactly one concrete value together with a
//! registry of capability interfaces the value was declared to support.  A
//! consumer can later retrieve the value as its original concrete type, or as
//! a reference to any registered interface, without knowing the concrete type
//! ahead of time.
//!
//! Machine-level artifacts of the erased representation are modeled by plain
//! values: a concrete type is named by a `u32` identifier, an interface by a
//! `TraitDesc`, and a dispatch table by the `u64` that `vtable_of` computes
//! from the (type, interface) pair.

pub mod builders;
pub mod descriptor;
pub mod laws;
pub mod object;
pub mod registry;
pub mod render;
pub mod trait_impl;
pub mod value;

pub use builders::{IntoMultitrait, create_object};
pub use descriptor::{FatPointer, TraitDesc, fat_pointer, shape_ok, vtable_of};
pub use descriptor::{FAT_POINTER_SIZE, TRAIT_ID_ANY, TRAIT_ID_DEBUG, TRAIT_ID_PARTIAL_EQ_ANY};
pub use descriptor::TRAIT_ID_RAW_CLONE;
pub use object::{BoxedTrait, MultitraitObject, TraitRef};
pub use render::{debug_repr, dec_repr, u32_to_dec, value_debug};
pub use trait_impl::try_clone::{RawClone, TryClone};
pub use trait_impl::try_partial_eq::{PartialEqAny, TryPartialEq, try_eq_spec};
pub use value::{Value, ValueView, value_type_id, view_type_id, TYPE_ID_RECORD, TYPE_ID_TEXT};
