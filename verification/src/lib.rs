//! Copy-on-write reference-counted handles.
//!
//! A [`CombArc`] (atomic counts, thread-safe) or [`CombRc`] (plain counts,
//! single-threaded) behaves like a shared reference-counted pointer for read
//! access, but hands out exclusive access by cloning the pointee into a
//! private, uniquely owned cell the moment the handle is not the sole owner
//! of its cell. Sharing is the default; divergence happens exactly on an
//! exclusive-access request to a shared cell, and nowhere else — in
//! particular, mutation the pointee permits of itself through a shared view
//! never triggers a clone, because the wrapper cannot see it.
//!
//! The two tiers share one contract. Each handle's pointee is its
//! specification-level value; the operations say how that value is created,
//! read, duplicated, overwritten and moved out. The count discipline itself —
//! strong and weak counts, aliasing, divergence, observer invalidation — is
//! stated and proved over the cell store in [`model`].

mod arc;
pub mod model;
mod rc;

pub use arc::CombArc;
pub use rc::CombRc;
