//! Verified core of an XR render-loop integration: the per-frame
//! synchronization state machine, partial-validity pose merging, persistent
//! per-eye view state, compositor layer assembly, runtime event fan-out and
//! the ownership registry that guards native space-handle destruction.
//!
//! The native runtime is reached only through blocking calls and raw function
//! pointers, so those calls live with the embedding; this crate receives
//! their outcomes as plain values and decides, under contract, what each
//! outcome means for the session. Spatial components (positions, rotations,
//! field-of-view angles) are carried as opaque 32-bit words produced at the
//! native boundary: the logic here copies or retains them whole and never
//! computes with them.

pub mod events;
pub mod frame;
pub mod layers;
pub mod pose;
pub mod spaces;
pub mod status;
pub mod views;
