//! Aliasing-safe dual-location views for in-place and out-of-place
//! block transforms.
//!
//! An [`InOut`](dual::InOut) pairs one input location with one output
//! location of the same type. The two locations are either the very same
//! storage (the in-place case) or two separate, non-overlapping storages
//! (the out-of-place case). Block-oriented routines written against a view
//! work unchanged in both cases; the bulk XOR transforms in [`xor`] are the
//! canonical example.
//!
//! Ownership stands in for the raw-pointer discipline: a view owns its
//! storage for as long as it exists, so nothing else can observe or mutate
//! the output location, and an in-place view holds a single storage that
//! both roles share.

pub mod buf;
pub mod dual;
pub mod errors;
pub mod xor;

pub use buf::InOutBuf;
pub use dual::InOut;
pub use errors::InOutError;
