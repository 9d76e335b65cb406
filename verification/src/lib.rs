//! A safe core for a foreign-function bridge around an embedded
//! versioned-table storage engine.
//!
//! The bridge lets a host process drive long-running table operations
//! (open, load a version, vacuum, checkpoint) through an asynchronous
//! scheduler and receive each outcome exactly once through a completion
//! payload.  This crate holds the decision logic of that bridge: the
//! buffer and map types that carry data across the boundary, the error
//! taxonomy, the table-handle lifecycle, and the planning and completion
//! steps of every operation.  The engine itself and the raw pointer
//! surface live outside, and hand this crate plain values.

pub mod buffers;
pub mod dispatch;
pub mod errors;
pub mod handle;
pub mod metadata;
pub mod strmap;
pub mod token;
pub mod vacuum;
