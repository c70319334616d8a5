//! Core substrate for bridging a memory-safe host language to an external,
//! reference-counted, message-dispatch object runtime.
//!
//! The crate models the decisions that the bridge makes — boolean marshaling
//! between the runtime's sentinel values and host booleans, the
//! exactly-once release discipline of owning references, the process-wide
//! class cache, and the dynamic registration of new runtime classes under
//! collision-resistant names — and proves them against explicit contracts.
//! The actual message sends and class registrations are performed by thin,
//! unverified glue around this crate; every decision that glue takes is a
//! verified function here.

pub mod boolean;
pub mod class;
pub mod encoding;
pub mod error;
pub mod id;
pub mod traits;
