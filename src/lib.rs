//! A service core that runs untrusted source through an external toolchain:
//! job records, the stage machine of the sandboxed pipeline, the result store
//! with its expiry deadlines, and the decisions of the streaming delivery.

pub mod delivery;
pub mod models;
pub mod pipeline;
pub mod store;
pub mod version;
pub mod worker;
