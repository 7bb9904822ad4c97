//! Background job orchestration: the closed set of asynchronous work units a
//! server performs outside the request/response cycle, the recurring triggers
//! that produce them, a dispatcher that routes each work unit to its handler,
//! and the success/failure contract each handler honours.
//!
//! The collaborator services themselves (importer, miscellaneous
//! orchestration, exercise catalog) are external: this crate decides which
//! collaborator calls to make, in which order, and how their outcomes reduce
//! to a single reported result. The surrounding process performs the actual
//! asynchronous calls and feeds each reply back into the state machines here.

pub mod clock;
pub mod context;
pub mod dispatch;
pub mod scheduled;
pub mod jobs;
pub mod laws;
