//! Core of a job-control service: jobs are submitted with an owning chat id,
//! run asynchronously (an OS process or a download-and-unzip pipeline), can be
//! cancelled, report a status that walks a fixed lifecycle state machine, and
//! are evicted from the in-memory registry a fixed retention delay after they
//! finish.
//!
//! Everything here is synchronous, verified logic: the lifecycle state
//! machines, the registry bookkeeping, the broadcast-bus model, the wire
//! encodings, and the URL and archive helpers. An unverified adapter owns the
//! event loop, the sockets and the filesystem, and drives these functions.
pub mod codec;
pub mod wire;
pub mod task;
pub mod runner;
pub mod registry;
pub mod ws;
pub mod bus;
pub mod utils;
pub mod download;
pub mod routes;
