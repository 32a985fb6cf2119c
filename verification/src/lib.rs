//! Verified core of an asynchronous video-summary job server.
//!
//! A client submits a unit of work and receives an opaque token; a background
//! pipeline fetches the media, runs a summarization tool, and records its
//! progress in a task registry; the client polls the token until the result or
//! a failure is delivered exactly once.  This crate holds the verified logic:
//! the registry, the pipeline decision functions, the submission and polling
//! protocol, the archive packaging decisions, the error taxonomy, and the JSON
//! encoding of every response.  The unverified binary around it performs the
//! actual process spawning, file reads, and HTTP plumbing, handing plain
//! values in and out.

pub mod controller;
pub mod exception;
pub mod models;
pub mod text;
