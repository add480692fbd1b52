//! Core building blocks for uniform CRUD REST handlers.
//!
//! Two pieces, both free of runtime state:
//!
//! - [`rest_result`] wraps a successful handler result into the uniform
//!   `{ "data": ... }` envelope together with its HTTP status code.
//! - [`handler`] describes, as a step-by-step protocol, what each of the five
//!   CRUD handlers (create, get, list, update, delete) asks of the persistence
//!   controller and how it wraps or propagates the controller's answers.
//!
//! The surrounding web framework extracts request parameters, performs the
//! controller calls, and serializes the envelope; nothing here does I/O.

pub mod handler;
pub mod rest_params;
pub mod rest_result;
