//! Error taxonomy for a client of a remote authentication service.
//!
//! [`error::AuthError`] names everything that can go wrong in such a client:
//! failures that the client finds itself, failures of the layers below it,
//! and errors that the service reports. [`payload::SupabaseHTTPError`] is the
//! structured error body of the service. Both render to text for a reader;
//! the payload also converts to and from its JSON wire form.
//!
//! - [`decimal`]: the decimal text of integers.
//! - [`json`]: the model of JSON values, and the calls into `serde_json`.
//! - [`payload`]: the error body and its display form.
//! - [`wire`]: the wire form of the error body.
//! - [`error`]: the error type, its display form and its conversions.

pub mod decimal;
pub mod error;
pub mod json;
pub mod payload;
pub mod wire;
