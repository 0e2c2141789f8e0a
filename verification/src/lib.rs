//! The numeric and codec core of a smart-contract SDK.
//!
//! An integer of any size comes in two representations with one meaning:
//! one computes in this process, the other leaves every operation to the
//! execution host and holds a handle. Around it stand the binary codec
//! with its top-level and nested forms, the typed loading of a call's
//! arguments, and the writing of the arguments of an asynchronous call.

pub mod arg_serialize;
pub mod arg_types;
pub mod backends;
pub mod big_int;
pub mod big_int_api;
pub mod big_int_mock;
pub mod codec;
pub mod error;
pub mod host;
pub mod multi_arg;
pub mod multi_result;
pub mod signed_bytes;
