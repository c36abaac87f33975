//! The bridge between wasm guests and a wasi-crypto host.
//!
//! The heavy lifting (every cryptographic primitive, every handle table) is done by
//! a cryptographic context, which speaks in terms of Rust slices and `u32` handles.
//! The wasm ABI, on the other hand, speaks in terms of guest pointers and integer
//! error codes. This crate stands between the two: a function of the guest's
//! interface reads its arguments out of guest memory, calls into the context, and
//! writes the results back.
//!
//! [`ctx`] holds the state, and [`common`], [`asymmetric_common`], [`signatures`],
//! [`kx`] and [`symmetric`] the functions. [`memory`] says what it means to read
//! and to write guest memory, [`error`] and [`convert`] what becomes of errors and
//! names. [`types`] are the guest's values, [`host`] the context's.
//!
//! [`laws`] says what holds of all of them together. [`memory_laws`], [`common_laws`],
//! [`asymmetric_common_laws`], [`signatures_laws`], [`kx_laws`] and [`symmetric_laws`]
//! say of every function what a call of it comes to, in terms of the bytes in guest
//! memory and of the result alone.

pub mod asymmetric_common;
pub mod asymmetric_common_laws;
pub mod common;
pub mod common_laws;
pub mod convert;
pub mod ctx;
pub mod error;
pub mod host;
pub mod kx;
pub mod kx_laws;
pub mod laws;
pub mod memory;
pub mod memory_laws;
pub mod signatures;
pub mod signatures_laws;
pub mod symmetric;
pub mod symmetric_laws;
pub mod types;

pub use crate::ctx::WasiCryptoCtx;
pub use crate::error::WasiCryptoError;
