//! A schema-driven, persistent parameter store.
//!
//! Parameters are named, typed configuration cells declared by a schema.
//! The schema is compiled into an immutable table of descriptors with dense
//! integer ids; a parameter engine serves typed get/set over that table with
//! a per-process cache, validation, durable storage in a single-table
//! key/value database, and change notifications carried by a small wire
//! message.

pub mod b64;
pub mod codec;
pub mod config;
pub mod configfile;
pub mod database_utils;
pub mod interface;
pub mod naming;
pub mod notifier;
pub mod schema;
pub mod sql;
pub mod text;
pub mod value;
pub mod wire;

use vstd::prelude::*;

verus! {

/// Status of a call made through the C-style facade: success or failure.
#[derive(Clone, Copy, Debug, PartialEq, Eq, Structural)]
pub enum EconfStatus {
    StatusOk,
    StatusError,
}

/// The errors the store and the engine raise.
#[derive(Clone, Copy, Debug, PartialEq, Eq, Structural)]
pub enum EconfError {
    /// The id is not below the table's length.
    ErrInvalidId,
    /// The write targeted a constant parameter.
    ErrConst,
    /// The write came through the external surface of a read-only
    /// parameter.
    ErrReadonly,
    /// The parameter is hidden from the external surface.
    ErrInternal,
    /// The value failed the parameter's validation rule.
    ErrValidation,
    /// The value is not of the parameter's declared type.
    ErrTypeMismatch,
    /// The durable store failed to open, read or write.
    ErrIo,
    /// The durable store stayed busy past its timeout.
    ErrBusy,
    /// The engine lock could not be acquired in time.
    ErrLockTimeout,
    /// A notification datagram failed to decode.
    ErrMalformed,
    /// The conversion needs floating-point arithmetic, which this library
    /// leaves to its unverified rim.
    ErrUnsupported,
}

} // verus!
