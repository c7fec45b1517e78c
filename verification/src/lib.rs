//! Loaders that turn property-list and Pkl files into typed assets.
//!
//! A loader is set up once for an asset type `A` and a list of file suffixes.
//! This crate holds what such a loader decides: which paths fall to it
//! ([`routing`]), and what a load reports for each way that reading and
//! decoding a file can turn out ([`plist`], [`pkl`]). It opens no file. The
//! caller reads, and the decoder of each format is the caller's too, since
//! only the caller knows how an `A` is decoded.
//!
//! The two formats differ in how the input is obtained. A property list is
//! read into memory by the caller and then decoded from those bytes, so a
//! load of one takes the outcome of the read and the decoder to run on it. A
//! Pkl module is evaluated by its decoder straight from a path on disk, so a
//! load of one starts from the decoder's answer.

use vstd::prelude::*;

pub mod pkl;
pub mod plist;
pub mod routing;

verus! {

/// `std::io::Error`, the failure of a read. The library carries such a value
/// from the caller into its own error types and never looks inside.
#[verifier::external_type_specification]
#[verifier::external_body]
pub struct ExIoError(std::io::Error);

} // verus!
