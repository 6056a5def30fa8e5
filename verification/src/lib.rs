//! Client-side DIMSE message exchange for the DICOM network services
//! Verification (C-ECHO), Storage (C-STORE) and Query/Retrieve-Find (C-FIND),
//! together with the metadata and reporting helpers that surround them.
//!
//! The protocol core is pure: command construction, fragment reassembly,
//! response classification and the Find pairing state machine are ordinary
//! verified functions over plain values. Encoding and decoding of datasets
//! is delegated to the `dicom` family of crates through a small set of
//! trusted wrappers.

pub mod assembler;
pub mod codec;
pub mod command;
pub mod document;
pub mod dump;
pub mod echo;
pub mod errors;
pub mod fieldmap;
pub mod find;
pub mod metadata;
pub mod models;
pub mod presentation;
pub mod store;
pub mod structured;
pub mod text;
pub mod validation;
