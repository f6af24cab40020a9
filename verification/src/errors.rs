//! The error taxonomy of the capture and enrichment paths.
//!
//! Input errors are the caller's fault and never retried; storage errors are
//! fatal to the synchronous capture and roll it back; provider errors are
//! isolated to their enrichment stage and logged only, since no caller is
//! waiting on the asynchronous path.

use vstd::prelude::*;
use crate::store::StoreError;

verus! {

/// A malformed or incomplete request payload.
#[derive(Clone, Copy, Debug, PartialEq, Eq, Structural)]
pub enum InputError {
    NoFileUploaded,
}

impl InputError {
    /// The single flattened message the caller sees.
    pub fn message(&self) -> (r: String)
        ensures
            r@ == "No file uploaded"@,
    {
        "No file uploaded".to_owned()
    }
}

/// A blob-gateway failure: network, quota or auth. Fatal to the enclosing
/// capture.
#[derive(Debug)]
pub struct StorageError {
    pub message: String,
}

impl StorageError {
    pub fn new(message: String) -> (r: StorageError)
        ensures
            r.message@ == message@,
    {
        StorageError { message }
    }
}

/// An enrichment-provider failure. It stops its own stage and nothing else.
#[derive(Debug)]
pub struct ProviderError {
    pub message: String,
}

impl ProviderError {
    pub fn new(message: String) -> (r: ProviderError)
        ensures
            r.message@ == message@,
    {
        ProviderError { message }
    }
}

/// Why a synchronous capture failed. Whatever the variant, the transactional
/// scope was rolled back and no record remains visible.
#[derive(Debug)]
pub enum CaptureError {
    Input(InputError),
    Storage(StorageError),
    Store(StoreError),
}

impl CaptureError {
    /// The single flattened message the caller sees.
    pub fn message(self) -> (r: String)
        ensures
            self matches CaptureError::Input(e) ==> r@ == "No file uploaded"@,
            self matches CaptureError::Storage(e) ==> r@ == e.message@,
    {
        match self {
            CaptureError::Input(e) => e.message(),
            CaptureError::Storage(e) => e.message,
            CaptureError::Store(StoreError::NotFound) => "record not found".to_owned(),
            CaptureError::Store(StoreError::Persistence) => "persistence failure".to_owned(),
        }
    }
}

/// Why an enrichment stage wrote nothing back.
#[derive(Debug)]
pub enum EnrichError {
    Provider(ProviderError),
    Store(StoreError),
}

} // verus!
