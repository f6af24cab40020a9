//! A voice-diary capture and enrichment library.
//!
//! A diary entry is captured synchronously: the record is created, the raw
//! audio is uploaded to object storage, and the record is linked to the
//! stored blob, all under one transactional scope. Enrichment (transcription,
//! summary, emotion) happens later, in independent stages, each merged back
//! into the record by a partial update that touches only the fields it was
//! asked to set.

pub mod calendar;
pub mod capture;
pub mod date;
pub mod deco;
pub mod emotion;
pub mod enrich;
pub mod errors;
pub mod multipart;
pub mod record;
pub mod room;
pub mod storage;
pub mod store;
pub mod text;
