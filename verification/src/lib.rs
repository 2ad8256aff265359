//! Provider configuration profiles for downstream AI command-line tools.
//!
//! The crate models named provider profiles (API keys, endpoints, model
//! overrides) for three tool families, each with its own settings schema.
//! It covers deriving stable unique profile identifiers from display names,
//! the tri-state merge of partially specified edits against existing
//! profiles, per-family encoding and decoding of the settings payload,
//! display-safe masking of secrets, and a concurrency-safe profile store
//! with an active-profile pointer per tool family.

pub mod codec;
pub mod doc;
pub mod errors;
pub mod ids;
pub mod mask;
pub mod merge;
pub mod numbers;
pub mod provider;
pub mod state;
pub mod store;
pub mod summary;
pub mod text;
