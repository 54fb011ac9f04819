//! Content classification, scoring and fingerprinting for a clipboard history.
pub mod analyzer;
pub mod benchmark;
pub mod budget;
pub mod capture;
pub mod decision;
pub mod fingerprint;
pub mod fraction;
pub mod laws;
pub mod markup;
pub mod scoring;
pub mod similarity;
pub mod text;
