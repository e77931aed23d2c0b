//! Conversion of structured medical-imaging reports into a textual graph of
//! subject-predicate-object triples.
pub mod text;
pub mod turtle;
pub mod datetime;
pub mod document;
pub mod config;
pub mod dicom;
pub mod io;
pub mod progress;
pub mod construct;
