//! Marshalling layer between a host that speaks plain numbers, strings and
//! records, and the spdcalc engine: integrator settings, the five signal/idler
//! coordinate spaces with their conversion matrix, the
//! apodization codec, and the translation of failures into one error channel.
pub mod apodization;
pub mod config;
pub mod engine;
pub mod error;
pub mod integrator;
pub mod spaces;
