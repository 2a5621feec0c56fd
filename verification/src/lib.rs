//! A JSON Schema validation engine: schemas are collected in a registry,
//! compiled once into a reusable validator, and instances are then checked
//! either with a boolean fast path or with a detailed error report.

pub mod compile;
pub mod draft;
pub mod engine;
pub mod json;
pub mod registry;
pub mod text;
pub mod validator;
