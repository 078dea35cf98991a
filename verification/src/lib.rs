//! Request execution, cascades of grammar-constrained steps, and the
//! workflows built on them, with the device and model descriptions that
//! configure a backend.

pub mod cascade;
pub mod devices;
pub mod llms;
pub mod models;
pub mod primitives;
pub mod requests;
pub mod sdk;
pub mod text;
pub mod tools;
pub mod workflows;
