//! Generation of the C header that describes the symbols of a Rust/Swift
//! bridge module: value types, opaque handles, free functions and methods.
//!
//! `SwiftBridgeModule::generate_c_header` returns exactly `header::c_header`
//! of the module; `laws` states what follows for whole modules.

pub mod bookkeeping;
pub mod c_types;
pub mod emit;
pub mod header;
pub mod laws;
pub mod model;
pub mod ordering;
pub mod text;
