//! Bindings generator for host functions of a WASM-embedded Python runtime: an extension
//! declares its host functions once, and this library writes the Python-side Rust guest
//! module, the Java host adapter and the Rust (Wasmtime) host adapter for them.

pub mod case;
pub mod dsl;
pub mod java;
pub mod laws;
pub mod model;
pub mod normalize;
pub mod plan;
pub mod rust_guest;
pub mod rust_host;
pub mod text;
pub mod validate;

pub use model::{Extension, Function, Manifest, Param, Type};
pub use dsl::{ExtensionSpec, FunctionSpec};
pub use java::generate_java_code;
pub use plan::Build;
pub use rust_guest::generate_rust_code;
pub use rust_host::generate_rust_host_code;
pub use validate::validate_manifest;
