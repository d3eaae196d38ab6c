//! Resolution of layered seL4 build configuration into one flat set of build
//! parameters, and the decisions that drive a cached native build from it.
pub mod arch;
pub mod archive;
pub mod build_cache;
pub mod build_env;
pub mod contextualize;
pub mod document;
pub mod laws;
pub mod model;
pub mod nesting;
pub mod order;
pub mod parse;
pub mod serialize;
pub mod sources;
pub mod strmap;
pub mod text;
pub mod toml_text;
