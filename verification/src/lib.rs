//! A small shader cross-compiler: it parses a shader written in a GLSL-like
//! source language into a language-neutral intermediate representation,
//! statically validates that representation against a capability profile and
//! a set of validation flags, and emits semantically equivalent source in a
//! WGSL-like or MSL-like target language.
pub mod caps;
pub mod err;
pub mod front;
pub mod gen;
pub mod geometry;
pub mod ir;
pub mod lex;
pub mod parse;
pub mod pipeline;
pub mod spirv;
pub mod valid;
pub mod wf;

pub use ir::Module;
pub use ir::ShaderStage;
