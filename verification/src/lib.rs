//! Host-side marshaling and binding layer for sandboxed greeter plugins.
//!
//! A plugin is a WebAssembly binary that the host cannot dereference. Under
//! the raw-pointer convention every value that crosses the boundary is a
//! byte range of the plugin's linear memory, named by an offset and a
//! length; under the generated-binding convention the engine moves the
//! strings itself. The modules state, as contracts over a `Seq<u8>` model of
//! the memory, what each step of the first convention reads and writes.
//!
//! - [`abi`]: little-endian integers, string references, bounds records.
//! - [`memory`]: the memory as a byte sequence, and what decodes from it.
//! - [`cursor`]: the bump cursor.
//! - [`registry`]: host capabilities and the resolution of imports.
//! - [`binder`]: conventions and the exports each of them requires.
//! - [`raw`], [`generated`]: an instance under either convention.
//! - [`plugin`]: both behind one interface.
//! - [`driver`]: the life of one plugin in a run, and what is printed.
//! - [`greeter`]: what an English plugin answers.
//! - [`sandbox`], [`text`], [`error`]: engine set-up, UTF-8, failures.

pub mod abi;
pub mod binder;
mod clock;
pub mod cursor;
pub mod driver;
mod engine;
pub mod error;
pub mod generated;
pub mod greeter;
pub mod memory;
pub mod plugin;
pub mod raw;
pub mod registry;
pub mod sandbox;
pub mod text;
