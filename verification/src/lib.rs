//! Depth-limited, cycle-safe pretty-printing of record graphs whose fields
//! may point into an external address space.
//!
//! A [`model::Record`] describes one typed value as an ordered list of
//! fields; a pointer-valued field carries an address into a [`memory::Memory`],
//! which stands for the external address space and answers each read with
//! either the pointee record or a read error.  The traversal engine walks the
//! graph, printing plain fields, following pointer fields through the memory,
//! skipping padding fields, deduplicating visits by address to break cycles,
//! and stopping at a configured maximum depth.  The output is returned as a
//! list of lines; callers decide where the lines go.

pub mod engine;
pub mod laws;
pub mod memory;
pub mod render;
pub mod model;
pub mod numfmt;
pub mod text;
pub mod visited;

pub use engine::DerefDebugPrint;
pub use engine::PointerPrint;
pub use engine::print_with_pointer_reading;
