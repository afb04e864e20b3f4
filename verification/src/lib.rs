//! Deferred insertion of top-level statements into a program body.
//!
//! During a multi-pass tree walk over a module, independent transform passes
//! may need to add new top-level statements (helper imports, runtime shims)
//! without mutating the program root mid-walk. They append the statements to a
//! shared [`TopLevelStatementsStore`]; once the walk is over, the
//! [`TopLevelStatements`] pass drains the store and splices the pending
//! statements into the program body immediately after the last existing
//! import declaration (or at the very start, if there is none).

mod ast;
mod flush;
mod store;

pub use ast::Program;
pub use ast::Statement;
pub use ast::StatementKind;
pub use flush::TopLevelStatements;
pub use flush::flushed_body;
pub use flush::insertion_point;
pub use flush::lemma_drain_after_flush;
pub use flush::lemma_flush_after_import_prefix;
pub use flush::lemma_flush_empty_buffer;
pub use flush::lemma_flush_into_empty_body;
pub use flush::lemma_insertion_point_after_import_prefix;
pub use flush::lemma_insertion_point_in_range;
pub use store::TopLevelStatementsStore;
