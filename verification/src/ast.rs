//! A minimal model of the AST nodes the flush logic reads.
//!
//! The flush pass inspects exactly one thing about a top-level statement: is
//! it an import declaration or not. A [`Statement`] therefore carries a
//! [`StatementKind`] discriminator together with an opaque node handle that
//! identifies the underlying AST node; everything else about the node stays
//! with the caller. A [`Program`] is the module root: an ordered body of
//! top-level statements.

use vstd::prelude::*;

verus! {

/// The kind of a top-level statement, as far as the flush logic cares: only
/// [`StatementKind::ImportDeclaration`] influences the insertion point.
#[derive(Clone, Copy, Debug, PartialEq, Eq, Structural)]
pub enum StatementKind {
    /// An `import` declaration.
    ImportDeclaration,
    /// A function declaration.
    FunctionDeclaration,
    /// A variable declaration.
    VariableDeclaration,
    /// Any other top-level statement.
    Other,
}

/// A top-level statement: a kind discriminator plus an opaque handle to the
/// underlying AST node. The handle is never interpreted here; it lets a caller
/// match the statements of a flushed body back to its own nodes.
#[derive(Clone, Copy, Debug, PartialEq, Eq, Structural)]
pub struct Statement {
    /// What kind of statement this is.
    pub kind: StatementKind,
    /// Opaque handle to the underlying AST node.
    pub node: u32,
}

impl Statement {
    /// True exactly on import declarations.
    pub open spec fn is_import(self) -> bool {
        self.kind == StatementKind::ImportDeclaration
    }
}

/// The AST root: an ordered sequence of top-level statements, mutated in
/// place by the flush.
pub struct Program {
    /// The top-level statements, in program order.
    pub body: Vec<Statement>,
}

} // verus!
