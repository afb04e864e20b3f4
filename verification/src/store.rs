//! The shared store of statements awaiting insertion.

use vstd::prelude::*;

use crate::ast::Statement;

verus! {

/// Store for statements to be added at top of program.
///
/// An ordered, append-only buffer of pending top-level statements. Passes add
/// statements with [`TopLevelStatementsStore::insert_statement`] while the
/// tree walk is in progress; the flush pass empties the buffer with
/// [`TopLevelStatementsStore::drain`] once the walk is over. One store serves
/// one compilation unit's transform run and is discarded with it.
pub struct TopLevelStatementsStore {
    stmts: Vec<Statement>,
}

impl View for TopLevelStatementsStore {
    type V = Seq<Statement>;

    /// A store is modelled by the sequence of its pending statements, in
    /// insertion order.
    closed spec fn view(&self) -> Seq<Statement> {
        self.stmts@
    }
}

impl TopLevelStatementsStore {
    /// Creates an empty store.
    pub fn new() -> (store: Self)
        ensures
            store@ == Seq::<Statement>::empty(),
    {
        TopLevelStatementsStore { stmts: Vec::new() }
    }

    /// Add a statement to be inserted at top of program.
    ///
    /// The statement goes to the end of the pending sequence; nothing already
    /// buffered moves.
    pub fn insert_statement(&mut self, stmt: Statement)
        ensures
            final(self)@ == old(self)@.push(stmt),
    {
        self.stmts.push(stmt);
    }

    /// True exactly when no statement is pending.
    pub fn is_empty(&self) -> (empty: bool)
        ensures
            empty == (self@.len() == 0),
    {
        self.stmts.len() == 0
    }

    /// Removes and returns all pending statements, in insertion order,
    /// leaving the store empty. On an empty store this is a no-op that
    /// returns an empty vector, so repeated drains with no intervening
    /// insertion keep yielding nothing.
    pub fn drain(&mut self) -> (drained: Vec<Statement>)
        ensures
            drained@ == old(self)@,
            final(self)@ == Seq::<Statement>::empty(),
    {
        let mut drained: Vec<Statement> = Vec::new();
        core::mem::swap(&mut drained, &mut self.stmts);
        drained
    }
}

} // verus!
