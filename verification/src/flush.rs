//! The terminal flush pass: drain the store and splice its contents into the
//! program body, just after the last existing import declaration.

use vstd::prelude::*;

use crate::ast::Program;
use crate::ast::Statement;
use crate::ast::StatementKind;
use crate::store::TopLevelStatementsStore;

verus! {

/// The index at which pending statements are inserted: one past the last
/// import declaration in `body`, or `0` if `body` holds no import.
pub open spec fn insertion_point(body: Seq<Statement>) -> int
    decreases body.len(),
{
    if body.len() == 0 {
        0
    } else if body.last().is_import() {
        body.len() as int
    } else {
        insertion_point(body.drop_last())
    }
}

/// The body that a flush produces: the statements before the insertion point,
/// then the pending statements in insertion order, then the statements at and
/// after the insertion point.
pub open spec fn flushed_body(body: Seq<Statement>, pending: Seq<Statement>) -> Seq<Statement> {
    body.take(insertion_point(body)) + pending + body.skip(insertion_point(body))
}

/// The insertion point is a position of the body: at least `0` and at most
/// `body.len()`.
pub proof fn lemma_insertion_point_in_range(body: Seq<Statement>)
    ensures
        0 <= insertion_point(body) <= body.len(),
    decreases body.len(),
{
    if body.len() != 0 && !body.last().is_import() {
        lemma_insertion_point_in_range(body.drop_last());
    }
}

/// Flushing an empty buffer changes nothing: the flushed body is the old body
/// itself, element for element and in the same order.
pub proof fn lemma_flush_empty_buffer(body: Seq<Statement>)
    ensures
        flushed_body(body, Seq::<Statement>::empty()) == body,
{
    lemma_insertion_point_in_range(body);
    assert(flushed_body(body, Seq::<Statement>::empty()) =~= body);
}

/// Flushing into a program with an empty body yields exactly the pending
/// statements, in insertion order.
pub proof fn lemma_flush_into_empty_body(pending: Seq<Statement>)
    ensures
        flushed_body(Seq::<Statement>::empty(), pending) == pending,
{
    assert(flushed_body(Seq::<Statement>::empty(), pending) =~= pending);
}

/// In a body made of some imports followed by non-imports, the insertion
/// point falls exactly between the two groups.
pub proof fn lemma_insertion_point_after_import_prefix(
    imports: Seq<Statement>,
    others: Seq<Statement>,
)
    requires
        forall|i: int| 0 <= i < imports.len() ==> imports[i].is_import(),
        forall|i: int| 0 <= i < others.len() ==> !others[i].is_import(),
    ensures
        insertion_point(imports + others) == imports.len(),
    decreases others.len(),
{
    if others.len() == 0 {
        assert(imports + others =~= imports);
        if imports.len() != 0 {
            assert(imports.last().is_import());
        }
    } else {
        assert((imports + others).last() == others.last());
        assert((imports + others).drop_last() =~= imports + others.drop_last());
        lemma_insertion_point_after_import_prefix(imports, others.drop_last());
    }
}

/// Flushing a body of `K` imports followed by `M` non-imports, with `N`
/// pending statements, yields the `K` imports, then the `N` pending
/// statements in insertion order, then the `M` non-imports, for a body of
/// length `K + N + M`.
pub proof fn lemma_flush_after_import_prefix(
    imports: Seq<Statement>,
    others: Seq<Statement>,
    pending: Seq<Statement>,
)
    requires
        forall|i: int| 0 <= i < imports.len() ==> imports[i].is_import(),
        forall|i: int| 0 <= i < others.len() ==> !others[i].is_import(),
    ensures
        flushed_body(imports + others, pending) == imports + pending + others,
        flushed_body(imports + others, pending).len() == imports.len() + pending.len()
            + others.len(),
{
    lemma_insertion_point_after_import_prefix(imports, others);
    assert((imports + others).take(imports.len() as int) =~= imports);
    assert((imports + others).skip(imports.len() as int) =~= others);
    assert(flushed_body(imports + others, pending) =~= imports + pending + others);
}

/// A flush leaves the store empty, and draining an empty store yields the
/// empty sequence: a second drain right after a flush returns nothing.
pub proof fn lemma_drain_after_flush(flushed_store: Seq<Statement>, redrained: Seq<Statement>)
    requires
        flushed_store == Seq::<Statement>::empty(),
        redrained == flushed_store,
    ensures
        redrained.len() == 0,
{
}

/// Transform that inserts any statements which have been requested insertion
/// via [`TopLevelStatementsStore`] to top of the program.
///
/// Insertions are made after any existing `import` statements.
///
/// Must run after all other transforms.
pub struct TopLevelStatements {}

impl TopLevelStatements {
    /// Creates the flush pass.
    pub fn new() -> (pass: Self) {
        TopLevelStatements {}
    }

    /// The index at which pending statements are inserted into `body`: one
    /// past the last import declaration, scanning from the end, or `0` if no
    /// import exists. Well defined on an empty body, where it is `0`.
    pub fn insertion_index(body: &Vec<Statement>) -> (index: usize)
        ensures
            index == insertion_point(body@),
            index <= body@.len(),
    {
        proof {
            lemma_insertion_point_in_range(body@);
            assert(body@.take(body@.len() as int) =~= body@);
        }
        let mut i: usize = body.len();
        while i > 0
            invariant
                i <= body@.len(),
                insertion_point(body@) == insertion_point(body@.take(i as int)),
            decreases i,
        {
            if body[i - 1].kind == StatementKind::ImportDeclaration {
                proof {
                    let taken = body@.take(i as int);
                    assert(taken.last() == body@[i as int - 1]);
                    assert(insertion_point(taken) == i as int);
                }
                return i;
            }
            proof {
                let taken = body@.take(i as int);
                assert(!taken.last().is_import());
                assert(taken.drop_last() =~= body@.take(i as int - 1));
            }
            i = i - 1;
        }
        0
    }

    /// Drains the store and splices the pending statements into the program
    /// body at the insertion point, preserving their relative order and
    /// shifting the statements previously at or after that point to the
    /// right. With nothing pending, the body is left exactly as it was.
    /// Either way the store ends empty.
    pub fn exit_program(&mut self, program: &mut Program, store: &mut TopLevelStatementsStore)
        ensures
            final(program).body@ == flushed_body(old(program).body@, old(store)@),
            old(store)@.len() == 0 ==> final(program).body@ == old(program).body@,
            final(store)@ == Seq::<Statement>::empty(),
    {
        if store.is_empty() {
            proof {
                assert(store@ =~= Seq::<Statement>::empty());
                lemma_flush_empty_buffer(program.body@);
            }
            return;
        }
        let index = Self::insertion_index(&program.body);
        let pending = store.drain();
        splice(&mut program.body, index, pending);
    }
}

/// Replaces `body` with its first `index` statements, then `pending`, then
/// its remaining statements.
fn splice(body: &mut Vec<Statement>, index: usize, pending: Vec<Statement>)
    requires
        index <= old(body)@.len(),
    ensures
        final(body)@ == old(body)@.take(index as int) + pending@ + old(body)@.skip(index as int),
{
    let ghost orig = body@;
    let mut spliced: Vec<Statement> = Vec::new();
    proof {
        assert(orig.take(0) =~= Seq::<Statement>::empty());
    }
    let mut i: usize = 0;
    while i < index
        invariant
            i <= index,
            index <= body@.len(),
            body@ == orig,
            spliced@ == orig.take(i as int),
        decreases index - i,
    {
        spliced.push(body[i]);
        proof {
            assert(orig.take(i as int + 1) =~= orig.take(i as int).push(orig[i as int]));
        }
        i = i + 1;
    }
    proof {
        assert(orig.take(index as int) + pending@.take(0) =~= orig.take(index as int));
    }
    let mut j: usize = 0;
    while j < pending.len()
        invariant
            j <= pending@.len(),
            spliced@ == orig.take(index as int) + pending@.take(j as int),
        decreases pending@.len() - j,
    {
        spliced.push(pending[j]);
        proof {
            assert(orig.take(index as int) + pending@.take(j as int + 1) =~= (orig.take(
                index as int,
            ) + pending@.take(j as int)).push(pending@[j as int]));
        }
        j = j + 1;
    }
    proof {
        assert(pending@.take(pending@.len() as int) =~= pending@);
        assert(orig.take(index as int) + pending@ + orig.subrange(index as int, index as int)
            =~= orig.take(index as int) + pending@);
    }
    let mut k: usize = index;
    while k < body.len()
        invariant
            index <= k <= body@.len(),
            body@ == orig,
            spliced@ == orig.take(index as int) + pending@ + orig.subrange(index as int, k as int),
        decreases body@.len() - k,
    {
        spliced.push(body[k]);
        proof {
            assert(orig.take(index as int) + pending@ + orig.subrange(index as int, k as int + 1)
                =~= (orig.take(index as int) + pending@ + orig.subrange(
                index as int,
                k as int,
            )).push(orig[k as int]));
        }
        k = k + 1;
    }
    proof {
        assert(orig.subrange(index as int, orig.len() as int) =~= orig.skip(index as int));
    }
    *body = spliced;
}

} // verus!
