//! Tests of the drain-and-splice flush through the public surface.

use top_level_statements::Program;
use top_level_statements::Statement;
use top_level_statements::StatementKind;
use top_level_statements::TopLevelStatements;
use top_level_statements::TopLevelStatementsStore;

fn import(node: u32) -> Statement {
    Statement { kind: StatementKind::ImportDeclaration, node }
}

fn func_decl(node: u32) -> Statement {
    Statement { kind: StatementKind::FunctionDeclaration, node }
}

fn var_decl(node: u32) -> Statement {
    Statement { kind: StatementKind::VariableDeclaration, node }
}

fn other(node: u32) -> Statement {
    Statement { kind: StatementKind::Other, node }
}

fn flush(body: Vec<Statement>, appended: Vec<Statement>) -> Vec<Statement> {
    let mut program = Program { body };
    let mut store = TopLevelStatementsStore::new();
    for stmt in appended {
        store.insert_statement(stmt);
    }
    let mut pass = TopLevelStatements::new();
    pass.exit_program(&mut program, &mut store);
    program.body
}

#[test]
fn scenario_import_prefix() {
    let result = flush(vec![import(1), import(2), func_decl(3)], vec![var_decl(4)]);
    assert_eq!(result, vec![import(1), import(2), var_decl(4), func_decl(3)]);
}

#[test]
fn scenario_no_imports() {
    let result = flush(vec![func_decl(1)], vec![var_decl(2), var_decl(3)]);
    assert_eq!(result, vec![var_decl(2), var_decl(3), func_decl(1)]);
}

#[test]
fn scenario_all_empty() {
    let result = flush(vec![], vec![]);
    assert_eq!(result, vec![]);
}

#[test]
fn flush_into_empty_body_yields_appended_in_order() {
    let appended = vec![var_decl(1), func_decl(2), other(3), import(4)];
    let result = flush(vec![], appended.clone());
    assert_eq!(result, appended);
}

#[test]
fn flush_after_import_prefix_keeps_all_three_groups_in_order() {
    let imports = vec![import(1), import(2)];
    let appended = vec![var_decl(10), func_decl(11)];
    let others = vec![func_decl(3), other(4), var_decl(5)];
    let mut body = imports.clone();
    body.extend(others.clone());
    let result = flush(body, appended.clone());
    let mut expected = imports;
    expected.extend(appended);
    expected.extend(others);
    assert_eq!(result.len(), 2 + 2 + 3);
    assert_eq!(result, expected);
}

#[test]
fn flush_with_empty_buffer_preserves_body() {
    let body = vec![func_decl(1), import(2), other(3)];
    let result = flush(body.clone(), vec![]);
    assert_eq!(result, body);
}

#[test]
fn insertion_goes_after_last_import_even_when_imports_are_not_a_prefix() {
    let result = flush(
        vec![var_decl(1), import(2), func_decl(3), import(4), other(5)],
        vec![func_decl(6)],
    );
    assert_eq!(
        result,
        vec![var_decl(1), import(2), func_decl(3), import(4), func_decl(6), other(5)],
    );
}

#[test]
fn insertion_at_start_when_no_import_exists() {
    let result = flush(vec![other(1), var_decl(2)], vec![import(3)]);
    assert_eq!(result, vec![import(3), other(1), var_decl(2)]);
}

#[test]
fn insertion_at_end_when_body_is_all_imports() {
    let result = flush(vec![import(1), import(2)], vec![var_decl(3)]);
    assert_eq!(result, vec![import(1), import(2), var_decl(3)]);
}

#[test]
fn second_flush_is_a_no_op() {
    let mut program = Program { body: vec![import(1), func_decl(2)] };
    let mut store = TopLevelStatementsStore::new();
    store.insert_statement(var_decl(3));
    let mut pass = TopLevelStatements::new();
    pass.exit_program(&mut program, &mut store);
    let after_first = program.body.clone();
    pass.exit_program(&mut program, &mut store);
    assert_eq!(program.body, after_first);
}

#[test]
fn insertion_index_on_empty_body_is_zero() {
    assert_eq!(TopLevelStatements::insertion_index(&vec![]), 0);
}

#[test]
fn insertion_index_is_one_past_last_import() {
    let body = vec![import(1), other(2), import(3), func_decl(4)];
    assert_eq!(TopLevelStatements::insertion_index(&body), 3);
}

#[test]
fn insertion_index_is_zero_without_imports() {
    let body = vec![other(1), func_decl(2), var_decl(3)];
    assert_eq!(TopLevelStatements::insertion_index(&body), 0);
}
