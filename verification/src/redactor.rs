//! The redaction pass: a pre-order walk over a statement tree that replaces
//! every literal-value expression with the fixed placeholder and leaves every
//! other node untouched.
//!
//! The specification functions define the rewrite mathematically; the
//! executable functions rebuild the tree and are proved to return exactly the
//! specified result.

use vstd::prelude::*;

use crate::ast::Assignment;
use crate::ast::CaseBranch;
use crate::ast::Expression;
use crate::ast::List;
use crate::ast::Row;
use crate::ast::Stmt;
use crate::ast::TableRef;

verus! {

/// The redaction of one expression: a literal becomes the placeholder, a
/// placeholder already present stays as it is, and every other form keeps its
/// own content while its children are redacted in place.
pub open spec fn redacted(e: Expression) -> Expression
    decreases e,
{
    match e {
        Expression::Literal(_) => Expression::Placeholder,
        Expression::Placeholder => Expression::Placeholder,
        Expression::Column(name) => Expression::Column(name),
        Expression::Wildcard => Expression::Wildcard,
        Expression::Unary(op, a) => Expression::Unary(op, Box::new(redacted(*a))),
        Expression::Binary(a, op, b) => Expression::Binary(
            Box::new(redacted(*a)),
            op,
            Box::new(redacted(*b)),
        ),
        Expression::Function(name, args) => Expression::Function(name, Box::new(redacted_list(*args))),
        Expression::InList(target, items) => Expression::InList(
            Box::new(redacted(*target)),
            Box::new(redacted_list(*items)),
        ),
        Expression::Between(x, lo, hi) => Expression::Between(
            Box::new(redacted(*x)),
            Box::new(redacted(*lo)),
            Box::new(redacted(*hi)),
        ),
        Expression::Case(branches, otherwise) => Expression::Case(
            Box::new(redacted_branches(*branches)),
            redacted_opt_box(otherwise),
        ),
        Expression::Subquery(q) => Expression::Subquery(Box::new(redacted_stmt(*q))),
    }
}

pub open spec fn redacted_list(l: List<Expression>) -> List<Expression>
    decreases l,
{
    match l {
        List::Nil => List::Nil,
        List::Cons(head, tail) => List::Cons(redacted(head), Box::new(redacted_list(*tail))),
    }
}

pub open spec fn redacted_opt(o: Option<Expression>) -> Option<Expression>
    decreases o,
{
    match o {
        Option::None => Option::None,
        Option::Some(e) => Option::Some(redacted(e)),
    }
}

pub open spec fn redacted_opt_box(o: Option<Box<Expression>>) -> Option<Box<Expression>>
    decreases o,
{
    match o {
        Option::None => Option::None,
        Option::Some(e) => Option::Some(Box::new(redacted(*e))),
    }
}

pub open spec fn redacted_branches(l: List<CaseBranch>) -> List<CaseBranch>
    decreases l,
{
    match l {
        List::Nil => List::Nil,
        List::Cons(b, tail) => List::Cons(
            CaseBranch { condition: redacted(b.condition), result: redacted(b.result) },
            Box::new(redacted_branches(*tail)),
        ),
    }
}

pub open spec fn redacted_tables(l: List<TableRef>) -> List<TableRef>
    decreases l,
{
    match l {
        List::Nil => List::Nil,
        List::Cons(t, tail) => List::Cons(
            TableRef { name: t.name, alias: t.alias, join_on: redacted_opt(t.join_on) },
            Box::new(redacted_tables(*tail)),
        ),
    }
}

pub open spec fn redacted_assignments(l: List<Assignment>) -> List<Assignment>
    decreases l,
{
    match l {
        List::Nil => List::Nil,
        List::Cons(a, tail) => List::Cons(
            Assignment { column: a.column, value: redacted(a.value) },
            Box::new(redacted_assignments(*tail)),
        ),
    }
}

pub open spec fn redacted_rows(l: List<Row>) -> List<Row>
    decreases l,
{
    match l {
        List::Nil => List::Nil,
        List::Cons(r, tail) => List::Cons(
            Row { items: redacted_list(r.items) },
            Box::new(redacted_rows(*tail)),
        ),
    }
}

/// The redaction of one whole statement: every expression position of every
/// clause is redacted; table names, column names, aliases and clause layout
/// are kept as they are.
pub open spec fn redacted_stmt(s: Stmt) -> Stmt
    decreases s,
{
    match s {
        Stmt::Select { projection, from, selection, group_by, order_by, limit } =>
            Stmt::Select {
                projection: redacted_list(projection),
                from: redacted_tables(from),
                selection: redacted_opt(selection),
                group_by: redacted_list(group_by),
                order_by: redacted_list(order_by),
                limit: redacted_opt(limit),
            },
        Stmt::Compound(left, op, right) => Stmt::Compound(
            Box::new(redacted_stmt(*left)),
            op,
            Box::new(redacted_stmt(*right)),
        ),
        Stmt::Insert { table, columns, rows } => Stmt::Insert {
            table,
            columns,
            rows: redacted_rows(rows),
        },
        Stmt::Update { table, assignments, selection } => Stmt::Update {
            table,
            assignments: redacted_assignments(assignments),
            selection: redacted_opt(selection),
        },
        Stmt::Delete { table, selection } => Stmt::Delete {
            table,
            selection: redacted_opt(selection),
        },
    }
}

/// Clone helper for unchanged identifier lists.
fn clone_strings(l: &List<String>) -> (r: List<String>)
    ensures
        r == *l,
    decreases *l,
{
    match l {
        List::Nil => List::Nil,
        List::Cons(head, tail) => List::Cons(head.clone(), Box::new(clone_strings(tail))),
    }
}

/// Clone helper for unchanged optional identifiers.
fn clone_opt_string(o: &Option<String>) -> (r: Option<String>)
    ensures
        r == *o,
{
    match o {
        Option::None => Option::None,
        Option::Some(s) => Option::Some(s.clone()),
    }
}

/// Redact one expression: the executable form of `redacted`.
pub fn redact_expr(e: &Expression) -> (r: Expression)
    ensures
        r == redacted(*e),
    decreases *e,
{
    match e {
        Expression::Literal(_) => Expression::Placeholder,
        Expression::Placeholder => Expression::Placeholder,
        Expression::Column(name) => Expression::Column(name.clone()),
        Expression::Wildcard => Expression::Wildcard,
        Expression::Unary(op, a) => Expression::Unary(*op, Box::new(redact_expr(&**a))),
        Expression::Binary(a, op, b) => Expression::Binary(
            Box::new(redact_expr(&**a)),
            *op,
            Box::new(redact_expr(&**b)),
        ),
        Expression::Function(name, args) => Expression::Function(
            name.clone(),
            Box::new(redact_exprs(&**args)),
        ),
        Expression::InList(target, items) => Expression::InList(
            Box::new(redact_expr(&**target)),
            Box::new(redact_exprs(&**items)),
        ),
        Expression::Between(x, lo, hi) => Expression::Between(
            Box::new(redact_expr(&**x)),
            Box::new(redact_expr(&**lo)),
            Box::new(redact_expr(&**hi)),
        ),
        Expression::Case(branches, otherwise) => Expression::Case(
            Box::new(redact_branches(&**branches)),
            redact_opt_box_expr(otherwise),
        ),
        Expression::Subquery(q) => Expression::Subquery(Box::new(redact_statement(&**q))),
    }
}

/// Redact every expression of a list, in order.
pub fn redact_exprs(l: &List<Expression>) -> (r: List<Expression>)
    ensures
        r == redacted_list(*l),
    decreases *l,
{
    match l {
        List::Nil => List::Nil,
        List::Cons(head, tail) => List::Cons(redact_expr(head), Box::new(redact_exprs(tail))),
    }
}

/// Redact an optional expression.
pub fn redact_opt_expr(o: &Option<Expression>) -> (r: Option<Expression>)
    ensures
        r == redacted_opt(*o),
    decreases *o,
{
    match o {
        Option::None => Option::None,
        Option::Some(e) => Option::Some(redact_expr(e)),
    }
}

/// Redact an optional boxed expression.
pub fn redact_opt_box_expr(o: &Option<Box<Expression>>) -> (r: Option<Box<Expression>>)
    ensures
        r == redacted_opt_box(*o),
    decreases *o,
{
    match o {
        Option::None => Option::None,
        Option::Some(e) => Option::Some(Box::new(redact_expr(&**e))),
    }
}

/// Redact both sides of every CASE branch.
pub fn redact_branches(l: &List<CaseBranch>) -> (r: List<CaseBranch>)
    ensures
        r == redacted_branches(*l),
    decreases *l,
{
    match l {
        List::Nil => List::Nil,
        List::Cons(b, tail) => List::Cons(
            CaseBranch { condition: redact_expr(&b.condition), result: redact_expr(&b.result) },
            Box::new(redact_branches(tail)),
        ),
    }
}

/// Redact the ON conditions of a FROM clause; names and aliases are kept.
pub fn redact_tables(l: &List<TableRef>) -> (r: List<TableRef>)
    ensures
        r == redacted_tables(*l),
    decreases *l,
{
    match l {
        List::Nil => List::Nil,
        List::Cons(t, tail) => List::Cons(
            TableRef {
                name: t.name.clone(),
                alias: clone_opt_string(&t.alias),
                join_on: redact_opt_expr(&t.join_on),
            },
            Box::new(redact_tables(tail)),
        ),
    }
}

/// Redact the value of every SET assignment; column names are kept.
pub fn redact_assignments(l: &List<Assignment>) -> (r: List<Assignment>)
    ensures
        r == redacted_assignments(*l),
    decreases *l,
{
    match l {
        List::Nil => List::Nil,
        List::Cons(a, tail) => List::Cons(
            Assignment { column: a.column.clone(), value: redact_expr(&a.value) },
            Box::new(redact_assignments(tail)),
        ),
    }
}

/// Redact every row of a VALUES list.
pub fn redact_rows(l: &List<Row>) -> (r: List<Row>)
    ensures
        r == redacted_rows(*l),
    decreases *l,
{
    match l {
        List::Nil => List::Nil,
        List::Cons(row, tail) => List::Cons(
            Row { items: redact_exprs(&row.items) },
            Box::new(redact_rows(tail)),
        ),
    }
}

/// The redaction of a whole sequence of parsed statements, each in place,
/// in their original order.
pub open spec fn redacted_stmts(l: List<Stmt>) -> List<Stmt>
    decreases l,
{
    match l {
        List::Nil => List::Nil,
        List::Cons(head, tail) => List::Cons(redacted_stmt(head), Box::new(redacted_stmts(*tail))),
    }
}

/// Redact one whole statement: the executable form of `redacted_stmt`.
pub fn redact_statement(s: &Stmt) -> (r: Stmt)
    ensures
        r == redacted_stmt(*s),
    decreases *s,
{
    match s {
        Stmt::Select { projection, from, selection, group_by, order_by, limit } =>
            Stmt::Select {
                projection: redact_exprs(projection),
                from: redact_tables(from),
                selection: redact_opt_expr(selection),
                group_by: redact_exprs(group_by),
                order_by: redact_exprs(order_by),
                limit: redact_opt_expr(limit),
            },
        Stmt::Compound(left, op, right) => Stmt::Compound(
            Box::new(redact_statement(&**left)),
            *op,
            Box::new(redact_statement(&**right)),
        ),
        Stmt::Insert { table, columns, rows } => Stmt::Insert {
            table: table.clone(),
            columns: clone_strings(columns),
            rows: redact_rows(rows),
        },
        Stmt::Update { table, assignments, selection } => Stmt::Update {
            table: table.clone(),
            assignments: redact_assignments(assignments),
            selection: redact_opt_expr(selection),
        },
        Stmt::Delete { table, selection } => Stmt::Delete {
            table: table.clone(),
            selection: redact_opt_expr(selection),
        },
    }
}

/// Redact every statement of a parsed sequence, in order: the executable
/// form of `redacted_stmts`.
pub fn redact_statements(l: &List<Stmt>) -> (r: List<Stmt>)
    ensures
        r == redacted_stmts(*l),
    decreases *l,
{
    match l {
        List::Nil => List::Nil,
        List::Cons(head, tail) => List::Cons(
            redact_statement(head),
            Box::new(redact_statements(tail)),
        ),
    }
}

} // verus!
