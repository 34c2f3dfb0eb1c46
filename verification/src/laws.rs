//! The guarantees of the redaction pass, stated over whole statement trees
//! and proved by structural induction: no literal survives redaction, a tree
//! without literals is left exactly as it is (so redaction is idempotent),
//! and redaction never changes anything but value leaves.

use vstd::prelude::*;

use crate::ast::Assignment;
use crate::ast::CaseBranch;
use crate::ast::Expression;
use crate::ast::List;
use crate::ast::Row;
use crate::ast::Stmt;
use crate::ast::TableRef;
use crate::redactor::redacted;
use crate::redactor::redacted_assignments;
use crate::redactor::redacted_branches;
use crate::redactor::redacted_list;
use crate::redactor::redacted_opt;
use crate::redactor::redacted_opt_box;
use crate::redactor::redacted_rows;
use crate::redactor::redacted_stmt;
use crate::redactor::redacted_stmts;
use crate::redactor::redacted_tables;

verus! {

/// Holds when no literal-value node occurs anywhere in the expression.
pub open spec fn literal_free(e: Expression) -> bool
    decreases e,
{
    match e {
        Expression::Literal(_) => false,
        Expression::Placeholder => true,
        Expression::Column(_) => true,
        Expression::Wildcard => true,
        Expression::Unary(_, a) => literal_free(*a),
        Expression::Binary(a, _, b) => literal_free(*a) && literal_free(*b),
        Expression::Function(_, args) => literal_free_list(*args),
        Expression::InList(target, items) => literal_free(*target) && literal_free_list(*items),
        Expression::Between(x, lo, hi) => literal_free(*x) && literal_free(*lo) && literal_free(*hi),
        Expression::Case(branches, otherwise) => literal_free_branches(*branches)
            && literal_free_opt_box(otherwise),
        Expression::Subquery(q) => literal_free_stmt(*q),
    }
}

pub open spec fn literal_free_list(l: List<Expression>) -> bool
    decreases l,
{
    match l {
        List::Nil => true,
        List::Cons(head, tail) => literal_free(head) && literal_free_list(*tail),
    }
}

pub open spec fn literal_free_opt(o: Option<Expression>) -> bool
    decreases o,
{
    match o {
        Option::None => true,
        Option::Some(e) => literal_free(e),
    }
}

pub open spec fn literal_free_opt_box(o: Option<Box<Expression>>) -> bool
    decreases o,
{
    match o {
        Option::None => true,
        Option::Some(e) => literal_free(*e),
    }
}

pub open spec fn literal_free_branches(l: List<CaseBranch>) -> bool
    decreases l,
{
    match l {
        List::Nil => true,
        List::Cons(b, tail) => literal_free(b.condition) && literal_free(b.result)
            && literal_free_branches(*tail),
    }
}

pub open spec fn literal_free_tables(l: List<TableRef>) -> bool
    decreases l,
{
    match l {
        List::Nil => true,
        List::Cons(t, tail) => literal_free_opt(t.join_on) && literal_free_tables(*tail),
    }
}

pub open spec fn literal_free_assignments(l: List<Assignment>) -> bool
    decreases l,
{
    match l {
        List::Nil => true,
        List::Cons(a, tail) => literal_free(a.value) && literal_free_assignments(*tail),
    }
}

pub open spec fn literal_free_rows(l: List<Row>) -> bool
    decreases l,
{
    match l {
        List::Nil => true,
        List::Cons(r, tail) => literal_free_list(r.items) && literal_free_rows(*tail),
    }
}

/// Holds when no literal-value node occurs anywhere in the statement.
pub open spec fn literal_free_stmt(s: Stmt) -> bool
    decreases s,
{
    match s {
        Stmt::Select { projection, from, selection, group_by, order_by, limit } =>
            literal_free_list(projection) && literal_free_tables(from)
                && literal_free_opt(selection) && literal_free_list(group_by)
                && literal_free_list(order_by) && literal_free_opt(limit),
        Stmt::Compound(left, _, right) => literal_free_stmt(*left)
            && literal_free_stmt(*right),
        Stmt::Insert { table: _, columns: _, rows } => literal_free_rows(rows),
        Stmt::Update { table: _, assignments, selection } =>
            literal_free_assignments(assignments) && literal_free_opt(selection),
        Stmt::Delete { table: _, selection } => literal_free_opt(selection),
    }
}

/// A value leaf: a node that stands for a constant position — either a
/// literal still in place or the placeholder.
pub open spec fn is_value_leaf(e: Expression) -> bool {
    match e {
        Expression::Literal(_) => true,
        Expression::Placeholder => true,
        _ => false,
    }
}

/// Holds when the two expressions have the same identifiers, operators and
/// clause structure, differing at most at value leaves.
pub open spec fn same_skeleton(a: Expression, b: Expression) -> bool
    decreases a,
{
    if is_value_leaf(a) && is_value_leaf(b) {
        true
    } else {
        match (a, b) {
            (Expression::Column(x), Expression::Column(y)) => x == y,
            (Expression::Wildcard, Expression::Wildcard) => true,
            (Expression::Unary(op1, a1), Expression::Unary(op2, a2)) => op1 == op2
                && same_skeleton(*a1, *a2),
            (Expression::Binary(a1, op1, b1), Expression::Binary(a2, op2, b2)) => op1 == op2
                && same_skeleton(*a1, *a2) && same_skeleton(*b1, *b2),
            (Expression::Function(n1, args1), Expression::Function(n2, args2)) => n1 == n2
                && same_skeleton_list(*args1, *args2),
            (Expression::InList(t1, items1), Expression::InList(t2, items2)) => same_skeleton(*t1, *t2)
                && same_skeleton_list(*items1, *items2),
            (Expression::Between(x1, lo1, hi1), Expression::Between(x2, lo2, hi2)) =>
                same_skeleton(*x1, *x2) && same_skeleton(*lo1, *lo2)
                    && same_skeleton(*hi1, *hi2),
            (Expression::Case(br1, o1), Expression::Case(br2, o2)) => same_skeleton_branches(*br1, *br2)
                && same_skeleton_opt_box(o1, o2),
            (Expression::Subquery(q1), Expression::Subquery(q2)) => same_skeleton_stmt(*q1, *q2),
            _ => false,
        }
    }
}

pub open spec fn same_skeleton_list(a: List<Expression>, b: List<Expression>) -> bool
    decreases a,
{
    match (a, b) {
        (List::Nil, List::Nil) => true,
        (List::Cons(x, xs), List::Cons(y, ys)) => same_skeleton(x, y)
            && same_skeleton_list(*xs, *ys),
        _ => false,
    }
}

pub open spec fn same_skeleton_opt(a: Option<Expression>, b: Option<Expression>) -> bool
    decreases a,
{
    match (a, b) {
        (Option::None, Option::None) => true,
        (Option::Some(x), Option::Some(y)) => same_skeleton(x, y),
        _ => false,
    }
}

pub open spec fn same_skeleton_opt_box(a: Option<Box<Expression>>, b: Option<Box<Expression>>) -> bool
    decreases a,
{
    match (a, b) {
        (Option::None, Option::None) => true,
        (Option::Some(x), Option::Some(y)) => same_skeleton(*x, *y),
        _ => false,
    }
}

pub open spec fn same_skeleton_branches(a: List<CaseBranch>, b: List<CaseBranch>) -> bool
    decreases a,
{
    match (a, b) {
        (List::Nil, List::Nil) => true,
        (List::Cons(x, xs), List::Cons(y, ys)) => same_skeleton(x.condition, y.condition)
            && same_skeleton(x.result, y.result) && same_skeleton_branches(*xs, *ys),
        _ => false,
    }
}

pub open spec fn same_skeleton_tables(a: List<TableRef>, b: List<TableRef>) -> bool
    decreases a,
{
    match (a, b) {
        (List::Nil, List::Nil) => true,
        (List::Cons(x, xs), List::Cons(y, ys)) => x.name == y.name && x.alias == y.alias
            && same_skeleton_opt(x.join_on, y.join_on) && same_skeleton_tables(*xs, *ys),
        _ => false,
    }
}

pub open spec fn same_skeleton_assignments(a: List<Assignment>, b: List<Assignment>) -> bool
    decreases a,
{
    match (a, b) {
        (List::Nil, List::Nil) => true,
        (List::Cons(x, xs), List::Cons(y, ys)) => x.column == y.column
            && same_skeleton(x.value, y.value) && same_skeleton_assignments(*xs, *ys),
        _ => false,
    }
}

pub open spec fn same_skeleton_rows(a: List<Row>, b: List<Row>) -> bool
    decreases a,
{
    match (a, b) {
        (List::Nil, List::Nil) => true,
        (List::Cons(x, xs), List::Cons(y, ys)) => same_skeleton_list(x.items, y.items)
            && same_skeleton_rows(*xs, *ys),
        _ => false,
    }
}

/// Holds when the two statements have the same keywords, identifiers and
/// clause structure, differing at most at value leaves.
pub open spec fn same_skeleton_stmt(a: Stmt, b: Stmt) -> bool
    decreases a,
{
    match (a, b) {
        (
            Stmt::Select {
                projection: p1, from: f1, selection: s1, group_by: g1, order_by: o1, limit: l1,
            },
            Stmt::Select {
                projection: p2, from: f2, selection: s2, group_by: g2, order_by: o2, limit: l2,
            },
        ) => same_skeleton_list(p1, p2) && same_skeleton_tables(f1, f2)
            && same_skeleton_opt(s1, s2) && same_skeleton_list(g1, g2)
            && same_skeleton_list(o1, o2) && same_skeleton_opt(l1, l2),
        (Stmt::Compound(l1, op1, r1), Stmt::Compound(l2, op2, r2)) => op1 == op2
            && same_skeleton_stmt(*l1, *l2) && same_skeleton_stmt(*r1, *r2),
        (
            Stmt::Insert { table: t1, columns: c1, rows: r1 },
            Stmt::Insert { table: t2, columns: c2, rows: r2 },
        ) => t1 == t2 && c1 == c2 && same_skeleton_rows(r1, r2),
        (
            Stmt::Update { table: t1, assignments: a1, selection: s1 },
            Stmt::Update { table: t2, assignments: a2, selection: s2 },
        ) => t1 == t2 && same_skeleton_assignments(a1, a2) && same_skeleton_opt(s1, s2),
        (
            Stmt::Delete { table: t1, selection: s1 },
            Stmt::Delete { table: t2, selection: s2 },
        ) => t1 == t2 && same_skeleton_opt(s1, s2),
        _ => false,
    }
}

proof fn lemma_expr(e: Expression)
    ensures
        literal_free(redacted(e)),
        literal_free(e) ==> redacted(e) == e,
        same_skeleton(e, redacted(e)),
    decreases e,
{
    match e {
        Expression::Unary(_, a) => {
            lemma_expr(*a);
        }
        Expression::Binary(a, _, b) => {
            lemma_expr(*a);
            lemma_expr(*b);
        }
        Expression::Function(_, args) => {
            lemma_list(*args);
        }
        Expression::InList(target, items) => {
            lemma_expr(*target);
            lemma_list(*items);
        }
        Expression::Between(x, lo, hi) => {
            lemma_expr(*x);
            lemma_expr(*lo);
            lemma_expr(*hi);
        }
        Expression::Case(branches, otherwise) => {
            lemma_branches(*branches);
            lemma_opt_box(otherwise);
        }
        Expression::Subquery(q) => {
            lemma_stmt(*q);
        }
        _ => {}
    }
}

proof fn lemma_list(l: List<Expression>)
    ensures
        literal_free_list(redacted_list(l)),
        literal_free_list(l) ==> redacted_list(l) == l,
        same_skeleton_list(l, redacted_list(l)),
    decreases l,
{
    match l {
        List::Nil => {}
        List::Cons(head, tail) => {
            lemma_expr(head);
            lemma_list(*tail);
        }
    }
}

proof fn lemma_opt(o: Option<Expression>)
    ensures
        literal_free_opt(redacted_opt(o)),
        literal_free_opt(o) ==> redacted_opt(o) == o,
        same_skeleton_opt(o, redacted_opt(o)),
    decreases o,
{
    match o {
        Option::None => {}
        Option::Some(e) => {
            lemma_expr(e);
        }
    }
}

proof fn lemma_opt_box(o: Option<Box<Expression>>)
    ensures
        literal_free_opt_box(redacted_opt_box(o)),
        literal_free_opt_box(o) ==> redacted_opt_box(o) == o,
        same_skeleton_opt_box(o, redacted_opt_box(o)),
    decreases o,
{
    match o {
        Option::None => {}
        Option::Some(e) => {
            lemma_expr(*e);
        }
    }
}

proof fn lemma_branches(l: List<CaseBranch>)
    ensures
        literal_free_branches(redacted_branches(l)),
        literal_free_branches(l) ==> redacted_branches(l) == l,
        same_skeleton_branches(l, redacted_branches(l)),
    decreases l,
{
    match l {
        List::Nil => {}
        List::Cons(b, tail) => {
            lemma_expr(b.condition);
            lemma_expr(b.result);
            lemma_branches(*tail);
        }
    }
}

proof fn lemma_tables(l: List<TableRef>)
    ensures
        literal_free_tables(redacted_tables(l)),
        literal_free_tables(l) ==> redacted_tables(l) == l,
        same_skeleton_tables(l, redacted_tables(l)),
    decreases l,
{
    match l {
        List::Nil => {}
        List::Cons(t, tail) => {
            lemma_opt(t.join_on);
            lemma_tables(*tail);
        }
    }
}

proof fn lemma_assignments(l: List<Assignment>)
    ensures
        literal_free_assignments(redacted_assignments(l)),
        literal_free_assignments(l) ==> redacted_assignments(l) == l,
        same_skeleton_assignments(l, redacted_assignments(l)),
    decreases l,
{
    match l {
        List::Nil => {}
        List::Cons(a, tail) => {
            lemma_expr(a.value);
            lemma_assignments(*tail);
        }
    }
}

proof fn lemma_rows(l: List<Row>)
    ensures
        literal_free_rows(redacted_rows(l)),
        literal_free_rows(l) ==> redacted_rows(l) == l,
        same_skeleton_rows(l, redacted_rows(l)),
    decreases l,
{
    match l {
        List::Nil => {}
        List::Cons(r, tail) => {
            lemma_list(r.items);
            lemma_rows(*tail);
        }
    }
}

proof fn lemma_stmt(s: Stmt)
    ensures
        literal_free_stmt(redacted_stmt(s)),
        literal_free_stmt(s) ==> redacted_stmt(s) == s,
        same_skeleton_stmt(s, redacted_stmt(s)),
    decreases s,
{
    match s {
        Stmt::Select { projection, from, selection, group_by, order_by, limit } => {
            lemma_list(projection);
            lemma_tables(from);
            lemma_opt(selection);
            lemma_list(group_by);
            lemma_list(order_by);
            lemma_opt(limit);
        }
        Stmt::Compound(left, _, right) => {
            lemma_stmt(*left);
            lemma_stmt(*right);
        }
        Stmt::Insert { table: _, columns: _, rows } => {
            lemma_rows(rows);
        }
        Stmt::Update { table: _, assignments, selection } => {
            lemma_assignments(assignments);
            lemma_opt(selection);
        }
        Stmt::Delete { table: _, selection } => {
            lemma_opt(selection);
        }
    }
}

/// Law: redaction eliminates every literal.  After the pass, no
/// literal-value node remains anywhere in the statement tree.
pub proof fn lemma_redaction_eliminates_literals(s: Stmt)
    ensures
        literal_free_stmt(redacted_stmt(s)),
{
    lemma_stmt(s);
}

/// Law: a statement without literal-value nodes is left exactly as it is;
/// in particular, placeholders already present are never touched.
pub proof fn lemma_literal_free_unchanged(s: Stmt)
    requires
        literal_free_stmt(s),
    ensures
        redacted_stmt(s) == s,
{
    lemma_stmt(s);
}

/// Law: redaction is idempotent.  Redacting a second time changes nothing,
/// because the first pass left no literal behind.
pub proof fn lemma_redaction_idempotent(s: Stmt)
    ensures
        redacted_stmt(redacted_stmt(s)) == redacted_stmt(s),
{
    lemma_stmt(s);
    lemma_stmt(redacted_stmt(s));
}

/// Law: redacting a sequence of statements keeps their number and their
/// order; no statement is ever merged, split or dropped.
pub proof fn lemma_redaction_preserves_statement_count(l: List<Stmt>)
    ensures
        redacted_stmts(l).len() == l.len(),
    decreases l,
{
    match l {
        List::Nil => {}
        List::Cons(_, tail) => {
            lemma_redaction_preserves_statement_count(*tail);
        }
    }
}

/// Law: redaction preserves everything but value leaves — identifiers,
/// operators, keywords and clause structure all stay as parsed.
pub proof fn lemma_redaction_preserves_skeleton(s: Stmt)
    ensures
        same_skeleton_stmt(s, redacted_stmt(s)),
{
    lemma_stmt(s);
}

} // verus!
