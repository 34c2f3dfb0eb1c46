//! The redaction pass over statement trees built directly.

use sqlredact::ast::Assignment;
use sqlredact::ast::BinaryOp;
use sqlredact::ast::CaseBranch;
use sqlredact::ast::Expression;
use sqlredact::ast::List;
use sqlredact::ast::Literal;
use sqlredact::ast::Row;
use sqlredact::ast::SetOp;
use sqlredact::ast::Stmt;
use sqlredact::ast::TableRef;
use sqlredact::ast::UnaryOp;
use sqlredact::redactor::redact_expr;
use sqlredact::redactor::redact_statement;
use sqlredact::redactor::redact_statements;

fn list<T>(items: Vec<T>) -> List<T> {
    let mut out = List::Nil;
    for x in items.into_iter().rev() {
        out = List::Cons(x, Box::new(out));
    }
    out
}

fn table(name: &str) -> TableRef {
    TableRef { name: String::from(name), alias: None, join_on: None }
}

fn num(text: &str) -> Expression {
    Expression::Literal(Literal::Number(String::from(text)))
}

fn col(name: &str) -> Expression {
    Expression::Column(String::from(name))
}

fn eq(a: Expression, b: Expression) -> Expression {
    Expression::Binary(Box::new(a), BinaryOp::Eq, Box::new(b))
}

#[test]
fn literal_in_where_clause_becomes_placeholder() {
    let stmt = Stmt::Select {
        projection: list(vec![Expression::Wildcard]),
        from: list(vec![table("foo")]),
        selection: Some(eq(col("bar"), num("1"))),
        group_by: List::Nil,
        order_by: List::Nil,
        limit: None,
    };
    let expected = Stmt::Select {
        projection: list(vec![Expression::Wildcard]),
        from: list(vec![table("foo")]),
        selection: Some(eq(col("bar"), Expression::Placeholder)),
        group_by: List::Nil,
        order_by: List::Nil,
        limit: None,
    };
    assert_eq!(redact_statement(&stmt), expected);
}

#[test]
fn every_literal_kind_is_redacted() {
    let exprs = vec![
        Expression::Literal(Literal::Str(String::from("secret"))),
        Expression::Literal(Literal::Number(String::from("42"))),
        Expression::Literal(Literal::Boolean(false)),
        Expression::Literal(Literal::Null),
        Expression::Literal(Literal::DateTime(String::from("2022-03-31"))),
    ];
    for e in exprs {
        assert_eq!(redact_expr(&e), Expression::Placeholder);
    }
}

#[test]
fn placeholder_and_identifiers_are_untouched() {
    assert_eq!(redact_expr(&Expression::Placeholder), Expression::Placeholder);
    assert_eq!(redact_expr(&col("name")), col("name"));
    assert_eq!(redact_expr(&Expression::Wildcard), Expression::Wildcard);
}

#[test]
fn nested_positions_are_all_reached() {
    let e = Expression::Function(
        String::from("COALESCE"),
        Box::new(list(vec![
            Expression::InList(
                Box::new(col("status")),
                Box::new(list(vec![num("1"), num("2")])),
            ),
            Expression::Between(
                Box::new(col("age")),
                Box::new(num("18")),
                Box::new(num("30")),
            ),
            Expression::Unary(UnaryOp::Not, Box::new(Expression::Literal(Literal::Boolean(true)))),
            Expression::Case(
                Box::new(list(vec![CaseBranch {
                    condition: eq(col("kind"), num("3")),
                    result: num("4"),
                }])),
                Some(Box::new(num("5"))),
            ),
        ])),
    );
    let expected = Expression::Function(
        String::from("COALESCE"),
        Box::new(list(vec![
            Expression::InList(
                Box::new(col("status")),
                Box::new(list(vec![Expression::Placeholder, Expression::Placeholder])),
            ),
            Expression::Between(
                Box::new(col("age")),
                Box::new(Expression::Placeholder),
                Box::new(Expression::Placeholder),
            ),
            Expression::Unary(UnaryOp::Not, Box::new(Expression::Placeholder)),
            Expression::Case(
                Box::new(list(vec![CaseBranch {
                    condition: eq(col("kind"), Expression::Placeholder),
                    result: Expression::Placeholder,
                }])),
                Some(Box::new(Expression::Placeholder)),
            ),
        ])),
    );
    assert_eq!(redact_expr(&e), expected);
}

#[test]
fn subqueries_and_set_operations_are_descended_into() {
    let inner = Stmt::Select {
        projection: list(vec![col("id")]),
        from: list(vec![table("u")]),
        selection: Some(eq(col("age"), num("21"))),
        group_by: List::Nil,
        order_by: List::Nil,
        limit: Some(num("5")),
    };
    let outer = Stmt::Compound(
        Box::new(Stmt::Select {
            projection: list(vec![Expression::Subquery(Box::new(inner))]),
            from: list(vec![TableRef {
                name: String::from("t"),
                alias: Some(String::from("x")),
                join_on: Some(eq(col("x.id"), num("7"))),
            }]),
            selection: None,
            group_by: List::Nil,
            order_by: List::Nil,
            limit: None,
        }),
        SetOp::Union,
        Box::new(Stmt::Delete { table: String::from("d"), selection: Some(eq(col("k"), num("9"))) }),
    );
    let redacted = redact_statement(&outer);
    let expected_inner = Stmt::Select {
        projection: list(vec![col("id")]),
        from: list(vec![table("u")]),
        selection: Some(eq(col("age"), Expression::Placeholder)),
        group_by: List::Nil,
        order_by: List::Nil,
        limit: Some(Expression::Placeholder),
    };
    let expected = Stmt::Compound(
        Box::new(Stmt::Select {
            projection: list(vec![Expression::Subquery(Box::new(expected_inner))]),
            from: list(vec![TableRef {
                name: String::from("t"),
                alias: Some(String::from("x")),
                join_on: Some(eq(col("x.id"), Expression::Placeholder)),
            }]),
            selection: None,
            group_by: List::Nil,
            order_by: List::Nil,
            limit: None,
        }),
        SetOp::Union,
        Box::new(Stmt::Delete {
            table: String::from("d"),
            selection: Some(eq(col("k"), Expression::Placeholder)),
        }),
    );
    assert_eq!(redacted, expected);
}

#[test]
fn insert_and_update_values_are_redacted_but_names_kept() {
    let stmt = Stmt::Insert {
        table: String::from("users"),
        columns: list(vec![String::from("name"), String::from("age")]),
        rows: list(vec![
            Row { items: list(vec![
                Expression::Literal(Literal::Str(String::from("John Doe"))),
                num("25"),
            ]) },
            Row { items: list(vec![
                Expression::Literal(Literal::Str(String::from("Jane"))),
                num("30"),
            ]) },
        ]),
    };
    let expected = Stmt::Insert {
        table: String::from("users"),
        columns: list(vec![String::from("name"), String::from("age")]),
        rows: list(vec![
            Row { items: list(vec![Expression::Placeholder, Expression::Placeholder]) },
            Row { items: list(vec![Expression::Placeholder, Expression::Placeholder]) },
        ]),
    };
    assert_eq!(redact_statement(&stmt), expected);

    let stmt = Stmt::Update {
        table: String::from("customers"),
        assignments: list(vec![Assignment {
            column: String::from("email"),
            value: Expression::Literal(Literal::Str(String::from("x@y.z"))),
        }]),
        selection: Some(eq(col("customer_id"), num("12345"))),
    };
    let expected = Stmt::Update {
        table: String::from("customers"),
        assignments: list(vec![Assignment {
            column: String::from("email"),
            value: Expression::Placeholder,
        }]),
        selection: Some(eq(col("customer_id"), Expression::Placeholder)),
    };
    assert_eq!(redact_statement(&stmt), expected);
}

#[test]
fn redacting_twice_changes_nothing_more() {
    let stmt = Stmt::Select {
        projection: list(vec![col("a"), num("5")]),
        from: list(vec![table("t")]),
        selection: Some(eq(col("b"), Expression::Literal(Literal::Boolean(true)))),
        group_by: list(vec![col("a")]),
        order_by: list(vec![col("b")]),
        limit: Some(num("10")),
    };
    let once = redact_statement(&stmt);
    let twice = redact_statement(&once);
    assert_eq!(once, twice);
}

#[test]
fn statement_sequences_keep_count_and_order() {
    let stmts = list(vec![
        Stmt::Delete { table: String::from("a"), selection: Some(eq(col("x"), num("1"))) },
        Stmt::Delete { table: String::from("b"), selection: None },
    ]);
    let expected = list(vec![
        Stmt::Delete { table: String::from("a"), selection: Some(eq(col("x"), Expression::Placeholder)) },
        Stmt::Delete { table: String::from("b"), selection: None },
    ]);
    assert_eq!(redact_statements(&stmts), expected);
}
