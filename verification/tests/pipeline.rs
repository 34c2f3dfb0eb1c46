//! End-to-end redaction through the parser, over real SQL text.

use sqlredact::redact;
use sqlredact::Dialect;
use sqlredact::Error;

#[test]
fn test_mysql() {
    let redacted = redact(Dialect::MySql, "SELECT * FROM foo WHERE bar = 1").unwrap();
    assert_eq!(redacted, "SELECT * FROM foo WHERE bar = ?;");

    let redacted = redact(
        Dialect::MySql,
        "SELECT user, article, 5 FROM articles WHERE user = 100 AND is_deleted = false",
    )
    .unwrap();
    assert_eq!(
        redacted,
        "SELECT user, article, ? FROM articles WHERE user = ? AND is_deleted = ?;"
    );

    let redacted = redact(
        Dialect::MySql,
        "SELECT * FROM users
            WHERE age > 18
            AND city = 'New York'
            ORDER BY last_name ASC;",
    )
    .unwrap();
    assert_eq!(
        redacted,
        "SELECT * FROM users WHERE age > ? AND city = ? ORDER BY last_name ASC;"
    );

    let redacted = redact(
        Dialect::MySql,
        "UPDATE customers
            SET email = 'newemail@example.com', last_purchase_date = '2022-03-31'
            WHERE customer_id = 12345;",
    )
    .unwrap();
    assert_eq!(
        redacted,
        "UPDATE customers SET email = ?, last_purchase_date = ? WHERE customer_id = ?;"
    );

    let redacted = redact(
        Dialect::MySql,
        "INSERT INTO users (name, email, age)
            VALUES ('John Doe', 'johndoe@example.com', 25);",
    )
    .unwrap();
    assert_eq!(
        redacted,
        "INSERT INTO users (name, email, age) VALUES (?, ?, ?);"
    );

    let redacted = redact(
        Dialect::MySql,
        "DELETE FROM users
            WHERE email = 'johndoe@example.com';",
    )
    .unwrap();
    assert_eq!(redacted, "DELETE FROM users WHERE email = ?;");

    let redacted = redact(
        Dialect::MySql,
        "SELECT c.name AS category, AVG(p.price) AS avg_price
            FROM products p
            JOIN categories c ON p.category_id = c.id
            GROUP BY c.name;",
    )
    .unwrap();
    assert_eq!(redacted, "SELECT c.name AS category, AVG(p.price) AS avg_price FROM products AS p JOIN categories AS c ON p.category_id = c.id GROUP BY c.name;");

    let redacted = redact(
        Dialect::MySql,
        "SELECT name, email, age
            FROM users
            WHERE age BETWEEN 18 AND 30
            ORDER BY RAND() LIMIT 5;",
    )
    .unwrap();
    assert_eq!(
        redacted,
        "SELECT name, email, age FROM users WHERE age BETWEEN ? AND ? ORDER BY RAND() LIMIT ?;"
    );

    let redacted = redact(
        Dialect::MySql,
        "SELECT c.name AS category, AVG(p.price) AS avg_price
            FROM products p
            JOIN categories c ON p.category_id = c.id
            GROUP BY c.name;
            SELECT name, email, age
            FROM users
            WHERE age BETWEEN 18 AND 30
            ORDER BY RAND() LIMIT 5;",
    )
    .unwrap();
    assert_eq!(
        redacted,
        "SELECT c.name AS category, AVG(p.price) AS avg_price FROM products AS p JOIN categories AS c ON p.category_id = c.id GROUP BY c.name;SELECT name, email, age FROM users WHERE age BETWEEN ? AND ? ORDER BY RAND() LIMIT ?;"
    );

    assert!(matches!(
        redact(Dialect::MySql, "this is not a sql."),
        Err(Error::FailedToParse(_))
    ));
}

#[test]
fn invalid_input_is_a_parse_failure() {
    assert!(matches!(
        redact(Dialect::MySql, "this is not a sql."),
        Err(Error::FailedToParse(_))
    ));
    assert!(matches!(
        redact(Dialect::Generic, "*** not sql ***"),
        Err(Error::FailedToParse(_))
    ));
}

#[test]
fn redaction_is_idempotent_on_rendered_text() {
    let inputs = [
        "SELECT * FROM foo WHERE bar = 1",
        "SELECT user, article, 5 FROM articles WHERE user = 100 AND is_deleted = false",
        "INSERT INTO users (name, email, age) VALUES ('John Doe', 'johndoe@example.com', 25);",
        "SELECT name, email, age FROM users WHERE age BETWEEN 18 AND 30 ORDER BY RAND() LIMIT 5;",
    ];
    for sql in inputs {
        let once = redact(Dialect::MySql, sql).unwrap();
        let twice = redact(Dialect::MySql, &once).unwrap();
        assert_eq!(once, twice);
    }
}

#[test]
fn placeholders_already_present_are_kept() {
    let redacted = redact(Dialect::MySql, "SELECT * FROM foo WHERE bar = ?").unwrap();
    assert_eq!(redacted, "SELECT * FROM foo WHERE bar = ?;");
}

#[test]
fn null_and_boolean_literals_are_redacted() {
    let redacted = redact(
        Dialect::MySql,
        "SELECT * FROM t WHERE a IS NOT NULL AND b = NULL AND c = true",
    )
    .unwrap();
    assert_eq!(
        redacted,
        "SELECT * FROM t WHERE a IS NOT NULL AND b = ? AND c = ?;"
    );
}

#[test]
fn statement_count_is_preserved() {
    let redacted = redact(
        Dialect::MySql,
        "SELECT 1; SELECT 2; SELECT 3;",
    )
    .unwrap();
    assert_eq!(redacted, "SELECT ?;SELECT ?;SELECT ?;");
    assert_eq!(redacted.matches(';').count(), 3);
}

#[test]
fn nested_subqueries_are_redacted() {
    let redacted = redact(
        Dialect::MySql,
        "SELECT * FROM t WHERE id IN (SELECT id FROM u WHERE age > 21 AND name = 'Ann')",
    )
    .unwrap();
    assert_eq!(
        redacted,
        "SELECT * FROM t WHERE id IN (SELECT id FROM u WHERE age > ? AND name = ?);"
    );
}

#[test]
fn other_dialects_parse_and_redact() {
    let redacted = redact(Dialect::Generic, "SELECT a FROM t WHERE b = 2").unwrap();
    assert_eq!(redacted, "SELECT a FROM t WHERE b = ?;");
    let redacted = redact(Dialect::PostgreSql, "SELECT a FROM t WHERE b = 'x'").unwrap();
    assert_eq!(redacted, "SELECT a FROM t WHERE b = ?;");
    let redacted = redact(Dialect::SQLite, "SELECT a FROM t LIMIT 10").unwrap();
    assert_eq!(redacted, "SELECT a FROM t LIMIT ?;");
    let redacted = redact(Dialect::Ansi, "SELECT a FROM t WHERE b = 1").unwrap();
    assert_eq!(redacted, "SELECT a FROM t WHERE b = ?;");
}

#[test]
fn typed_and_introduced_literals_are_redacted() {
    let redacted = redact(
        Dialect::MySql,
        "SELECT * FROM t WHERE d = DATE '2022-03-31'",
    )
    .unwrap();
    assert_eq!(redacted, "SELECT * FROM t WHERE d = ?;");

    let redacted = redact(Dialect::MySql, "SELECT _utf8mb4'abc' FROM t").unwrap();
    assert_eq!(redacted, "SELECT ? FROM t;");
}
