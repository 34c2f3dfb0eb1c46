//! The pipeline driver: parse the input text into statement trees, redact
//! every literal value in place, and render each statement back to canonical
//! SQL text terminated by `;`.
//!
//! The grammar itself is the parser library's own affair: parsing and
//! rendering stand behind trusted contracts stated over named results.  Each
//! parsed statement is named at the model level (`stmt_model`), so the laws
//! proved of the model redaction in `laws` carry over to what this driver
//! renders: the output is the join of the renderings of statements whose
//! models are exactly the redactions of the parsed models, in order.

use vstd::prelude::*;
use vstd::string::StringExecFns;

use std::fmt::Write;

use crate::ast::Stmt;
use crate::laws::lemma_redaction_eliminates_literals;
use crate::laws::lemma_redaction_preserves_skeleton;
use crate::laws::literal_free_stmt;
use crate::laws::same_skeleton_stmt;
use crate::redactor::redacted_stmt;

verus! {

/// The SQL variant that parsing and rendering follow.  The same dialect and
/// the same text always yield the same parse.
#[derive(Clone, Copy, Debug, PartialEq, Eq, Structural)]
pub enum Dialect {
    MySql,
    PostgreSql,
    Generic,
    Ansi,
    SQLite,
}

/// How one redaction call can fail.  Both failures are terminal: no partial
/// output is ever returned.
#[derive(Debug)]
pub enum Error {
    /// The input text does not conform to the dialect's grammar; carries the
    /// parser's own diagnostic.
    FailedToParse(sqlparser::parser::ParserError),
    /// Rendering a redacted tree to text failed.  With the serializer used
    /// here — formatting into an owned buffer — this cannot happen, and the
    /// contract of `redact` rules it out; the variant stands for callers that
    /// must be ready for a resource fault all the same.
    FailedToStringify(core::fmt::Error),
}

/// Declares sqlparser::ast::Statement, the parser's statement tree, which
/// flows through the driver as an opaque value.
#[verifier::external_type_specification]
#[verifier::external_body]
pub struct ExStatement(sqlparser::ast::Statement);

/// Declares sqlparser::ast::Expr, one node of the parser's expression tree.
#[verifier::external_type_specification]
#[verifier::external_body]
pub struct ExExpr(sqlparser::ast::Expr);

/// Declares sqlparser::parser::ParserError, the parser's diagnostic.
#[verifier::external_type_specification]
#[verifier::external_body]
pub struct ExParserError(sqlparser::parser::ParserError);

/// Declares core::fmt::Error, the formatter's failure token.
#[verifier::external_type_specification]
#[verifier::external_body]
pub struct ExFmtError(core::fmt::Error);

/// What one parsed statement holds, read as the library's own statement
/// tree: the statement's clauses and expressions at the model level.
pub uninterp spec fn stmt_model(s: sqlparser::ast::Statement) -> Stmt;

/// The models of the statements the parser recognises in the text, in
/// order, or nothing when the text does not parse.  Parsing is
/// deterministic, so this is a function of the dialect and the text alone.
pub uninterp spec fn parse_model(d: Dialect, s: Seq<char>) -> Option<Seq<Stmt>>;

/// The canonical rendering of one statement tree: what the serializer
/// writes, a function of the statement alone.
pub uninterp spec fn rendered(s: sqlparser::ast::Statement) -> Seq<char>;

/// What the redaction rule reads out of one parsed expression node.
pub uninterp spec fn node_class(e: sqlparser::ast::Expr) -> ValueClass;

/// The models of a sequence of parsed statements, elementwise.
pub open spec fn models_of(stmts: Seq<sqlparser::ast::Statement>) -> Seq<Stmt> {
    stmts.map_values(|st: sqlparser::ast::Statement| stmt_model(st))
}

/// Relies on sqlparser::parser::Parser::parse_sql: it parses the whole text
/// under the given dialect, deterministically, and returns either every
/// `;`-separated statement in order or a parse diagnostic.
#[verifier::external_body]
fn parse_statements(d: Dialect, sql: &str) -> (r: Result<
    Vec<sqlparser::ast::Statement>,
    sqlparser::parser::ParserError,
>)
    ensures
        r is Ok <==> parse_model(d, sql@) is Some,
        r matches Ok(stmts) ==> parse_model(d, sql@) == Some(models_of(stmts@)),
{
    let dialect: Box<dyn sqlparser::dialect::Dialect> = match d {
        Dialect::MySql => Box::new(sqlparser::dialect::MySqlDialect {}),
        Dialect::PostgreSql => Box::new(sqlparser::dialect::PostgreSqlDialect {}),
        Dialect::Generic => Box::new(sqlparser::dialect::GenericDialect {}),
        Dialect::Ansi => Box::new(sqlparser::dialect::AnsiDialect {}),
        Dialect::SQLite => Box::new(sqlparser::dialect::SQLiteDialect {}),
    };
    sqlparser::parser::Parser::parse_sql(&*dialect, sql)
}

/// The classification of one parsed expression node, as the redaction rule
/// reads it.
#[derive(Clone, Copy, Debug, PartialEq, Eq, Structural)]
pub enum ValueClass {
    /// A numeric literal.
    Number,
    /// A string literal, in any of the dialects' quoting forms, an
    /// introducer-prefixed string included.
    Text,
    /// TRUE or FALSE.
    Boolean,
    /// The NULL keyword used as a value.
    Null,
    /// A typed literal constant such as the date/time forms
    /// `DATE '2022-03-31'` or `TIMESTAMP '...'`.
    Typed,
    /// A placeholder already present in the input.
    PlaceholderArg,
    /// Any node that carries no primitive value.
    NotAValue,
}

/// The redaction decision: exactly the literal-value classes are rewritten.
/// A placeholder already present is not a literal and stays untouched.
pub open spec fn class_is_literal(c: ValueClass) -> bool {
    match c {
        ValueClass::Number => true,
        ValueClass::Text => true,
        ValueClass::Boolean => true,
        ValueClass::Null => true,
        ValueClass::Typed => true,
        ValueClass::PlaceholderArg => false,
        ValueClass::NotAValue => false,
    }
}

/// Relies on the shape of sqlparser::ast::Expr: `Expr::Value`,
/// `Expr::TypedString` and `Expr::IntroducedString` are the node forms that
/// carry a primitive value, and every variant of sqlparser::ast::Value
/// except `Placeholder` is a literal written in the text.
#[verifier::external_body]
fn classify_node(e: &sqlparser::ast::Expr) -> (c: ValueClass)
    ensures
        c == node_class(*e),
{
    match e {
        sqlparser::ast::Expr::Value(v) => match &v.value {
            sqlparser::ast::Value::Number(_, _) => ValueClass::Number,
            sqlparser::ast::Value::Boolean(_) => ValueClass::Boolean,
            sqlparser::ast::Value::Null => ValueClass::Null,
            sqlparser::ast::Value::Placeholder(_) => ValueClass::PlaceholderArg,
            _ => ValueClass::Text,
        },
        sqlparser::ast::Expr::TypedString { .. } => ValueClass::Typed,
        sqlparser::ast::Expr::IntroducedString { .. } => ValueClass::Text,
        _ => ValueClass::NotAValue,
    }
}

/// Relies on sqlparser::ast::Value::with_empty_span: it wraps the given
/// placeholder token as a value expression node with no source span — a node
/// the redaction rule classifies as a placeholder.
#[verifier::external_body]
fn replace_with_placeholder(e: &mut sqlparser::ast::Expr, token: &str)
    ensures
        node_class(*final(e)) == ValueClass::PlaceholderArg,
{
    *e = sqlparser::ast::Expr::Value(
        sqlparser::ast::Value::Placeholder(token.to_string()).with_empty_span(),
    );
}

/// The executable redaction decision, exhaustive over the closed set of
/// classes so that a new literal class cannot be added without this match
/// being updated to cover it.
pub fn is_literal_class(c: ValueClass) -> (r: bool)
    ensures
        r == class_is_literal(c),
{
    match c {
        ValueClass::Number => true,
        ValueClass::Text => true,
        ValueClass::Boolean => true,
        ValueClass::Null => true,
        ValueClass::Typed => true,
        ValueClass::PlaceholderArg => false,
        ValueClass::NotAValue => false,
    }
}

/// The redaction rule applied at one parsed expression node: a literal value
/// becomes the placeholder `?`; every other node — placeholders already
/// present included — is left exactly as it is.
pub fn redact_node(e: &mut sqlparser::ast::Expr)
    ensures
        class_is_literal(node_class(*old(e))) ==> node_class(*final(e))
            == ValueClass::PlaceholderArg,
        !class_is_literal(node_class(*old(e))) ==> *final(e) == *old(e),
{
    let class = classify_node(e);
    if is_literal_class(class) {
        replace_with_placeholder(e, "?");
    }
}

/// Relies on sqlparser::ast::visit_expressions_mut: it offers every
/// expression node reachable from the statement — nested subqueries,
/// function arguments, CASE branches and set-operation operands included —
/// to the redaction rule, and rebuilds nothing else.  Applying the rule at
/// every value position is, at the model level, exactly the model redaction.
#[verifier::external_body]
fn visit_redact(stmt: &mut sqlparser::ast::Statement)
    ensures
        stmt_model(*final(stmt)) == redacted_stmt(stmt_model(*old(stmt))),
{
    let _ = sqlparser::ast::visit_expressions_mut(stmt, |e| {
        redact_node(e);
        std::ops::ControlFlow::<()>::Continue(())
    });
}

/// Relies on the Display implementation of sqlparser::ast::Statement: it
/// renders the statement as canonical SQL text without a trailing `;`,
/// deterministically from the statement alone.  Formatting into an owned
/// `String` buffer cannot fail, and sqlparser's Display only forwards the
/// formatter's own failures, so the call always succeeds.
#[verifier::external_body]
fn render_statement(stmt: &sqlparser::ast::Statement) -> (r: Result<String, core::fmt::Error>)
    ensures
        r is Ok,
        r matches Ok(text) ==> text@ == rendered(*stmt),
{
    let mut text = String::new();
    match write!(&mut text, "{}", stmt) {
        Ok(()) => Ok(text),
        Err(e) => Err(e),
    }
}

/// The output format: the rendering of each statement in order, each
/// terminated by a single `;`, with nothing before, between or after.
pub open spec fn rendered_join(finals: Seq<sqlparser::ast::Statement>) -> Seq<char>
    decreases finals.len(),
{
    if finals.len() == 0 {
        Seq::empty()
    } else {
        rendered_join(finals.drop_last()) + rendered(finals.last()) + seq![';']
    }
}

/// Holds when `out` is the join of the canonical renderings of `finals`,
/// each terminated by `;`, and each element of `finals` is — at the model
/// level — exactly the redaction of the corresponding statement parsed from
/// the text, in the parsed order.
pub open spec fn redacts_to(
    d: Dialect,
    s: Seq<char>,
    finals: Seq<sqlparser::ast::Statement>,
    out: Seq<char>,
) -> bool {
    &&& parse_model(d, s) matches Some(models) && finals.len() == models.len() && (forall|
        i: int,
    |
        0 <= i < finals.len() ==> stmt_model(#[trigger] finals[i]) == redacted_stmt(models[i]))
    &&& out == rendered_join(finals)
}

/// Holds when some statement sequence ties the output to the text as
/// `redacts_to` demands: the rendered, `;`-terminated join of statements
/// whose models are the redactions of the parsed models, in order.
pub open spec fn output_redacts(d: Dialect, s: Seq<char>, out: Seq<char>) -> bool {
    exists|finals: Seq<sqlparser::ast::Statement>| #[trigger] redacts_to(d, s, finals, out)
}

/// Law: statements that redact the parsed models are, at the model level,
/// free of literal values, and each keeps the identifiers, operators and
/// clause structure of the statement it was parsed from.
pub proof fn lemma_redacted_output_sound(models: Seq<Stmt>, finals: Seq<
    sqlparser::ast::Statement,
>)
    requires
        finals.len() == models.len(),
        forall|i: int|
            0 <= i < finals.len() ==> stmt_model(#[trigger] finals[i]) == redacted_stmt(
                models[i],
            ),
    ensures
        forall|i: int| 0 <= i < finals.len() ==> literal_free_stmt(stmt_model(#[trigger] finals[i])),
        forall|i: int|
            0 <= i < finals.len() ==> same_skeleton_stmt(models[i], stmt_model(
                #[trigger] finals[i],
            )),
{
    assert forall|i: int| 0 <= i < finals.len() implies literal_free_stmt(
        stmt_model(#[trigger] finals[i]),
    ) by {
        lemma_redaction_eliminates_literals(models[i]);
    }
    assert forall|i: int| 0 <= i < finals.len() implies same_skeleton_stmt(
        models[i],
        stmt_model(#[trigger] finals[i]),
    ) by {
        lemma_redaction_preserves_skeleton(models[i]);
    }
}

/// Replace every literal value in `sql` with the placeholder `?`.
///
/// The text is parsed under `dialect`; on success — owed exactly when the
/// text parses — the output holds one `;`-terminated rendering per parsed
/// statement, in the input's order, and each rendered statement is, at the
/// model level, the redaction of the statement parsed at that position.
/// Text that does not parse is reported as `FailedToParse`, and never as a
/// partial result.
pub fn redact(dialect: Dialect, sql: &str) -> (r: Result<String, Error>)
    ensures
        (parse_model(dialect, sql@) is None) <==> (r matches Err(
            Error::FailedToParse(_),
        )),
        parse_model(dialect, sql@) is Some ==> r is Ok,
        r matches Ok(out) ==> output_redacts(dialect, sql@, out@),
{
    match parse_statements(dialect, sql) {
        Err(e) => Err(Error::FailedToParse(e)),
        Ok(mut stmts) => {
            let ghost models = models_of(stmts@);
            let mut out = String::new();
            let ghost mut finals: Seq<sqlparser::ast::Statement> = Seq::empty();
            while stmts.len() > 0
                invariant
                    parse_model(dialect, sql@) == Some(models),
                    finals.len() + stmts@.len() == models.len(),
                    models_of(stmts@) =~= models.subrange(
                        finals.len() as int,
                        models.len() as int,
                    ),
                    forall|i: int|
                        0 <= i < finals.len() ==> stmt_model(#[trigger] finals[i])
                            == redacted_stmt(models[i]),
                    out@ == rendered_join(finals),
                decreases stmts@.len(),
            {
                let ghost k = finals.len() as int;
                let ghost pre_stmts = stmts@;
                let mut stmt = stmts.remove(0);
                proof {
                    assert(stmts@ =~= pre_stmts.drop_first());
                    assert(models_of(pre_stmts)[0] == stmt_model(stmt));
                    assert(stmt_model(stmt) == models[k]);
                    assert forall|j: int| 0 <= j < stmts@.len() implies models_of(stmts@)[j]
                        == models[k + 1 + j] by {
                        assert(models_of(pre_stmts)[j + 1] == stmt_model(pre_stmts[j + 1]));
                    }
                    assert(models_of(stmts@) =~= models.subrange(k + 1, models.len() as int));
                }
                visit_redact(&mut stmt);
                match render_statement(&stmt) {
                    Ok(text) => {
                        out.append(text.as_str());
                        out.append(";");
                        proof {
                            reveal_strlit(";");
                            let prior = finals;
                            finals = finals.push(stmt);
                            assert(finals.drop_last() =~= prior);
                            assert(finals.last() == stmt);
                            assert(out@ =~= rendered_join(prior) + rendered(stmt) + seq![';']);
                            assert forall|i: int| 0 <= i < finals.len() implies stmt_model(
                                #[trigger] finals[i],
                            ) == redacted_stmt(models[i]) by {
                                if i < prior.len() {
                                    assert(finals[i] == prior[i]);
                                }
                            }
                        }
                    },
                    Err(e) => {
                        return Err(Error::FailedToStringify(e));
                    },
                }
            }
            proof {
                assert(finals.len() == models.len());
                assert(output_redacts(dialect, sql@, out@)) by {
                    assert(redacts_to(dialect, sql@, finals, out@));
                }
            }
            Ok(out)
        },
    }
}

} // verus!
