//! The statement tree that the redaction engine works on.
//!
//! A `Stmt` is the root of one parsed SQL command; every clause that can
//! carry a value holds `Expression` subtrees.  Expressions nest arbitrarily: a
//! function call's arguments are expressions, and a subquery's body is a full
//! statement containing further expressions.

use vstd::prelude::*;

verus! {

/// A homogeneous list of tree parts, built inductively so that both
/// specification and executable code can recurse over it structurally.
#[derive(Debug, PartialEq)]
pub enum List<T> {
    Nil,
    Cons(T, Box<List<T>>),
}

impl<T> List<T> {
    /// Number of elements in the list.
    pub open spec fn len(self) -> nat
        decreases self,
    {
        match self {
            List::Nil => 0,
            List::Cons(_, tail) => 1 + tail.len(),
        }
    }
}

/// The payload of a literal-value expression: a fixed constant written
/// directly in the SQL text.  Its content is read for classification only and
/// is never copied into redacted output.
#[derive(Debug, PartialEq)]
pub enum Literal {
    /// A quoted string literal.
    Str(String),
    /// A numeric literal, kept as written.
    Number(String),
    /// TRUE or FALSE.
    Boolean(bool),
    /// The NULL keyword used as a value.
    Null,
    /// A date/time literal, kept as written.
    DateTime(String),
}

/// A unary operator application.
#[derive(Clone, Copy, Debug, PartialEq, Eq, Structural)]
pub enum UnaryOp {
    Not,
    Neg,
    Plus,
}

/// A binary operator application.
#[derive(Clone, Copy, Debug, PartialEq, Eq, Structural)]
pub enum BinaryOp {
    Eq,
    NotEq,
    Lt,
    LtEq,
    Gt,
    GtEq,
    And,
    Or,
    Add,
    Sub,
    Mul,
    Div,
}

/// A set operation combining two query bodies.
#[derive(Clone, Copy, Debug, PartialEq, Eq, Structural)]
pub enum SetOp {
    Union,
    Intersect,
    Except,
}

/// One SQL expression form.  The redactor matches exhaustively over this
/// closed union, so a new literal form cannot be added without the redactor
/// being updated to cover it.
#[derive(Debug, PartialEq)]
pub enum Expression {
    /// A literal value: the one form the redactor rewrites.
    Literal(Literal),
    /// The fixed `?` marker.  Carries no data; never rewritten further.
    Placeholder,
    /// A column or other identifier reference.
    Column(String),
    /// The `*` projection.
    Wildcard,
    /// A unary operator applied to an operand.
    Unary(UnaryOp, Box<Expression>),
    /// A binary operator applied to two operands.
    Binary(Box<Expression>, BinaryOp, Box<Expression>),
    /// A function call with its argument list.
    Function(String, Box<List<Expression>>),
    /// `<expr> IN (<list>)`.
    InList(Box<Expression>, Box<List<Expression>>),
    /// `<expr> BETWEEN <low> AND <high>`.
    Between(Box<Expression>, Box<Expression>, Box<Expression>),
    /// `CASE WHEN ... THEN ... [ELSE ...] END`.
    Case(Box<List<CaseBranch>>, Option<Box<Expression>>),
    /// A nested query used as a value.
    Subquery(Box<Stmt>),
}

/// One WHEN/THEN arm of a CASE expression.
#[derive(Debug, PartialEq)]
pub struct CaseBranch {
    pub condition: Expression,
    pub result: Expression,
}

/// One table in a FROM clause; entries after the first are joins and may
/// carry an ON condition.
#[derive(Debug, PartialEq)]
pub struct TableRef {
    pub name: String,
    pub alias: Option<String>,
    pub join_on: Option<Expression>,
}

/// One `column = value` pair in an UPDATE's SET clause.
#[derive(Debug, PartialEq)]
pub struct Assignment {
    pub column: String,
    pub value: Expression,
}

/// One parenthesised row of a VALUES list.
#[derive(Debug, PartialEq)]
pub struct Row {
    pub items: List<Expression>,
}

/// The root of one parsed SQL command.
#[derive(Debug, PartialEq)]
pub enum Stmt {
    Select {
        projection: List<Expression>,
        from: List<TableRef>,
        selection: Option<Expression>,
        group_by: List<Expression>,
        order_by: List<Expression>,
        limit: Option<Expression>,
    },
    /// Two query bodies joined by UNION, INTERSECT or EXCEPT.
    Compound(Box<Stmt>, SetOp, Box<Stmt>),
    Insert {
        table: String,
        columns: List<String>,
        rows: List<Row>,
    },
    Update {
        table: String,
        assignments: List<Assignment>,
        selection: Option<Expression>,
    },
    Delete {
        table: String,
        selection: Option<Expression>,
    },
}

} // verus!
