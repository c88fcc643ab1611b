//! The abstract syntax tree of a template.
//!
//! Source text is kept as a character sequence; every piece of text that the
//! tree refers to (names, string literals) is held as a `Span` into it, so
//! that the same value serves executable code and specifications alike.

use vstd::prelude::*;

verus! {

/// A half-open character range `[lo, hi)` into the source.
#[derive(Clone, Copy, PartialEq, Eq, Structural, Debug)]
pub struct Span {
    pub lo: usize,
    pub hi: usize,
}

/// The text a span denotes; empty when the span does not fit the source.
pub open spec fn span_text(src: Seq<char>, sp: Span) -> Seq<char> {
    if sp.lo <= sp.hi && sp.hi <= src.len() {
        src.subrange(sp.lo as int, sp.hi as int)
    } else {
        Seq::empty()
    }
}

/// A linked list; the list shape used throughout the tree.
pub enum Lst<T> {
    Nil,
    Cons(Box<T>, Box<Lst<T>>),
}

impl<T> Lst<T> {
    /// The number of elements.
    pub open spec fn length(self) -> nat
        decreases self,
    {
        match self {
            Lst::Nil => 0,
            Lst::Cons(_, rest) => 1 + rest.length(),
        }
    }
}

/// A binary operator of the expression sub-grammar.
#[derive(Clone, Copy, PartialEq, Eq, Structural, Debug)]
pub enum BinOp {
    Add,
    Sub,
    Mul,
    CmpEq,
    CmpNe,
    CmpLt,
    CmpGt,
}

/// An embedded host expression.
pub enum Expr {
    /// An integer literal.
    IntLit(i64),
    /// A string literal; the span covers the text between the quotes.
    StrLit(Span),
    /// `true` or `false`.
    BoolLit(bool),
    /// A variable reference.
    Var(Span),
    /// A list literal `[a, b, c]`.
    ListLit(Lst<Expr>),
    /// A two-element tuple `(a, b)`.
    PairLit(Box<Expr>, Box<Expr>),
    /// Arithmetic negation.
    Neg(Box<Expr>),
    /// A binary operation.
    Bin(BinOp, Box<Expr>, Box<Expr>),
    /// `e.enumerate()`: pairs each list element with its index.
    Enumerate(Box<Expr>),
}

/// A pattern of the expression sub-grammar.
pub enum Pat {
    /// `_`
    Wild,
    /// A binding.
    VarP(Span),
    /// An integer literal pattern.
    IntP(i64),
    /// A string literal pattern.
    StrP(Span),
    /// `true` or `false`.
    BoolP(bool),
    /// A two-element tuple pattern.
    PairP(Box<Pat>, Box<Pat>),
    /// Alternation `p | q`.
    OrP(Box<Pat>, Box<Pat>),
}

/// One node of a template body.
pub enum Node {
    Element(Element),
    If(If),
    For(For),
    Expr(Expr),
    Stmt(Stmt),
    Match(Match),
}

/// An element. `name == None` stands for the generic container element
/// (`div`), the default of the `#id` / `.class` shorthands.
pub struct Element {
    pub name: Option<Expr>,
    pub id: Option<Expr>,
    pub classes: Lst<Expr>,
    pub attributes: Lst<Attribute>,
    /// `None` marks a void element: no children, no closing tag.
    pub children: Option<Lst<Node>>,
}

/// A chain of `@if` clauses with an optional `@else` default.
pub struct If {
    pub clauses: Lst<IfClause>,
    pub default: Option<Lst<Node>>,
}

/// One `test { consequent }` clause.
pub struct IfClause {
    pub test: IfClauseTest,
    pub consequent: Lst<Node>,
}

/// A boolean test or a refutable `let` binding.
pub enum IfClauseTest {
    Expr(Expr),
    Let(Pat, Expr),
}

/// `@match expr { arms }`.
pub struct Match {
    pub expr: Expr,
    pub clauses: Lst<MatchClause>,
}

/// One match arm: pattern, optional guard, consequent.
pub struct MatchClause {
    pub pat: Pat,
    pub guard: Option<Expr>,
    pub consequent: Lst<Node>,
}

/// `@for pat in expr { body }`.
pub struct For {
    pub pat: Pat,
    pub expr: Expr,
    pub body: Lst<Node>,
}

/// One attribute: a single `name = value`, or an iterable of pairs to which
/// the same rule applies at render time.
pub enum Attribute {
    One(Expr, Expr),
    Many(Expr),
}

/// A spliced `@let` statement: binds names for the following siblings.
pub struct Stmt {
    pub pat: Pat,
    pub expr: Expr,
}

/// A declared field of a named template.
pub struct Field {
    pub name: Span,
    pub ty: Span,
}

/// A named template definition.
pub struct Struct {
    pub name: Span,
    pub fields: Lst<Field>,
    pub children: Lst<Node>,
    /// Number of tokens the definition occupies: a lexical proxy for the
    /// expected output size.
    pub size_hint: usize,
}

/// An anonymous template: a bare node sequence.
pub struct Template {
    pub children: Lst<Node>,
}

/// A parsed sequence of items, consumed until the input's end.
pub struct Many<P>(pub Lst<P>);

} // verus!
