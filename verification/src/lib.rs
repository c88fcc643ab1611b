//! A verified template compiler: template source text is tokenized, parsed
//! into a tree, and lowered to a write-program whose interpretation streams
//! escaped output. Every stage is specified: the escaper by `escape_seq`,
//! the tokenizer by `lex`, the parser by its `sp_*` twins, the builder by
//! its `sb_*` twins, and rendering by the semantics in `sem`.

use vstd::prelude::*;

pub mod ast;
pub mod builder;
pub mod cache;
pub mod escape;
pub mod eval;
pub mod interp;
pub mod lexer;
pub mod numfmt;
pub mod parse;
pub mod program;
pub mod render;
pub mod sem;
pub mod template;
pub mod value;

pub use ast::Attribute;
pub use ast::Element;
pub use ast::Expr;
pub use ast::Field;
pub use ast::For;
pub use ast::If;
pub use ast::IfClause;
pub use ast::IfClauseTest;
pub use ast::Lst;
pub use ast::Many;
pub use ast::Match;
pub use ast::MatchClause;
pub use ast::Node;
pub use ast::Pat;
pub use ast::Span;
pub use ast::Stmt;
pub use ast::Struct;
pub use ast::Template;
pub use cache::Cache;
pub use cache::source_digest;
pub use escape::Escape;
pub use escape::escape;
pub use escape::escape_seq;
pub use eval::Env;
pub use lexer::ParseError;
pub use program::Op;
pub use program::Program;
pub use render::Render;
pub use render::RenderAttributeValue;
pub use sem::RErr;
pub use template::Compiled;
pub use template::DynRender;
pub use template::define;
pub use template::new;
pub use value::Value;
pub use value::doctype;
pub use value::raw;
pub use value::value_to_string;

verus! {

} // verus!
