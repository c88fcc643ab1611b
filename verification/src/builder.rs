//! The renderer builder: walks the tree and emits a write-program.
//!
//! Consecutive static text — tag punctuation written raw, and literals
//! escaped at compile time — collects in a buffer and leaves as one `Write`
//! operation when a dynamic operation or a scope boundary flushes it. The
//! `sb_*` functions are the builder's specification; the executable builder
//! is verified to produce exactly the program they describe.

use crate::ast::Attribute;
use crate::ast::Element;
use crate::ast::Expr;
use crate::ast::IfClause;
use crate::ast::Lst;
use crate::ast::MatchClause;
use crate::ast::Node;
use crate::ast::span_text;
use crate::escape::chars_to_string;
use crate::escape::escape_seq;
use crate::escape::push_escaped;
use crate::eval::span_to_string;
use crate::program::IfArm;
use crate::program::IfArmS;
use crate::program::MatchArm;
use crate::program::MatchArmS;
use crate::program::Op;
use crate::program::OpS;
use crate::program::ProgS;
use crate::program::Program;
use crate::program::lemma_vops_push;
use crate::program::vifarms;
use crate::program::vmarms;
use crate::program::vop;
use crate::program::vops;
use crate::program::vprog;
use crate::value::push_plain;
use vstd::prelude::*;

verus! {

/// Builder state: the operations emitted so far and the pending static text.
pub struct BState {
    pub ops: Seq<OpS>,
    pub buf: Seq<char>,
}

/// Appends text to the pending buffer unchanged (tag punctuation).
pub open spec fn sb_raw(st: BState, t: Seq<char>) -> BState {
    BState { ops: st.ops, buf: st.buf + t }
}

/// Appends text to the pending buffer through the escaper (literal source
/// text: names and static strings).
pub open spec fn sb_lit(st: BState, t: Seq<char>) -> BState {
    BState { ops: st.ops, buf: st.buf + escape_seq(t) }
}

/// Flushes the pending buffer as a single write operation.
pub open spec fn sb_flush(st: BState) -> BState {
    if st.buf.len() == 0 {
        st
    } else {
        BState { ops: st.ops.push(OpS::Write(st.buf)), buf: Seq::empty() }
    }
}

/// Flushes, then emits one operation.
pub open spec fn sb_op(st: BState, op: OpS) -> BState {
    let f = sb_flush(st);
    BState { ops: f.ops.push(op), buf: f.buf }
}

/// An expression in output position: a static string literal is escaped into
/// the buffer at compile time; anything else becomes a dynamic operation.
pub open spec fn sb_expr(src: Seq<char>, st: BState, e: Expr) -> BState {
    match e {
        Expr::StrLit(sp) => sb_lit(st, span_text(src, sp)),
        _ => sb_op(st, OpS::Dyn(e)),
    }
}

/// An element name; `None` is the generic container element.
pub open spec fn sb_name(src: Seq<char>, st: BState, name: Option<Expr>) -> BState {
    match name {
        None => sb_lit(st, "div"@),
        Some(e) => sb_expr(src, st, e),
    }
}

/// The program a node sequence compiles to, as a fresh sub-program.
pub open spec fn sb_prog(src: Seq<char>, ns: Lst<Node>) -> ProgS
    decreases ns, 3int,
{
    ProgS { ops: sb_flush(sb_nodes(src, ns, BState { ops: Seq::empty(), buf: Seq::empty() })).ops }
}

/// Builds each node in order.
pub open spec fn sb_nodes(src: Seq<char>, ns: Lst<Node>, st: BState) -> BState
    decreases ns, 1int,
{
    match ns {
        Lst::Nil => st,
        Lst::Cons(n, rest) => sb_nodes(src, *rest, sb_node(src, *n, st)),
    }
}

/// Builds one node.
pub open spec fn sb_node(src: Seq<char>, n: Node, st: BState) -> BState
    decreases n, 4int,
{
    match n {
        Node::Element(el) => sb_element(src, el, st),
        Node::If(i) => sb_op(
            st,
            OpS::Cond(
                sb_clauses(src, i.clauses),
                match i.default {
                    Some(d) => Some(sb_prog(src, d)),
                    None => None,
                },
            ),
        ),
        Node::For(f) => sb_op(st, OpS::Loop(f.pat, f.expr, sb_prog(src, f.body))),
        Node::Expr(e) => sb_expr(src, st, e),
        Node::Stmt(s) => sb_op(st, OpS::Bind(s.pat, s.expr)),
        Node::Match(m) => sb_op(st, OpS::Select(m.expr, sb_mclauses(src, m.clauses))),
    }
}

/// Builds the arms of a conditional.
pub open spec fn sb_clauses(src: Seq<char>, cs: Lst<IfClause>) -> Seq<IfArmS>
    decreases cs, 4int,
{
    match cs {
        Lst::Nil => Seq::empty(),
        Lst::Cons(c, rest) => seq![
            IfArmS { test: c.test, body: sb_prog(src, c.consequent) },
        ] + sb_clauses(src, *rest),
    }
}

/// Builds the arms of a selection.
pub open spec fn sb_mclauses(src: Seq<char>, cs: Lst<MatchClause>) -> Seq<MatchArmS>
    decreases cs, 4int,
{
    match cs {
        Lst::Nil => Seq::empty(),
        Lst::Cons(c, rest) => seq![
            MatchArmS { pat: c.pat, guard: c.guard, body: sb_prog(src, c.consequent) },
        ] + sb_mclauses(src, *rest),
    }
}

/// The class list, space-separated, in declaration order.
pub open spec fn sb_classes(src: Seq<char>, es: Lst<Expr>, first: bool, st: BState) -> BState
    decreases es, 1int,
{
    match es {
        Lst::Nil => st,
        Lst::Cons(e, rest) => sb_classes(
            src,
            *rest,
            false,
            sb_expr(
                src,
                if first {
                    st
                } else {
                    sb_raw(st, " "@)
                },
                *e,
            ),
        ),
    }
}

/// The attribute operations, in declaration order.
pub open spec fn sb_attrs(src: Seq<char>, ats: Lst<Attribute>, st: BState) -> BState
    decreases ats, 1int,
{
    match ats {
        Lst::Nil => st,
        Lst::Cons(a, rest) => sb_attrs(
            src,
            *rest,
            match *a {
                Attribute::One(n, v) => sb_op(st, OpS::AttrOne(n, v)),
                Attribute::Many(e) => sb_op(st, OpS::AttrMany(e)),
            },
        ),
    }
}

/// One element: open tag with id, classes and attributes, then children and
/// a close tag re-emitting the name, or a bare open tag for a void element.
pub open spec fn sb_element(src: Seq<char>, el: Element, st: BState) -> BState
    decreases el, 4int,
{
    let st1 = sb_name(src, sb_raw(st, "<"@), el.name);
    let st2 = match el.id {
        Some(e) => sb_raw(sb_expr(src, sb_raw(st1, " id=\""@), e), "\""@),
        None => st1,
    };
    let st3 = match el.classes {
        Lst::Nil => st2,
        _ => sb_raw(sb_classes(src, el.classes, true, sb_raw(st2, " class=\""@)), "\""@),
    };
    let st4 = sb_attrs(src, el.attributes, st3);
    match el.children {
        None => sb_raw(st4, ">"@),
        Some(ns) => sb_raw(
            sb_name(src, sb_raw(sb_nodes(src, ns, sb_raw(st4, ">"@)), "</"@), el.name),
            ">"@,
        ),
    }
}

/// An exact copy of an expression.
pub(crate) fn dup_expr(e: &Expr) -> (r: Expr)
    ensures
        r == *e,
    decreases *e, 1int,
{
    match e {
        Expr::IntLit(n) => Expr::IntLit(*n),
        Expr::StrLit(sp) => Expr::StrLit(*sp),
        Expr::BoolLit(b) => Expr::BoolLit(*b),
        Expr::Var(sp) => Expr::Var(*sp),
        Expr::ListLit(es) => Expr::ListLit(dup_exprs(es)),
        Expr::PairLit(a, b) => Expr::PairLit(Box::new(dup_expr(&*a)), Box::new(dup_expr(&*b))),
        Expr::Neg(a) => Expr::Neg(Box::new(dup_expr(&*a))),
        Expr::Bin(op, a, b) => Expr::Bin(*op, Box::new(dup_expr(&*a)), Box::new(dup_expr(&*b))),
        Expr::Enumerate(a) => Expr::Enumerate(Box::new(dup_expr(&*a))),
    }
}

/// An exact copy of an expression list.
fn dup_exprs(es: &Lst<Expr>) -> (r: Lst<Expr>)
    ensures
        r == *es,
    decreases *es, 1int,
{
    match es {
        Lst::Nil => Lst::Nil,
        Lst::Cons(e, rest) => Lst::Cons(Box::new(dup_expr(&*e)), Box::new(dup_exprs(&*rest))),
    }
}

/// An exact copy of an optional expression.
fn dup_opt_expr(e: &Option<Expr>) -> (r: Option<Expr>)
    ensures
        r == *e,
{
    match e {
        Some(inner) => Some(dup_expr(inner)),
        None => None,
    }
}

/// The executable builder: emitted operations plus the pending text buffer.
pub struct Builder {
    pub ops: Vec<Op>,
    pub buf: Vec<char>,
}

/// The state a builder stands in.
pub open spec fn bst(b: Builder) -> BState {
    BState { ops: vops(b.ops@, 0), buf: b.buf@ }
}

impl Builder {
    /// A fresh builder with nothing emitted.
    pub fn new() -> (r: Builder)
        ensures
            bst(r) == (BState { ops: Seq::<OpS>::empty(), buf: Seq::<char>::empty() }),
    {
        let r = Builder { ops: Vec::new(), buf: Vec::new() };
        proof {
            assert(vops(r.ops@, 0) =~= Seq::<OpS>::empty());
        }
        r
    }

    /// Appends raw text to the pending buffer.
    fn raw(&mut self, s: &str)
        ensures
            bst(*final(self)) == sb_raw(bst(*old(self)), s@),
    {
        push_plain(&mut self.buf, s);
    }

    /// Appends escaped literal text to the pending buffer.
    fn lit(&mut self, s: &str)
        ensures
            bst(*final(self)) == sb_lit(bst(*old(self)), s@),
    {
        push_escaped(&mut self.buf, s);
    }

    /// Flushes the pending buffer as one write operation.
    fn flush(&mut self)
        ensures
            bst(*final(self)) == sb_flush(bst(*old(self))),
    {
        if self.buf.len() > 0 {
            let w = chars_to_string(&self.buf);
            proof {
                lemma_vops_push(self.ops@, 0, Op::Write(w));
            }
            self.ops.push(Op::Write(w));
            self.buf.clear();
        }
    }

    /// Flushes, then emits one operation.
    fn push_op(&mut self, op: Op)
        ensures
            bst(*final(self)) == sb_op(bst(*old(self)), vop(op)),
    {
        self.flush();
        proof {
            lemma_vops_push(self.ops@, 0, op);
        }
        self.ops.push(op);
    }

    /// Hands the finished program out.
    fn finish(self) -> (p: Program)
        ensures
            vprog(p) == (ProgS { ops: sb_flush(bst(self)).ops }),
    {
        let mut b = self;
        b.flush();
        Program { ops: b.ops }
    }
}

/// Builds an expression in output position.
fn b_expr(src: &Vec<char>, e: Expr, b: &mut Builder)
    ensures
        bst(*final(b)) == sb_expr(src@, bst(*old(b)), e),
{
    match e {
        Expr::StrLit(sp) => {
            let s = span_to_string(src, sp);
            b.lit(s.as_str());
        },
        _ => {
            b.push_op(Op::Dyn(e));
        },
    }
}

/// Builds an element name.
fn b_name(src: &Vec<char>, name: Option<Expr>, b: &mut Builder)
    ensures
        bst(*final(b)) == sb_name(src@, bst(*old(b)), name),
{
    match name {
        None => {
            b.lit("div");
        },
        Some(e) => {
            b_expr(src, e, b);
        },
    }
}

/// Builds each node in order.
pub(crate) fn b_nodes(src: &Vec<char>, ns: Lst<Node>, b: &mut Builder)
    ensures
        bst(*final(b)) == sb_nodes(src@, ns, bst(*old(b))),
    decreases ns, 1int,
{
    match ns {
        Lst::Nil => {},
        Lst::Cons(n, rest) => {
            b_node(src, *n, b);
            b_nodes(src, *rest, b);
        },
    }
}

/// Compiles a node sequence as a fresh sub-program.
pub fn build_prog(src: &Vec<char>, ns: Lst<Node>) -> (p: Program)
    ensures
        vprog(p) == sb_prog(src@, ns),
    decreases ns, 3int,
{
    let mut b = Builder::new();
    b_nodes(src, ns, &mut b);
    b.finish()
}

/// Builds one node.
fn b_node(src: &Vec<char>, n: Node, b: &mut Builder)
    ensures
        bst(*final(b)) == sb_node(src@, n, bst(*old(b))),
    decreases n, 4int,
{
    match n {
        Node::Element(el) => {
            b_element(src, el, b);
        },
        Node::If(i) => {
            let arms = b_clauses(src, i.clauses);
            let def = match i.default {
                Some(d) => Some(build_prog(src, d)),
                None => None,
            };
            b.push_op(Op::Cond(arms, def));
        },
        Node::For(f) => {
            let body = build_prog(src, f.body);
            b.push_op(Op::Loop(f.pat, f.expr, body));
        },
        Node::Expr(e) => {
            b_expr(src, e, b);
        },
        Node::Stmt(s) => {
            b.push_op(Op::Bind(s.pat, s.expr));
        },
        Node::Match(m) => {
            let arms = b_mclauses(src, m.clauses);
            b.push_op(Op::Select(m.expr, arms));
        },
    }
}

/// Builds the arms of a conditional.
fn b_clauses(src: &Vec<char>, cs: Lst<IfClause>) -> (r: Lst<IfArm>)
    ensures
        vifarms(r) == sb_clauses(src@, cs),
    decreases cs, 4int,
{
    match cs {
        Lst::Nil => {
            let r = Lst::<IfArm>::Nil;
            proof {
                assert(vifarms(r) =~= Seq::<IfArmS>::empty());
            }
            r
        },
        Lst::Cons(c, rest) => {
            let cc = *c;
            let body = build_prog(src, cc.consequent);
            let tail = b_clauses(src, *rest);
            let r = Lst::Cons(Box::new(IfArm { test: cc.test, body }), Box::new(tail));
            proof {
                assert(vifarms(r) =~= sb_clauses(src@, cs));
            }
            r
        },
    }
}

/// Builds the arms of a selection.
fn b_mclauses(src: &Vec<char>, cs: Lst<MatchClause>) -> (r: Lst<MatchArm>)
    ensures
        vmarms(r) == sb_mclauses(src@, cs),
    decreases cs, 4int,
{
    match cs {
        Lst::Nil => {
            let r = Lst::<MatchArm>::Nil;
            proof {
                assert(vmarms(r) =~= Seq::<MatchArmS>::empty());
            }
            r
        },
        Lst::Cons(c, rest) => {
            let cc = *c;
            let body = build_prog(src, cc.consequent);
            let tail = b_mclauses(src, *rest);
            let r = Lst::Cons(
                Box::new(MatchArm { pat: cc.pat, guard: cc.guard, body }),
                Box::new(tail),
            );
            proof {
                assert(vmarms(r) =~= sb_mclauses(src@, cs));
            }
            r
        },
    }
}

/// Builds the class list.
fn b_classes(src: &Vec<char>, es: Lst<Expr>, first: bool, b: &mut Builder)
    ensures
        bst(*final(b)) == sb_classes(src@, es, first, bst(*old(b))),
    decreases es, 1int,
{
    match es {
        Lst::Nil => {},
        Lst::Cons(e, rest) => {
            if !first {
                b.raw(" ");
            }
            b_expr(src, *e, b);
            b_classes(src, *rest, false, b);
        },
    }
}

/// Builds the attribute operations.
fn b_attrs(src: &Vec<char>, ats: Lst<Attribute>, b: &mut Builder)
    ensures
        bst(*final(b)) == sb_attrs(src@, ats, bst(*old(b))),
    decreases ats, 1int,
{
    match ats {
        Lst::Nil => {},
        Lst::Cons(a, rest) => {
            match *a {
                Attribute::One(n, v) => {
                    b.push_op(Op::AttrOne(n, v));
                },
                Attribute::Many(e) => {
                    b.push_op(Op::AttrMany(e));
                },
            }
            b_attrs(src, *rest, b);
        },
    }
}

/// Builds one element.
fn b_element(src: &Vec<char>, el: Element, b: &mut Builder)
    ensures
        bst(*final(b)) == sb_element(src@, el, bst(*old(b))),
    decreases el, 4int,
{
    let Element { name, id, classes, attributes, children } = el;
    let name2 = dup_opt_expr(&name);
    b.raw("<");
    b_name(src, name, b);
    match id {
        Some(e) => {
            b.raw(" id=\"");
            b_expr(src, e, b);
            b.raw("\"");
        },
        None => {},
    }
    match classes {
        Lst::Nil => {},
        cs => {
            b.raw(" class=\"");
            b_classes(src, cs, true, b);
            b.raw("\"");
        },
    }
    b_attrs(src, attributes, b);
    match children {
        None => {
            b.raw(">");
        },
        Some(ns) => {
            b.raw(">");
            b_nodes(src, ns, b);
            b.raw("</");
            b_name(src, name2, b);
            b.raw(">");
        },
    }
}

} // verus!
