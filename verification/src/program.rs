//! The write-program: the ordered operation sequence a template compiles to.
//!
//! `Program` is the executable form; `ProgS` is its specification-level
//! shadow, in which coalesced text is a character sequence. `vprog` maps one
//! to the other; the render semantics is stated over `ProgS`.

use crate::ast::Expr;
use crate::ast::IfClauseTest;
use crate::ast::Lst;
use crate::ast::Pat;
use vstd::prelude::*;

verus! {

/// One operation of a write-program.
pub enum Op {
    /// Emit a run of static text, already escaped where it came from
    /// literals, as one write.
    Write(String),
    /// Evaluate the expression and render the value through the Render
    /// Protocol.
    Dyn(Expr),
    /// Evaluate the value, then apply the attribute tri-state rule with the
    /// given name expression.
    AttrOne(Expr, Expr),
    /// Evaluate an iterable of name/value pairs and apply the tri-state rule
    /// to each.
    AttrMany(Expr),
    /// Conditional branches with an optional default sub-program.
    Cond(Lst<IfArm>, Option<Program>),
    /// Iterate the evaluated list, binding the pattern for each run of the
    /// body.
    Loop(Pat, Expr, Program),
    /// Evaluate, then run the first arm whose pattern matches and whose
    /// guard holds.
    Select(Expr, Lst<MatchArm>),
    /// Bind names for the remaining operations of this scope.
    Bind(Pat, Expr),
}

/// One conditional branch.
pub struct IfArm {
    pub test: IfClauseTest,
    pub body: Program,
}

/// One selection arm.
pub struct MatchArm {
    pub pat: Pat,
    pub guard: Option<Expr>,
    pub body: Program,
}

/// A compiled write-program.
pub struct Program {
    pub ops: Vec<Op>,
}

/// Specification shadow of `Op`.
pub enum OpS {
    Write(Seq<char>),
    Dyn(Expr),
    AttrOne(Expr, Expr),
    AttrMany(Expr),
    Cond(Seq<IfArmS>, Option<ProgS>),
    Loop(Pat, Expr, ProgS),
    Select(Expr, Seq<MatchArmS>),
    Bind(Pat, Expr),
}

/// Specification shadow of `IfArm`.
pub struct IfArmS {
    pub test: IfClauseTest,
    pub body: ProgS,
}

/// Specification shadow of `MatchArm`.
pub struct MatchArmS {
    pub pat: Pat,
    pub guard: Option<Expr>,
    pub body: ProgS,
}

/// Specification shadow of `Program`.
pub struct ProgS {
    pub ops: Seq<OpS>,
}

/// The shadow of a program.
pub open spec fn vprog(p: Program) -> ProgS
    decreases p, 2int, 0int,
{
    ProgS { ops: vops(p.ops@, 0) }
}

/// The shadows of `ops[i..]`.
pub open spec fn vops(ops: Seq<Op>, i: int) -> Seq<OpS>
    decreases ops, 1int, ops.len() - i,
{
    if i < 0 || i >= ops.len() {
        Seq::empty()
    } else {
        seq![vop(ops[i])] + vops(ops, i + 1)
    }
}

/// The shadow of one operation.
pub open spec fn vop(op: Op) -> OpS
    decreases op, 2int, 0int,
{
    match op {
        Op::Write(s) => OpS::Write(s@),
        Op::Dyn(e) => OpS::Dyn(e),
        Op::AttrOne(n, v) => OpS::AttrOne(n, v),
        Op::AttrMany(e) => OpS::AttrMany(e),
        Op::Cond(arms, def) => OpS::Cond(
            vifarms(arms),
            match def {
                Some(d) => Some(vprog(d)),
                None => None,
            },
        ),
        Op::Loop(p, e, body) => OpS::Loop(p, e, vprog(body)),
        Op::Select(e, arms) => OpS::Select(e, vmarms(arms)),
        Op::Bind(p, e) => OpS::Bind(p, e),
    }
}

/// The shadows of a conditional's branches.
pub open spec fn vifarms(arms: Lst<IfArm>) -> Seq<IfArmS>
    decreases arms, 2int, 0int,
{
    match arms {
        Lst::Nil => Seq::empty(),
        Lst::Cons(arm, rest) => seq![
            IfArmS { test: arm.test, body: vprog(arm.body) },
        ] + vifarms(*rest),
    }
}

/// The shadows of a selection's arms.
pub open spec fn vmarms(arms: Lst<MatchArm>) -> Seq<MatchArmS>
    decreases arms, 2int, 0int,
{
    match arms {
        Lst::Nil => Seq::empty(),
        Lst::Cons(arm, rest) => seq![
            MatchArmS { pat: arm.pat, guard: arm.guard, body: vprog(arm.body) },
        ] + vmarms(*rest),
    }
}

/// Appending an operation appends its shadow.
pub proof fn lemma_vops_push(ops: Seq<Op>, i: int, x: Op)
    requires
        0 <= i <= ops.len(),
    ensures
        vops(ops.push(x), i) == vops(ops, i).push(vop(x)),
    decreases ops.len() - i,
{
    let opsx = ops.push(x);
    if i == ops.len() {
        assert(vops(opsx, i) =~= seq![vop(opsx[i])] + vops(opsx, i + 1));
        assert(vops(opsx, i + 1) =~= Seq::empty());
        assert(opsx[i] == x);
        assert(vops(ops, i) =~= Seq::empty());
        assert(vops(opsx, i) =~= vops(ops, i).push(vop(x)));
    } else {
        lemma_vops_push(ops, i + 1, x);
        assert(opsx[i] == ops[i]);
        assert(vops(opsx, i) =~= vops(ops, i).push(vop(x)));
    }
}

} // verus!
