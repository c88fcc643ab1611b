//! The executable expression evaluator and pattern matcher, verified against
//! the specification semantics of `sem`.

use crate::ast::BinOp;
use crate::ast::Expr;
use crate::ast::Lst;
use crate::ast::Pat;
use crate::ast::Span;
use crate::ast::span_text;
use crate::escape::chars_to_string;
use crate::sem::EnvS;
use crate::sem::RErr;
use crate::sem::eval_bin_s;
use crate::sem::eval_list_s;
use crate::sem::eval_s;
use crate::sem::lookup_s;
use crate::sem::match_pat_s;
use crate::sem::scalar_eq_s;
use crate::sem::venv;
use crate::value::Value;
use crate::value::ValueS;
use crate::value::rc_dup;
use crate::value::vval;
use crate::value::vvals;
use std::rc::Rc;
use vstd::prelude::*;

verus! {

/// An executable environment: bindings oldest first, newest shadowing.
pub type Env = Vec<(String, Rc<Value>)>;

/// The text of a span as an owned string.
pub(crate) fn span_to_string(src: &Vec<char>, sp: Span) -> (r: String)
    ensures
        r@ == span_text(src@, sp),
{
    let mut buf: Vec<char> = Vec::new();
    if sp.lo <= sp.hi && sp.hi <= src.len() {
        let mut i: usize = sp.lo;
        while i < sp.hi
            invariant
                sp.lo <= i <= sp.hi,
                sp.hi <= src.len(),
                buf@ == src@.subrange(sp.lo as int, i as int),
            decreases sp.hi - i,
        {
            buf.push(src[i]);
            assert(buf@ =~= src@.subrange(sp.lo as int, i + 1 as int));
            i = i + 1;
        }
    }
    chars_to_string(&buf)
}

/// The newest binding of `name` in `env[..n]`.
fn lookup(env: &Env, n: usize, name: &String) -> (r: Option<Rc<Value>>)
    requires
        n <= env.len(),
    ensures
        match r {
            Some(rc) => lookup_s(venv(env@).take(n as int), name@) == Some(vval(*rc)),
            None => lookup_s(venv(env@).take(n as int), name@) is None,
        },
    decreases n,
{
    if n == 0 {
        None
    } else {
        let ghost pre = venv(env@).take(n as int);
        assert(pre.last() == (env@[n - 1].0@, vval(*env@[n - 1].1)));
        if env[n - 1].0 == *name {
            Some(rc_dup(&env[n - 1].1))
        } else {
            let r = lookup(env, n - 1, name);
            assert(pre.drop_last() =~= venv(env@).take(n - 1 as int));
            r
        }
    }
}

/// Equality of scalar values; `None` where `==` is not defined.
fn scalar_eq(a: &Value, b: &Value) -> (r: Option<bool>)
    ensures
        r == scalar_eq_s(vval(*a), vval(*b)),
{
    match (a, b) {
        (Value::Int(x), Value::Int(y)) => Some(*x == *y),
        (Value::Str(x), Value::Str(y)) => Some(*x == *y),
        (Value::Bool(x), Value::Bool(y)) => Some(*x == *y),
        (Value::Ch(x), Value::Ch(y)) => Some(*x == *y),
        _ => {
            assert(scalar_eq_s(vval(*a), vval(*b)) is None);
            None
        },
    }
}

/// One binary operation on evaluated operands.
fn eval_bin(op: BinOp, a: &Value, b: &Value) -> (r: Result<Rc<Value>, RErr>)
    ensures
        match r {
            Ok(rc) => eval_bin_s(op, vval(*a), vval(*b)) == Ok::<ValueS, RErr>(vval(*rc)),
            Err(er) => eval_bin_s(op, vval(*a), vval(*b)) == Err::<ValueS, RErr>(er),
        },
{
    match op {
        BinOp::Add => match (a, b) {
            (Value::Int(x), Value::Int(y)) => match x.checked_add(*y) {
                Some(s) => Ok(Rc::new(Value::Int(s))),
                None => Err(RErr::Overflow),
            },
            _ => Err(RErr::Mismatch),
        },
        BinOp::Sub => match (a, b) {
            (Value::Int(x), Value::Int(y)) => match x.checked_sub(*y) {
                Some(s) => Ok(Rc::new(Value::Int(s))),
                None => Err(RErr::Overflow),
            },
            _ => Err(RErr::Mismatch),
        },
        BinOp::Mul => match (a, b) {
            (Value::Int(x), Value::Int(y)) => match x.checked_mul(*y) {
                Some(s) => Ok(Rc::new(Value::Int(s))),
                None => Err(RErr::Overflow),
            },
            _ => Err(RErr::Mismatch),
        },
        BinOp::CmpEq => match scalar_eq(a, b) {
            Some(r) => Ok(Rc::new(Value::Bool(r))),
            None => Err(RErr::Mismatch),
        },
        BinOp::CmpNe => match scalar_eq(a, b) {
            Some(r) => Ok(Rc::new(Value::Bool(!r))),
            None => Err(RErr::Mismatch),
        },
        BinOp::CmpLt => match (a, b) {
            (Value::Int(x), Value::Int(y)) => Ok(Rc::new(Value::Bool(*x < *y))),
            _ => Err(RErr::Mismatch),
        },
        BinOp::CmpGt => match (a, b) {
            (Value::Int(x), Value::Int(y)) => Ok(Rc::new(Value::Bool(*x > *y))),
            _ => Err(RErr::Mismatch),
        },
    }
}

/// Evaluates an expression under the environment.
pub(crate) fn eval(src: &Vec<char>, e: &Expr, env: &Env) -> (r: Result<Rc<Value>, RErr>)
    ensures
        match r {
            Ok(rc) => eval_s(src@, *e, venv(env@)) == Ok::<ValueS, RErr>(vval(*rc)),
            Err(er) => eval_s(src@, *e, venv(env@)) == Err::<ValueS, RErr>(er),
        },
    decreases *e, 1int, 0int,
{
    match e {
        Expr::IntLit(n) => Ok(Rc::new(Value::Int(*n))),
        Expr::StrLit(sp) => Ok(Rc::new(Value::Str(span_to_string(src, *sp)))),
        Expr::BoolLit(b) => Ok(Rc::new(Value::Bool(*b))),
        Expr::Var(sp) => {
            let name = span_to_string(src, *sp);
            proof {
                assert(venv(env@).take(env@.len() as int) =~= venv(env@));
            }
            match lookup(env, env.len(), &name) {
                Some(rc) => Ok(rc),
                None => Err(RErr::Unbound(*sp)),
            }
        },
        Expr::ListLit(es) => match eval_list(src, es, env) {
            Ok(items) => Ok(Rc::new(Value::List(items))),
            Err(er) => Err(er),
        },
        Expr::PairLit(a, b) => {
            let va = eval(src, &*a, env)?;
            let vb = eval(src, &*b, env)?;
            Ok(Rc::new(Value::Pair(va, vb)))
        },
        Expr::Neg(inner) => {
            let v = eval(src, &*inner, env)?;
            match &*v {
                Value::Int(n) => if *n == i64::MIN {
                    Err(RErr::Overflow)
                } else {
                    Ok(Rc::new(Value::Int(-*n)))
                },
                _ => Err(RErr::Mismatch),
            }
        },
        Expr::Bin(op, a, b) => {
            let va = eval(src, &*a, env)?;
            let vb = eval(src, &*b, env)?;
            eval_bin(*op, &*va, &*vb)
        },
        Expr::Enumerate(inner) => {
            let v = eval(src, &*inner, env)?;
            match &*v {
                Value::List(items) => enumerate_items(items),
                _ => Err(RErr::Mismatch),
            }
        },
    }
}

/// Pairs each element of a list with its index.
fn enumerate_items(items: &Vec<Rc<Value>>) -> (r: Result<Rc<Value>, RErr>)
    ensures
        match r {
            Ok(rc) => ({
                &&& vvals(items@).len() <= i64::MAX
                &&& vval(*rc) == ValueS::List(
                    Seq::new(
                        vvals(items@).len(),
                        |i: int| ValueS::Pair(Box::new(ValueS::Int(i)), Box::new(vvals(items@)[i])),
                    ),
                )
            }),
            Err(er) => vvals(items@).len() > i64::MAX && er == RErr::Overflow,
        },
{
    proof {
        lemma_vvals_len(items@);
    }
    if items.len() as u64 > 9223372036854775807u64 {
        return Err(RErr::Overflow);
    }
    let mut out: Vec<Rc<Value>> = Vec::new();
    let mut k: usize = 0;
    while k < items.len()
        invariant
            k <= items.len(),
            items@.len() <= i64::MAX,
            out@.len() == k,
            forall|j: int|
                0 <= j < k ==> vval(*#[trigger] out@[j]) == ValueS::Pair(
                    Box::new(ValueS::Int(j)),
                    Box::new(vval(*items@[j])),
                ),
        decreases items.len() - k,
    {
        let idx: i64 = k as i64;
        let ia = Rc::new(Value::Int(idx));
        let vb = rc_dup(&items[k]);
        proof {
            assert(vval(*ia) == ValueS::Int(k as int));
            assert(vval(*vb) == vval(*items@[k as int]));
        }
        let entry = Rc::new(Value::Pair(ia, vb));
        proof {
            assert(vval(*entry) == ValueS::Pair(
                Box::new(ValueS::Int(k as int)),
                Box::new(vval(*items@[k as int])),
            ));
        }
        out.push(entry);
        k = k + 1;
    }
    proof {
        lemma_vvals_index(items@);
        lemma_vvals_index(out@);
        let want = Seq::new(
            vvals(items@).len(),
            |i: int| ValueS::Pair(Box::new(ValueS::Int(i)), Box::new(vvals(items@)[i])),
        );
        assert forall|i: int| 0 <= i < items@.len() implies vvals(out@)[i] == want[i] by {
            assert(vvals(out@)[i] == vval(*out@[i]));
            assert(vvals(items@)[i] == vval(*items@[i]));
        }
        assert(vvals(out@) =~= want);
    }
    Ok(Rc::new(Value::List(out)))
}

/// The shadow sequence has the same length as the value sequence.
pub proof fn lemma_vvals_len(items: Seq<Rc<Value>>)
    ensures
        vvals(items).len() == items.len(),
    decreases items, 0int,
{
    if items.len() > 0 {
        lemma_vvals_len(items.drop_first());
    }
}

/// The shadow sequence is the element-wise shadow.
pub proof fn lemma_vvals_index(items: Seq<Rc<Value>>)
    ensures
        vvals(items).len() == items.len(),
        forall|i: int| 0 <= i < items.len() ==> vvals(items)[i] == vval(*#[trigger] items[i]),
    decreases items, 0int,
{
    lemma_vvals_len(items);
    if items.len() > 0 {
        lemma_vvals_index(items.drop_first());
        assert forall|i: int| 0 <= i < items.len() implies vvals(items)[i] == vval(
            *#[trigger] items[i],
        ) by {
            if i > 0 {
                assert(items.drop_first()[i - 1] == items[i]);
                assert(vvals(items)[i] == vvals(items.drop_first())[i - 1]);
            }
        }
    }
}

/// Evaluates each expression of a list, left to right.
fn eval_list(src: &Vec<char>, es: &Lst<Expr>, env: &Env) -> (r: Result<Vec<Rc<Value>>, RErr>)
    ensures
        match r {
            Ok(items) => eval_list_s(src@, *es, venv(env@)) == Ok::<Seq<ValueS>, RErr>(
                vvals(items@),
            ),
            Err(er) => eval_list_s(src@, *es, venv(env@)) == Err::<Seq<ValueS>, RErr>(er),
        },
    decreases *es, 1int, 0int,
{
    match es {
        Lst::Nil => {
            let items: Vec<Rc<Value>> = Vec::new();
            assert(vvals(items@) =~= Seq::<ValueS>::empty());
            Ok(items)
        },
        Lst::Cons(e0, rest) => {
            let v0 = eval(src, &*e0, env)?;
            let mut items = eval_list(src, &*rest, env)?;
            let ghost tail = items@;
            items.insert(0, v0);
            proof {
                assert(items@ =~= seq![v0] + tail);
                assert(items@.drop_first() =~= tail);
                assert(vvals(items@) =~= seq![vval(*v0)] + vvals(tail));
            }
            Ok(items)
        },
    }
}

/// Matches a value against a pattern; on success returns the bindings.
pub(crate) fn match_pat(src: &Vec<char>, p: &Pat, v: &Rc<Value>) -> (r: Option<Env>)
    ensures
        match r {
            Some(binds) => match_pat_s(src@, *p, vval(**v)) == Some(venv(binds@)),
            None => match_pat_s(src@, *p, vval(**v)) is None,
        },
    decreases *p,
{
    match p {
        Pat::Wild => {
            let binds: Env = Vec::new();
            assert(venv(binds@) =~= Seq::<(Seq<char>, ValueS)>::empty());
            Some(binds)
        },
        Pat::VarP(sp) => {
            let mut binds: Env = Vec::new();
            binds.push((span_to_string(src, *sp), rc_dup(v)));
            assert(venv(binds@) =~= seq![(span_text(src@, *sp), vval(**v))]);
            Some(binds)
        },
        Pat::IntP(n) => match &**v {
            Value::Int(m) => if *m == *n {
                let binds: Env = Vec::new();
                assert(venv(binds@) =~= Seq::<(Seq<char>, ValueS)>::empty());
                Some(binds)
            } else {
                None
            },
            _ => None,
        },
        Pat::StrP(sp) => match &**v {
            Value::Str(t) => {
                let want = span_to_string(src, *sp);
                if *t == want {
                    let binds: Env = Vec::new();
                    assert(venv(binds@) =~= Seq::<(Seq<char>, ValueS)>::empty());
                    Some(binds)
                } else {
                    None
                }
            },
            _ => None,
        },
        Pat::BoolP(b) => match &**v {
            Value::Bool(m) => if *m == *b {
                let binds: Env = Vec::new();
                assert(venv(binds@) =~= Seq::<(Seq<char>, ValueS)>::empty());
                Some(binds)
            } else {
                None
            },
            _ => None,
        },
        Pat::PairP(p1, p2) => match &**v {
            Value::Pair(a, b) => {
                let ra = rc_dup(a);
                let rb = rc_dup(b);
                match match_pat(src, &*p1, &ra) {
                    Some(mut m1) => match match_pat(src, &*p2, &rb) {
                        Some(mut m2) => {
                            let ghost g1 = m1@;
                            let ghost g2 = m2@;
                            m1.append(&mut m2);
                            proof {
                                assert(m1@ =~= g1 + g2);
                                assert(venv(g1 + g2) =~= venv(g1) + venv(g2));
                            }
                            Some(m1)
                        },
                        None => None,
                    },
                    None => None,
                }
            },
            _ => None,
        },
        Pat::OrP(p1, p2) => match match_pat(src, &*p1, v) {
            Some(m) => Some(m),
            None => match_pat(src, &*p2, v),
        },
    }
}

} // verus!
