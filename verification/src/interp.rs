//! The write-program interpreter, verified against the render semantics.
//!
//! Bindings are kept in one growing vector; a nested scope pushes its
//! bindings, runs, and truncates back, so that bindings never escape the
//! scope that made them.

use crate::ast::Expr;
use crate::ast::IfClauseTest;
use crate::ast::Lst;
use crate::ast::Pat;
use crate::escape::push_escaped;
use crate::eval::Env;
use crate::eval::eval;
use crate::eval::match_pat;
use crate::eval::span_to_string;
use crate::program::IfArm;
use crate::program::MatchArm;
use crate::program::Op;
use crate::program::Program;
use crate::program::vifarms;
use crate::program::vmarms;
use crate::program::vop;
use crate::program::vops;
use crate::program::vprog;
use crate::sem::EnvS;
use crate::sem::RErr;
use crate::sem::RRes;
use crate::sem::attr_out_s;
use crate::sem::attr_pairs_s;
use crate::sem::render_expr_s;
use crate::sem::sem_arms;
use crate::sem::sem_loop;
use crate::sem::sem_marms;
use crate::sem::sem_op;
use crate::sem::sem_ops;
use crate::sem::sem_prog;
use crate::sem::venv;
use crate::value::Value;
use crate::value::ValueS;
use crate::value::lemma_rendered_vval;
use crate::value::push_value;
use crate::value::rc_dup;
use crate::value::rendered_s;
use crate::value::vval;
use crate::value::vvals;
use std::rc::Rc;
use vstd::prelude::*;

verus! {

/// Shadows concatenate over environment concatenation.
pub proof fn lemma_venv_concat(a: Seq<(String, Rc<Value>)>, b: Seq<(String, Rc<Value>)>)
    ensures
        venv(a + b) == venv(a) + venv(b),
{
    assert(venv(a + b) =~= venv(a) + venv(b));
}

/// The contract a program piece's run meets, relative to its semantics: on
/// success the output grows by exactly the semantic output and the
/// environment becomes the semantic environment, extending the old one; on
/// failure the semantics fails with the same error.
pub open spec fn op_post(
    r: Result<(), RErr>,
    sem: RRes,
    out0: Seq<char>,
    out1: Seq<char>,
    env0: Seq<(String, Rc<Value>)>,
    env1: Seq<(String, Rc<Value>)>,
) -> bool {
    match r {
        Ok(()) => match sem {
            Ok((o, e2)) => out1 == out0 + o && venv(env1) == e2 && env0.len() <= env1.len()
                && env1.subrange(0, env0.len() as int) == env0,
            Err(_) => false,
        },
        Err(er) => sem == Err::<(Seq<char>, EnvS), RErr>(er),
    }
}

/// Pushes copies of the bindings onto the environment.
pub(crate) fn push_env(env: &mut Env, binds: &Env)
    ensures
        final(env)@ == old(env)@ + binds@,
{
    let mut k: usize = 0;
    while k < binds.len()
        invariant
            k <= binds.len(),
            env@ == old(env)@ + binds@.take(k as int),
        decreases binds.len() - k,
    {
        let name = binds[k].0.clone();
        let v = rc_dup(&binds[k].1);
        env.push((name, v));
        assert(env@ =~= old(env)@ + binds@.take(k + 1 as int));
        k = k + 1;
    }
    assert(binds@.take(binds@.len() as int) =~= binds@);
}

/// Renders an expression in output position: a static string literal is
/// escaped directly; anything else is evaluated and rendered.
fn render_expr(src: &Vec<char>, e: &Expr, env: &Env, out: &mut Vec<char>) -> (r: Result<(), RErr>)
    ensures
        match r {
            Ok(()) => match render_expr_s(src@, *e, venv(env@)) {
                Ok(t) => final(out)@ == old(out)@ + t,
                Err(_) => false,
            },
            Err(er) => render_expr_s(src@, *e, venv(env@)) == Err::<Seq<char>, RErr>(er),
        },
{
    match e {
        Expr::StrLit(sp) => {
            let s = span_to_string(src, *sp);
            push_escaped(out, s.as_str());
            Ok(())
        },
        _ => {
            let v = eval(src, e, env)?;
            push_value(&*v, out);
            proof {
                lemma_rendered_vval(&*v);
            }
            Ok(())
        },
    }
}

/// Runs a whole program, threading bindings to its own scope.
pub(crate) fn run_prog(src: &Vec<char>, p: &Program, env: &mut Env, out: &mut Vec<char>) -> (r:
    Result<(), RErr>)
    ensures
        op_post(
            r,
            sem_prog(src@, vprog(*p), venv(old(env)@)),
            old(out)@,
            final(out)@,
            old(env)@,
            final(env)@,
        ),
    decreases *p, 0int, 0int,
{
    run_ops(src, &p.ops, 0, env, out)
}

/// Runs `ops[i..]` in order.
fn run_ops(src: &Vec<char>, ops: &Vec<Op>, i: usize, env: &mut Env, out: &mut Vec<char>) -> (r:
    Result<(), RErr>)
    requires
        i <= ops.len(),
    ensures
        op_post(
            r,
            sem_ops(src@, vops(ops@, i as int), venv(old(env)@)),
            old(out)@,
            final(out)@,
            old(env)@,
            final(env)@,
        ),
    decreases *ops, 1int, ops.len() - i,
{
    let ghost gops = vops(ops@, i as int);
    proof {
        assert(old(env)@.subrange(0, old(env)@.len() as int) =~= old(env)@);
    }
    if i == ops.len() {
        assert(gops =~= Seq::<crate::program::OpS>::empty());
        assert(final(out)@ == old(out)@ + Seq::<char>::empty());
        Ok(())
    } else {
        proof {
            assert(gops[0] == vop(ops@[i as int]));
            assert(gops.drop_first() =~= vops(ops@, i + 1 as int));
        }
        run_op(src, &ops[i], env, out)?;
        let ghost mid_env = env@;
        let r = run_ops(src, ops, i + 1, env, out);
        proof {
            let env0 = venv(old(env)@);
            let s1 = sem_op(src@, gops[0], env0);
            let (o1, e1) = s1->Ok_0;
            assert(venv(mid_env) == e1);
            let s2 = sem_ops(src@, gops.drop_first(), e1);
            if r is Ok {
                let (o2, e2) = s2->Ok_0;
                assert(out@ =~= old(out)@ + (o1 + o2));
                let n0 = old(env)@.len() as int;
                let n1 = mid_env.len() as int;
                assert(env@.subrange(0, n1) == mid_env);
                assert forall|j: int| 0 <= j < n0 implies env@[j] == old(env)@[j] by {
                    assert(env@[j] == env@.subrange(0, n1)[j]);
                    assert(mid_env[j] == mid_env.subrange(0, n0)[j]);
                }
                assert(env@.subrange(0, n0) =~= old(env)@);
            }
        }
        r
    }
}

/// Runs a sub-program in a fresh scope seeded with `binds`; the bindings and
/// anything the body binds are dropped afterwards.
fn run_scope(src: &Vec<char>, p: &Program, binds: &Env, env: &mut Env, out: &mut Vec<char>) -> (r:
    Result<(), RErr>)
    ensures
        match r {
            Ok(()) => match sem_prog(src@, vprog(*p), venv(old(env)@) + venv(binds@)) {
                Ok((o, _)) => {
                    &&& final(out)@ == old(out)@ + o
                    &&& final(env)@ == old(env)@
                },
                Err(_) => false,
            },
            Err(er) => sem_prog(src@, vprog(*p), venv(old(env)@) + venv(binds@)) == Err::<
                (Seq<char>, EnvS),
                RErr,
            >(er),
        },
    decreases *p, 1int, 0int,
{
    let n = env.len();
    push_env(env, binds);
    proof {
        lemma_venv_concat(old(env)@, binds@);
    }
    let r = run_prog(src, p, env, out);
    match r {
        Ok(()) => {
            env.truncate(n);
            assert(env@ =~= old(env)@);
            Ok(())
        },
        Err(er) => Err(er),
    }
}

/// Runs one operation.
fn run_op(src: &Vec<char>, op: &Op, env: &mut Env, out: &mut Vec<char>) -> (r: Result<(), RErr>)
    ensures
        op_post(
            r,
            sem_op(src@, vop(*op), venv(old(env)@)),
            old(out)@,
            final(out)@,
            old(env)@,
            final(env)@,
        ),
    decreases *op, 3int, 0int,
{
    let ghost gsem = sem_op(src@, vop(*op), venv(old(env)@));
    proof {
        assert(old(env)@.subrange(0, old(env)@.len() as int) =~= old(env)@);
    }
    match op {
        Op::Write(s) => {
            crate::value::push_plain(out, s.as_str());
            assert(op_post(Ok(()), gsem, old(out)@, out@, old(env)@, env@));
            Ok(())
        },
        Op::Dyn(e) => {
            let v = eval(src, e, env)?;
            push_value(&*v, out);
            proof {
                lemma_rendered_vval(&*v);
            }
            assert(op_post(Ok(()), gsem, old(out)@, out@, old(env)@, env@));
            Ok(())
        },
        Op::AttrOne(name_e, val_e) => {
            let v = eval(src, val_e, env)?;
            let skip = match &*v {
                Value::NoneV => true,
                Value::Bool(b) => !*b,
                _ => false,
            };
            if skip {
                assert(final(out)@ =~= old(out)@ + Seq::<char>::empty());
                assert(op_post(Ok(()), gsem, old(out)@, out@, old(env)@, env@));
                Ok(())
            } else {
                let mut nb: Vec<char> = Vec::new();
                match render_expr(src, name_e, env, &mut nb) {
                    Ok(()) => {
                        let is_true = match &*v {
                            Value::Bool(b) => *b,
                            _ => false,
                        };
                        out.push(' ');
                        out.append(&mut nb);
                        if is_true {
                            proof {
                                let name_t = render_expr_s(
                                    src@,
                                    *name_e,
                                    venv(env@),
                                )->Ok_0;
                                assert(out@ =~= old(out)@ + attr_out_s(name_t, vval(*v)));
                            }
                            assert(op_post(Ok(()), gsem, old(out)@, out@, old(env)@, env@));
                            Ok(())
                        } else {
                            out.push('=');
                            out.push('"');
                            push_value(&*v, out);
                            out.push('"');
                            proof {
                                lemma_rendered_vval(&*v);
                                let name_t = render_expr_s(
                                    src@,
                                    *name_e,
                                    venv(env@),
                                )->Ok_0;
                                assert(out@ =~= old(out)@ + attr_out_s(name_t, vval(*v)));
                            }
                            assert(op_post(Ok(()), gsem, old(out)@, out@, old(env)@, env@));
                            Ok(())
                        }
                    },
                    Err(er) => Err(er),
                }
            }
        },
        Op::AttrMany(e) => {
            let v = eval(src, e, env)?;
            match &*v {
                Value::List(items) => {
                    assert(items@.skip(0) =~= items@);
                    let r = run_attr_pairs(items, 0, out);
                    assert(op_post(r, gsem, old(out)@, out@, old(env)@, env@));
                    r
                },
                _ => Err(RErr::Mismatch),
            }
        },
        Op::Cond(arms, def) => {
            match run_arms(src, arms, env, out) {
                Ok(true) => {
                    assert(op_post(Ok(()), gsem, old(out)@, out@, old(env)@, env@));
                    Ok(())
                },
                Ok(false) => match def {
                    Some(d) => {
                        let binds: Env = Vec::new();
                        proof {
                            assert(venv(binds@) =~= Seq::<(Seq<char>, ValueS)>::empty());
                            assert(venv(env@) + venv(binds@) =~= venv(env@));
                        }
                        let r = run_scope(src, d, &binds, env, out);
                        assert(op_post(r, gsem, old(out)@, out@, old(env)@, env@));
                        r
                    },
                    None => {
                        assert(final(out)@ =~= old(out)@ + Seq::<char>::empty());
                        assert(op_post(Ok(()), gsem, old(out)@, out@, old(env)@, env@));
                        Ok(())
                    },
                },
                Err(er) => Err(er),
            }
        },
        Op::Loop(p, e, body) => {
            let v = eval(src, e, env)?;
            match &*v {
                Value::List(items) => {
                    assert(items@.skip(0) =~= items@);
                    let r = run_loop(src, p, body, items, 0, env, out);
                    assert(op_post(r, gsem, old(out)@, out@, old(env)@, env@));
                    r
                },
                _ => Err(RErr::Mismatch),
            }
        },
        Op::Select(e, arms) => {
            let v = eval(src, e, env)?;
            let r = run_marms(src, arms, &v, env, out);
            assert(op_post(r, gsem, old(out)@, out@, old(env)@, env@));
            r
        },
        Op::Bind(p, e) => {
            let v = eval(src, e, env)?;
            match match_pat(src, p, &v) {
                Some(binds) => {
                    push_env(env, &binds);
                    proof {
                        lemma_venv_concat(old(env)@, binds@);
                        assert(final(out)@ =~= old(out)@ + Seq::<char>::empty());
                        assert(final(env)@.subrange(0, old(env)@.len() as int) =~= old(env)@);
                    }
                    assert(op_post(Ok(()), gsem, old(out)@, out@, old(env)@, env@));
                    Ok(())
                },
                None => Err(RErr::Mismatch),
            }
        },
    }
}

/// Applies the tri-state rule to each pair of `items[i..]`.
fn run_attr_pairs(items: &Vec<Rc<Value>>, i: usize, out: &mut Vec<char>) -> (r: Result<(), RErr>)
    requires
        i <= items.len(),
    ensures
        match r {
            Ok(()) => match attr_pairs_s(vvals(items@.skip(i as int))) {
                Ok(o) => final(out)@ == old(out)@ + o,
                Err(_) => false,
            },
            Err(er) => attr_pairs_s(vvals(items@.skip(i as int))) == Err::<Seq<char>, RErr>(er),
        },
    decreases items.len() - i,
{
    let ghost gvs = vvals(items@.skip(i as int));
    if i == items.len() {
        assert(items@.skip(i as int) =~= Seq::<Rc<Value>>::empty());
        assert(final(out)@ =~= old(out)@ + Seq::<char>::empty());
        Ok(())
    } else {
        proof {
            let s = items@.skip(i as int);
            assert(s[0] == items@[i as int]);
            assert(s.drop_first() =~= items@.skip(i + 1 as int));
            assert(gvs[0] == vval(*items@[i as int]));
            assert(gvs.drop_first() =~= vvals(items@.skip(i + 1 as int)));
        }
        match &*items[i] {
            Value::Pair(n, v) => {
                let skip = match &**v {
                    Value::NoneV => true,
                    Value::Bool(b) => !*b,
                    _ => false,
                };
                if !skip {
                    let is_true = match &**v {
                        Value::Bool(b) => *b,
                        _ => false,
                    };
                    out.push(' ');
                    push_value(&**n, out);
                    proof {
                        lemma_rendered_vval(&**n);
                    }
                    if !is_true {
                        out.push('=');
                        out.push('"');
                        push_value(&**v, out);
                        out.push('"');
                        proof {
                            lemma_rendered_vval(&**v);
                        }
                    }
                }
                let ghost mid = out@;
                assert(mid =~= old(out)@ + attr_out_s(rendered_s(vval(**n)), vval(**v)));
                let r = run_attr_pairs(items, i + 1, out);
                proof {
                    if r is Ok {
                        let tail = attr_pairs_s(gvs.drop_first())->Ok_0;
                        assert(final(out)@ =~= old(out)@ + (attr_out_s(
                            rendered_s(vval(**n)),
                            vval(**v),
                        ) + tail));
                    }
                }
                r
            },
            _ => Err(RErr::Mismatch),
        }
    }
}

/// Tries the conditional branches in order; `Ok(true)` when one ran.
fn run_arms(src: &Vec<char>, arms: &Lst<IfArm>, env: &mut Env, out: &mut Vec<char>) -> (r: Result<
    bool,
    RErr,
>)
    ensures
        match r {
            Ok(true) => match sem_arms(src@, vifarms(*arms), venv(old(env)@)) {
                Some(rr) => match rr {
                    Ok((o, e2)) => final(out)@ == old(out)@ + o && final(env)@ == old(env)@ && e2
                        == venv(old(env)@),
                    Err(_) => false,
                },
                None => false,
            },
            Ok(false) => {
                &&& sem_arms(src@, vifarms(*arms), venv(old(env)@)) is None
                &&& final(env)@ == old(env)@
                &&& final(out)@ == old(out)@
            },
            Err(er) => sem_arms(src@, vifarms(*arms), venv(old(env)@)) == Some(
                Err::<(Seq<char>, EnvS), RErr>(er),
            ),
        },
    decreases *arms, 2int, 0int,
{
    match arms {
        Lst::Nil => {
            assert(vifarms(*arms) =~= Seq::<crate::program::IfArmS>::empty());
            Ok(false)
        },
        Lst::Cons(arm, rest) => {
            proof {
                let garms = vifarms(*arms);
                assert(garms[0] == crate::program::IfArmS {
                    test: arm.test,
                    body: vprog(arm.body),
                });
                assert(garms.drop_first() =~= vifarms(**rest));
            }
            match &arm.test {
                IfClauseTest::Expr(e) => {
                    let v = eval(src, e, env)?;
                    match &*v {
                        Value::Bool(b) => {
                            if *b {
                                let binds: Env = Vec::new();
                                proof {
                                    assert(venv(binds@) =~= Seq::<(Seq<char>, ValueS)>::empty());
                                    assert(venv(env@) + venv(binds@) =~= venv(env@));
                                }
                                match run_scope(src, &arm.body, &binds, env, out) {
                                    Ok(()) => Ok(true),
                                    Err(er) => Err(er),
                                }
                            } else {
                                run_arms(src, rest, env, out)
                            }
                        },
                        _ => Err(RErr::Mismatch),
                    }
                },
                IfClauseTest::Let(p, e) => {
                    let v = eval(src, e, env)?;
                    match match_pat(src, p, &v) {
                        Some(binds) => {
                            proof {
                                lemma_venv_concat(env@, binds@);
                            }
                            match run_scope(src, &arm.body, &binds, env, out) {
                                Ok(()) => Ok(true),
                                Err(er) => Err(er),
                            }
                        },
                        None => run_arms(src, rest, env, out),
                    }
                },
            }
        },
    }
}

/// Runs the loop body once per element of `items[k..]`.
fn run_loop(
    src: &Vec<char>,
    p: &Pat,
    body: &Program,
    items: &Vec<Rc<Value>>,
    k: usize,
    env: &mut Env,
    out: &mut Vec<char>,
) -> (r: Result<(), RErr>)
    requires
        k <= items.len(),
    ensures
        match r {
            Ok(()) => match sem_loop(
                src@,
                *p,
                vprog(*body),
                vvals(items@.skip(k as int)),
                venv(old(env)@),
            ) {
                Ok((o, e2)) => final(out)@ == old(out)@ + o && final(env)@ == old(env)@ && e2
                    == venv(old(env)@),
                Err(_) => false,
            },
            Err(er) => sem_loop(
                src@,
                *p,
                vprog(*body),
                vvals(items@.skip(k as int)),
                venv(old(env)@),
            ) == Err::<(Seq<char>, EnvS), RErr>(er),
        },
    decreases *body, 2int, items.len() - k,
{
    let ghost gvs = vvals(items@.skip(k as int));
    if k == items.len() {
        assert(items@.skip(k as int) =~= Seq::<Rc<Value>>::empty());
        assert(final(out)@ =~= old(out)@ + Seq::<char>::empty());
        Ok(())
    } else {
        proof {
            let s = items@.skip(k as int);
            assert(s[0] == items@[k as int]);
            assert(s.drop_first() =~= items@.skip(k + 1 as int));
            assert(gvs[0] == vval(*items@[k as int]));
            assert(gvs.drop_first() =~= vvals(items@.skip(k + 1 as int)));
        }
        match match_pat(src, p, &items[k]) {
            Some(binds) => {
                proof {
                    lemma_venv_concat(env@, binds@);
                }
                run_scope(src, body, &binds, env, out)?;
                let r = run_loop(src, p, body, items, k + 1, env, out);
                proof {
                    if r is Ok {
                        let o1 = sem_prog(
                            src@,
                            vprog(*body),
                            venv(old(env)@) + venv(binds@),
                        )->Ok_0.0;
                        let o2 = sem_loop(
                            src@,
                            *p,
                            vprog(*body),
                            gvs.drop_first(),
                            venv(old(env)@),
                        )->Ok_0.0;
                        assert(final(out)@ =~= old(out)@ + (o1 + o2));
                    }
                }
                r
            },
            None => Err(RErr::Mismatch),
        }
    }
}

/// Tries the selection arms in order against the value.
fn run_marms(
    src: &Vec<char>,
    arms: &Lst<MatchArm>,
    v: &Rc<Value>,
    env: &mut Env,
    out: &mut Vec<char>,
) -> (r: Result<(), RErr>)
    ensures
        match r {
            Ok(()) => match sem_marms(src@, vmarms(*arms), vval(**v), venv(old(env)@)) {
                Ok((o, e2)) => final(out)@ == old(out)@ + o && final(env)@ == old(env)@ && e2
                    == venv(old(env)@),
                Err(_) => false,
            },
            Err(er) => sem_marms(src@, vmarms(*arms), vval(**v), venv(old(env)@)) == Err::<
                (Seq<char>, EnvS),
                RErr,
            >(er),
        },
    decreases *arms, 2int, 0int,
{
    match arms {
        Lst::Nil => {
            assert(vmarms(*arms) =~= Seq::<crate::program::MatchArmS>::empty());
            Err(RErr::NoArm)
        },
        Lst::Cons(arm, rest) => {
            proof {
                let garms = vmarms(*arms);
                assert(garms[0] == crate::program::MatchArmS {
                    pat: arm.pat,
                    guard: arm.guard,
                    body: vprog(arm.body),
                });
                assert(garms.drop_first() =~= vmarms(**rest));
            }
            match match_pat(src, &arm.pat, v) {
                Some(binds) => {
                    proof {
                        lemma_venv_concat(env@, binds@);
                    }
                    match &arm.guard {
                        Some(g) => {
                            let n = env.len();
                            push_env(env, &binds);
                            let gv = match eval(src, g, &*env) {
                                Ok(gv) => gv,
                                Err(er) => {
                                    return Err(er);
                                },
                            };
                            match &*gv {
                                Value::Bool(b) => {
                                    if *b {
                                        let r = run_prog(src, &arm.body, env, out);
                                        match r {
                                            Ok(()) => {
                                                env.truncate(n);
                                                assert(env@ =~= old(env)@);
                                                Ok(())
                                            },
                                            Err(er) => Err(er),
                                        }
                                    } else {
                                        env.truncate(n);
                                        assert(env@ =~= old(env)@);
                                        run_marms(src, rest, v, env, out)
                                    }
                                },
                                _ => Err(RErr::Mismatch),
                            }
                        },
                        None => {
                            match run_scope(src, &arm.body, &binds, env, out) {
                                Ok(()) => Ok(()),
                                Err(er) => Err(er),
                            }
                        },
                    }
                },
                None => run_marms(src, rest, v, env, out),
            }
        },
    }
}

} // verus!
