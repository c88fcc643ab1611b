//! Runtime values and the Render Protocol.
//!
//! A `Value` is what a dynamic expression evaluates to at render time. Its
//! textual form is `rendered_value`: strings are escaped, numbers, booleans
//! and characters keep their canonical form, a raw value passes through
//! verbatim, and compounds concatenate their parts.

use crate::escape::chars_to_string;
use crate::escape::escape_seq;
use crate::escape::push_escaped;
use crate::numfmt::dec_of_int;
use crate::numfmt::push_dec_i64;
use std::rc::Rc;
use vstd::prelude::*;
use vstd::string::*;

verus! {

/// A renderable runtime value.
pub enum Value {
    /// An integer, rendered in decimal.
    Int(i64),
    /// User text, rendered through the escaper.
    Str(String),
    /// A boolean, rendered as `true` / `false`; drives attribute tri-state.
    Bool(bool),
    /// A single character, rendered as itself.
    Ch(char),
    /// An absent optional: renders nothing, suppresses an attribute.
    NoneV,
    /// A present optional: renders its content.
    SomeV(Rc<Value>),
    /// A sequence of values: iterable by loops, rendered as concatenation.
    List(Vec<Rc<Value>>),
    /// Two values, rendered one after the other; loop patterns may split it.
    Pair(Rc<Value>, Rc<Value>),
    /// Pre-escaped or known-safe text, written verbatim (the only escaping
    /// opt-out).
    Raw(String),
}

/// The textual form of a value, as the Render Protocol writes it.
pub open spec fn rendered_value(v: Value) -> Seq<char>
    decreases v, 0int,
{
    match v {
        Value::Int(n) => dec_of_int(n as int),
        Value::Str(s) => escape_seq(s@),
        Value::Bool(b) => if b {
            seq!['t', 'r', 'u', 'e']
        } else {
            seq!['f', 'a', 'l', 's', 'e']
        },
        Value::Ch(c) => seq![c],
        Value::NoneV => Seq::empty(),
        Value::SomeV(inner) => rendered_value(*inner),
        Value::List(items) => rendered_values(items@),
        Value::Pair(a, b) => rendered_value(*a) + rendered_value(*b),
        Value::Raw(s) => s@,
    }
}

/// The concatenated textual form of a sequence of values.
pub open spec fn rendered_values(items: Seq<Rc<Value>>) -> Seq<char>
    decreases items, 0int,
{
    if items.len() == 0 {
        Seq::empty()
    } else {
        rendered_value(*items[0]) + rendered_values(items.drop_first())
    }
}

/// Specification shadow of `Value`: integers widen to `int`, text to
/// character sequences.
pub enum ValueS {
    Int(int),
    Str(Seq<char>),
    Bool(bool),
    Ch(char),
    NoneV,
    SomeV(Box<ValueS>),
    List(Seq<ValueS>),
    Pair(Box<ValueS>, Box<ValueS>),
    Raw(Seq<char>),
}

/// The shadow of a value.
pub open spec fn vval(v: Value) -> ValueS
    decreases v, 0int,
{
    match v {
        Value::Int(n) => ValueS::Int(n as int),
        Value::Str(s) => ValueS::Str(s@),
        Value::Bool(b) => ValueS::Bool(b),
        Value::Ch(c) => ValueS::Ch(c),
        Value::NoneV => ValueS::NoneV,
        Value::SomeV(inner) => ValueS::SomeV(Box::new(vval(*inner))),
        Value::List(items) => ValueS::List(vvals(items@)),
        Value::Pair(a, b) => ValueS::Pair(Box::new(vval(*a)), Box::new(vval(*b))),
        Value::Raw(s) => ValueS::Raw(s@),
    }
}

/// The shadows of a sequence of values.
pub open spec fn vvals(items: Seq<Rc<Value>>) -> Seq<ValueS>
    decreases items, 0int,
{
    if items.len() == 0 {
        Seq::empty()
    } else {
        seq![vval(*items[0])] + vvals(items.drop_first())
    }
}

/// The textual form of a shadow value.
pub open spec fn rendered_s(v: ValueS) -> Seq<char>
    decreases v, 0int,
{
    match v {
        ValueS::Int(n) => dec_of_int(n),
        ValueS::Str(s) => escape_seq(s),
        ValueS::Bool(b) => if b {
            seq!['t', 'r', 'u', 'e']
        } else {
            seq!['f', 'a', 'l', 's', 'e']
        },
        ValueS::Ch(c) => seq![c],
        ValueS::NoneV => Seq::empty(),
        ValueS::SomeV(inner) => rendered_s(*inner),
        ValueS::List(vs) => rendered_list_s(vs),
        ValueS::Pair(a, b) => rendered_s(*a) + rendered_s(*b),
        ValueS::Raw(s) => s,
    }
}

/// The concatenated textual form of a sequence of shadow values.
pub open spec fn rendered_list_s(vs: Seq<ValueS>) -> Seq<char>
    decreases vs, 0int,
{
    if vs.len() == 0 {
        Seq::empty()
    } else {
        rendered_s(vs[0]) + rendered_list_s(vs.drop_first())
    }
}

/// A value's shadow renders as the value does.
pub proof fn lemma_rendered_vval(v: &Value)
    ensures
        rendered_s(vval(*v)) == rendered_value(*v),
    decreases *v, 0int,
{
    match v {
        Value::SomeV(inner) => {
            lemma_rendered_vval(&*inner);
        },
        Value::List(items) => {
            lemma_rendered_vvals(items@);
        },
        Value::Pair(a, b) => {
            lemma_rendered_vval(&*a);
            lemma_rendered_vval(&*b);
        },
        _ => {},
    }
}

/// The shadows of a value list render as the list does.
pub proof fn lemma_rendered_vvals(items: Seq<Rc<Value>>)
    ensures
        rendered_list_s(vvals(items)) == rendered_values(items),
    decreases items, 0int,
{
    if items.len() > 0 {
        let rc = items[0];
        lemma_rendered_vval(&*rc);
        lemma_rendered_vvals(items.drop_first());
        let vs = vvals(items);
        assert(vs[0] == vval(*items[0]));
        assert(vs.drop_first() =~= vvals(items.drop_first()));
    }
}

/// True only of an explicitly absent value.
pub open spec fn value_is_none(v: Value) -> bool {
    v is NoneV
}

/// True only of boolean `true`.
pub open spec fn value_is_true(v: Value) -> bool {
    v matches Value::Bool(true)
}

/// True only of boolean `false`.
pub open spec fn value_is_false(v: Value) -> bool {
    v matches Value::Bool(false)
}

/// Relies on `Rc::clone`: the returned handle refers to the same value.
#[verifier::external_body]
pub(crate) fn rc_dup<T>(v: &Rc<T>) -> (r: Rc<T>)
    ensures
        r == *v,
{
    Rc::clone(v)
}

/// Appends the textual form of `v` to the buffer.
pub(crate) fn push_value(v: &Value, out: &mut Vec<char>)
    ensures
        final(out)@ == old(out)@ + rendered_value(*v),
    decreases *v, 0int,
{
    match v {
        Value::Int(n) => {
            push_dec_i64(out, *n);
        },
        Value::Str(s) => {
            push_escaped(out, s.as_str());
        },
        Value::Bool(b) => {
            if *b {
                out.push('t');
                out.push('r');
                out.push('u');
                out.push('e');
            } else {
                out.push('f');
                out.push('a');
                out.push('l');
                out.push('s');
                out.push('e');
            }
            assert(out@ =~= old(out)@ + rendered_value(*v));
        },
        Value::Ch(c) => {
            out.push(*c);
            assert(out@ =~= old(out)@ + rendered_value(*v));
        },
        Value::NoneV => {
            assert(out@ =~= old(out)@ + rendered_value(*v));
        },
        Value::SomeV(inner) => {
            push_value(&**inner, out);
        },
        Value::List(items) => {
            push_values(items, 0, out);
            assert(items@.skip(0) =~= items@);
        },
        Value::Pair(a, b) => {
            push_value(&**a, out);
            push_value(&**b, out);
            assert(out@ =~= old(out)@ + rendered_value(*v));
        },
        Value::Raw(s) => {
            push_plain(out, s.as_str());
        },
    }
}

/// Appends the textual forms of `items[i..]` to the buffer.
fn push_values(items: &Vec<Rc<Value>>, i: usize, out: &mut Vec<char>)
    requires
        i <= items.len(),
    ensures
        final(out)@ == old(out)@ + rendered_values(items@.skip(i as int)),
    decreases *items, items.len() - i,
{
    if i < items.len() {
        push_value(&*items[i], out);
        push_values(items, i + 1, out);
        proof {
            let s = items@.skip(i as int);
            assert(s[0] == items@[i as int]);
            assert(s.drop_first() =~= items@.skip(i + 1 as int));
            assert(out@ =~= old(out)@ + rendered_values(s));
        }
    } else {
        assert(items@.skip(i as int) =~= Seq::<Rc<Value>>::empty());
    }
}

/// Appends `s` unchanged to the buffer.
pub(crate) fn push_plain(out: &mut Vec<char>, s: &str)
    ensures
        final(out)@ == old(out)@ + s@,
{
    let n = s.unicode_len();
    let mut i: usize = 0;
    while i < n
        invariant
            n == s@.len(),
            i <= n,
            out@ == old(out)@ + s@.take(i as int),
        decreases n - i,
    {
        let c = s.get_char(i);
        out.push(c);
        assert(out@ =~= old(out)@ + s@.take(i + 1 as int));
        i = i + 1;
    }
    assert(s@.take(n as int) =~= s@);
}

/// Wraps known-safe text so that it bypasses the escaper.
pub fn raw(value: &str) -> (v: Value)
    ensures
        v matches Value::Raw(s) && s@ == value@,
        rendered_value(v) == value@,
{
    Value::Raw(String::from_str(value))
}

/// The fixed document type declaration, written unescaped.
pub fn doctype() -> (v: Value)
    ensures
        rendered_value(v) == "<!DOCTYPE html>"@,
{
    raw("<!DOCTYPE html>")
}

/// Renders a value to an in-memory string.
pub fn value_to_string(v: &Value) -> (r: String)
    ensures
        r@ == rendered_value(*v),
{
    let mut buf: Vec<char> = Vec::new();
    push_value(v, &mut buf);
    chars_to_string(&buf)
}

} // verus!
