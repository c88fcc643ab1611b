//! The Render Protocol: the capability set a value must offer to stand in
//! output, and the laws the attribute tri-state and arm selection obey.

use crate::escape::chars_to_string;
use crate::escape::escape;
use crate::escape::escape_seq;
use crate::numfmt::dec_of_int;
use crate::numfmt::dec_of_nat;
use crate::numfmt::push_dec_i64;
use crate::numfmt::push_dec_u64;
use crate::sem::EnvS;
use crate::sem::RErr;
use crate::sem::attr_out_s;
use crate::sem::match_pat_s;
use crate::sem::sem_marms;
use crate::sem::sem_prog;
use crate::sem::eval_s;
use crate::program::MatchArmS;
use crate::value::Value;
use crate::value::ValueS;
use crate::value::rendered_s;
use crate::value::rendered_value;
use crate::value::value_is_false;
use crate::value::value_is_none;
use crate::value::value_is_true;
use crate::value::value_to_string;
use vstd::prelude::*;
use vstd::string::StringExecFns;

verus! {

/// A renderable value: it writes its textual form, `rendered`, to the sink.
/// A value standing for user text escapes itself; built-in numeric, boolean
/// and character values use their canonical form.
pub trait Render {
    /// The text this value renders as.
    spec fn rendered(&self) -> Seq<char>;

    /// Writes the textual form to the sink.
    fn render(&self, out: &mut String)
        ensures
            final(out)@ == old(out)@ + self.rendered(),
    ;
}

/// The three predicates attribute rendering consults, meaningful only for
/// absent optionals and booleans; every other value answers false.
pub trait RenderAttributeValue: Render {
    /// Whether this is an explicitly absent value.
    spec fn spec_is_none(&self) -> bool;

    /// Whether this is boolean `true`.
    spec fn spec_is_true(&self) -> bool;

    /// Whether this is boolean `false`.
    spec fn spec_is_false(&self) -> bool;

    /// Tests for the absent case.
    fn is_none(&self) -> (r: bool)
        ensures
            r == self.spec_is_none(),
    ;

    /// Tests for boolean `true`.
    fn is_true(&self) -> (r: bool)
        ensures
            r == self.spec_is_true(),
    ;

    /// Tests for boolean `false`.
    fn is_false(&self) -> (r: bool)
        ensures
            r == self.spec_is_false(),
    ;
}

impl Render for Value {
    open spec fn rendered(&self) -> Seq<char> {
        rendered_value(*self)
    }

    fn render(&self, out: &mut String) {
        let s = value_to_string(self);
        out.append(s.as_str());
    }
}

impl RenderAttributeValue for Value {
    open spec fn spec_is_none(&self) -> bool {
        value_is_none(*self)
    }

    open spec fn spec_is_true(&self) -> bool {
        value_is_true(*self)
    }

    open spec fn spec_is_false(&self) -> bool {
        value_is_false(*self)
    }

    fn is_none(&self) -> (r: bool) {
        match self {
            Value::NoneV => true,
            _ => false,
        }
    }

    fn is_true(&self) -> (r: bool) {
        match self {
            Value::Bool(b) => *b,
            _ => false,
        }
    }

    fn is_false(&self) -> (r: bool) {
        match self {
            Value::Bool(b) => !*b,
            _ => false,
        }
    }
}

impl Render for bool {
    open spec fn rendered(&self) -> Seq<char> {
        if *self {
            "true"@
        } else {
            "false"@
        }
    }

    fn render(&self, out: &mut String) {
        if *self {
            out.append("true");
        } else {
            out.append("false");
        }
    }
}

impl RenderAttributeValue for bool {
    open spec fn spec_is_none(&self) -> bool {
        false
    }

    open spec fn spec_is_true(&self) -> bool {
        *self
    }

    open spec fn spec_is_false(&self) -> bool {
        !*self
    }

    fn is_none(&self) -> (r: bool) {
        false
    }

    fn is_true(&self) -> (r: bool) {
        *self
    }

    fn is_false(&self) -> (r: bool) {
        !*self
    }
}

impl Render for i64 {
    open spec fn rendered(&self) -> Seq<char> {
        dec_of_int(*self as int)
    }

    fn render(&self, out: &mut String) {
        let mut buf: Vec<char> = Vec::new();
        push_dec_i64(&mut buf, *self);
        let s = chars_to_string(&buf);
        out.append(s.as_str());
    }
}

impl Render for u64 {
    open spec fn rendered(&self) -> Seq<char> {
        dec_of_nat(*self as nat)
    }

    fn render(&self, out: &mut String) {
        let mut buf: Vec<char> = Vec::new();
        push_dec_u64(&mut buf, *self);
        let s = chars_to_string(&buf);
        out.append(s.as_str());
    }
}

impl Render for usize {
    open spec fn rendered(&self) -> Seq<char> {
        dec_of_nat(*self as nat)
    }

    fn render(&self, out: &mut String) {
        let mut buf: Vec<char> = Vec::new();
        push_dec_u64(&mut buf, *self as u64);
        let s = chars_to_string(&buf);
        out.append(s.as_str());
    }
}

impl Render for char {
    open spec fn rendered(&self) -> Seq<char> {
        seq![*self]
    }

    fn render(&self, out: &mut String) {
        let mut buf: Vec<char> = Vec::new();
        buf.push(*self);
        let s = chars_to_string(&buf);
        out.append(s.as_str());
        assert(out@ =~= old(out)@ + seq![*self]);
    }
}

impl Render for String {
    open spec fn rendered(&self) -> Seq<char> {
        escape_seq(self@)
    }

    fn render(&self, out: &mut String) {
        let piece = escape(self.as_str());
        out.append(piece.as_str());
    }
}

impl<T: Render> Render for Option<T> {
    open spec fn rendered(&self) -> Seq<char> {
        match self {
            Some(t) => t.rendered(),
            None => Seq::empty(),
        }
    }

    fn render(&self, out: &mut String) {
        match self {
            Some(t) => {
                t.render(out);
            },
            None => {
                assert(final(out)@ =~= old(out)@ + Seq::<char>::empty());
            },
        }
    }
}

/// The attribute tri-state law: an absent or false value suppresses the
/// attribute entirely; a true value emits the bare name; any other value
/// emits `name="value"` with the value rendered through the protocol.
pub proof fn lemma_attribute_tri_state(name_t: Seq<char>, v: ValueS)
    ensures
        (v is NoneV || v matches ValueS::Bool(false)) ==> attr_out_s(name_t, v) == Seq::<
            char,
        >::empty(),
        (v matches ValueS::Bool(true)) ==> attr_out_s(name_t, v) == seq![' '] + name_t,
        (!(v is NoneV) && !(v is Bool)) ==> attr_out_s(name_t, v) == seq![' '] + name_t + seq![
            '=',
            '"',
        ] + rendered_s(v) + seq!['"'],
{
}

/// Whether a selection arm is passed over for `v` under `env`: its pattern
/// does not match, or its guard evaluates to boolean false.
pub open spec fn arm_passed_over(src: Seq<char>, arm: MatchArmS, v: ValueS, env: EnvS) -> bool {
    match match_pat_s(src, arm.pat, v) {
        None => true,
        Some(binds) => match arm.guard {
            Some(g) => eval_s(src, g, env + binds) == Ok::<ValueS, RErr>(ValueS::Bool(false)),
            None => false,
        },
    }
}

/// Whether a selection arm is taken for `v` under `env`: its pattern
/// matches and its guard, if any, evaluates to boolean true.
pub open spec fn arm_taken(src: Seq<char>, arm: MatchArmS, v: ValueS, env: EnvS) -> bool {
    match match_pat_s(src, arm.pat, v) {
        None => false,
        Some(binds) => match arm.guard {
            Some(g) => eval_s(src, g, env + binds) == Ok::<ValueS, RErr>(ValueS::Bool(true)),
            None => true,
        },
    }
}

/// The arm-selection law: when every arm before `k` is passed over and arm
/// `k` is taken, the selection renders exactly arm `k`'s body, under the
/// environment extended with arm `k`'s bindings.
pub proof fn lemma_match_first_taken_arm(
    src: Seq<char>,
    arms: Seq<MatchArmS>,
    v: ValueS,
    env: EnvS,
    k: int,
)
    requires
        0 <= k < arms.len(),
        forall|j: int| 0 <= j < k ==> arm_passed_over(src, #[trigger] arms[j], v, env),
        arm_taken(src, arms[k], v, env),
    ensures
        sem_marms(src, arms, v, env) == (match sem_prog(
            src,
            arms[k].body,
            env + match_pat_s(src, arms[k].pat, v)->Some_0,
        ) {
            Ok((o, _)) => Ok::<(Seq<char>, EnvS), RErr>((o, env)),
            Err(er) => Err::<(Seq<char>, EnvS), RErr>(er),
        }),
    decreases k,
{
    if k > 0 {
        assert(arm_passed_over(src, arms[0], v, env));
        lemma_match_first_taken_arm(src, arms.drop_first(), v, env, k - 1);
        assert(arms.drop_first()[k - 1] == arms[k]);
    }
}

/// The composition law: a value wrapped as raw renders as exactly its
/// payload, unchanged. An embedded template's pre-rendered output, wrapped
/// raw, therefore appears inline with its own internal escaping and is not
/// escaped again.
pub proof fn lemma_embedding_transparent(s: Seq<char>)
    ensures
        rendered_s(ValueS::Raw(s)) == s,
        forall|t: String| t@ == s ==> rendered_value(Value::Raw(t)) == s,
{
}

} // verus!

verus! {

impl<T: Render> Render for &T {
    open spec fn rendered(&self) -> Seq<char> {
        (**self).rendered()
    }

    fn render(&self, out: &mut String) {
        (**self).render(out);
    }
}

impl<T: RenderAttributeValue> RenderAttributeValue for &T {
    open spec fn spec_is_none(&self) -> bool {
        (**self).spec_is_none()
    }

    open spec fn spec_is_true(&self) -> bool {
        (**self).spec_is_true()
    }

    open spec fn spec_is_false(&self) -> bool {
        (**self).spec_is_false()
    }

    fn is_none(&self) -> (r: bool) {
        (**self).is_none()
    }

    fn is_true(&self) -> (r: bool) {
        (**self).is_true()
    }

    fn is_false(&self) -> (r: bool) {
        (**self).is_false()
    }
}

impl<T: Render> Render for Box<T> {
    open spec fn rendered(&self) -> Seq<char> {
        (**self).rendered()
    }

    fn render(&self, out: &mut String) {
        (**self).render(out);
    }
}

impl<T: RenderAttributeValue> RenderAttributeValue for Box<T> {
    open spec fn spec_is_none(&self) -> bool {
        (**self).spec_is_none()
    }

    open spec fn spec_is_true(&self) -> bool {
        (**self).spec_is_true()
    }

    open spec fn spec_is_false(&self) -> bool {
        (**self).spec_is_false()
    }

    fn is_none(&self) -> (r: bool) {
        (**self).is_none()
    }

    fn is_true(&self) -> (r: bool) {
        (**self).is_true()
    }

    fn is_false(&self) -> (r: bool) {
        (**self).is_false()
    }
}

} // verus!
