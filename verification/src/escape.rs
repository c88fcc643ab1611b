//! HTML entity escaping: the four special characters `&`, `<`, `>`, `"`
//! become `&amp;`, `&lt;`, `&gt;`, `&quot;`; every other character,
//! ASCII or not, passes through unchanged.

use vstd::prelude::*;
use vstd::string::*;

verus! {

/// The characters that escaping replaces.
pub open spec fn is_special(c: char) -> bool {
    c == '&' || c == '<' || c == '>' || c == '"'
}

/// What a single character contributes to the escaped output.
pub open spec fn escape_char(c: char) -> Seq<char> {
    if c == '&' {
        seq!['&', 'a', 'm', 'p', ';']
    } else if c == '<' {
        seq!['&', 'l', 't', ';']
    } else if c == '>' {
        seq!['&', 'g', 't', ';']
    } else if c == '"' {
        seq!['&', 'q', 'u', 'o', 't', ';']
    } else {
        seq![c]
    }
}

/// The escaped form of a whole character sequence.
pub open spec fn escape_seq(s: Seq<char>) -> Seq<char>
    decreases s.len(),
{
    if s.len() == 0 {
        Seq::empty()
    } else {
        escape_char(s[0]) + escape_seq(s.drop_first())
    }
}

/// Escaping distributes over concatenation.
pub proof fn lemma_escape_seq_concat(a: Seq<char>, b: Seq<char>)
    ensures
        escape_seq(a + b) == escape_seq(a) + escape_seq(b),
    decreases a.len(),
{
    if a.len() == 0 {
        assert(a + b =~= b);
        assert(escape_seq(a) + escape_seq(b) =~= escape_seq(b));
    } else {
        lemma_escape_seq_concat(a.drop_first(), b);
        assert((a + b).drop_first() =~= a.drop_first() + b);
        assert((a + b)[0] == a[0]);
        assert(escape_seq(a) + escape_seq(b) =~= escape_char(a[0]) + (escape_seq(
            a.drop_first(),
        ) + escape_seq(b)));
    }
}

/// Escaping a string with no special characters leaves it unchanged.
pub proof fn lemma_escape_identity_on_safe(s: Seq<char>)
    requires
        forall|i: int| 0 <= i < s.len() ==> !is_special(#[trigger] s[i]),
    ensures
        escape_seq(s) == s,
    decreases s.len(),
{
    if s.len() == 0 {
        assert(escape_seq(s) =~= s);
    } else {
        assert(!is_special(s[0]));
        lemma_escape_identity_on_safe(s.drop_first());
        assert(escape_seq(s) =~= seq![s[0]] + s.drop_first());
        assert(seq![s[0]] + s.drop_first() =~= s);
    }
}

/// Relies on `String`'s `FromIterator<char>`: collecting characters yields a
/// string with exactly that character sequence.
#[verifier::external_body]
pub(crate) fn chars_to_string(v: &Vec<char>) -> (r: String)
    ensures
        r@ == v@,
{
    v.iter().collect()
}

/// Appends the escaped form of one character to a character buffer.
fn push_escaped_char(out: &mut Vec<char>, c: char)
    ensures
        final(out)@ == old(out)@ + escape_char(c),
{
    match c {
        '&' => {
            out.push('&');
            out.push('a');
            out.push('m');
            out.push('p');
            out.push(';');
            assert(out@ =~= old(out)@ + escape_char(c));
        },
        '<' => {
            out.push('&');
            out.push('l');
            out.push('t');
            out.push(';');
            assert(out@ =~= old(out)@ + escape_char(c));
        },
        '>' => {
            out.push('&');
            out.push('g');
            out.push('t');
            out.push(';');
            assert(out@ =~= old(out)@ + escape_char(c));
        },
        '"' => {
            out.push('&');
            out.push('q');
            out.push('u');
            out.push('o');
            out.push('t');
            out.push(';');
            assert(out@ =~= old(out)@ + escape_char(c));
        },
        _ => {
            out.push(c);
            assert(out@ =~= old(out)@ + escape_char(c));
        },
    }
}

/// Appends the escaped form of `s` to a character buffer.
pub(crate) fn push_escaped(out: &mut Vec<char>, s: &str)
    ensures
        final(out)@ == old(out)@ + escape_seq(s@),
{
    let n = s.unicode_len();
    let mut i: usize = 0;
    while i < n
        invariant
            n == s@.len(),
            i <= n,
            out@ == old(out)@ + escape_seq(s@.take(i as int)),
        decreases n - i,
    {
        let c = s.get_char(i);
        push_escaped_char(out, c);
        proof {
            lemma_escape_seq_concat(s@.take(i as int), seq![c]);
            assert(s@.take(i as int) + seq![c] =~= s@.take(i + 1 as int));
            assert(seq![c].len() == 1 && seq![c][0] == c);
            assert(seq![c].drop_first() =~= Seq::<char>::empty());
            assert(escape_seq(seq![c]) == escape_char(c) + escape_seq(seq![c].drop_first()));
            assert(escape_seq(Seq::<char>::empty()) == Seq::<char>::empty());
            assert(escape_char(c) + Seq::<char>::empty() =~= escape_char(c));
        }
        i = i + 1;
    }
    proof {
        assert(s@.take(n as int) =~= s@);
    }
}

/// Escapes `s`: replaces each of `&`, `<`, `>`, `"` by its HTML entity and
/// keeps every other character, so that the result is `escape_seq(s@)`.
pub fn escape(s: &str) -> (r: String)
    ensures
        r@ == escape_seq(s@),
{
    let mut out: Vec<char> = Vec::new();
    push_escaped(&mut out, s);
    chars_to_string(&out)
}

/// An escaping sink: text written to it is escaped and accumulated in `out`.
pub struct Escape {
    pub out: String,
}

impl Escape {
    /// A fresh sink with nothing written yet.
    pub fn new() -> (r: Escape)
        ensures
            r.out@ == Seq::<char>::empty(),
    {
        Escape { out: String::new() }
    }

    /// Writes `s` through the escaper into the accumulated output.
    pub fn write_str(&mut self, s: &str)
        ensures
            final(self).out@ == old(self).out@ + escape_seq(s@),
    {
        let piece = escape(s);
        self.out.append(piece.as_str());
    }

    /// Hands the accumulated output out.
    pub fn into_string(self) -> (r: String)
        ensures
            r@ == self.out@,
    {
        self.out
    }
}

} // verus!
