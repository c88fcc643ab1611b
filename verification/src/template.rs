//! Compiled templates: the public surface.
//!
//! `define` compiles every named template definition of a source text;
//! `new` compiles an anonymous template closing over caller-supplied
//! bindings. A compiled template renders by running its write-program, and
//! its contract ties the output to the render semantics of exactly the
//! program that parsing and building the source yields.

use crate::ast::Field;
use crate::ast::Lst;
use crate::ast::Node;
use crate::ast::Struct;
use crate::ast::Template;
use crate::ast::span_text;
use crate::builder::build_prog;
use crate::builder::sb_prog;
use crate::escape::chars_to_string;
use crate::eval::Env;
use crate::eval::span_to_string;
use crate::interp::push_env;
use crate::interp::run_prog;
use crate::lexer::ParseError;
use crate::lexer::lex;
use crate::lexer::tokenize;
use crate::parse::parse_structs;
use crate::parse::parse_template;
use crate::parse::sp_structs;
use crate::parse::sp_template;
use crate::program::Program;
use crate::program::vprog;
use crate::sem::EnvS;
use crate::sem::RErr;
use crate::sem::sem_prog;
use crate::sem::venv;
use vstd::prelude::*;
use vstd::string::StringExecFns;
use vstd::string::StrSliceExecFns;

verus! {

/// The characters of a string, for the parsing pipeline.
pub(crate) fn str_chars(s: &str) -> (r: Vec<char>)
    ensures
        r@ == s@,
{
    let n = s.unicode_len();
    let mut out: Vec<char> = Vec::new();
    let mut i: usize = 0;
    while i < n
        invariant
            n == s@.len(),
            i <= n,
            out@ == s@.take(i as int),
        decreases n - i,
    {
        out.push(s.get_char(i));
        assert(out@ =~= s@.take(i + 1 as int));
        i = i + 1;
    }
    assert(s@.take(n as int) =~= s@);
    out
}

/// An exact copy of the source characters.
fn dup_chars(v: &Vec<char>) -> (r: Vec<char>)
    ensures
        r@ == v@,
{
    let mut out: Vec<char> = Vec::new();
    let mut i: usize = 0;
    while i < v.len()
        invariant
            i <= v.len(),
            out@ == v@.take(i as int),
        decreases v.len() - i,
    {
        out.push(v[i]);
        assert(out@ =~= v@.take(i + 1 as int));
        i = i + 1;
    }
    assert(v@.take(v@.len() as int) =~= v@);
    out
}

/// A compiled named template: its declared name and fields, its
/// write-program, and the source it was compiled from (string literals in
/// the program refer into it).
pub struct Compiled {
    pub src: Vec<char>,
    pub name: String,
    pub field_names: Vec<String>,
    pub size_hint: usize,
    pub program: Program,
    pub ast: Ghost<Struct>,
}

/// The declared field names, in order.
pub open spec fn fields_match(src: Seq<char>, fs: Lst<Field>, names: Seq<String>) -> bool
    decreases fs,
{
    match fs {
        Lst::Nil => names.len() == 0,
        Lst::Cons(f, rest) => names.len() > 0 && names[0]@ == span_text(src, f.name)
            && fields_match(src, *rest, names.drop_first()),
    }
}

/// What a compiled template is, relative to its definition.
pub open spec fn compiled_matches(src: Seq<char>, st: Struct, c: Compiled) -> bool {
    &&& c.src@ == src
    &&& c.ast@ == st
    &&& vprog(c.program) == sb_prog(src, st.children)
    &&& c.name@ == span_text(src, st.name)
    &&& c.size_hint == st.size_hint
    &&& fields_match(src, st.fields, c.field_names@)
}

/// Each compiled template matches its definition, in order.
pub open spec fn compiled_seq_matches(src: Seq<char>, ss: Lst<Struct>, cs: Seq<Compiled>) -> bool
    decreases ss,
{
    match ss {
        Lst::Nil => cs.len() == 0,
        Lst::Cons(s, rest) => cs.len() > 0 && compiled_matches(src, *s, cs[0])
            && compiled_seq_matches(src, *rest, cs.drop_first()),
    }
}

/// The declared field names of a definition.
fn field_names_of(src: &Vec<char>, fs: &Lst<Field>) -> (r: Vec<String>)
    ensures
        fields_match(src@, *fs, r@),
    decreases *fs,
{
    match fs {
        Lst::Nil => {
            let r: Vec<String> = Vec::new();
            r
        },
        Lst::Cons(f, rest) => {
            let name = span_to_string(src, f.name);
            let mut r = field_names_of(src, &*rest);
            let ghost tail = r@;
            r.insert(0, name);
            proof {
                assert(r@.drop_first() =~= tail);
            }
            r
        },
    }
}

/// Compiles each definition of a list.
fn compile_structs(src: &Vec<char>, ss: Lst<Struct>) -> (r: Vec<Compiled>)
    ensures
        compiled_seq_matches(src@, ss, r@),
    decreases ss,
{
    match ss {
        Lst::Nil => {
            let r: Vec<Compiled> = Vec::new();
            r
        },
        Lst::Cons(s, rest) => {
            let st = *s;
            let ghost gst = st;
            let name = span_to_string(src, st.name);
            let field_names = field_names_of(src, &st.fields);
            let size_hint = st.size_hint;
            let program = build_prog(src, st.children);
            let src2 = dup_chars(src);
            let c = Compiled {
                src: src2,
                name,
                field_names,
                size_hint,
                program,
                ast: Ghost(gst),
            };
            let mut r = compile_structs(src, *rest);
            let ghost tail = r@;
            r.insert(0, c);
            proof {
                assert(r@.drop_first() =~= tail);
                assert(r@[0] == c);
            }
            r
        },
    }
}

/// Compiles every named template definition in the source. On failure, `at`
/// is the character offset of a tokenizer error or the token index of a
/// parser error.
pub fn define(source: &str) -> (r: Result<Vec<Compiled>, ParseError>)
    ensures
        match r {
            Ok(cs) => match lex(source@, 0) {
                Ok(ts) => match sp_structs(source@, ts, 0) {
                    Ok((ss, j)) => j == ts.len() && compiled_seq_matches(source@, ss, cs@),
                    Err(_) => false,
                },
                Err(_) => false,
            },
            Err(e) => match lex(source@, 0) {
                Ok(ts) => match sp_structs(source@, ts, 0) {
                    Ok((_, j)) => j != ts.len() && e.at == j,
                    Err(p) => e.at == p,
                },
                Err(p) => e.at == p,
            },
        },
{
    let chars = str_chars(source);
    let toks = match tokenize(&chars) {
        Ok(ts) => ts,
        Err(e) => {
            return Err(e);
        },
    };
    let (ss, j) = match parse_structs(&chars, &toks, 0) {
        Ok(x) => x,
        Err(e) => {
            return Err(e);
        },
    };
    if j != toks.len() {
        return Err(ParseError { at: j });
    }
    Ok(compile_structs(&chars, ss))
}

impl Compiled {
    /// Renders with the given bindings, appending to `out`. The output is
    /// exactly what the render semantics gives for this template's program
    /// under those bindings; a render error leaves partial output behind.
    pub fn render(&self, args: &Env, out: &mut String) -> (r: Result<(), RErr>)
        ensures
            match r {
                Ok(()) => match sem_prog(self.src@, vprog(self.program), venv(args@)) {
                    Ok((o, _)) => final(out)@ == old(out)@ + o,
                    Err(_) => false,
                },
                Err(er) => sem_prog(self.src@, vprog(self.program), venv(args@)) == Err::<
                    (Seq<char>, EnvS),
                    RErr,
                >(er),
            },
    {
        let mut env: Env = Vec::new();
        push_env(&mut env, args);
        proof {
            assert(env@ =~= args@);
        }
        let mut buf: Vec<char> = Vec::with_capacity(self.size_hint);
        match run_prog(&self.src, &self.program, &mut env, &mut buf) {
            Ok(()) => {
                let piece = chars_to_string(&buf);
                out.append(piece.as_str());
                Ok(())
            },
            Err(er) => Err(er),
        }
    }

    /// Renders to a complete in-memory string, pre-sizing the buffer by the
    /// size hint.
    pub fn to_string(&self, args: &Env) -> (r: Result<String, RErr>)
        ensures
            match r {
                Ok(s) => match sem_prog(self.src@, vprog(self.program), venv(args@)) {
                    Ok((o, _)) => s@ == o,
                    Err(_) => false,
                },
                Err(er) => sem_prog(self.src@, vprog(self.program), venv(args@)) == Err::<
                    (Seq<char>, EnvS),
                    RErr,
                >(er),
            },
    {
        let mut out = String::new();
        match self.render(args, &mut out) {
            Ok(()) => Ok(out),
            Err(er) => Err(er),
        }
    }
}

/// Compiles a node tree directly into an anonymous renderer over the given
/// bindings: the programmatic counterpart of `new`, for trees that are
/// built rather than parsed (an iterable attribute source has no written
/// form).
pub fn from_nodes(source_chars: Vec<char>, children: Lst<Node>, env: Env) -> (d: DynRender)
    ensures
        d.src@ == source_chars@,
        vprog(d.program) == sb_prog(source_chars@, children),
        d.env@ == env@,
{
    let ghost gt = Template { children };
    let program = build_prog(&source_chars, children);
    DynRender { src: source_chars, program, env, ast: Ghost(gt) }
}

/// An anonymous compiled template closing over bindings: usable wherever a
/// one-off renderer is needed.
pub struct DynRender {
    pub src: Vec<char>,
    pub program: Program,
    pub env: Env,
    pub ast: Ghost<Template>,
}

/// Compiles an anonymous template over the given bindings. On failure, `at`
/// is the character offset of a tokenizer error or the token index of a
/// parser error.
pub fn new(source: &str, env: Env) -> (r: Result<DynRender, ParseError>)
    ensures
        match r {
            Ok(d) => match lex(source@, 0) {
                Ok(ts) => match sp_template(source@, ts) {
                    Ok(t) => {
                        &&& d.src@ == source@
                        &&& d.ast@ == t
                        &&& vprog(d.program) == sb_prog(source@, t.children)
                        &&& d.env@ == env@
                    },
                    Err(_) => false,
                },
                Err(_) => false,
            },
            Err(e) => match lex(source@, 0) {
                Ok(ts) => match sp_template(source@, ts) {
                    Ok(_) => false,
                    Err(p) => e.at == p,
                },
                Err(p) => e.at == p,
            },
        },
{
    let chars = str_chars(source);
    let toks = match tokenize(&chars) {
        Ok(ts) => ts,
        Err(e) => {
            return Err(e);
        },
    };
    let t = match parse_template(&chars, &toks) {
        Ok(t) => t,
        Err(e) => {
            return Err(e);
        },
    };
    let ghost gt = t;
    let program = build_prog(&chars, t.children);
    Ok(DynRender { src: chars, program, env, ast: Ghost(gt) })
}

impl DynRender {
    /// Renders with the captured bindings, appending to `out`.
    pub fn render(&self, out: &mut String) -> (r: Result<(), RErr>)
        ensures
            match r {
                Ok(()) => match sem_prog(self.src@, vprog(self.program), venv(self.env@)) {
                    Ok((o, _)) => final(out)@ == old(out)@ + o,
                    Err(_) => false,
                },
                Err(er) => sem_prog(self.src@, vprog(self.program), venv(self.env@)) == Err::<
                    (Seq<char>, EnvS),
                    RErr,
                >(er),
            },
    {
        let mut env: Env = Vec::new();
        push_env(&mut env, &self.env);
        proof {
            assert(env@ =~= self.env@);
        }
        let mut buf: Vec<char> = Vec::new();
        match run_prog(&self.src, &self.program, &mut env, &mut buf) {
            Ok(()) => {
                let piece = chars_to_string(&buf);
                out.append(piece.as_str());
                Ok(())
            },
            Err(er) => Err(er),
        }
    }

    /// Renders to a complete in-memory string.
    pub fn to_string(&self) -> (r: Result<String, RErr>)
        ensures
            match r {
                Ok(s) => match sem_prog(self.src@, vprog(self.program), venv(self.env@)) {
                    Ok((o, _)) => s@ == o,
                    Err(_) => false,
                },
                Err(er) => sem_prog(self.src@, vprog(self.program), venv(self.env@)) == Err::<
                    (Seq<char>, EnvS),
                    RErr,
                >(er),
            },
    {
        let mut out = String::new();
        match self.render(&mut out) {
            Ok(()) => Ok(out),
            Err(er) => Err(er),
        }
    }
}

} // verus!
