//! A compilation cache: explicit lookup and insert, keyed by the template
//! source, with a content digest of the source available for callers that
//! persist compiled artifacts elsewhere.

use crate::escape::chars_to_string;
use crate::lexer::ParseError;
use crate::lexer::lex;
use crate::parse::sp_structs;
use crate::template::Compiled;
use crate::template::compiled_seq_matches;
use crate::template::define;
use sha2::Digest;
use vstd::prelude::*;
use vstd::string::StringExecFns;
use vstd::string::StringSliceAdditionalSpecFns;

verus! {

/// What `define` produces on the source, when it succeeds.
pub open spec fn defines_to(src: Seq<char>, cs: Seq<Compiled>) -> bool {
    match lex(src, 0) {
        Ok(ts) => match sp_structs(src, ts, 0) {
            Ok((ss, j)) => j == ts.len() && compiled_seq_matches(src, ss, cs),
            Err(_) => false,
        },
        Err(_) => false,
    }
}

/// The SHA-256 digest of a byte sequence; a function of the bytes alone.
pub uninterp spec fn sha256_of(data: Seq<u8>) -> Seq<u8>;

/// Relies on `sha2::Sha256::digest`: the digest depends on the input bytes
/// alone, and is 32 bytes long.
#[verifier::external_body]
fn sha256_bytes(s: &str) -> (r: Vec<u8>)
    ensures
        r@ == sha256_of(s.spec_bytes()),
        r@.len() == 32,
{
    sha2::Sha256::digest(s.as_bytes()).to_vec()
}

/// The lowercase hexadecimal digit for `d` (`d < 16`).
pub open spec fn hex_digit(d: nat) -> char {
    if d == 0 {
        '0'
    } else if d == 1 {
        '1'
    } else if d == 2 {
        '2'
    } else if d == 3 {
        '3'
    } else if d == 4 {
        '4'
    } else if d == 5 {
        '5'
    } else if d == 6 {
        '6'
    } else if d == 7 {
        '7'
    } else if d == 8 {
        '8'
    } else if d == 9 {
        '9'
    } else if d == 10 {
        'a'
    } else if d == 11 {
        'b'
    } else if d == 12 {
        'c'
    } else if d == 13 {
        'd'
    } else if d == 14 {
        'e'
    } else {
        'f'
    }
}

/// Two lowercase hexadecimal digits per byte, high digit first.
pub open spec fn hex_of(bs: Seq<u8>) -> Seq<char>
    decreases bs.len(),
{
    if bs.len() == 0 {
        Seq::empty()
    } else {
        seq![hex_digit(bs[0] as nat / 16), hex_digit(bs[0] as nat % 16)] + hex_of(bs.drop_first())
    }
}

/// The hexadecimal digit character of `d`.
fn hex_digit_char(d: u8) -> (c: char)
    requires
        d < 16,
    ensures
        c == hex_digit(d as nat),
{
    if d == 0 {
        '0'
    } else if d == 1 {
        '1'
    } else if d == 2 {
        '2'
    } else if d == 3 {
        '3'
    } else if d == 4 {
        '4'
    } else if d == 5 {
        '5'
    } else if d == 6 {
        '6'
    } else if d == 7 {
        '7'
    } else if d == 8 {
        '8'
    } else if d == 9 {
        '9'
    } else if d == 10 {
        'a'
    } else if d == 11 {
        'b'
    } else if d == 12 {
        'c'
    } else if d == 13 {
        'd'
    } else if d == 14 {
        'e'
    } else {
        'f'
    }
}

/// The hexadecimal spelling of a byte vector.
fn hex_string(bs: &Vec<u8>) -> (r: String)
    ensures
        r@ == hex_of(bs@),
{
    let mut buf: Vec<char> = Vec::new();
    let mut i: usize = 0;
    while i < bs.len()
        invariant
            i <= bs.len(),
            buf@ == hex_of(bs@.take(i as int)),
        decreases bs.len() - i,
    {
        let b = bs[i];
        buf.push(hex_digit_char(b / 16));
        buf.push(hex_digit_char(b % 16));
        proof {
            lemma_hex_of_push(bs@.take(i as int), bs@[i as int]);
            assert(bs@.take(i as int).push(bs@[i as int]) =~= bs@.take(i + 1 as int));
            assert(buf@ =~= hex_of(bs@.take(i + 1 as int)));
        }
        i = i + 1;
    }
    assert(bs@.take(bs@.len() as int) =~= bs@);
    chars_to_string(&buf)
}

/// Appending a byte appends its two digits.
proof fn lemma_hex_of_push(bs: Seq<u8>, b: u8)
    ensures
        hex_of(bs.push(b)) == hex_of(bs) + seq![hex_digit(b as nat / 16), hex_digit(b as nat % 16)],
    decreases bs.len(),
{
    let bp = bs.push(b);
    if bs.len() == 0 {
        assert(bp.drop_first() =~= Seq::<u8>::empty());
        assert(bp[0] == b);
        assert(hex_of(bp) == seq![hex_digit(bp[0] as nat / 16), hex_digit(bp[0] as nat % 16)]
            + hex_of(bp.drop_first()));
        assert(hex_of(bp.drop_first()) == Seq::<char>::empty());
        assert(hex_of(bs) == Seq::<char>::empty());
        assert(hex_of(bp) =~= hex_of(bs) + seq![
            hex_digit(b as nat / 16),
            hex_digit(b as nat % 16),
        ]);
    } else {
        lemma_hex_of_push(bs.drop_first(), b);
        assert(bp.drop_first() =~= bs.drop_first().push(b));
        assert(bp[0] == bs[0]);
        assert(hex_of(bp) == seq![hex_digit(bp[0] as nat / 16), hex_digit(bp[0] as nat % 16)]
            + hex_of(bp.drop_first()));
        assert(hex_of(bs) == seq![hex_digit(bs[0] as nat / 16), hex_digit(bs[0] as nat % 16)]
            + hex_of(bs.drop_first()));
        assert(hex_of(bp) =~= hex_of(bs) + seq![
            hex_digit(b as nat / 16),
            hex_digit(b as nat % 16),
        ]);
    }
}

/// The content digest of a template source, as lowercase hexadecimal: the
/// key under which compiled artifacts may be persisted.
pub fn source_digest(source: &str) -> (r: String)
    ensures
        r@ == hex_of(sha256_of(source.spec_bytes())),
{
    let bytes = sha256_bytes(source);
    hex_string(&bytes)
}

/// A compilation cache: each stored entry is the compilation of its key.
pub struct Cache {
    pub keys: Vec<String>,
    pub vals: Vec<Vec<Compiled>>,
}

/// The cache invariant: keys and entries pair up, and every entry is what
/// compiling its key yields.
pub open spec fn wf_cache(c: Cache) -> bool {
    &&& c.keys@.len() == c.vals@.len()
    &&& forall|i: int|
        0 <= i < c.keys@.len() ==> defines_to(#[trigger] c.keys@[i]@, c.vals@[i]@)
}

impl Cache {
    /// An empty cache.
    pub fn init() -> (r: Cache)
        ensures
            wf_cache(r),
            r.keys@.len() == 0,
    {
        Cache { keys: Vec::new(), vals: Vec::new() }
    }

    /// The index of the first entry compiled from `source`, if one is stored.
    pub fn lookup(&self, source: &str) -> (r: Option<usize>)
        ensures
            match r {
                Some(i) => i < self.keys@.len() && self.keys@[i as int]@ == source@,
                None => forall|j: int| 0 <= j < self.keys@.len() ==> self.keys@[j]@ != source@,
            },
    {
        let want = String::from_str(source);
        let mut i: usize = 0;
        while i < self.keys.len()
            invariant
                i <= self.keys@.len(),
                want@ == source@,
                forall|j: int| 0 <= j < i ==> self.keys@[j]@ != source@,
            decreases self.keys@.len() - i,
        {
            if self.keys[i] == want {
                return Some(i);
            }
            i = i + 1;
        }
        None
    }

    /// The stored entry at `i`.
    pub fn get(&self, i: usize) -> (r: Option<&Vec<Compiled>>)
        ensures
            match r {
                Some(v) => i < self.vals@.len() && v == &self.vals[i as int],
                None => i >= self.vals@.len(),
            },
    {
        if i < self.vals.len() {
            Some(&self.vals[i])
        } else {
            None
        }
    }

    /// Compiles `source` unless an entry for it is already stored, and hands
    /// back the index of its compilation; compiling each distinct source
    /// once, however often it is asked for.
    pub fn cached(&mut self, source: &str) -> (r: Result<usize, ParseError>)
        requires
            wf_cache(*old(self)),
        ensures
            wf_cache(*final(self)),
            match r {
                Ok(i) => i < final(self).vals@.len() && defines_to(
                    source@,
                    final(self).vals@[i as int]@,
                ),
                Err(e) => match lex(source@, 0) {
                    Ok(ts) => match sp_structs(source@, ts, 0) {
                        Ok((_, j)) => j != ts.len() && e.at == j,
                        Err(p) => e.at == p,
                    },
                    Err(p) => e.at == p,
                },
            },
    {
        match self.lookup(source) {
            Some(i) => {
                assert(defines_to(self.keys@[i as int]@, self.vals@[i as int]@));
                Ok(i)
            },
            None => {
                let cs = match define(source) {
                    Ok(cs) => cs,
                    Err(e) => {
                        return Err(e);
                    },
                };
                let i = self.vals.len();
                self.keys.push(String::from_str(source));
                self.vals.push(cs);
                assert forall|k: int| 0 <= k < self.keys@.len() implies defines_to(
                    #[trigger] self.keys@[k]@,
                    self.vals@[k]@,
                ) by {
                    if k < old(self).keys@.len() {
                        assert(self.keys@[k] == old(self).keys@[k]);
                        assert(self.vals@[k] == old(self).vals@[k]);
                    }
                }
                Ok(i)
            },
        }
    }
}

} // verus!
