//! Backslash escaping of TEXT values.
use vstd::prelude::*;

verus! {

/// The escaped form of one character.
pub open spec fn escape_char(c: char) -> Seq<char> {
    if c == '\\' {
        seq!['\\', '\\']
    } else if c == '\n' {
        seq!['\\', 'n']
    } else if c == ';' {
        seq!['\\', ';']
    } else if c == ',' {
        seq!['\\', ',']
    } else {
        seq![c]
    }
}

/// TEXT escaping: `\`, newline, `;` and `,` are written with a backslash in
/// front (newline as `\n`); every other character stands as it is.
pub open spec fn escape(s: Seq<char>) -> Seq<char>
    decreases s.len(),
{
    if s.len() == 0 {
        seq![]
    } else {
        escape(s.drop_last()) + escape_char(s.last())
    }
}

/// Reading TEXT back: `\\`, `\;` and `\,` stand for the character after the
/// backslash, `\n` and `\N` for a newline; any other character for itself.
pub open spec fn unescape(t: Seq<char>) -> Seq<char>
    decreases t.len(),
{
    if t.len() == 0 {
        t
    } else if t.len() >= 2 && t[0] == '\\' && (t[1] == '\\' || t[1] == ';' || t[1] == ',') {
        seq![t[1]] + unescape(t.subrange(2, t.len() as int))
    } else if t.len() >= 2 && t[0] == '\\' && (t[1] == 'n' || t[1] == 'N') {
        seq!['\n'] + unescape(t.subrange(2, t.len() as int))
    } else {
        seq![t[0]] + unescape(t.drop_first())
    }
}

proof fn lemma_escape_prepend(c: char, r: Seq<char>)
    ensures
        escape(seq![c] + r) == escape_char(c) + escape(r),
    decreases r.len(),
{
    let s = seq![c] + r;
    if r.len() == 0 {
        assert(r =~= Seq::<char>::empty());
        assert(s.drop_last() =~= Seq::<char>::empty());
        assert(s.last() == c);
        assert(escape(s) =~= escape_char(c) + escape(r));
    } else {
        lemma_escape_prepend(c, r.drop_last());
        assert(s.drop_last() =~= seq![c] + r.drop_last());
        assert(s.last() == r.last());
        assert(escape(s) =~= escape_char(c) + escape(r));
    }
}

/// Unescaping the escaped form of any string gives the string back.
pub proof fn lemma_unescape_escape(s: Seq<char>)
    ensures
        unescape(escape(s)) == s,
    decreases s.len(),
{
    if s.len() == 0 {
        assert(s =~= Seq::<char>::empty());
    } else {
        let c = s[0];
        let r = s.drop_first();
        assert(s =~= seq![c] + r);
        lemma_escape_prepend(c, r);
        lemma_unescape_escape(r);
        let e = escape_char(c);
        let t = e + escape(r);
        if e.len() == 2 {
            assert(t.subrange(2, t.len() as int) =~= escape(r));
            assert(t[0] == '\\');
            assert(unescape(t) =~= seq![c] + r);
        } else {
            assert(t.drop_first() =~= escape(r));
            assert(t[0] == c);
            assert(unescape(t) =~= seq![c] + r);
        }
    }
}

/// Appends the escaped form of `s` to `out`.
pub fn push_escaped(out: &mut String, s: &str)
    ensures
        final(out)@ == old(out)@ + escape(s@),
{
    proof {
        reveal_strlit("\\\\");
        reveal_strlit("\\n");
        reveal_strlit("\\;");
        reveal_strlit("\\,");
    }
    let n = s.unicode_len();
    let ghost start = out@;
    let mut i: usize = 0;
    while i < n
        invariant
            i <= n,
            n == s@.len(),
            out@ == start + escape(s@.take(i as int)),
        decreases n - i,
    {
        let c = s.get_char(i);
        if c == '\\' {
            proof {
                reveal_strlit("\\\\");
            }
            assert("\\\\"@ =~= escape_char(c));
            out.append("\\\\");
        } else if c == '\n' {
            proof {
                reveal_strlit("\\n");
            }
            assert("\\n"@ =~= escape_char(c));
            out.append("\\n");
        } else if c == ';' {
            proof {
                reveal_strlit("\\;");
            }
            assert("\\;"@ =~= escape_char(c));
            out.append("\\;");
        } else if c == ',' {
            proof {
                reveal_strlit("\\,");
            }
            assert("\\,"@ =~= escape_char(c));
            out.append("\\,");
        } else {
            let one = s.substring_char(i, i + 1);
            assert(one@ =~= seq![c]);
            out.append(one);
        }
        proof {
            assert(s@.take(i + 1).drop_last() =~= s@.take(i as int));
            assert(s@.take(i + 1).last() == c);
            assert(out@ =~= start + escape(s@.take(i + 1)));
        }
        i += 1;
    }
    assert(s@.take(n as int) =~= s@);
}

/// The escaped form of `s`.
pub fn escape_text(s: &str) -> (r: String)
    ensures
        r@ == escape(s@),
{
    let mut out = String::new();
    push_escaped(&mut out, s);
    assert(out@ =~= escape(s@));
    out
}

/// A writer that escapes TEXT values into its sink.
///
/// Values of other types never hold the characters that TEXT escapes, so this
/// writer serves every value type.
pub struct TextWriter {
    inner: String,
}

impl TextWriter {
    /// What the sink holds.
    pub closed spec fn output(&self) -> Seq<char> {
        self.inner@
    }

    pub fn new(inner: String) -> (r: Self)
        ensures
            r.output() == inner@,
    {
        TextWriter { inner }
    }

    pub fn write_str(&mut self, s: &str)
        ensures
            final(self).output() == old(self).output() + escape(s@),
    {
        push_escaped(&mut self.inner, s);
    }

    pub fn into_inner(self) -> (r: String)
        ensures
            r@ == self.output(),
    {
        self.inner
    }
}

} // verus!
