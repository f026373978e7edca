//! Folding of content lines at 75 octets, at character boundaries.
use vstd::prelude::*;

use vstd::utf8::{encode_scalar, encode_utf8};

use crate::syntax::{
    all_in_exec, char_width, continuation, crlf, in_class, lemma_encode_concat, lemma_octets_utf8,
    no_control, octets, utf8_width, CharClass, CONTINUATION_BUDGET, MAX_LINE_LENGTH,
};
use crate::FormatError;

verus! {

/// One character more on a line being folded: `acc` is the text emitted so
/// far and the octets left on its physical line.
pub open spec fn fold_step(acc: (Seq<char>, nat), c: char) -> (Seq<char>, nat) {
    let w = utf8_width(c);
    if w <= acc.1 {
        (acc.0.push(c), (acc.1 - w) as nat)
    } else {
        (acc.0 + continuation().push(c), (CONTINUATION_BUDGET - w) as nat)
    }
}

/// The folded form of the content-line text `s`, and the octets left on its
/// last physical line.
pub open spec fn fold(s: Seq<char>) -> (Seq<char>, nat)
    decreases s.len(),
{
    if s.len() == 0 {
        (seq![], MAX_LINE_LENGTH as nat)
    } else {
        fold_step(fold(s.drop_last()), s.last())
    }
}

/// The folded form of the content-line text `s`.
pub open spec fn folded(s: Seq<char>) -> Seq<char> {
    fold(s).0
}

/// `t` with every continuation sequence taken out.
pub open spec fn unfold(t: Seq<char>) -> Seq<char>
    decreases t.len(),
{
    if t.len() == 0 {
        t
    } else if t.len() >= 3 && t.subrange(t.len() - 3, t.len() as int) == continuation() {
        unfold(t.subrange(0, t.len() - 3))
    } else {
        unfold(t.drop_last()).push(t.last())
    }
}

/// `s` holds neither CR nor LF.
pub open spec fn no_line_break(s: Seq<char>) -> bool {
    forall|i: int| 0 <= i < s.len() ==> #[trigger] s[i] != '\r' && s[i] != '\n'
}

/// Every stretch of `t` that holds no line break, so every physical line of
/// `t`, has at most `max` octets.
pub open spec fn lines_within(t: Seq<char>, max: nat) -> bool {
    forall|i: int, j: int|
        0 <= i <= j <= t.len() && no_line_break(#[trigger] t.subrange(i, j)) ==> octets(
            t.subrange(i, j),
        ) <= max
}

/// The last physical line of `t` and `rem` more octets fit in one line.
pub open spec fn tail_within(t: Seq<char>, rem: nat) -> bool {
    forall|i: int|
        0 <= i <= t.len() && no_line_break(#[trigger] t.subrange(i, t.len() as int)) ==> octets(
            t.subrange(i, t.len() as int),
        ) + rem <= MAX_LINE_LENGTH
}

proof fn lemma_octets_push(a: Seq<char>, c: char)
    ensures
        octets(a.push(c)) == octets(a) + utf8_width(c),
{
    assert(a.push(c).drop_last() =~= a);
}

proof fn lemma_folded_last(s: Seq<char>)
    requires
        s.len() > 0,
    ensures
        folded(s).len() > 0,
        folded(s).last() == s.last(),
{
}

/// Taking the continuation sequences out of a folded line gives back the
/// line: folding only ever inserts CRLF SPACE between characters.
pub proof fn lemma_unfold_folded(s: Seq<char>)
    requires
        no_control(s),
    ensures
        unfold(folded(s)) == s,
    decreases s.len(),
{
    if s.len() > 0 {
        let p = s.drop_last();
        let c = s.last();
        assert(no_control(p));
        lemma_unfold_folded(p);
        let tp = folded(p);
        let t = folded(s);
        assert(in_class(s[s.len() - 1], CharClass::Value));
        if utf8_width(c) <= fold(p).1 {
            assert(t == tp.push(c));
            assert(t.drop_last() =~= tp);
            if t.len() >= 3 {
                lemma_folded_last(p);
                assert(t[t.len() - 2] == tp.last());
                assert(tp.last() == p.last());
                assert(in_class(p[p.len() - 1], CharClass::Value));
                assert(t.subrange(t.len() - 3, t.len() as int)[1] == t[t.len() - 2]);
                assert(t.subrange(t.len() - 3, t.len() as int) != continuation());
            }
            assert(unfold(t) == unfold(tp).push(c));
            assert(s =~= p.push(c));
        } else {
            let tc = tp + continuation();
            assert(t == tc.push(c));
            assert(t.drop_last() =~= tc);
            assert(t.subrange(t.len() - 3, t.len() as int)[0] == '\n');
            assert(t.subrange(t.len() - 3, t.len() as int) != continuation());
            assert(tc.subrange(tc.len() - 3, tc.len() as int) =~= continuation());
            assert(tc.subrange(0, tc.len() - 3) =~= tp);
            assert(unfold(tc) == unfold(tp));
            assert(unfold(t) == unfold(tc).push(c));
            assert(s =~= p.push(c));
        }
    } else {
        assert(s =~= Seq::<char>::empty());
    }
}

proof fn lemma_fold_bounds(s: Seq<char>)
    requires
        no_control(s),
    ensures
        lines_within(folded(s), MAX_LINE_LENGTH as nat),
        tail_within(folded(s), fold(s).1),
    decreases s.len(),
{
    if s.len() == 0 {
        assert forall|i: int| 0 <= i <= 0 implies #[trigger] folded(s).subrange(i, 0) =~= Seq::<
            char,
        >::empty() by {}
    } else {
        let p = s.drop_last();
        let c = s.last();
        let w = utf8_width(c);
        assert(no_control(p));
        lemma_fold_bounds(p);
        let tp = folded(p);
        let rp = fold(p).1;
        let t = folded(s);
        let r = fold(s).1;
        assert(tp.subrange(tp.len() as int, tp.len() as int) =~= Seq::<char>::empty());
        assert(rp <= MAX_LINE_LENGTH);
        if w <= rp {
            assert(t == tp.push(c));
            assert forall|i: int|
                0 <= i <= t.len() && no_line_break(
                    #[trigger] t.subrange(i, t.len() as int),
                ) implies octets(t.subrange(i, t.len() as int)) + r <= MAX_LINE_LENGTH by {
                if i == t.len() {
                    assert(t.subrange(i, t.len() as int) =~= Seq::<char>::empty());
                } else {
                    let sp = tp.subrange(i, tp.len() as int);
                    assert(t.subrange(i, t.len() as int) =~= sp.push(c));
                    lemma_octets_push(sp, c);
                    assert forall|k: int| 0 <= k < sp.len() implies #[trigger] sp[k] != '\r'
                        && sp[k] != '\n' by {
                        assert(sp[k] == t.subrange(i, t.len() as int)[k]);
                    }
                }
            }
            assert forall|i: int, j: int|
                0 <= i <= j <= t.len() && no_line_break(#[trigger] t.subrange(i, j)) implies octets(
                t.subrange(i, j),
            ) <= MAX_LINE_LENGTH by {
                if j <= tp.len() {
                    assert(t.subrange(i, j) =~= tp.subrange(i, j));
                } else {
                    assert(j == t.len());
                }
            }
        } else {
            let n = tp.len() as int;
            assert(t =~= tp + seq!['\r', '\n', ' ', c]);
            assert(t[n] == '\r');
            assert(t[n + 1] == '\n');
            assert(t[n + 2] == ' ');
            assert(t[n + 3] == c);
            assert(octets(seq![' ']) == 1) by {
                assert(seq![' '].drop_last() =~= Seq::<char>::empty());
            }
            lemma_octets_push(seq![' '], c);
            assert(seq![' '].push(c) =~= seq![' ', c]);
            lemma_octets_push(Seq::<char>::empty(), c);
            assert(Seq::<char>::empty().push(c) =~= seq![c]);
            assert forall|i: int|
                0 <= i <= t.len() && no_line_break(
                    #[trigger] t.subrange(i, t.len() as int),
                ) implies octets(t.subrange(i, t.len() as int)) + r <= MAX_LINE_LENGTH by {
                if i <= n {
                    assert(t.subrange(i, t.len() as int)[n - i] == '\r');
                } else if i == n + 1 {
                    assert(t.subrange(i, t.len() as int)[0] == '\n');
                } else if i == n + 2 {
                    assert(t.subrange(i, t.len() as int) =~= seq![' ', c]);
                } else if i == n + 3 {
                    assert(t.subrange(i, t.len() as int) =~= seq![c]);
                } else {
                    assert(t.subrange(i, t.len() as int) =~= Seq::<char>::empty());
                }
            }
            assert forall|i: int, j: int|
                0 <= i <= j <= t.len() && no_line_break(#[trigger] t.subrange(i, j)) implies octets(
                t.subrange(i, j),
            ) <= MAX_LINE_LENGTH by {
                if j <= n {
                    assert(t.subrange(i, j) =~= tp.subrange(i, j));
                } else if i <= n + 1 {
                    if i <= n {
                        assert(t.subrange(i, j)[n - i] == '\r');
                    } else if j > i {
                        assert(t.subrange(i, j)[0] == '\n');
                    } else {
                        assert(t.subrange(i, j) =~= Seq::<char>::empty());
                    }
                } else if i == n + 2 {
                    if j == n + 2 {
                        assert(t.subrange(i, j) =~= Seq::<char>::empty());
                    } else if j == n + 3 {
                        assert(t.subrange(i, j) =~= seq![' ']);
                    } else {
                        assert(t.subrange(i, j) =~= seq![' ', c]);
                    }
                } else if i == n + 3 {
                    if j == n + 3 {
                        assert(t.subrange(i, j) =~= Seq::<char>::empty());
                    } else {
                        assert(t.subrange(i, j) =~= seq![c]);
                    }
                } else {
                    assert(t.subrange(i, j) =~= Seq::<char>::empty());
                }
            }
        }
    }
}

/// No physical line of a folded line is longer than 75 octets of UTF-8.
pub proof fn lemma_folded_lines_within(s: Seq<char>)
    requires
        no_control(s),
    ensures
        lines_within(folded(s), MAX_LINE_LENGTH as nat),
        forall|i: int, j: int|
            0 <= i <= j <= folded(s).len() && no_line_break(#[trigger] folded(s).subrange(i, j))
                ==> encode_utf8(folded(s).subrange(i, j)).len() <= MAX_LINE_LENGTH,
{
    lemma_fold_bounds(s);
    let t = folded(s);
    assert forall|i: int, j: int|
        0 <= i <= j <= t.len() && no_line_break(#[trigger] t.subrange(i, j)) implies encode_utf8(
        t.subrange(i, j),
    ).len() <= MAX_LINE_LENGTH by {
        lemma_octets_utf8(t.subrange(i, j));
    }
}

/// Folding never splits the UTF-8 bytes of a character: where a continuation
/// sequence stands between two texts, its bytes stand between their whole
/// encodings.
pub proof fn lemma_continuation_between_characters(before: Seq<char>, after: Seq<char>)
    ensures
        encode_utf8(before + continuation() + after) == encode_utf8(before) + seq![
            0x0du8,
            0x0au8,
            0x20u8,
        ] + encode_utf8(after),
{
    lemma_encode_concat(before + continuation(), after);
    lemma_encode_concat(before, continuation());
    let c = continuation();
    assert((0x0du32 & 0x7fu32) == 0x0du32) by (bit_vector);
    assert((0x0au32 & 0x7fu32) == 0x0au32) by (bit_vector);
    assert((0x20u32 & 0x7fu32) == 0x20u32) by (bit_vector);
    let c2 = c.drop_first().drop_first();
    assert(c2 =~= seq![' ']);
    assert(c2.drop_first() =~= Seq::<char>::empty());
    assert(encode_utf8(c2.drop_first()) =~= Seq::<u8>::empty());
    assert((' ' as u32) == 0x20u32);
    assert(encode_scalar(c2[0] as u32) =~= seq![0x20u8]);
    assert(encode_utf8(c2) =~= seq![0x20u8]);
    assert(encode_utf8(c.drop_first()) =~= seq![0x0au8, 0x20u8]);
    assert(encode_utf8(c) =~= seq![0x0du8, 0x0au8, 0x20u8]);
}

/// A writer of one content line that folds it at 75 octets.
///
/// Folding happens at character boundaries, so no multi-byte UTF-8 sequence
/// is ever split; a grapheme cluster may be.
pub struct FoldingWriter {
    inner: String,
    rem_line_len: u32,
    passed_eol: bool,
    start: Ghost<Seq<char>>,
    line: Ghost<Seq<char>>,
}

impl FoldingWriter {
    /// What the sink held when the writer was made.
    pub closed spec fn prefix(&self) -> Seq<char> {
        self.start@
    }

    /// The text of the line written so far, before folding.
    pub closed spec fn line(&self) -> Seq<char> {
        self.line@
    }

    /// `eol` has been called.
    pub closed spec fn is_closed(&self) -> bool {
        self.passed_eol
    }

    /// Text may still be written: the line has not ended.
    pub open spec fn accepts_writes(&self) -> bool {
        !self.is_closed()
    }

    /// What the sink holds.
    pub open spec fn output(&self) -> Seq<char> {
        self.prefix() + folded(self.line()) + if self.is_closed() {
            crlf()
        } else {
            seq![]
        }
    }

    pub closed spec fn wf(&self) -> bool {
        &&& self.inner@ == self.output()
        &&& self.rem_line_len as nat == fold(self.line@).1
        &&& no_control(self.line@)
    }

    pub fn new(inner: String) -> (r: Self)
        ensures
            r.wf(),
            r.prefix() == inner@,
            r.line() == Seq::<char>::empty(),
            !r.is_closed(),
    {
        let ghost start = inner@;
        let r = FoldingWriter {
            inner,
            rem_line_len: MAX_LINE_LENGTH,
            passed_eol: false,
            start: Ghost(start),
            line: Ghost(Seq::empty()),
        };
        assert(r.inner@ == r.output());
        r
    }

    /// Appends `s` to the line. Fails, and writes nothing, where `s` holds a
    /// control character other than HTAB.
    pub fn write_str(&mut self, s: &str) -> (r: Result<(), FormatError>)
        requires
            old(self).wf(),
            old(self).accepts_writes(),
        ensures
            final(self).wf(),
            !final(self).is_closed(),
            final(self).prefix() == old(self).prefix(),
            r is Ok <==> no_control(s@),
            r is Ok ==> final(self).line() == old(self).line() + s@,
            r is Err ==> final(self).line() == old(self).line(),
    {
        if !all_in_exec(s, CharClass::Value) {
            return Err(FormatError);
        }
        let n = s.unicode_len();
        let ghost old_line = self.line@;
        let ghost start = self.start@;
        let mut i: usize = 0;
        while i < n
            invariant
                i <= n,
                n == s@.len(),
                no_control(s@),
                !self.passed_eol,
                self.start@ == start,
                self.inner@ == start + folded(old_line + s@.take(i as int)),
                self.rem_line_len as nat == fold(old_line + s@.take(i as int)).1,
            decreases n - i,
        {
            let ghost before = old_line + s@.take(i as int);
            let c = s.get_char(i);
            let w = char_width(c);
            if w > self.rem_line_len {
                proof {
                    reveal_strlit("\r\n ");
                }
                self.inner.append("\r\n ");
                self.rem_line_len = CONTINUATION_BUDGET;
            }
            let one = s.substring_char(i, i + 1);
            assert(one@ =~= seq![c]);
            self.inner.append(one);
            self.rem_line_len = self.rem_line_len - w;
            proof {
                let after = old_line + s@.take(i + 1);
                assert(after.drop_last() =~= before);
                assert(after.last() == c);
                assert(self.inner@ =~= start + folded(after));
            }
            i += 1;
        }
        proof {
            assert(s@.take(n as int) =~= s@);
            assert forall|j: int| 0 <= j < (old_line + s@).len() implies in_class(
                #[trigger] (old_line + s@)[j],
                CharClass::Value,
            ) by {
                if j >= old_line.len() {
                    assert((old_line + s@)[j] == s@[j - old_line.len()]);
                }
            }
        }
        self.line = Ghost(old_line + s@);
        Ok(())
    }

    /// Ends the line with CRLF. No write may follow.
    pub fn eol(&mut self)
        requires
            old(self).wf(),
            old(self).accepts_writes(),
        ensures
            final(self).wf(),
            final(self).is_closed(),
            final(self).prefix() == old(self).prefix(),
            final(self).line() == old(self).line(),
    {
        proof {
            reveal_strlit("\r\n");
        }
        self.inner.append("\r\n");
        self.passed_eol = true;
        assert(self.inner@ =~= self.output());
    }

    /// Gives back the sink, once the line has ended.
    pub fn into_inner(self) -> (r: String)
        requires
            self.wf(),
            self.is_closed(),
        ensures
            r@ == self.output(),
    {
        self.inner
    }
}

} // verus!
