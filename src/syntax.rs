//! The character classes and transforms of the content-line grammar, as spec
//! functions over `Seq<char>`, with executable checks proved equal to them.
use vstd::prelude::*;
use vstd::utf8::{char_is_scalar, encode_scalar, encode_utf8};

verus! {

/// Longest physical line, in octets, not counting its CRLF.
pub const MAX_LINE_LENGTH: u32 = 75;

/// Octets that a continuation line has left once its leading SPACE is written.
pub const CONTINUATION_BUDGET: u32 = 74;

/// `CONTROL` of the grammar: every control character but HTAB.
pub open spec fn is_control(c: char) -> bool {
    (c as u32) <= 0x08 || (0x0a <= (c as u32) && (c as u32) <= 0x1f) || (c as u32) == 0x7f
}

/// `iana-token` characters: ASCII letters, digits and the hyphen.
pub open spec fn is_name_char(c: char) -> bool {
    ('a' <= c && c <= 'z') || ('A' <= c && c <= 'Z') || ('0' <= c && c <= '9') || c == '-'
}

/// `QSAFE-CHAR`: anything but a control character and DQUOTE.
pub open spec fn is_qsafe_char(c: char) -> bool {
    !is_control(c) && c != '"'
}

/// `SAFE-CHAR`: as `QSAFE-CHAR`, and neither `;`, `:` nor `,`.
pub open spec fn is_safe_char(c: char) -> bool {
    is_qsafe_char(c) && c != ';' && c != ':' && c != ','
}

/// The grammar productions whose characters a writer checks.
#[derive(Clone, Copy, PartialEq, Eq, Debug, Structural)]
pub enum CharClass {
    /// `VALUE-CHAR` and the other text of a line: no control but HTAB.
    Value,
    /// `iana-token`.
    Name,
    /// `QSAFE-CHAR`, the inside of a quoted parameter value.
    QuotedText,
    /// `SAFE-CHAR`, an unquoted parameter value.
    ParamText,
}

pub open spec fn in_class(c: char, k: CharClass) -> bool {
    match k {
        CharClass::Value => !is_control(c),
        CharClass::Name => is_name_char(c),
        CharClass::QuotedText => is_qsafe_char(c),
        CharClass::ParamText => is_safe_char(c),
    }
}

/// Every character of `s` belongs to the class `k`.
pub open spec fn all_in(s: Seq<char>, k: CharClass) -> bool {
    forall|i: int| 0 <= i < s.len() ==> in_class(#[trigger] s[i], k)
}

/// No character of `s` is a control character.
pub open spec fn no_control(s: Seq<char>) -> bool {
    all_in(s, CharClass::Value)
}

/// `s` may stand as a name (the empty name is left to the caller).
pub open spec fn is_name(s: Seq<char>) -> bool {
    all_in(s, CharClass::Name)
}

/// `s` may stand inside a quoted string.
pub open spec fn is_qsafe(s: Seq<char>) -> bool {
    all_in(s, CharClass::QuotedText)
}

/// `s` may stand as an unquoted parameter value.
pub open spec fn is_paramtext(s: Seq<char>) -> bool {
    all_in(s, CharClass::ParamText)
}

/// Every name character is a quoted-string and a paramtext character, and
/// none is a control character.
pub proof fn lemma_name_classes(s: Seq<char>)
    requires
        is_name(s),
    ensures
        no_control(s),
        is_qsafe(s),
        is_paramtext(s),
{
    assert forall|i: int| 0 <= i < s.len() implies in_class(#[trigger] s[i], CharClass::ParamText)
        && in_class(s[i], CharClass::QuotedText) && in_class(s[i], CharClass::Value) by {
        assert(in_class(s[i], CharClass::Name));
    }
}

/// Neither a quoted-string nor a paramtext character is a control character.
pub proof fn lemma_qsafe_no_control(s: Seq<char>)
    requires
        is_qsafe(s) || is_paramtext(s),
    ensures
        no_control(s),
{
    assert forall|i: int| 0 <= i < s.len() implies in_class(#[trigger] s[i], CharClass::Value) by {
        if is_qsafe(s) {
            assert(in_class(s[i], CharClass::QuotedText));
        } else {
            assert(in_class(s[i], CharClass::ParamText));
        }
    }
}

/// Octets in the UTF-8 encoding of `c`.
pub open spec fn utf8_width(c: char) -> nat {
    if (c as u32) < 0x80 {
        1
    } else if (c as u32) < 0x800 {
        2
    } else if (c as u32) < 0x10000 {
        3
    } else {
        4
    }
}

/// Octets in the UTF-8 encoding of `s`.
pub open spec fn octets(s: Seq<char>) -> nat
    decreases s.len(),
{
    if s.len() == 0 {
        0
    } else {
        octets(s.drop_last()) + utf8_width(s.last())
    }
}

proof fn lemma_octets_prepend(c: char, r: Seq<char>)
    ensures
        octets(seq![c] + r) == utf8_width(c) + octets(r),
    decreases r.len(),
{
    let s = seq![c] + r;
    if r.len() == 0 {
        assert(s.drop_last() =~= Seq::<char>::empty());
        assert(r =~= Seq::<char>::empty());
    } else {
        lemma_octets_prepend(c, r.drop_last());
        assert(s.drop_last() =~= seq![c] + r.drop_last());
        assert(s.last() == r.last());
    }
}

/// `octets` counts the bytes of the UTF-8 encoding.
pub proof fn lemma_octets_utf8(s: Seq<char>)
    ensures
        octets(s) == encode_utf8(s).len(),
    decreases s.len(),
{
    if s.len() == 0 {
        assert(s =~= Seq::<char>::empty());
    } else {
        let c = s[0];
        let r = s.drop_first();
        assert(s =~= seq![c] + r);
        lemma_octets_prepend(c, r);
        lemma_octets_utf8(r);
        char_is_scalar(c);
        assert(encode_scalar(c as u32).len() == utf8_width(c));
    }
}

/// The UTF-8 encoding of two texts one after the other is the encoding of
/// the first, then that of the second: no character's bytes straddle the
/// seam.
pub proof fn lemma_encode_concat(a: Seq<char>, b: Seq<char>)
    ensures
        encode_utf8(a + b) == encode_utf8(a) + encode_utf8(b),
    decreases a.len(),
{
    if a.len() == 0 {
        assert(a + b =~= b);
        assert(encode_utf8(a) =~= Seq::<u8>::empty());
        assert(encode_utf8(a) + encode_utf8(b) =~= encode_utf8(b));
    } else {
        lemma_encode_concat(a.drop_first(), b);
        assert((a + b).drop_first() =~= a.drop_first() + b);
        assert((a + b)[0] == a[0]);
        assert(encode_utf8(a + b) =~= encode_utf8(a) + encode_utf8(b));
    }
}

/// The CRLF that ends a content line.
pub open spec fn crlf() -> Seq<char> {
    seq!['\r', '\n']
}

/// The continuation sequence that folding inserts: CRLF and one SPACE.
pub open spec fn continuation() -> Seq<char> {
    seq!['\r', '\n', ' ']
}

pub fn is_control_exec(c: char) -> (r: bool)
    ensures
        r == is_control(c),
{
    let u = c as u32;
    u <= 0x08 || (0x0a <= u && u <= 0x1f) || u == 0x7f
}

pub fn in_class_exec(c: char, k: CharClass) -> (r: bool)
    ensures
        r == in_class(c, k),
{
    match k {
        CharClass::Value => !is_control_exec(c),
        CharClass::Name => ('a' <= c && c <= 'z') || ('A' <= c && c <= 'Z') || ('0' <= c && c
            <= '9') || c == '-',
        CharClass::QuotedText => !is_control_exec(c) && c != '"',
        CharClass::ParamText => !is_control_exec(c) && c != '"' && c != ';' && c != ':' && c
            != ',',
    }
}

/// Whether every character of `s` belongs to the class `k`.
pub fn all_in_exec(s: &str, k: CharClass) -> (r: bool)
    ensures
        r == all_in(s@, k),
{
    let n = s.unicode_len();
    let mut i: usize = 0;
    while i < n
        invariant
            i <= n,
            n == s@.len(),
            forall|j: int| 0 <= j < i ==> in_class(#[trigger] s@[j], k),
        decreases n - i,
    {
        if !in_class_exec(s.get_char(i), k) {
            return false;
        }
        i += 1;
    }
    true
}

/// Octets in the UTF-8 encoding of `c`.
pub fn char_width(c: char) -> (r: u32)
    ensures
        r as nat == utf8_width(c),
        1 <= r <= 4,
{
    let u = c as u32;
    if u < 0x80 {
        1
    } else if u < 0x800 {
        2
    } else if u < 0x10000 {
        3
    } else {
        4
    }
}

} // verus!
