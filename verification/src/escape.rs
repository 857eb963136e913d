//! Escaping for the MarkdownV2-style rich-text renderer: every character
//! with markup meaning is prefixed with a backslash, so that dynamic text
//! is displayed literally.

use vstd::prelude::*;

verus! {

/// The characters the renderer reserves:
/// `_ * [ ] ( ) ~ ` > # + - = | { } . !`
pub open spec fn is_reserved(c: char) -> bool {
    c == '_' || c == '*' || c == '[' || c == ']' || c == '(' || c == ')' || c == '~' || c == '`'
        || c == '>' || c == '#' || c == '+' || c == '-' || c == '=' || c == '|' || c == '{'
        || c == '}' || c == '.' || c == '!'
}

/// Runtime test for [`is_reserved`].
pub fn reserved(c: char) -> (r: bool)
    ensures
        r == is_reserved(c),
{
    c == '_' || c == '*' || c == '[' || c == ']' || c == '(' || c == ')' || c == '~' || c == '`'
        || c == '>' || c == '#' || c == '+' || c == '-' || c == '=' || c == '|' || c == '{'
        || c == '}' || c == '.' || c == '!'
}

/// `s` with a backslash inserted before every reserved character.
pub open spec fn escape_seq(s: Seq<char>) -> Seq<char>
    decreases s.len(),
{
    if s.len() == 0 {
        s
    } else {
        (if is_reserved(s[0]) {
            seq!['\\', s[0]]
        } else {
            seq![s[0]]
        }) + escape_seq(s.skip(1))
    }
}

/// Escaping distributes over concatenation.
pub proof fn lemma_escape_concat(a: Seq<char>, b: Seq<char>)
    ensures
        escape_seq(a + b) == escape_seq(a) + escape_seq(b),
    decreases a.len(),
{
    if a.len() == 0 {
        assert(a + b =~= b);
        assert(escape_seq(a) + escape_seq(b) =~= escape_seq(b));
    } else {
        assert((a + b).skip(1) =~= a.skip(1) + b);
        lemma_escape_concat(a.skip(1), b);
        assert(escape_seq(a + b) =~= escape_seq(a) + escape_seq(b));
    }
}

/// Every reserved character in an escaped text is preceded by a backslash:
/// no reserved character of the input reaches the renderer raw.
pub proof fn lemma_escape_no_raw_reserved(s: Seq<char>, j: int)
    requires
        0 <= j < escape_seq(s).len(),
        is_reserved(escape_seq(s)[j]),
    ensures
        j > 0 && escape_seq(s)[j - 1] == '\\',
    decreases s.len(),
{
    if s.len() == 0 {
    } else {
        let head = if is_reserved(s[0]) {
            seq!['\\', s[0]]
        } else {
            seq![s[0]]
        };
        let rest = escape_seq(s.skip(1));
        assert(escape_seq(s) == head + rest);
        if j < head.len() {
            assert(j == 1 && is_reserved(s[0]));
            assert(escape_seq(s)[0] == '\\');
        } else {
            let k = j - head.len();
            assert(rest[k] == escape_seq(s)[j]);
            lemma_escape_no_raw_reserved(s.skip(1), k);
            if k == 0 {
            } else {
                assert(escape_seq(s)[j - 1] == rest[k - 1]);
            }
        }
    }
}

/// Append `s` escaped.
pub fn push_escaped(out: &mut Vec<char>, s: &Vec<char>)
    ensures
        final(out)@ == old(out)@ + escape_seq(s@),
{
    let mut i: usize = 0;
    proof {
        assert(s@.take(0) =~= Seq::<char>::empty());
        assert(out@ + escape_seq(s@.take(0)) =~= out@);
    }
    while i < s.len()
        invariant
            i <= s@.len(),
            out@ == old(out)@ + escape_seq(s@.take(i as int)),
        decreases s@.len() - i,
    {
        let c = s[i];
        if reserved(c) {
            out.push('\\');
        }
        out.push(c);
        i = i + 1;
        proof {
            let cc = s@[i - 1];
            assert(s@.take(i as int) =~= s@.take(i - 1) + seq![cc]);
            lemma_escape_concat(s@.take(i - 1), seq![cc]);
            assert(seq![cc].skip(1) =~= Seq::<char>::empty());
            assert(escape_seq(Seq::<char>::empty()) == Seq::<char>::empty());
            assert(escape_seq(seq![cc]) =~= if is_reserved(cc) {
                seq!['\\', cc]
            } else {
                seq![cc]
            });
            assert(out@ =~= old(out)@ + escape_seq(s@.take(i as int)));
        }
    }
    proof {
        assert(s@.take(i as int) =~= s@);
    }
}

/// `s` escaped, as a fresh vector.
pub fn escape_chars(s: &Vec<char>) -> (r: Vec<char>)
    ensures
        r@ == escape_seq(s@),
{
    let mut out: Vec<char> = Vec::new();
    push_escaped(&mut out, s);
    proof {
        assert(out@ =~= escape_seq(s@));
    }
    out
}

/// `s` escaped for the renderer, as a string: the library's counterpart of
/// the renderer's escaping helper.
pub fn escape_markdown(s: &str) -> (r: String)
    ensures
        r@ == escape_seq(s@),
{
    let v = crate::text::str_chars(s);
    let e = escape_chars(&v);
    crate::text::chars_to_string(&e)
}

} // verus!
