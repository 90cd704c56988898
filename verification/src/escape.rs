//! HTML escaping for untrusted text that is interpolated into element
//! content or into double-quoted attribute values.

use vstd::prelude::*;

verus! {

/// What one character contributes to escaped text: the four characters
/// with meaning in markup or in double-quoted attributes become entities,
/// every other character stands for itself.
pub open spec fn escape_char(c: char) -> Seq<char> {
    if c == '&' {
        "&amp;"@
    } else if c == '<' {
        "&lt;"@
    } else if c == '>' {
        "&gt;"@
    } else if c == '"' {
        "&quot;"@
    } else {
        seq![c]
    }
}

/// The escaping of the first `upto` characters of `s`.
pub open spec fn escape_prefix(s: Seq<char>, upto: nat) -> Seq<char>
    decreases upto,
{
    if upto == 0 {
        Seq::empty()
    } else {
        escape_prefix(s, (upto - 1) as nat) + escape_char(s[upto - 1])
    }
}

/// The escaping of a whole text.
pub open spec fn escaped(s: Seq<char>) -> Seq<char> {
    escape_prefix(s, s.len())
}

/// Escapes `&`, `<`, `>` and `"` so that text of any origin can stand in
/// element content and in double-quoted attribute values without breaking
/// out of them.
pub fn escape_html(s: &str) -> (r: String)
    ensures
        r@ == escaped(s@),
{
    let len = s.unicode_len();
    let mut out = String::new();
    assert(out@ =~= escape_prefix(s@, 0));
    let mut i: usize = 0;
    while i < len
        invariant
            len == s@.len(),
            i <= len,
            out@ == escape_prefix(s@, i as nat),
        decreases len - i,
    {
        let c = s.get_char(i);
        if c == '&' {
            out.append("&amp;");
        } else if c == '<' {
            out.append("&lt;");
        } else if c == '>' {
            out.append("&gt;");
        } else if c == '"' {
            out.append("&quot;");
        } else {
            let piece = s.substring_char(i, i + 1);
            assert(piece@ =~= seq![s@[i as int]]);
            out.append(piece);
        }
        assert(out@ =~= escape_prefix(s@, (i + 1) as nat));
        i = i + 1;
    }
    out
}

} // verus!
