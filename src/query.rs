//! Query strings: RFC 3986 percent-escaping of components, and the
//! ordering of parameter names.
use vstd::prelude::*;
use vstd::utf8::encode_utf8;
use crate::text::push_char;

verus! {

/// An RFC 3986 unreserved byte: an ASCII letter or digit, `-`, `.`, `_`
/// or `~`.
pub open spec fn is_unreserved(b: u8) -> bool {
    (65 <= b <= 90) || (97 <= b <= 122) || (48 <= b <= 57) || b == 45 || b == 46 || b == 95 || b == 126
}

/// The uppercase hexadecimal digit for a value below sixteen.
pub open spec fn upper_hex_digit(d: nat) -> char {
    if d < 10 {
        ((48 + d) as u8) as char
    } else {
        ((55 + d) as u8) as char
    }
}

/// One byte of a query component: an unreserved byte as its character,
/// any other as `%` and two uppercase hexadecimal digits.
pub open spec fn escape_byte(b: u8) -> Seq<char> {
    if is_unreserved(b) {
        seq![b as char]
    } else {
        seq!['%', upper_hex_digit((b / 16) as nat), upper_hex_digit((b % 16) as nat)]
    }
}

/// Bytes escaped one by one with `escape_byte`.
pub open spec fn escape_bytes(bytes: Seq<u8>) -> Seq<char>
    decreases bytes.len(),
{
    if bytes.len() == 0 {
        Seq::empty()
    } else {
        escape_bytes(bytes.drop_last()) + escape_byte(bytes.last())
    }
}

/// A query component percent-encoded per RFC 3986: the UTF-8 bytes of the
/// text, escaped.
pub open spec fn uri_escape(s: Seq<char>) -> Seq<char> {
    escape_bytes(encode_utf8(s))
}

/// A character that escaped text may hold: an unreserved one or `%`.
pub open spec fn is_escaped_char(c: char) -> bool {
    ('A' <= c <= 'Z') || ('a' <= c <= 'z') || ('0' <= c <= '9') || c == '-' || c == '.' || c == '_'
        || c == '~' || c == '%'
}

/// Text that holds neither `&` nor `=`, the separators of a query.
pub open spec fn no_separator(s: Seq<char>) -> bool {
    forall|i: int| 0 <= i < s.len() ==> #[trigger] s[i] != '&' && s[i] != '='
}

/// Escaped text holds only unreserved characters and `%`.
pub proof fn lemma_escaped_chars(bytes: Seq<u8>)
    ensures
        forall|i: int| 0 <= i < escape_bytes(bytes).len() ==> is_escaped_char(#[trigger] escape_bytes(bytes)[i]),
        no_separator(escape_bytes(bytes)),
    decreases bytes.len(),
{
    if bytes.len() > 0 {
        lemma_escaped_chars(bytes.drop_last());
        let prev = escape_bytes(bytes.drop_last());
        let e = escape_bytes(bytes);
        assert forall|i: int| 0 <= i < e.len() implies is_escaped_char(#[trigger] e[i]) by {
            if i < prev.len() {
                assert(e[i] == prev[i]);
            }
        }
    }
}

fn upper_hex_char(d: u8) -> (c: char)
    requires
        d < 16,
    ensures
        c == upper_hex_digit(d as nat),
{
    if d < 10 {
        ((48 + d) as u8) as char
    } else {
        ((55 + d) as u8) as char
    }
}

/// Percent-encodes a query component per RFC 3986, byte by byte of its
/// UTF-8 form.
pub fn uri_encode(s: &str) -> (r: String)
    ensures
        r@ == uri_escape(s@),
{
    let bytes = s.as_bytes();
    let mut out = String::new();
    let mut i: usize = 0;
    while i < bytes.len()
        invariant
            i <= bytes@.len(),
            bytes@ == encode_utf8(s@),
            out@ == escape_bytes(bytes@.subrange(0, i as int)),
        decreases bytes@.len() - i,
    {
        let b = bytes[i];
        if (65 <= b && b <= 90) || (97 <= b && b <= 122) || (48 <= b && b <= 57) || b == 45 || b == 46
            || b == 95 || b == 126 {
            push_char(&mut out, b as char);
        } else {
            push_char(&mut out, '%');
            push_char(&mut out, upper_hex_char(b / 16));
            push_char(&mut out, upper_hex_char(b % 16));
        }
        assert(bytes@.subrange(0, i + 1).drop_last() =~= bytes@.subrange(0, i as int));
        assert(out@ =~= escape_bytes(bytes@.subrange(0, i + 1)));
        i = i + 1;
    }
    assert(bytes@.subrange(0, bytes@.len() as int) =~= bytes@);
    out
}

/// A character that may stand in a parameter name unescaped: an ASCII
/// letter or digit, `-`, `_` or `.`.
pub open spec fn is_name_char(c: char) -> bool {
    ('A' <= c <= 'Z') || ('a' <= c <= 'z') || ('0' <= c <= '9') || c == '-' || c == '_' || c == '.'
}

pub open spec fn is_plain_name(s: Seq<char>) -> bool {
    forall|i: int| 0 <= i < s.len() ==> #[trigger] is_name_char(s[i])
}

/// `a` and `b` agree up to position `k`, where `a` has the smaller
/// character code.
pub open spec fn differs_at(a: Seq<char>, b: Seq<char>, k: int) -> bool {
    &&& 0 <= k < a.len()
    &&& k < b.len()
    &&& forall|m: int| 0 <= m < k ==> a[m] == b[m]
    &&& (a[k] as int) < (b[k] as int)
}

/// Strict lexicographic order of character codes.
pub open spec fn lex_less(a: Seq<char>, b: Seq<char>) -> bool {
    (exists|k: int| differs_at(a, b, k)) || (a.len() < b.len() && a == b.subrange(0, a.len() as int))
}

/// One parameter as written in a query: `name=value`, the value escaped.
pub open spec fn pair_text(p: (Seq<char>, Seq<char>)) -> Seq<char> {
    p.0 + seq!['='] + uri_escape(p.1)
}

/// Parameters written in order and joined by `&`.
pub open spec fn join_pairs(ps: Seq<(Seq<char>, Seq<char>)>) -> Seq<char>
    decreases ps.len(),
{
    if ps.len() == 0 {
        Seq::empty()
    } else if ps.len() == 1 {
        pair_text(ps[0])
    } else {
        join_pairs(ps.drop_last()) + seq!['&'] + pair_text(ps.last())
    }
}

pub open spec fn pairs_view(ps: Seq<(String, String)>) -> Seq<(Seq<char>, Seq<char>)> {
    ps.map_values(|p: (String, String)| (p.0@, p.1@))
}

/// Writes the parameters as `name=value`, each value percent-encoded, in the
/// order given and joined by `&`.
pub fn join_query(pairs: &Vec<(String, String)>) -> (r: String)
    ensures
        r@ == join_pairs(pairs_view(pairs@)),
{
    let ghost pv = pairs_view(pairs@);
    let mut s = String::new();
    let mut i: usize = 0;
    while i < pairs.len()
        invariant
            i <= pairs@.len(),
            pv == pairs_view(pairs@),
            s@ == join_pairs(pv.subrange(0, i as int)),
        decreases pairs@.len() - i,
    {
        let p = &pairs[i];
        if i > 0 {
            push_char(&mut s, '&');
        }
        s.append(p.0.as_str());
        push_char(&mut s, '=');
        let value = uri_encode(p.1.as_str());
        s.append(value.as_str());
        proof {
            let next = pv.subrange(0, i + 1);
            assert(next.drop_last() =~= pv.subrange(0, i as int));
            assert(next.last() == (p.0@, p.1@));
            assert(s@ =~= join_pairs(next));
        }
        i = i + 1;
    }
    assert(pv.subrange(0, pairs@.len() as int) =~= pv);
    s
}

} // verus!
