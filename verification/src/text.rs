//! Text building blocks: sequences of characters, decimal numbers, whitespace and lines.

use vstd::prelude::*;

verus! {

/// The concatenation of all parts, in order.
pub open spec fn concat_all<A>(parts: Seq<Seq<A>>) -> Seq<A>
    decreases parts.len(),
{
    if parts.len() == 0 {
        Seq::empty()
    } else {
        concat_all(parts.drop_last()) + parts.last()
    }
}

/// The parts, in order, with `sep` between each two neighbours.
pub open spec fn join_with(parts: Seq<Seq<char>>, sep: Seq<char>) -> Seq<char>
    decreases parts.len(),
{
    if parts.len() == 0 {
        Seq::empty()
    } else if parts.len() == 1 {
        parts[0]
    } else {
        join_with(parts.drop_last(), sep) + sep + parts.last()
    }
}

pub proof fn lemma_concat_push<A>(parts: Seq<Seq<A>>, x: Seq<A>)
    ensures
        concat_all(parts.push(x)) == concat_all(parts) + x,
{
    assert(parts.push(x).drop_last() =~= parts);
}

pub proof fn lemma_join_push(parts: Seq<Seq<char>>, sep: Seq<char>, x: Seq<char>)
    ensures
        join_with(parts.push(x), sep) == (if parts.len() == 0 {
            x
        } else {
            join_with(parts, sep) + sep + x
        }),
{
    assert(parts.push(x).drop_last() =~= parts);
    if parts.len() == 0 {
        assert(parts.push(x)[0] == x);
    }
}

/// `t` occurs in `s`.
pub open spec fn contains_text(s: Seq<char>, t: Seq<char>) -> bool {
    exists|a: Seq<char>, b: Seq<char>| s == a + t + b
}

/// `s` begins with `t`.
pub open spec fn starts_with_text(s: Seq<char>, t: Seq<char>) -> bool {
    exists|b: Seq<char>| s == t + b
}

/// `s` ends with `t`.
pub open spec fn ends_with_text(s: Seq<char>, t: Seq<char>) -> bool {
    exists|a: Seq<char>| s == a + t
}

/// A text holds what stands in it between two others.
pub proof fn lemma_contains_middle(a: Seq<char>, t: Seq<char>, b: Seq<char>)
    ensures
        contains_text(a + t + b, t),
{
    assert(a + t + b == a + t + b);
}

/// A text holds what a part of it holds.
pub proof fn lemma_contains_trans(s: Seq<char>, t: Seq<char>, u: Seq<char>)
    requires
        contains_text(s, t),
        contains_text(t, u),
    ensures
        contains_text(s, u),
{
    let (a, b) = choose|a: Seq<char>, b: Seq<char>| s == a + t + b;
    let (c, d) = choose|c: Seq<char>, d: Seq<char>| t == c + u + d;
    assert(s =~= (a + c) + u + (d + b));
}

/// The concatenation of parts holds each of them.
pub proof fn lemma_concat_all_contains(parts: Seq<Seq<char>>, i: int)
    requires
        0 <= i < parts.len(),
    ensures
        contains_text(concat_all(parts), parts[i]),
    decreases parts.len(),
{
    let front = concat_all(parts.drop_last());
    if i == parts.len() - 1 {
        assert(concat_all(parts) =~= front + parts[i] + Seq::<char>::empty());
    } else {
        lemma_concat_all_contains(parts.drop_last(), i);
        assert(parts.drop_last()[i] == parts[i]);
        assert(concat_all(parts) =~= Seq::<char>::empty() + front + parts.last());
        lemma_contains_trans(concat_all(parts), front, parts[i]);
    }
}

/// No `c1` in `s` is directly followed by `c2`.
pub open spec fn lacks_pair(s: Seq<char>, c1: char, c2: char) -> bool {
    forall|p: int| 0 <= p < s.len() - 1 ==> !(#[trigger] s[p] == c1 && s[p + 1] == c2)
}

/// A non-empty text without the pair `c1 c2` that neither begins with `c2` nor ends with
/// `c1`: whatever stands on either side of it, no such pair spans its edges.
pub open spec fn sealed_text(t: Seq<char>, c1: char, c2: char) -> bool {
    &&& lacks_pair(t, c1, c2)
    &&& t.len() > 0
    &&& t[0] != c2
    &&& t[t.len() - 1] != c1
}

/// Appending a text that may end with `c1` to one without the pair, where the seam cannot
/// form it.
pub proof fn lemma_lacks_pair_add(a: Seq<char>, x: Seq<char>, c1: char, c2: char)
    requires
        lacks_pair(a, c1, c2),
        lacks_pair(x, c1, c2),
        a.len() == 0 || x.len() == 0 || a[a.len() - 1] != c1 || x[0] != c2,
    ensures
        lacks_pair(a + x, c1, c2),
{
    let s = a + x;
    assert forall|p: int| 0 <= p < s.len() - 1 implies !(#[trigger] s[p] == c1 && s[p + 1] == c2) by {
        if p + 1 < a.len() {
            assert(s[p] == a[p] && s[p + 1] == a[p + 1]);
        } else if p >= a.len() {
            assert(s[p] == x[p - a.len()] && s[p + 1] == x[p - a.len() + 1]);
        } else {
            assert(s[p] == a[a.len() - 1] && s[p + 1] == x[0]);
        }
    }
}

/// Appending a sealed text keeps the pair out and leaves a text that does not end with `c1`.
pub proof fn lemma_lacks_pair_seal(a: Seq<char>, t: Seq<char>, c1: char, c2: char)
    requires
        lacks_pair(a, c1, c2),
        sealed_text(t, c1, c2),
    ensures
        lacks_pair(a + t, c1, c2),
        (a + t)[(a + t).len() - 1] != c1,
{
    lemma_lacks_pair_add(a, t, c1, c2);
    assert((a + t)[(a + t).len() - 1] == t[t.len() - 1]);
}

/// A text without the pair `c1 c2` holds no text that has it.
pub proof fn lemma_lacks_pair_excludes(s: Seq<char>, t: Seq<char>, c1: char, c2: char, j: int)
    requires
        lacks_pair(s, c1, c2),
        0 <= j,
        j + 1 < t.len(),
        t[j] == c1,
        t[j + 1] == c2,
    ensures
        !contains_text(s, t),
{
    if contains_text(s, t) {
        let (a, b) = choose|a: Seq<char>, b: Seq<char>| s == a + t + b;
        assert(s[a.len() + j] == (a + t + b)[a.len() + j]);
        assert((a + t + b)[a.len() + j] == t[j]);
        assert(s[a.len() + j + 1] == (a + t + b)[a.len() + j + 1]);
        assert((a + t + b)[a.len() + j + 1] == t[j + 1]);
    }
}

/// Appends one character to a string.
#[verifier::external_body]
pub(crate) fn push_char(s: &mut String, c: char)
    ensures
        final(s)@ == old(s)@.push(c),
{
    s.push(c)
}

/// The decimal digit character of `d`.
pub open spec fn digit_char(d: nat) -> char {
    if d == 0 {
        '0'
    } else if d == 1 {
        '1'
    } else if d == 2 {
        '2'
    } else if d == 3 {
        '3'
    } else if d == 4 {
        '4'
    } else if d == 5 {
        '5'
    } else if d == 6 {
        '6'
    } else if d == 7 {
        '7'
    } else if d == 8 {
        '8'
    } else {
        '9'
    }
}

/// The decimal notation of `n`, without leading zeros.
pub open spec fn decimal(n: nat) -> Seq<char>
    decreases n,
{
    if n < 10 {
        seq![digit_char(n)]
    } else {
        decimal(n / 10).push(digit_char(n % 10))
    }
}

fn digit(d: u128) -> (c: char)
    requires
        d < 10,
    ensures
        c == digit_char(d as nat),
{
    if d == 0 {
        '0'
    } else if d == 1 {
        '1'
    } else if d == 2 {
        '2'
    } else if d == 3 {
        '3'
    } else if d == 4 {
        '4'
    } else if d == 5 {
        '5'
    } else if d == 6 {
        '6'
    } else if d == 7 {
        '7'
    } else if d == 8 {
        '8'
    } else {
        '9'
    }
}

/// Appends the decimal notation of `n`.
pub fn append_decimal(out: &mut String, n: u128)
    ensures
        final(out)@ == old(out)@ + decimal(n as nat),
    decreases n,
{
    if n < 10 {
        push_char(out, digit(n));
    } else {
        append_decimal(out, n / 10);
        push_char(out, digit(n % 10));
    }
}

/// The decimal notation of `n`.
pub fn decimal_string(n: u128) -> (r: String)
    ensures
        r@ == decimal(n as nat),
{
    let mut out = String::new();
    append_decimal(&mut out, n);
    out
}

/// Characters with the Unicode `White_Space` property (what `char::is_whitespace` accepts).
pub open spec fn is_white_space(c: char) -> bool {
    ('\u{9}' <= c && c <= '\u{d}') || c == ' ' || c == '\u{85}' || c == '\u{a0}' || c == '\u{1680}'
        || ('\u{2000}' <= c && c <= '\u{200a}') || c == '\u{2028}' || c == '\u{2029}' || c
        == '\u{202f}' || c == '\u{205f}' || c == '\u{3000}'
}

/// Whether `c` is white space.
pub fn char_is_white_space(c: char) -> (r: bool)
    ensures
        r == is_white_space(c),
{
    ('\u{9}' <= c && c <= '\u{d}') || c == ' ' || c == '\u{85}' || c == '\u{a0}' || c == '\u{1680}'
        || ('\u{2000}' <= c && c <= '\u{200a}') || c == '\u{2028}' || c == '\u{2029}' || c
        == '\u{202f}' || c == '\u{205f}' || c == '\u{3000}'
}

/// A text that is empty once white space is trimmed from both ends.
pub open spec fn is_blank(s: Seq<char>) -> bool {
    forall|i: int| 0 <= i < s.len() ==> is_white_space(#[trigger] s[i])
}

/// Whether `s` is empty once trimmed.
pub fn str_is_blank(s: &str) -> (r: bool)
    ensures
        r == is_blank(s@),
{
    let n = s.unicode_len();
    let mut i: usize = 0;
    while i < n
        invariant
            n == s@.len(),
            0 <= i <= n,
            forall|j: int| 0 <= j < i ==> is_white_space(#[trigger] s@[j]),
        decreases n - i,
    {
        if !char_is_white_space(s.get_char(i)) {
            return false;
        }
        i = i + 1;
    }
    true
}

/// Whether two texts are equal.
pub fn str_equal(a: &str, b: &str) -> (r: bool)
    ensures
        r == (a@ == b@),
{
    let n = a.unicode_len();
    if n != b.unicode_len() {
        return false;
    }
    let mut i: usize = 0;
    while i < n
        invariant
            n == a@.len(),
            n == b@.len(),
            0 <= i <= n,
            forall|j: int| 0 <= j < i ==> a@[j] == b@[j],
        decreases n - i,
    {
        if a.get_char(i) != b.get_char(i) {
            return false;
        }
        i = i + 1;
    }
    assert(a@ =~= b@);
    true
}

/// `s` with `from` replaced by `to` everywhere.
pub open spec fn replace_char(s: Seq<char>, from: char, to: char) -> Seq<char> {
    s.map_values(|c: char| if c == from { to } else { c })
}

/// `s` with `from` replaced by `to` everywhere.
pub fn replace_char_in(s: &str, from: char, to: char) -> (r: String)
    ensures
        r@ == replace_char(s@, from, to),
{
    let n = s.unicode_len();
    let mut out = String::new();
    let mut i: usize = 0;
    while i < n
        invariant
            n == s@.len(),
            0 <= i <= n,
            out@ =~= replace_char(s@.take(i as int), from, to),
        decreases n - i,
    {
        let c = s.get_char(i);
        if c == from {
            push_char(&mut out, to);
        } else {
            push_char(&mut out, c);
        }
        assert(s@.take(i + 1) =~= s@.take(i as int).push(c));
        i = i + 1;
    }
    assert(s@.take(n as int) =~= s@);
    out
}

/// What `{:?}` writes for a string: the string quoted, with characters escaped as
/// `char::escape_debug` escapes them.
pub uninterp spec fn str_debug(s: Seq<char>) -> Seq<char>;

/// `format!("{:?}", s)` of std: the debug notation of a string.
#[verifier::external_body]
fn debug_quote(s: &str) -> (r: String)
    ensures
        r@ == str_debug(s@),
{
    format!("{:?}", s)
}

/// What `{:?}` writes for a list of strings: `[` and `]` round the quoted items, separated
/// by `, `.
pub open spec fn debug_list(items: Seq<Seq<char>>) -> Seq<char> {
    "["@ + join_with(items.map_values(|s: Seq<char>| str_debug(s)), ", "@) + "]"@
}

/// Appends the debug notation of a list of strings.
pub fn append_debug_list(out: &mut String, items: &Vec<String>)
    ensures
        final(out)@ == old(out)@ + debug_list(items@.map_values(|s: String| s@)),
{
    let ghost start = out@;
    let ghost views = items@.map_values(|s: String| s@);
    let ghost quoted = views.map_values(|s: Seq<char>| str_debug(s));
    out.append("[");
    let n = items.len();
    let mut i: usize = 0;
    while i < n
        invariant
            n == items@.len(),
            0 <= i <= n,
            views == items@.map_values(|s: String| s@),
            quoted == views.map_values(|s: Seq<char>| str_debug(s)),
            out@ == start + "["@ + join_with(quoted.take(i as int), ", "@),
        decreases n - i,
    {
        let q = debug_quote(items[i].as_str());
        proof {
            lemma_join_push(quoted.take(i as int), ", "@, q@);
            assert(quoted.take(i + 1) =~= quoted.take(i as int).push(q@));
        }
        if i > 0 {
            out.append(", ");
        }
        out.append(q.as_str());
        i = i + 1;
    }
    assert(quoted.take(n as int) =~= quoted);
    out.append("]");
}

/// The characters of a text, in order.
pub fn chars_of(s: &str) -> (r: Vec<char>)
    ensures
        r@ == s@,
{
    let mut out: Vec<char> = Vec::new();
    for c in it: s.chars()
        invariant
            out@ == it.seq().take(it.index() as int),
            it.seq() == s@,
    {
        out.push(c);
    }
    out
}

} // verus!
