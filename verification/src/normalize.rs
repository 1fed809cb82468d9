//! Tidying of generated source text: trailing white space is cut from every line, runs of
//! blank lines shrink to one, a blank line right before a closing brace goes, and the text
//! ends with one newline.

use vstd::prelude::*;

use crate::model::strings_view;
use crate::text::{chars_of, is_white_space, join_with, lemma_join_push, push_char};

verus! {

// ── Lines ──────────────

/// The pieces of a text between newlines; always at least one (possibly empty) piece.
pub open spec fn split_newlines(s: Seq<char>) -> Seq<Seq<char>>
    decreases s.len(),
{
    if s.len() == 0 {
        seq![Seq::empty()]
    } else {
        let r = split_newlines(s.drop_last());
        if s.last() == '\n' {
            r.push(Seq::empty())
        } else {
            r.update(r.len() - 1, r.last().push(s.last()))
        }
    }
}

pub proof fn lemma_split_newlines_nonempty(s: Seq<char>)
    ensures
        split_newlines(s).len() >= 1,
    decreases s.len(),
{
    if s.len() > 0 {
        lemma_split_newlines_nonempty(s.drop_last());
    }
}

/// The lines of a text: the pieces between newlines, where a final newline ends the last
/// line instead of starting an empty one.
pub open spec fn text_lines(s: Seq<char>) -> Seq<Seq<char>> {
    let r = split_newlines(s);
    if r.last().len() == 0 {
        r.drop_last()
    } else {
        r
    }
}

/// A text with its trailing white space removed.
pub open spec fn trim_end(s: Seq<char>) -> Seq<char>
    decreases s.len(),
{
    if s.len() > 0 && is_white_space(s.last()) {
        trim_end(s.drop_last())
    } else {
        s
    }
}

/// A text with its leading white space removed.
pub open spec fn trim_start(s: Seq<char>) -> Seq<char>
    decreases s.len(),
{
    if s.len() > 0 && is_white_space(s[0]) {
        trim_start(s.drop_first())
    } else {
        s
    }
}

/// A line that holds nothing but a closing brace, up to white space.
pub open spec fn is_close_brace_line(l: Seq<char>) -> bool {
    trim_start(trim_end(l)) == seq!['}']
}

/// The lines with trailing white space removed, where each blank line that follows a blank
/// line is left out.
pub open spec fn squeeze_blank_lines(ls: Seq<Seq<char>>) -> Seq<Seq<char>>
    decreases ls.len(),
{
    if ls.len() == 0 {
        Seq::empty()
    } else {
        let prev = squeeze_blank_lines(ls.drop_last());
        let l = trim_end(ls.last());
        if l.len() == 0 && ls.len() >= 2 && trim_end(ls[ls.len() - 2]).len() == 0 {
            prev
        } else {
            prev.push(l)
        }
    }
}

/// Line `j` stays unless it is blank and the next line is a closing brace.
pub open spec fn keeps_line(ls: Seq<Seq<char>>, j: int) -> bool {
    !(ls[j].len() == 0 && j + 1 < ls.len() && is_close_brace_line(ls[j + 1]))
}

/// The first `k` lines, without those that [`keeps_line`] leaves out.
pub open spec fn drop_blank_before_close(ls: Seq<Seq<char>>, k: nat) -> Seq<Seq<char>>
    decreases k,
{
    if k == 0 {
        Seq::empty()
    } else {
        drop_blank_before_close(ls, (k - 1) as nat) + if keeps_line(ls, k - 1) {
            seq![ls[k - 1]]
        } else {
            Seq::empty()
        }
    }
}

/// The tidied lines of a text.
pub open spec fn normalized_lines(s: Seq<char>) -> Seq<Seq<char>> {
    let squeezed = squeeze_blank_lines(text_lines(s));
    drop_blank_before_close(squeezed, squeezed.len())
}

/// The tidied text: its tidied lines, each ended by a newline.
pub open spec fn normalized_text(s: Seq<char>) -> Seq<char> {
    join_with(normalized_lines(s), "\n"@) + "\n"@
}

// ── Implementation ──────────────

fn push_string(v: &mut Vec<String>, s: String)
    ensures
        strings_view(final(v)@) == strings_view(old(v)@).push(s@),
{
    v.push(s);
    assert(strings_view(v@) =~= strings_view(old(v)@).push(s@));
}

/// The lines of a text.
pub fn lines_of(text: &str) -> (r: Vec<String>)
    ensures
        strings_view(r@) == text_lines(text@),
{
    let chars = chars_of(text);
    let ghost s = text@;
    let mut lines: Vec<String> = Vec::new();
    let mut current = String::new();
    let n = chars.len();
    let mut i: usize = 0;
    assert(s.take(0) =~= Seq::<char>::empty());
    assert(strings_view(lines@).push(current@) =~= split_newlines(s.take(0)));
    while i < n
        invariant
            n == chars@.len(),
            chars@ == s,
            0 <= i <= n,
            strings_view(lines@).push(current@) == split_newlines(s.take(i as int)),
        decreases n - i,
    {
        let c = chars[i];
        let ghost prev = split_newlines(s.take(i as int));
        assert(s.take(i + 1).drop_last() =~= s.take(i as int));
        assert(s.take(i + 1).last() == c);
        proof {
            lemma_split_newlines_nonempty(s.take(i as int));
        }
        if c == '\n' {
            let done = current;
            current = String::new();
            push_string(&mut lines, done);
            assert(strings_view(lines@).push(current@) =~= prev.push(Seq::empty()));
        } else {
            push_char(&mut current, c);
            assert(strings_view(lines@).push(current@) =~= prev.update(
                prev.len() - 1,
                prev.last().push(c),
            ));
        }
        i = i + 1;
    }
    assert(s.take(n as int) =~= s);
    if current.unicode_len() > 0 {
        push_string(&mut lines, current);
    } else {
        assert(strings_view(lines@) =~= strings_view(lines@).push(current@).drop_last());
    }
    lines
}

/// A text with its trailing white space removed.
pub fn trim_end_of(line: &str) -> (r: String)
    ensures
        r@ == trim_end(line@),
{
    let chars = chars_of(line);
    let ghost s = line@;
    let mut e = chars.len();
    assert(s.take(e as int) =~= s);
    while e > 0 && crate::text::char_is_white_space(chars[e - 1])
        invariant
            chars@ == s,
            e <= s.len(),
            trim_end(s.take(e as int)) == trim_end(s),
        decreases e,
    {
        assert(s.take(e as int).drop_last() =~= s.take(e - 1));
        e = e - 1;
    }
    let mut out = String::new();
    let mut i: usize = 0;
    while i < e
        invariant
            chars@ == s,
            e <= s.len(),
            0 <= i <= e,
            out@ == s.take(i as int),
        decreases e - i,
    {
        push_char(&mut out, chars[i]);
        assert(s.take(i + 1) =~= s.take(i as int).push(chars@[i as int]));
        i = i + 1;
    }
    out
}

/// Whether a line holds nothing but a closing brace, up to white space.
pub fn is_close_brace(line: &str) -> (r: bool)
    ensures
        r == is_close_brace_line(line@),
{
    let t = trim_end_of(line);
    let chars = chars_of(t.as_str());
    let ghost s = t@;
    let n = chars.len();
    let mut k: usize = 0;
    assert(s.skip(0) =~= s);
    while k < n && crate::text::char_is_white_space(chars[k])
        invariant
            chars@ == s,
            n == s.len(),
            k <= n,
            trim_start(s.skip(k as int)) == trim_start(s),
        decreases n - k,
    {
        assert(s.skip(k as int).drop_first() =~= s.skip(k + 1));
        k = k + 1;
    }
    if k == n {
        assert(s.skip(k as int) =~= Seq::<char>::empty());
        return false;
    }
    let r = n - k == 1 && chars[k] == '}';
    if r {
        assert(s.skip(k as int) =~= seq!['}']);
    } else {
        assert(s.skip(k as int).len() != 1 || s.skip(k as int)[0] != '}');
    }
    r
}

/// Trailing white space cut from every line, and runs of blank lines shrunk to one.
pub fn squeeze_lines(lines: &Vec<String>) -> (r: Vec<String>)
    ensures
        strings_view(r@) == squeeze_blank_lines(strings_view(lines@)),
{
    let ghost ls = strings_view(lines@);
    let mut out: Vec<String> = Vec::new();
    let mut previous_blank = false;
    let n = lines.len();
    let mut j: usize = 0;
    assert(strings_view(out@) =~= squeeze_blank_lines(ls.take(0)));
    while j < n
        invariant
            n == lines@.len(),
            ls == strings_view(lines@),
            0 <= j <= n,
            strings_view(out@) == squeeze_blank_lines(ls.take(j as int)),
            previous_blank == (j > 0 && trim_end(ls[j - 1]).len() == 0),
        decreases n - j,
    {
        let t = trim_end_of(lines[j].as_str());
        assert(ls.take(j + 1).drop_last() =~= ls.take(j as int));
        assert(ls.take(j + 1).last() == ls[j as int]);
        assert(ls[j as int] == lines@[j as int]@);
        if j >= 1 {
            assert(ls.take(j + 1)[j - 1] == ls[j - 1]);
        }
        if t.unicode_len() == 0 {
            if !previous_blank {
                push_string(&mut out, String::new());
                assert(t@ =~= Seq::<char>::empty());
            }
            previous_blank = true;
        } else {
            push_string(&mut out, t);
            previous_blank = false;
        }
        j = j + 1;
    }
    assert(ls.take(n as int) =~= ls);
    out
}

/// The lines without each blank line that is followed by a closing brace.
pub fn drop_blank_lines_before_close(lines: &Vec<String>) -> (r: Vec<String>)
    ensures
        strings_view(r@) == drop_blank_before_close(strings_view(lines@), lines@.len()),
{
    let ghost ls = strings_view(lines@);
    let mut out: Vec<String> = Vec::new();
    let n = lines.len();
    let mut j: usize = 0;
    while j < n
        invariant
            n == lines@.len(),
            ls == strings_view(lines@),
            0 <= j <= n,
            strings_view(out@) == drop_blank_before_close(ls, j as nat),
        decreases n - j,
    {
        assert(ls[j as int] == lines@[j as int]@);
        let blank = lines[j].unicode_len() == 0;
        let before_close = if blank && j + 1 < n {
            assert(ls[j + 1] == lines@[j + 1]@);
            is_close_brace(lines[j + 1].as_str())
        } else {
            false
        };
        if !(blank && before_close) {
            push_string(&mut out, lines[j].clone());
            assert(strings_view(out@) =~= drop_blank_before_close(ls, (j + 1) as nat));
        } else {
            assert(strings_view(out@) =~= drop_blank_before_close(ls, (j + 1) as nat));
        }
        j = j + 1;
    }
    out
}

/// The lines joined, each ended by a newline.
pub fn join_lines(lines: &Vec<String>) -> (r: String)
    ensures
        r@ == join_with(strings_view(lines@), "\n"@) + "\n"@,
{
    let ghost ls = strings_view(lines@);
    let mut out = String::new();
    let n = lines.len();
    let mut j: usize = 0;
    while j < n
        invariant
            n == lines@.len(),
            ls == strings_view(lines@),
            0 <= j <= n,
            out@ == join_with(ls.take(j as int), "\n"@),
        decreases n - j,
    {
        proof {
            lemma_join_push(ls.take(j as int), "\n"@, ls[j as int]);
            assert(ls.take(j + 1) =~= ls.take(j as int).push(ls[j as int]));
        }
        if j > 0 {
            out.append("\n");
        }
        out.append(lines[j].as_str());
        j = j + 1;
    }
    assert(ls.take(n as int) =~= ls);
    out.append("\n");
    out
}

/// Tidies generated Java source: trailing white space cut, runs of blank lines shrunk to
/// one, a blank line right before a closing brace removed, one final newline.
pub fn normalize_java_code(code: String) -> (r: String)
    ensures
        r@ == normalized_text(code@),
{
    let lines = lines_of(code.as_str());
    let squeezed = squeeze_lines(&lines);
    let kept = drop_blank_lines_before_close(&squeezed);
    join_lines(&kept)
}

// ── What tidy text looks like ──────────────

/// No line ends in white space.
pub open spec fn no_trailing_white_space(ls: Seq<Seq<char>>) -> bool {
    forall|j: int| 0 <= j < ls.len() ==> trim_end(#[trigger] ls[j]) == ls[j]
}

/// No blank line follows a blank line.
pub open spec fn no_double_blank(ls: Seq<Seq<char>>) -> bool {
    forall|j: int| 0 <= j < ls.len() - 1 ==> !((#[trigger] ls[j]).len() == 0 && ls[j + 1].len() == 0)
}

/// No blank line comes right before a closing brace.
pub open spec fn no_blank_before_close(ls: Seq<Seq<char>>) -> bool {
    forall|j: int|
        0 <= j < ls.len() - 1 ==> !((#[trigger] ls[j]).len() == 0 && is_close_brace_line(ls[j + 1]))
}

proof fn lemma_trim_end_idempotent(x: Seq<char>)
    ensures
        trim_end(trim_end(x)) == trim_end(x),
    decreases x.len(),
{
    if x.len() > 0 && is_white_space(x.last()) {
        lemma_trim_end_idempotent(x.drop_last());
    }
}

proof fn lemma_squeeze(ls: Seq<Seq<char>>)
    ensures
        no_trailing_white_space(squeeze_blank_lines(ls)),
        no_double_blank(squeeze_blank_lines(ls)),
        (squeeze_blank_lines(ls).len() > 0) == (ls.len() > 0),
        ls.len() > 0 ==> ((squeeze_blank_lines(ls).last().len() == 0) == (trim_end(ls.last()).len()
            == 0)),
    decreases ls.len(),
{
    if ls.len() > 0 {
        let rest = ls.drop_last();
        lemma_squeeze(rest);
        let prev = squeeze_blank_lines(rest);
        let l = trim_end(ls.last());
        lemma_trim_end_idempotent(ls.last());
        if l.len() == 0 && ls.len() >= 2 && trim_end(ls[ls.len() - 2]).len() == 0 {
            assert(rest.last() == ls[ls.len() - 2]);
        } else {
            let s = prev.push(l);
            assert(squeeze_blank_lines(ls) == s);
            assert forall|j: int| 0 <= j < s.len() implies trim_end(#[trigger] s[j]) == s[j] by {
                if j < prev.len() {
                    assert(s[j] == prev[j]);
                }
            }
            assert forall|j: int| 0 <= j < s.len() - 1 implies !((#[trigger] s[j]).len() == 0 && s[j
                + 1].len() == 0) by {
                if j < prev.len() - 1 {
                    assert(s[j] == prev[j]);
                    assert(s[j + 1] == prev[j + 1]);
                } else {
                    assert(j == prev.len() - 1);
                    if l.len() == 0 {
                        assert(rest.last() == ls[ls.len() - 2]);
                        assert(s[j] == prev.last());
                    }
                }
            }
        }
    }
}

proof fn lemma_drop_blank_before_close(a: Seq<Seq<char>>, k: nat)
    requires
        no_double_blank(a),
        no_trailing_white_space(a),
        k <= a.len(),
    ensures
        no_trailing_white_space(drop_blank_before_close(a, k)),
        no_double_blank(drop_blank_before_close(a, k)),
        no_blank_before_close(drop_blank_before_close(a, k)),
        k >= 1 && drop_blank_before_close(a, k).len() > 0 && drop_blank_before_close(a, k).last().len()
            == 0 ==> keeps_line(a, k - 1) && drop_blank_before_close(a, k).last() == a[k - 1],
        k >= 1 && keeps_line(a, k - 1) ==> drop_blank_before_close(a, k).len() > 0
            && drop_blank_before_close(a, k).last() == a[k - 1],
        k == 0 ==> drop_blank_before_close(a, k).len() == 0,
    decreases k,
{
    if k > 0 {
        let i = (k - 1) as nat;
        lemma_drop_blank_before_close(a, i);
        let d = drop_blank_before_close(a, i);
        if keeps_line(a, i as int) {
            let d2 = d.push(a[i as int]);
            assert(drop_blank_before_close(a, k) =~= d2);
            assert forall|j: int| 0 <= j < d2.len() implies trim_end(#[trigger] d2[j]) == d2[j] by {
                if j < d.len() {
                    assert(d2[j] == d[j]);
                }
            }
            assert forall|j: int| 0 <= j < d2.len() - 1 implies !((#[trigger] d2[j]).len() == 0 && d2[j
                + 1].len() == 0) by {
                if j < d.len() - 1 {
                    assert(d2[j] == d[j]);
                    assert(d2[j + 1] == d[j + 1]);
                } else {
                    assert(d2[j] == d.last());
                    if d.last().len() == 0 && a[i as int].len() == 0 {
                        assert(a[i - 1].len() == 0);
                        assert(a[(i - 1) as int + 1] == a[i as int]);
                    }
                }
            }
            assert forall|j: int| 0 <= j < d2.len() - 1 implies !((#[trigger] d2[j]).len() == 0
                && is_close_brace_line(d2[j + 1])) by {
                if j < d.len() - 1 {
                    assert(d2[j] == d[j]);
                    assert(d2[j + 1] == d[j + 1]);
                } else {
                    assert(d2[j] == d.last());
                    assert(d2[j + 1] == a[i as int]);
                }
            }
        } else {
            assert(drop_blank_before_close(a, k) =~= d);
            if i >= 1 && d.len() > 0 && d.last().len() == 0 {
                assert(a[i - 1].len() == 0);
                assert(a[(i - 1) as int + 1] == a[i as int]);
            }
        }
    }
}

/// Tidied text is tidy: no line ends in white space, no blank line follows a blank line, no
/// blank line comes right before a closing brace, and the text ends with a newline.
pub proof fn lemma_normalized_text_is_tidy(s: Seq<char>)
    ensures
        no_trailing_white_space(normalized_lines(s)),
        no_double_blank(normalized_lines(s)),
        no_blank_before_close(normalized_lines(s)),
        normalized_text(s).len() > 0 && normalized_text(s).last() == '\n',
{
    let squeezed = squeeze_blank_lines(text_lines(s));
    lemma_squeeze(text_lines(s));
    lemma_drop_blank_before_close(squeezed, squeezed.len());
    reveal_strlit("\n");
    let body = join_with(normalized_lines(s), "\n"@);
    assert(normalized_text(s) == body + "\n"@);
    assert(normalized_text(s)[normalized_text(s).len() - 1] == "\n"@[0]);
}

// ── Tidying tidy text changes nothing ──────────────

/// A text without a newline.
pub open spec fn no_newline(x: Seq<char>) -> bool {
    forall|i: int| 0 <= i < x.len() ==> x[i] != '\n'
}

/// Lines without newlines.
pub open spec fn all_without_newline(ls: Seq<Seq<char>>) -> bool {
    forall|j: int| 0 <= j < ls.len() ==> no_newline(#[trigger] ls[j])
}

proof fn lemma_split_pieces_have_no_newline(s: Seq<char>)
    ensures
        all_without_newline(split_newlines(s)),
    decreases s.len(),
{
    if s.len() > 0 {
        lemma_split_pieces_have_no_newline(s.drop_last());
        lemma_split_newlines_nonempty(s.drop_last());
        let r = split_newlines(s.drop_last());
        if s.last() != '\n' {
            let r2 = r.update(r.len() - 1, r.last().push(s.last()));
            assert forall|j: int| 0 <= j < r2.len() implies no_newline(#[trigger] r2[j]) by {
                if j == r.len() - 1 {
                    assert(no_newline(r[j]));
                    assert forall|i: int| 0 <= i < r2[j].len() implies r2[j][i] != '\n' by {
                        if i < r[j].len() {
                            assert(r2[j][i] == r[j][i]);
                        }
                    }
                }
            }
        } else {
            let r2 = r.push(Seq::<char>::empty());
            assert forall|j: int| 0 <= j < r2.len() implies no_newline(#[trigger] r2[j]) by {
                if j < r.len() {
                    assert(r2[j] == r[j]);
                }
            }
        }
    }
}

proof fn lemma_trim_end_keeps_no_newline(x: Seq<char>)
    requires
        no_newline(x),
    ensures
        no_newline(trim_end(x)),
    decreases x.len(),
{
    if x.len() > 0 && is_white_space(x.last()) {
        assert(no_newline(x.drop_last()));
        lemma_trim_end_keeps_no_newline(x.drop_last());
    }
}

proof fn lemma_squeeze_keeps_no_newline(ls: Seq<Seq<char>>)
    requires
        all_without_newline(ls),
    ensures
        all_without_newline(squeeze_blank_lines(ls)),
    decreases ls.len(),
{
    if ls.len() > 0 {
        let rest = ls.drop_last();
        assert(all_without_newline(rest)) by {
            assert forall|j: int| 0 <= j < rest.len() implies no_newline(#[trigger] rest[j]) by {
                assert(rest[j] == ls[j]);
            }
        }
        lemma_squeeze_keeps_no_newline(rest);
        assert(no_newline(ls[ls.len() - 1]));
        lemma_trim_end_keeps_no_newline(ls.last());
        let prev = squeeze_blank_lines(rest);
        let l = trim_end(ls.last());
        let r = squeeze_blank_lines(ls);
        assert forall|j: int| 0 <= j < r.len() implies no_newline(#[trigger] r[j]) by {
            if j < prev.len() {
                assert(r[j] == prev[j]);
            } else {
                assert(r[j] == l);
            }
        }
    }
}

proof fn lemma_drop_keeps_no_newline(a: Seq<Seq<char>>, k: nat)
    requires
        all_without_newline(a),
        k <= a.len(),
    ensures
        all_without_newline(drop_blank_before_close(a, k)),
    decreases k,
{
    if k > 0 {
        lemma_drop_keeps_no_newline(a, (k - 1) as nat);
        let d = drop_blank_before_close(a, (k - 1) as nat);
        let r = drop_blank_before_close(a, k);
        assert forall|j: int| 0 <= j < r.len() implies no_newline(#[trigger] r[j]) by {
            if j < d.len() {
                assert(r[j] == d[j]);
            } else {
                assert(r[j] == a[k - 1]);
            }
        }
    }
}

proof fn lemma_split_without_newline(x: Seq<char>)
    requires
        no_newline(x),
    ensures
        split_newlines(x) == seq![x],
    decreases x.len(),
{
    if x.len() > 0 {
        assert(no_newline(x.drop_last()));
        lemma_split_without_newline(x.drop_last());
        assert(x.drop_last().push(x.last()) =~= x);
        assert(seq![x.drop_last()].update(0, x.drop_last().push(x.last())) =~= seq![x]);
    } else {
        assert(x =~= Seq::<char>::empty());
    }
}

proof fn lemma_split_after_newline(t: Seq<char>, x: Seq<char>)
    requires
        no_newline(x),
    ensures
        split_newlines(t + seq!['\n'] + x) == split_newlines(t).push(x),
    decreases x.len(),
{
    if x.len() == 0 {
        assert(t + seq!['\n'] + x =~= t.push('\n'));
        assert(t.push('\n').drop_last() =~= t);
        assert(x =~= Seq::<char>::empty());
    } else {
        let x0 = x.drop_last();
        assert(no_newline(x0));
        lemma_split_after_newline(t, x0);
        assert((t + seq!['\n'] + x).drop_last() =~= t + seq!['\n'] + x0);
        assert((t + seq!['\n'] + x).last() == x.last());
        let r = split_newlines(t).push(x0);
        assert(x0.push(x.last()) =~= x);
        assert(r.update(r.len() - 1, r.last().push(x.last())) =~= split_newlines(t).push(x));
    }
}

proof fn lemma_split_join(ls: Seq<Seq<char>>)
    requires
        ls.len() > 0,
        all_without_newline(ls),
    ensures
        split_newlines(join_with(ls, seq!['\n'])) == ls,
    decreases ls.len(),
{
    if ls.len() == 1 {
        assert(no_newline(ls[0]));
        lemma_split_without_newline(ls[0]);
        assert(seq![ls[0]] =~= ls);
    } else {
        let rest = ls.drop_last();
        assert(all_without_newline(rest)) by {
            assert forall|j: int| 0 <= j < rest.len() implies no_newline(#[trigger] rest[j]) by {
                assert(rest[j] == ls[j]);
            }
        }
        lemma_split_join(rest);
        assert(no_newline(ls[ls.len() - 1]));
        lemma_split_after_newline(join_with(rest, seq!['\n']), ls.last());
        assert(rest.push(ls.last()) =~= ls);
    }
}

proof fn lemma_lines_of_joined(ls: Seq<Seq<char>>)
    requires
        ls.len() > 0,
        all_without_newline(ls),
    ensures
        text_lines(join_with(ls, "\n"@) + "\n"@) == ls,
{
    reveal_strlit("\n");
    assert("\n"@ =~= seq!['\n']);
    lemma_split_join(ls);
    let t = join_with(ls, seq!['\n']);
    assert(t + seq!['\n'] =~= t.push('\n'));
    assert(t.push('\n').drop_last() =~= t);
    assert(split_newlines(t + seq!['\n']) == ls.push(Seq::<char>::empty()));
    assert(ls.push(Seq::<char>::empty()).drop_last() =~= ls);
}

proof fn lemma_squeeze_of_tidy(ls: Seq<Seq<char>>)
    requires
        no_trailing_white_space(ls),
        no_double_blank(ls),
    ensures
        squeeze_blank_lines(ls) == ls,
    decreases ls.len(),
{
    if ls.len() > 0 {
        let rest = ls.drop_last();
        assert(no_trailing_white_space(rest)) by {
            assert forall|j: int| 0 <= j < rest.len() implies trim_end(#[trigger] rest[j]) == rest[j] by {
                assert(rest[j] == ls[j]);
            }
        }
        assert(no_double_blank(rest)) by {
            assert forall|j: int| 0 <= j < rest.len() - 1 implies !((#[trigger] rest[j]).len() == 0
                && rest[j + 1].len() == 0) by {
                assert(rest[j] == ls[j]);
                assert(rest[j + 1] == ls[j + 1]);
            }
        }
        lemma_squeeze_of_tidy(rest);
        assert(trim_end(ls[ls.len() - 1]) == ls[ls.len() - 1]);
        if ls.len() >= 2 {
            assert(trim_end(ls[ls.len() - 2]) == ls[ls.len() - 2]);
            assert(!(ls[ls.len() - 2].len() == 0 && ls[ls.len() - 2 + 1].len() == 0));
        }
        assert(rest.push(ls.last()) =~= ls);
    }
}

proof fn lemma_drop_of_tidy(ls: Seq<Seq<char>>, k: nat)
    requires
        no_blank_before_close(ls),
        k <= ls.len(),
    ensures
        drop_blank_before_close(ls, k) == ls.take(k as int),
    decreases k,
{
    if k == 0 {
        assert(ls.take(0) =~= Seq::<Seq<char>>::empty());
    } else {
        lemma_drop_of_tidy(ls, (k - 1) as nat);
        let j = k - 1;
        if j < ls.len() - 1 {
            assert(!((ls[j]).len() == 0 && is_close_brace_line(ls[j + 1])));
        }
        assert(keeps_line(ls, j));
        assert(ls.take(j) + seq![ls[j]] =~= ls.take(k as int));
    }
}

/// Tidying is idempotent: tidied text comes out of a second tidying unchanged.
pub proof fn lemma_normalized_text_is_fixed_point(s: Seq<char>)
    ensures
        normalized_text(normalized_text(s)) == normalized_text(s),
{
    reveal_strlit("\n");
    let ls = normalized_lines(s);
    let squeezed = squeeze_blank_lines(text_lines(s));
    lemma_normalized_text_is_tidy(s);
    lemma_split_pieces_have_no_newline(s);
    lemma_split_newlines_nonempty(s);
    let pieces = split_newlines(s);
    assert(all_without_newline(text_lines(s))) by {
        let tl = text_lines(s);
        assert forall|j: int| 0 <= j < tl.len() implies no_newline(#[trigger] tl[j]) by {
            assert(tl[j] == pieces[j]);
        }
    }
    lemma_squeeze_keeps_no_newline(text_lines(s));
    lemma_drop_keeps_no_newline(squeezed, squeezed.len());
    if ls.len() == 0 {
        assert(normalized_text(s) =~= "\n"@);
        assert("\n"@ =~= seq!['\n']);
        let e = Seq::<char>::empty();
        assert(seq!['\n'].drop_last() =~= e);
        assert(split_newlines(e) == seq![e]);
        assert(split_newlines(seq!['\n']) =~= seq![e, e]);
        assert(text_lines(seq!['\n']) =~= seq![e]);
        assert(squeeze_blank_lines(seq![e]) =~= seq![e]) by {
            assert(seq![e].drop_last() =~= Seq::<Seq<char>>::empty());
            assert(squeeze_blank_lines(Seq::<Seq<char>>::empty()) == Seq::<Seq<char>>::empty());
            assert(trim_end(e) == e);
        }
        assert(drop_blank_before_close(seq![e], 0) == Seq::<Seq<char>>::empty());
        assert(keeps_line(seq![e], 0));
        assert(drop_blank_before_close(seq![e], 1) =~= seq![e]);
        assert(normalized_lines(seq!['\n']) =~= seq![e]);
        assert(join_with(seq![e], "\n"@) == e);
    } else {
        lemma_lines_of_joined(ls);
        lemma_squeeze_of_tidy(ls);
        lemma_drop_of_tidy(ls, ls.len());
        assert(ls.take(ls.len() as int) =~= ls);
    }
}


// ── Tidying keeps what the lines say ──────────────

/// The lines of `ls` that are not empty, in order.
pub open spec fn non_empty_lines(ls: Seq<Seq<char>>) -> Seq<Seq<char>>
    decreases ls.len(),
{
    if ls.len() == 0 {
        Seq::empty()
    } else {
        non_empty_lines(ls.drop_last()) + if ls.last().len() > 0 {
            seq![ls.last()]
        } else {
            Seq::empty()
        }
    }
}

/// Each line with its trailing white space removed.
pub open spec fn trimmed_lines(ls: Seq<Seq<char>>) -> Seq<Seq<char>> {
    ls.map_values(|l: Seq<char>| trim_end(l))
}

proof fn lemma_squeeze_keeps_non_empty(ls: Seq<Seq<char>>)
    ensures
        non_empty_lines(squeeze_blank_lines(ls)) == non_empty_lines(trimmed_lines(ls)),
    decreases ls.len(),
{
    if ls.len() == 0 {
        assert(trimmed_lines(ls) =~= Seq::<Seq<char>>::empty());
    } else {
        let rest = ls.drop_last();
        lemma_squeeze_keeps_non_empty(rest);
        let t = trimmed_lines(ls);
        assert(t.drop_last() =~= trimmed_lines(rest));
        assert(t.last() == trim_end(ls.last()));
        let prev = squeeze_blank_lines(rest);
        let l = trim_end(ls.last());
        if l.len() == 0 && ls.len() >= 2 && trim_end(ls[ls.len() - 2]).len() == 0 {
            assert(non_empty_lines(t) =~= non_empty_lines(trimmed_lines(rest)));
        } else {
            assert(prev.push(l).drop_last() =~= prev);
            assert(prev.push(l).last() == l);
        }
    }
}

proof fn lemma_drop_keeps_non_empty(a: Seq<Seq<char>>, k: nat)
    requires
        k <= a.len(),
    ensures
        non_empty_lines(drop_blank_before_close(a, k)) == non_empty_lines(a.take(k as int)),
    decreases k,
{
    if k == 0 {
        assert(a.take(0) =~= Seq::<Seq<char>>::empty());
    } else {
        let i = (k - 1) as nat;
        lemma_drop_keeps_non_empty(a, i);
        let d = drop_blank_before_close(a, i);
        assert(a.take(k as int).drop_last() =~= a.take(i as int));
        assert(a.take(k as int).last() == a[i as int]);
        if keeps_line(a, i as int) {
            let d2 = d + seq![a[i as int]];
            assert(drop_blank_before_close(a, k) == d2);
            assert(d2.drop_last() =~= d);
            assert(d2.last() == a[i as int]);
        } else {
            assert(drop_blank_before_close(a, k) =~= d);
            assert(non_empty_lines(a.take(k as int)) =~= non_empty_lines(a.take(i as int)));
        }
    }
}

/// Tidying keeps every line that holds more than white space, in order, with its trailing
/// white space cut, and adds none: the non-empty tidied lines are the non-empty trimmed
/// lines of the input. The tidied text, split at its newlines before the final one, gives
/// back the tidied lines (one empty line when there are none).
pub proof fn lemma_normalized_text_keeps_lines(s: Seq<char>)
    ensures
        non_empty_lines(normalized_lines(s)) == non_empty_lines(trimmed_lines(text_lines(s))),
        split_newlines(normalized_text(s).drop_last()) == (if normalized_lines(s).len() == 0 {
            seq![Seq::<char>::empty()]
        } else {
            normalized_lines(s)
        }),
{
    let squeezed = squeeze_blank_lines(text_lines(s));
    let ls = normalized_lines(s);
    lemma_squeeze_keeps_non_empty(text_lines(s));
    lemma_drop_keeps_non_empty(squeezed, squeezed.len());
    assert(squeezed.take(squeezed.len() as int) =~= squeezed);
    reveal_strlit("\n");
    assert("\n"@ =~= seq!['\n']);
    let body = join_with(ls, "\n"@);
    assert(normalized_text(s).drop_last() =~= body);
    if ls.len() == 0 {
        assert(body == Seq::<char>::empty());
        assert(split_newlines(Seq::<char>::empty()) == seq![Seq::<char>::empty()]);
    } else {
        lemma_split_pieces_have_no_newline(s);
        lemma_split_newlines_nonempty(s);
        let pieces = split_newlines(s);
        assert(all_without_newline(text_lines(s))) by {
            let tl = text_lines(s);
            assert forall|j: int| 0 <= j < tl.len() implies no_newline(#[trigger] tl[j]) by {
                assert(tl[j] == pieces[j]);
            }
        }
        lemma_squeeze_keeps_no_newline(text_lines(s));
        lemma_drop_keeps_no_newline(squeezed, squeezed.len());
        lemma_split_join(ls);
    }
}

} // verus!
