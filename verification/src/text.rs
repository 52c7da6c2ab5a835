//! Character-sequence helpers shared by the engine: whitespace trimming and
//! newline splitting, each proved against a direct specification.

use vstd::prelude::*;

verus! {

/// A character counts as whitespace for word trimming.
pub open spec fn is_ws(c: char) -> bool {
    c == ' ' || c == '\t' || c == '\r' || c == '\n'
}

/// Executable test matching [`is_ws`].
pub fn is_ws_char(c: char) -> (r: bool)
    ensures
        r == is_ws(c),
{
    c == ' ' || c == '\t' || c == '\r' || c == '\n'
}

/// `s` with its leading whitespace removed.
pub open spec fn trim_start_spec(s: Seq<char>) -> Seq<char>
    decreases s.len(),
{
    if s.len() > 0 && is_ws(s[0]) {
        trim_start_spec(s.drop_first())
    } else {
        s
    }
}

/// `s` with its trailing whitespace removed.
pub open spec fn trim_end_spec(s: Seq<char>) -> Seq<char>
    decreases s.len(),
{
    if s.len() > 0 && is_ws(s.last()) {
        trim_end_spec(s.drop_last())
    } else {
        s
    }
}

/// `s` with leading and trailing whitespace removed.
pub open spec fn trim_spec(s: Seq<char>) -> Seq<char> {
    trim_end_spec(trim_start_spec(s))
}

proof fn lemma_trim_start_prefix(s: Seq<char>, k: int)
    requires
        0 <= k <= s.len(),
        forall|i: int| 0 <= i < k ==> is_ws(s[i]),
        k == s.len() || !is_ws(s[k]),
    ensures
        trim_start_spec(s) == s.subrange(k, s.len() as int),
    decreases k,
{
    if k == 0 {
        assert(s.subrange(0, s.len() as int) =~= s);
    } else {
        let t = s.drop_first();
        assert(forall|i: int| 0 <= i < k - 1 ==> is_ws(t[i]));
        lemma_trim_start_prefix(t, k - 1);
        assert(t.subrange(k - 1, t.len() as int) =~= s.subrange(k, s.len() as int));
    }
}

proof fn lemma_trim_end_suffix(s: Seq<char>, k: int)
    requires
        0 <= k <= s.len(),
        forall|i: int| k <= i < s.len() ==> is_ws(s[i]),
        k == 0 || !is_ws(s[k - 1]),
    ensures
        trim_end_spec(s) == s.subrange(0, k),
    decreases s.len() - k,
{
    if k == s.len() {
        assert(s.subrange(0, k) =~= s);
    } else {
        let t = s.drop_last();
        lemma_trim_end_suffix(t, k);
        assert(t.subrange(0, k) =~= s.subrange(0, k));
    }
}

proof fn lemma_trim_start_no_leading_ws(s: Seq<char>)
    ensures
        trim_start_spec(s).len() > 0 ==> !is_ws(trim_start_spec(s)[0]),
    decreases s.len(),
{
    if s.len() > 0 && is_ws(s[0]) {
        lemma_trim_start_no_leading_ws(s.drop_first());
    }
}

proof fn lemma_trim_end_no_trailing_ws(s: Seq<char>)
    ensures
        trim_end_spec(s).len() > 0 ==> !is_ws(trim_end_spec(s).last()),
    decreases s.len(),
{
    if s.len() > 0 && is_ws(s.last()) {
        lemma_trim_end_no_trailing_ws(s.drop_last());
    }
}

proof fn lemma_trim_end_keeps_first(s: Seq<char>)
    ensures
        trim_end_spec(s).len() > 0 ==> s.len() > 0 && trim_end_spec(s)[0] == s[0],
    decreases s.len(),
{
    if s.len() > 0 && is_ws(s.last()) {
        lemma_trim_end_keeps_first(s.drop_last());
    }
}

/// Trimming an already trimmed sequence changes nothing.
pub proof fn lemma_trim_idempotent(s: Seq<char>)
    ensures
        trim_spec(trim_spec(s)) == trim_spec(s),
{
    let t = trim_spec(s);
    lemma_trim_start_no_leading_ws(s);
    lemma_trim_end_keeps_first(trim_start_spec(s));
    assert(trim_start_spec(t) == t);
    lemma_trim_end_no_trailing_ws(trim_start_spec(s));
    assert(trim_end_spec(t) == t);
}

/// Copy of `s` with leading and trailing whitespace removed.
pub fn trim(s: &str) -> (r: String)
    ensures
        r@ == trim_spec(s@),
{
    let len = s.unicode_len();
    let mut start: usize = 0;
    while start < len && is_ws_char(s.get_char(start))
        invariant
            start <= len,
            len == s@.len(),
            forall|i: int| 0 <= i < start ==> is_ws(s@[i]),
        decreases len - start,
    {
        start = start + 1;
    }
    proof {
        lemma_trim_start_prefix(s@, start as int);
    }
    let mut end: usize = len;
    while end > start && is_ws_char(s.get_char(end - 1))
        invariant
            start <= end <= len,
            len == s@.len(),
            forall|i: int| end <= i < len ==> is_ws(s@[i]),
        decreases end,
    {
        end = end - 1;
    }
    proof {
        let t = s@.subrange(start as int, len as int);
        assert(forall|i: int| end - start <= i < t.len() ==> is_ws(t[i]));
        lemma_trim_end_suffix(t, end - start);
        assert(t.subrange(0, end - start) =~= s@.subrange(start as int, end as int));
    }
    String::from_str(s.substring_char(start, end))
}

/// Position of the first occurrence of `c` in `s`, or -1 if `c` is absent.
pub open spec fn find_char(s: Seq<char>, c: char) -> int
    decreases s.len(),
{
    if s.len() == 0 {
        -1
    } else if s[0] == c {
        0
    } else if find_char(s.drop_first(), c) == -1 {
        -1
    } else {
        find_char(s.drop_first(), c) + 1
    }
}

proof fn lemma_find_char_props(s: Seq<char>, c: char)
    ensures
        find_char(s, c) == -1 ==> forall|i: int| 0 <= i < s.len() ==> s[i] != c,
        find_char(s, c) != -1 ==> 0 <= find_char(s, c) < s.len() && s[find_char(s, c)] == c,
    decreases s.len(),
{
    if s.len() > 0 && s[0] != c {
        let t = s.drop_first();
        lemma_find_char_props(t, c);
        if find_char(t, c) == -1 {
            assert forall|i: int| 0 <= i < s.len() implies s[i] != c by {
                if i > 0 {
                    assert(s[i] == t[i - 1]);
                }
            }
        }
    }
}

proof fn lemma_find_char_at(s: Seq<char>, c: char, k: int)
    requires
        0 <= k < s.len(),
        s[k] == c,
        forall|i: int| 0 <= i < k ==> s[i] != c,
    ensures
        find_char(s, c) == k,
    decreases k,
{
    if k > 0 {
        let t = s.drop_first();
        assert(forall|i: int| 0 <= i < k - 1 ==> t[i] != c);
        lemma_find_char_at(t, c, k - 1);
    }
}

proof fn lemma_find_char_none(s: Seq<char>, c: char)
    requires
        forall|i: int| 0 <= i < s.len() ==> s[i] != c,
    ensures
        find_char(s, c) == -1,
    decreases s.len(),
{
    if s.len() > 0 {
        let t = s.drop_first();
        assert(forall|i: int| 0 <= i < t.len() ==> t[i] != c);
        lemma_find_char_none(t, c);
    }
}

/// A single carriage return left at the end of a line by a CRLF line ending
/// is dropped with the newline.
pub open spec fn chomp_cr(line: Seq<char>) -> Seq<char> {
    if line.len() > 0 && line.last() == '\r' {
        line.drop_last()
    } else {
        line
    }
}

/// The lines of `s`: split at each newline, a carriage return directly
/// before a newline is dropped with it, and a final fragment without a
/// newline is a line of its own. Empty input gives no lines.
pub open spec fn split_lines_spec(s: Seq<char>) -> Seq<Seq<char>>
    decreases s.len(),
        via split_lines_spec_decreases
{
    if s.len() == 0 {
        Seq::empty()
    } else if find_char(s, '\n') == -1 {
        seq![s]
    } else {
        let k = find_char(s, '\n');
        seq![chomp_cr(s.subrange(0, k))] + split_lines_spec(s.subrange(k + 1, s.len() as int))
    }
}

#[via_fn]
proof fn split_lines_spec_decreases(s: Seq<char>) {
    lemma_find_char_props(s, '\n');
}

pub(crate) proof fn lemma_push_deep_view(pre: Vec<String>, post: Vec<String>, w: String)
    requires
        post@ == pre@.push(w),
    ensures
        post.deep_view() =~= pre.deep_view().push(w@),
{
    assert forall|i: int| 0 <= i < post@.len() implies post.deep_view()[i] == pre.deep_view().push(
        w@,
    )[i] by {
        if i < pre@.len() {
            assert(post@[i] == pre@[i]);
        } else {
            assert(post@[i] == w);
        }
    }
}

pub(crate) proof fn lemma_drop_last_deep_view(pre: Vec<String>, post: Vec<String>)
    requires
        pre@.len() > 0,
        post@ == pre@.subrange(0, pre@.len() - 1),
    ensures
        post.deep_view() =~= pre.deep_view().drop_last(),
{
    assert forall|i: int| 0 <= i < post@.len() implies post.deep_view()[i]
        == pre.deep_view().drop_last()[i] by {
        assert(post@[i] == pre@[i]);
    }
}

/// The input broken into lines, one `String` per line.
pub fn split_lines(s: &str) -> (r: Vec<String>)
    ensures
        r.deep_view() == split_lines_spec(s@),
{
    let len = s.unicode_len();
    let mut out: Vec<String> = Vec::new();
    let mut line_start: usize = 0;
    proof {
        assert(out.deep_view() =~= Seq::<Seq<char>>::empty());
        assert(s@.subrange(0, len as int) =~= s@);
    }
    while line_start < len
        invariant
            line_start <= len,
            len == s@.len(),
            split_lines_spec(s@) == out.deep_view() + split_lines_spec(
                s@.subrange(line_start as int, len as int),
            ),
        decreases len - line_start,
    {
        let ghost pre = out;
        let ghost t = s@.subrange(line_start as int, len as int);
        let mut j: usize = line_start;
        while j < len && s.get_char(j) != '\n'
            invariant
                line_start <= j <= len,
                len == s@.len(),
                forall|i: int| line_start <= i < j ==> s@[i] != '\n',
            decreases len - j,
        {
            j = j + 1;
        }
        if j == len {
            let word = String::from_str(s.substring_char(line_start, len));
            out.push(word);
            proof {
                assert(forall|i: int| 0 <= i < t.len() ==> t[i] != '\n');
                lemma_find_char_none(t, '\n');
                lemma_push_deep_view(pre, out, word);
                assert(split_lines_spec(t) =~= seq![t]);
                assert(out.deep_view() + split_lines_spec(s@.subrange(len as int, len as int))
                    =~= pre.deep_view() + split_lines_spec(t));
            }
            line_start = len;
        } else {
            let end = if j > line_start && s.get_char(j - 1) == '\r' {
                j - 1
            } else {
                j
            };
            let word = String::from_str(s.substring_char(line_start, end));
            out.push(word);
            proof {
                let k = j - line_start;
                assert(t[k] == '\n');
                assert(forall|i: int| 0 <= i < k ==> t[i] != '\n');
                lemma_find_char_at(t, '\n', k);
                let line = t.subrange(0, k);
                assert(line =~= s@.subrange(line_start as int, j as int));
                assert(chomp_cr(line) =~= s@.subrange(line_start as int, end as int)) by {
                    if j > line_start && s@[j - 1] == '\r' {
                        assert(line.last() == '\r');
                        assert(line.drop_last() =~= s@.subrange(line_start as int, end as int));
                    }
                }
                assert(t.subrange(k + 1, t.len() as int) =~= s@.subrange(
                    j + 1,
                    len as int,
                ));
                lemma_push_deep_view(pre, out, word);
                assert(out.deep_view() + split_lines_spec(s@.subrange(j + 1, len as int))
                    =~= pre.deep_view() + split_lines_spec(t));
            }
            line_start = j + 1;
        }
    }
    proof {
        assert(s@.subrange(len as int, len as int) =~= Seq::<char>::empty());
        assert(out.deep_view() + split_lines_spec(Seq::<char>::empty()) =~= out.deep_view());
    }
    out
}

} // verus!
