//! Division of text into lines at each carriage return followed by a line feed.

use vstd::prelude::*;
use vstd::std_specs::iter::IteratorSpec;

verus! {

/// A line break starts at position `i` of `s`.
pub open spec fn break_at(s: Seq<char>, i: int) -> bool {
    0 <= i && i + 1 < s.len() && s[i] == '\r' && s[i + 1] == '\n'
}

/// The number of characters of `s` before its first line break; the whole
/// length of `s` where it has none.
pub open spec fn first_line_len(s: Seq<char>) -> nat
    decreases s.len(),
{
    if s.len() == 0 || break_at(s, 0) {
        0
    } else {
        1 + first_line_len(s.drop_first())
    }
}

/// The lines of `s`, in order. Breaks are not part of any line. Text without a
/// break is one line, so the empty text has one empty line, and text that
/// ends in a break has an empty last line.
pub open spec fn lines(s: Seq<char>) -> Seq<Seq<char>>
    decreases s.len(),
{
    let n = first_line_len(s) as int;
    if n + 2 <= s.len() {
        seq![s.subrange(0, n)] + lines(s.subrange(n + 2, s.len() as int))
    } else {
        seq![s]
    }
}

/// The text that has the lines `all`: the lines in order, with a line break
/// between each two.
pub open spec fn joined(all: Seq<Seq<char>>) -> Seq<char>
    decreases all.len(),
{
    if all.len() == 0 {
        Seq::empty()
    } else if all.len() == 1 {
        all[0]
    } else {
        all[0] + seq!['\r', '\n'] + joined(all.skip(1))
    }
}

/// No break starts anywhere in any of the lines `all`.
pub open spec fn free_of_breaks(all: Seq<Seq<char>>) -> bool {
    forall|i: int, j: int| 0 <= i < all.len() ==> !#[trigger] break_at(all[i], j)
}

/// `first_line_len(s)` is `k` exactly when no break starts before `k` and
/// either one starts at `k` or `k` is the length of `s`.
pub proof fn lemma_first_line_len(s: Seq<char>, k: int)
    requires
        0 <= k <= s.len(),
        forall|j: int| 0 <= j < k ==> !break_at(s, j),
        break_at(s, k) || k == s.len(),
    ensures
        first_line_len(s) == k,
        k < s.len() ==> k + 2 <= s.len(),
    decreases k,
{
    if k == 0 {
    } else {
        let t = s.drop_first();
        assert forall|j: int| 0 <= j < k - 1 implies !break_at(t, j) by {
            assert(!break_at(s, j + 1));
        }
        assert(break_at(t, k - 1) || k - 1 == t.len()) by {
            if break_at(s, k) {
                assert(t[k - 1] == s[k] && t[k] == s[k + 1]);
            }
        }
        lemma_first_line_len(t, k - 1);
    }
}

/// The first line ends at a break or at the end of the text.
pub proof fn lemma_first_line_len_bounds(s: Seq<char>)
    ensures
        first_line_len(s) <= s.len(),
        first_line_len(s) < s.len() ==> break_at(s, first_line_len(s) as int),
        forall|j: int| 0 <= j < first_line_len(s) ==> !break_at(s, j),
    decreases s.len(),
{
    if s.len() == 0 || break_at(s, 0) {
    } else {
        let t = s.drop_first();
        lemma_first_line_len_bounds(t);
        let n = first_line_len(t) as int;
        if n < t.len() {
            assert(t[n] == s[n + 1] && t[n + 1] == s[n + 2]);
        }
        assert forall|j: int| 0 <= j < n + 1 implies !break_at(s, j) by {
            if j > 0 {
                assert(!break_at(t, j - 1));
                assert(t[j - 1] == s[j]);
                if j < t.len() {
                    assert(t[j] == s[j + 1]);
                }
            }
        }
    }
}

/// Every text has a first line, and the lines after it are those of the text
/// that follows the first break.
pub proof fn lemma_lines_unfold(s: Seq<char>)
    ensures
        lines(s).len() >= 1,
        lines(s)[0] == s.subrange(0, first_line_len(s) as int),
        first_line_len(s) + 2 <= s.len() ==> lines(s).skip(1) == lines(
            s.subrange(first_line_len(s) as int + 2, s.len() as int),
        ),
        first_line_len(s) + 2 > s.len() ==> lines(s).len() == 1 && first_line_len(s) == s.len(),
{
    let n = first_line_len(s) as int;
    lemma_first_line_len_bounds(s);
    if n + 2 <= s.len() {
        let tail = lines(s.subrange(n + 2, s.len() as int));
        assert((seq![s.subrange(0, n)] + tail).skip(1) == tail);
    } else {
        assert(s.subrange(0, n) == s);
    }
}

/// Putting the lines of a text together again, with a break between each
/// two, gives the text.
pub proof fn lemma_lines_join(s: Seq<char>)
    ensures
        joined(lines(s)) == s,
    decreases s.len(),
{
    let n = first_line_len(s) as int;
    lemma_lines_unfold(s);
    lemma_first_line_len_bounds(s);
    if n + 2 <= s.len() {
        let rest = s.subrange(n + 2, s.len() as int);
        lemma_lines_join(rest);
        lemma_lines_unfold(rest);
        assert(s.subrange(0, n) + seq!['\r', '\n'] + rest =~= s);
    }
}

/// No line of a text holds a break.
pub proof fn lemma_lines_free_of_breaks(s: Seq<char>)
    ensures
        free_of_breaks(lines(s)),
    decreases s.len(),
{
    let n = first_line_len(s) as int;
    let all = lines(s);
    lemma_lines_unfold(s);
    lemma_first_line_len_bounds(s);
    assert forall|j: int| !break_at(all[0], j) by {
        if break_at(all[0], j) {
            assert(all[0][j] == s[j] && all[0][j + 1] == s[j + 1]);
            assert(break_at(s, j));
        }
    }
    if n + 2 <= s.len() {
        let rest = s.subrange(n + 2, s.len() as int);
        lemma_lines_free_of_breaks(rest);
        assert forall|i: int, j: int| 0 <= i < all.len() implies !#[trigger] break_at(
            all[i],
            j,
        ) by {
            if i > 0 {
                assert(all[i] == all.skip(1)[i - 1]);
            }
        }
    }
}

/// The lines of a text are the only way to cut it at breaks into pieces that
/// hold no break: whatever pieces without a break give `s` when joined are
/// the lines of `s`.
pub proof fn lemma_lines_unique(all: Seq<Seq<char>>, s: Seq<char>)
    requires
        all.len() >= 1,
        free_of_breaks(all),
        joined(all) == s,
    ensures
        all == lines(s),
    decreases all.len(),
{
    let first = all[0];
    if all.len() == 1 {
        assert forall|j: int| 0 <= j < s.len() implies !break_at(s, j) by {
            assert(!break_at(all[0], j));
        }
        lemma_first_line_len(s, s.len() as int);
        assert(all =~= seq![s]);
    } else {
        let others = all.skip(1);
        let rest = joined(others);
        let n = first.len() as int;
        assert(s == first + seq!['\r', '\n'] + rest);
        assert(s[n] == '\r' && s[n + 1] == '\n');
        assert forall|j: int| 0 <= j < n implies !break_at(s, j) by {
            assert(!break_at(all[0], j));
            assert(s[j] == first[j]);
            if j + 1 < n {
                assert(s[j + 1] == first[j + 1]);
            }
        }
        lemma_first_line_len(s, n);
        assert(s.subrange(0, n) =~= first);
        assert(s.subrange(n + 2, s.len() as int) =~= rest);
        assert forall|i: int, j: int| 0 <= i < others.len() implies !#[trigger] break_at(
            others[i],
            j,
        ) by {
            assert(others[i] == all[i + 1]);
        }
        lemma_lines_unique(others, rest);
        assert(all =~= seq![first] + others);
    }
}

/// Counts the characters of `text` before its first line break, given the
/// number of characters of `text`.
fn first_line_length(text: &str, total: usize) -> (n: usize)
    requires
        total == text@.len(),
    ensures
        n == first_line_len(text@),
        n == total || n + 2 <= total,
{
    let mut chars = text.chars();
    let mut seen: usize = 0;
    let mut after_cr = false;
    loop
        invariant
            total == text@.len(),
            chars.obeys_prophetic_iter_laws(),
            chars.remaining() == text@.skip(seen as int),
            seen <= total,
            after_cr ==> seen >= 1 && text@[seen - 1] == '\r',
            forall|j: int| 0 <= j < seen - 1 ==> !break_at(text@, j),
            !after_cr ==> forall|j: int| 0 <= j < seen ==> !break_at(text@, j),
        decreases total - seen,
    {
        match chars.next() {
            None => {
                proof {
                    lemma_first_line_len(text@, seen as int);
                }
                return seen;
            },
            Some(c) => {
                if after_cr && c == '\n' {
                    proof {
                        lemma_first_line_len(text@, seen - 1);
                    }
                    return seen - 1;
                }
                after_cr = c == '\r';
                seen = seen + 1;
            },
        }
    }
}

/// Splits `text` at its first line break: the first line, and the text after
/// the break where there is one.
pub fn split_first_line<'a>(text: &'a str) -> (parts: (&'a str, Option<&'a str>))
    ensures
        parts.0@ == text@.subrange(0, first_line_len(text@) as int),
        parts.1 is Some <==> first_line_len(text@) + 2 <= text@.len(),
        parts.1 matches Some(rest) ==> rest@ == text@.subrange(
            first_line_len(text@) as int + 2,
            text@.len() as int,
        ),
{
    let total = text.unicode_len();
    let n = first_line_length(text, total);
    if n == total {
        (text, None)
    } else {
        (text.substring_char(0, n), Some(text.substring_char(n + 2, total)))
    }
}

/// Counts the characters of line `row` of `text`; `None` where `text` has no
/// such line.
pub fn line_length(text: &str, row: usize) -> (len: Option<usize>)
    ensures
        match len {
            Some(n) => row < lines(text@).len() && n == lines(text@)[row as int].len(),
            None => row >= lines(text@).len(),
        },
{
    let mut rest = text;
    let mut skipped: usize = 0;
    loop
        invariant
            skipped <= row,
            lines(text@).skip(skipped as int) == lines(rest@),
            skipped + lines(rest@).len() == lines(text@).len(),
        decreases row - skipped,
    {
        proof {
            lemma_lines_unfold(rest@);
        }
        let (line, tail) = split_first_line(rest);
        if skipped == row {
            return Some(line.unicode_len());
        }
        match tail {
            None => {
                return None;
            },
            Some(after) => {
                rest = after;
                skipped = skipped + 1;
            },
        }
    }
}

} // verus!
