//! Output checker: decides whether two produced outputs are equivalent
//! under the judge's whitespace-tolerant comparison rule.
//!
//! Two outputs are equivalent when their lines agree after trailing
//! whitespace (carriage returns included) is stripped from each line,
//! ignoring any trailing blank lines, so a missing or extra final
//! newline never separates them.

use vstd::prelude::*;
use vstd::string::StrSliceExecFns;

use crate::strutil::split_char;
use crate::strutil::split_char_spec;
use crate::strutil::str_eq;
use crate::strutil::trim_end_spec;
use crate::strutil::trim_end_str;

verus! {

/// The lines of an output, split at every newline.
pub open spec fn raw_lines(s: Seq<char>) -> Seq<Seq<char>> {
    split_char_spec(s, '\n')
}

/// The lines of an output, each without its trailing whitespace.
pub open spec fn trimmed_lines(s: Seq<char>) -> Seq<Seq<char>> {
    raw_lines(s).map_values(|l: Seq<char>| trim_end_spec(l))
}

/// `ls` without its trailing empty lines.
pub open spec fn drop_trailing_blanks(ls: Seq<Seq<char>>) -> Seq<Seq<char>>
    decreases ls.len(),
{
    if ls.len() == 0 {
        ls
    } else if ls.last().len() == 0 {
        drop_trailing_blanks(ls.drop_last())
    } else {
        ls
    }
}

/// The canonical form an output is compared in: per-line trailing
/// whitespace stripped, trailing blank lines dropped.
pub open spec fn canonical_lines(s: Seq<char>) -> Seq<Seq<char>> {
    drop_trailing_blanks(trimmed_lines(s))
}

/// The judge's comparison rule.
pub open spec fn outputs_equivalent(a: Seq<char>, b: Seq<char>) -> bool {
    canonical_lines(a) == canonical_lines(b)
}

/// The canonical lines of an output, as a vector.
fn canonical_lines_vec(s: &str) -> (r: Vec<String>)
    ensures
        r.deep_view() == canonical_lines(s@),
{
    let raw = split_char(s, '\n');
    let n = raw.len();
    let mut out: Vec<String> = Vec::new();
    let mut idx: usize = 0;
    while idx < n
        invariant
            idx <= n,
            n == raw@.len(),
            raw.deep_view() == raw_lines(s@),
            out@.len() == idx,
            forall|j: int| 0 <= j < idx ==> out.deep_view()[j] == trimmed_lines(s@)[j],
        decreases n - idx,
    {
        let line = trim_end_str(raw[idx].as_str());
        let ghost prev = out.deep_view();
        out.push(line.to_owned());
        proof {
            assert(raw.deep_view()[idx as int] == raw@[idx as int]@);
            assert(trimmed_lines(s@)[idx as int] == trim_end_spec(raw.deep_view()[idx as int]));
            assert forall|j: int| 0 <= j < idx + 1 implies out.deep_view()[j] == trimmed_lines(
                s@,
            )[j] by {
                if j < idx {
                    assert(out.deep_view()[j] == prev[j]);
                    assert(prev[j] == trimmed_lines(s@)[j]);
                } else {
                    assert(out.deep_view()[j] == line@);
                }
            }
        }
        idx = idx + 1;
    }
    proof {
        assert(out.deep_view() =~= trimmed_lines(s@));
    }
    while out.len() > 0 && out[out.len() - 1].as_str().is_empty()
        invariant
            drop_trailing_blanks(trimmed_lines(s@)) == drop_trailing_blanks(out.deep_view()),
        decreases out.len(),
    {
        let ghost before = out.deep_view();
        out.pop();
        proof {
            assert(out.deep_view() =~= before.drop_last());
        }
    }
    proof {
        if out.len() > 0 {
            assert(out.deep_view().last() == out@[out@.len() - 1]@);
        }
        assert(drop_trailing_blanks(out.deep_view()) == out.deep_view());
    }
    out
}

/// Compare two produced outputs, given their full contents.
/// True exactly when they are equivalent under the judge's rule.
pub fn check_files(first: &str, second: &str) -> (r: bool)
    ensures
        r == outputs_equivalent(first@, second@),
{
    let a = canonical_lines_vec(first);
    let b = canonical_lines_vec(second);
    let n = a.len();
    if b.len() != n {
        proof {
            assert(a.deep_view().len() != b.deep_view().len());
        }
        return false;
    }
    let mut i: usize = 0;
    while i < n
        invariant
            i <= n,
            n == a@.len() == b@.len(),
            a.deep_view() == canonical_lines(first@),
            b.deep_view() == canonical_lines(second@),
            forall|j: int| 0 <= j < i ==> a.deep_view()[j] == b.deep_view()[j],
        decreases n - i,
    {
        if !str_eq(a[i].as_str(), b[i].as_str()) {
            proof {
                assert(a.deep_view()[i as int] != b.deep_view()[i as int]);
            }
            return false;
        }
        i = i + 1;
    }
    proof {
        assert(a.deep_view() =~= b.deep_view());
    }
    true
}

/// Outputs whose lines already agree after per-line trailing-whitespace
/// stripping are always equivalent.
pub proof fn lemma_checker_trim_complete(a: Seq<char>, b: Seq<char>)
    requires
        trimmed_lines(a) == trimmed_lines(b),
    ensures
        outputs_equivalent(a, b),
{
}

/// The comparison does not depend on the order of its arguments.
pub proof fn lemma_checker_symmetric(a: Seq<char>, b: Seq<char>)
    ensures
        outputs_equivalent(a, b) == outputs_equivalent(b, a),
{
}

/// [`crate::strutil::find_char`] returns `i` when `c` stands at `i` and
/// nowhere before.
proof fn lemma_find_char_at(s: Seq<char>, c: char, i: int)
    requires
        0 <= i < s.len(),
        s[i] == c,
        forall|j: int| 0 <= j < i ==> s[j] != c,
    ensures
        crate::strutil::find_char(s, c) == i,
{
    crate::strutil::lemma_find_char(s, c);
}

/// Appending a separator to the text appends one empty segment to its
/// splitting.
proof fn lemma_split_push_sep(s: Seq<char>, sep: char)
    ensures
        split_char_spec(s.push(sep), sep) == split_char_spec(s, sep).push(Seq::<char>::empty()),
    decreases s.len(),
{
    let t = s.push(sep);
    crate::strutil::lemma_find_char(s, sep);
    let i = crate::strutil::find_char(s, sep);
    if i < 0 {
        lemma_find_char_at(t, sep, s.len() as int);
        assert(t.subrange(0, s.len() as int) =~= s);
        assert(t.subrange(s.len() as int + 1, t.len() as int) =~= Seq::<char>::empty());
        assert(split_char_spec(t, sep) == seq![t.subrange(0, s.len() as int)] + split_char_spec(
            t.subrange(s.len() as int + 1, t.len() as int),
            sep,
        ));
        assert(split_char_spec(Seq::<char>::empty(), sep) == seq![Seq::<char>::empty()]);
        assert(split_char_spec(s, sep) == seq![s]);
        assert(seq![s] + seq![Seq::<char>::empty()] =~= seq![s].push(Seq::<char>::empty()));
    } else {
        lemma_find_char_at(t, sep, i);
        let s2 = s.subrange(i + 1, s.len() as int);
        lemma_split_push_sep(s2, sep);
        assert(t.subrange(i + 1, t.len() as int) =~= s2.push(sep));
        assert(t.subrange(0, i) =~= s.subrange(0, i));
        assert(split_char_spec(t, sep) == seq![t.subrange(0, i)] + split_char_spec(
            t.subrange(i + 1, t.len() as int),
            sep,
        ));
        assert(split_char_spec(s, sep) == seq![s.subrange(0, i)] + split_char_spec(s2, sep));
        assert(seq![s.subrange(0, i)] + split_char_spec(s2, sep).push(Seq::<char>::empty())
            =~= (seq![s.subrange(0, i)] + split_char_spec(s2, sep)).push(Seq::<char>::empty()));
    }
}

/// Trailing-newline invariance: adding a final newline to an output
/// never changes what it compares equal to.
pub proof fn lemma_trailing_newline(s: Seq<char>)
    ensures
        outputs_equivalent(s.push('\n'), s),
{
    lemma_split_push_sep(s, '\n');
    assert(trimmed_lines(s.push('\n')) =~= trimmed_lines(s).push(Seq::<char>::empty()));
    assert(trimmed_lines(s).push(Seq::<char>::empty()).drop_last() =~= trimmed_lines(s));
    assert(canonical_lines(s.push('\n')) == canonical_lines(s));
}

} // verus!
