//! Verified string helpers: equality, trimming, line splitting and
//! decimal parsing/formatting, all specified over `Seq<char>` views.

use vstd::prelude::*;
use vstd::string::StrSliceExecFns;
use vstd::string::StringExecFns;

verus! {

/// ASCII whitespace, the characters the judge strips from line ends.
pub open spec fn is_wspace(c: char) -> bool {
    c == ' ' || c == '\t' || c == '\r' || c == '\n' || c == '\u{b}' || c == '\u{c}'
}

/// Executable test for [`is_wspace`].
pub fn wspace_char(c: char) -> (r: bool)
    ensures
        r == is_wspace(c),
{
    c == ' ' || c == '\t' || c == '\r' || c == '\n' || c == '\u{b}' || c == '\u{c}'
}

/// Character-sequence equality of two string slices.
pub fn str_eq(a: &str, b: &str) -> (r: bool)
    ensures
        r == (a@ == b@),
{
    let alen = a.unicode_len();
    let blen = b.unicode_len();
    if alen != blen {
        return false;
    }
    let mut i: usize = 0;
    while i < alen
        invariant
            alen == a@.len(),
            blen == b@.len(),
            alen == blen,
            i <= alen,
            forall|j: int| 0 <= j < i ==> a@[j] == b@[j],
        decreases alen - i,
    {
        let ca = a.get_char(i);
        let cb = b.get_char(i);
        if ca != cb {
            proof {
                assert(a@ == b@ ==> a@[i as int] == b@[i as int]);
            }
            return false;
        }
        i = i + 1;
    }
    proof {
        assert(a@ =~= b@);
    }
    true
}

/// The sequence with its trailing whitespace removed.
pub open spec fn trim_end_spec(s: Seq<char>) -> Seq<char>
    decreases s.len(),
{
    if s.len() == 0 {
        s
    } else if is_wspace(s[s.len() - 1]) {
        trim_end_spec(s.drop_last())
    } else {
        s
    }
}

/// The sequence with its leading whitespace removed.
pub open spec fn trim_start_spec(s: Seq<char>) -> Seq<char>
    decreases s.len(),
{
    if s.len() == 0 {
        s
    } else if is_wspace(s[0]) {
        trim_start_spec(s.drop_first())
    } else {
        s
    }
}

/// The sequence with whitespace removed from both ends.
pub open spec fn trim_spec(s: Seq<char>) -> Seq<char> {
    trim_end_spec(trim_start_spec(s))
}

/// Strip trailing whitespace from a string slice.
pub fn trim_end_str<'a>(s: &'a str) -> (r: &'a str)
    ensures
        r@ == trim_end_spec(s@),
{
    let len = s.unicode_len();
    proof {
        assert(s@.subrange(0, s@.len() as int) =~= s@);
    }
    let mut end = len;
    while end > 0
        invariant
            end <= len,
            len == s@.len(),
            trim_end_spec(s@) == trim_end_spec(s@.subrange(0, end as int)),
        ensures
            end <= len,
            trim_end_spec(s@) == s@.subrange(0, end as int),
        decreases end,
    {
        let c = s.get_char(end - 1);
        if !wspace_char(c) {
            break;
        }
        proof {
            assert(s@.subrange(0, end as int).drop_last() =~= s@.subrange(0, end - 1));
        }
        end = end - 1;
    }
    s.substring_char(0, end)
}

/// Strip leading and trailing whitespace from a string slice.
pub fn trim_str<'a>(s: &'a str) -> (r: &'a str)
    ensures
        r@ == trim_spec(s@),
{
    let len = s.unicode_len();
    proof {
        assert(s@.subrange(0, s@.len() as int) =~= s@);
    }
    let mut start: usize = 0;
    while start < len
        invariant
            start <= len,
            len == s@.len(),
            trim_start_spec(s@) == trim_start_spec(s@.subrange(start as int, len as int)),
        ensures
            start <= len,
            trim_start_spec(s@) == s@.subrange(start as int, len as int),
        decreases len - start,
    {
        let c = s.get_char(start);
        if !wspace_char(c) {
            break;
        }
        proof {
            assert(s@.subrange(start as int, len as int).drop_first() =~= s@.subrange(
                start + 1,
                len as int,
            ));
        }
        start = start + 1;
    }
    let tail = s.substring_char(start, len);
    trim_end_str(tail)
}

/// Index of the first occurrence of `c` in `s`, or -1 when absent.
pub open spec fn find_char(s: Seq<char>, c: char) -> int
    decreases s.len(),
{
    if s.len() == 0 {
        -1
    } else if s[0] == c {
        0
    } else {
        let r = find_char(s.drop_first(), c);
        if r < 0 {
            -1
        } else {
            r + 1
        }
    }
}

/// What [`find_char`] returns: a valid first occurrence, or proof of absence.
pub proof fn lemma_find_char(s: Seq<char>, c: char)
    ensures
        find_char(s, c) == -1 ==> forall|j: int| 0 <= j < s.len() ==> s[j] != c,
        find_char(s, c) != -1 ==> {
            &&& 0 <= find_char(s, c) < s.len()
            &&& s[find_char(s, c)] == c
            &&& forall|j: int| 0 <= j < find_char(s, c) ==> s[j] != c
        },
    decreases s.len(),
{
    if s.len() > 0 && s[0] != c {
        lemma_find_char(s.drop_first(), c);
        let r = find_char(s.drop_first(), c);
        if r >= 0 {
            assert forall|j: int| 0 <= j < r + 1 implies s[j] != c by {
                if j > 0 {
                    assert(s.drop_first()[j - 1] == s[j]);
                }
            }
        } else {
            assert forall|j: int| 0 <= j < s.len() implies s[j] != c by {
                if j > 0 {
                    assert(s.drop_first()[j - 1] == s[j]);
                }
            }
        }
    }
}

/// Find the first occurrence of `c` in a string slice.
pub fn find_char_in(s: &str, c: char) -> (r: Option<usize>)
    ensures
        match r {
            Some(i) => find_char(s@, c) == i,
            None => find_char(s@, c) == -1,
        },
{
    let len = s.unicode_len();
    let mut i: usize = 0;
    while i < len
        invariant
            i <= len,
            len == s@.len(),
            forall|j: int| 0 <= j < i ==> s@[j] != c,
        decreases len - i,
    {
        let ci = s.get_char(i);
        if ci == c {
            proof {
                lemma_find_char(s@, c);
            }
            return Some(i);
        }
        i = i + 1;
    }
    proof {
        lemma_find_char(s@, c);
    }
    None
}

/// The segments of `s` between occurrences of `sep`.  Every segment is
/// kept, including a final empty one when `s` ends with `sep`.
pub open spec fn split_char_spec(s: Seq<char>, sep: char) -> Seq<Seq<char>>
    decreases s.len(),
{
    let i = find_char(s, sep);
    if i < 0 {
        seq![s]
    } else if 0 <= i < s.len() {
        seq![s.subrange(0, i)] + split_char_spec(s.subrange(i + 1, s.len() as int), sep)
    } else {
        seq![s]
    }
}

/// Split a string slice at every occurrence of `sep`.
pub fn split_char(s: &str, sep: char) -> (r: Vec<String>)
    ensures
        r.deep_view() == split_char_spec(s@, sep),
{
    let mut out: Vec<String> = Vec::new();
    let mut rest: &str = s;
    proof {
        assert(out.deep_view() + split_char_spec(s@, sep) =~= split_char_spec(s@, sep));
    }
    loop
        invariant_except_break
            split_char_spec(s@, sep) == out.deep_view() + split_char_spec(rest@, sep),
        ensures
            out.deep_view() == split_char_spec(s@, sep),
        decreases rest@.len(),
    {
        proof {
            lemma_find_char(rest@, sep);
        }
        match find_char_in(rest, sep) {
            Some(i) => {
                let len = rest.unicode_len();
                let piece = rest.substring_char(0, i);
                let tail = rest.substring_char(i + 1, len);
                let ghost old_views = out.deep_view();
                out.push(piece.to_owned());
                proof {
                    assert(out.deep_view() =~= old_views + seq![piece@]);
                    assert(split_char_spec(rest@, sep) == seq![piece@] + split_char_spec(
                        tail@,
                        sep,
                    ));
                    assert((old_views + seq![piece@]) + split_char_spec(tail@, sep)
                        =~= old_views + (seq![piece@] + split_char_spec(tail@, sep)));
                }
                rest = tail;
            },
            None => {
                let ghost old_views = out.deep_view();
                out.push(rest.to_owned());
                proof {
                    assert(out.deep_view() =~= old_views + seq![rest@]);
                    assert(out.deep_view() =~= split_char_spec(s@, sep));
                }
                break;
            },
        }
    }
    out
}

/// A decimal digit.
pub open spec fn is_digit(c: char) -> bool {
    '0' <= c && c <= '9'
}

/// Numeric value of a decimal digit.
pub open spec fn digit_val(c: char) -> nat {
    (c as u32 - '0' as u32) as nat
}

/// A sequence of decimal digits (possibly empty).
pub open spec fn all_digits(s: Seq<char>) -> bool {
    forall|i: int| 0 <= i < s.len() ==> is_digit(#[trigger] s[i])
}

/// A non-empty, all-digit sequence.
pub open spec fn is_dec_digits(s: Seq<char>) -> bool {
    s.len() > 0 && all_digits(s)
}

/// Value of a digit sequence read in base ten.
pub open spec fn dec_value(s: Seq<char>) -> nat
    decreases s.len(),
{
    if s.len() == 0 {
        0
    } else {
        dec_value(s.drop_last()) * 10 + digit_val(s.last())
    }
}

/// What parsing an unsigned decimal number returns: the value of the
/// digits (one leading `+` allowed), or nothing when the text is not a
/// number or overflows `u64`.
pub open spec fn parse_u64_spec(s: Seq<char>) -> Option<u64> {
    let body = if s.len() > 0 && s[0] == '+' {
        s.drop_first()
    } else {
        s
    };
    if is_dec_digits(body) && dec_value(body) <= u64::MAX {
        Some(dec_value(body) as u64)
    } else {
        None
    }
}

/// Executable test for [`is_digit`], with the digit's value.
fn digit_of(c: char) -> (r: Option<u8>)
    ensures
        match r {
            Some(d) => is_digit(c) && d == digit_val(c) && d <= 9,
            None => !is_digit(c),
        },
{
    if '0' <= c && c <= '9' {
        Some((c as u32 - '0' as u32) as u8)
    } else {
        None
    }
}

/// Parse an unsigned decimal number, as [`parse_u64_spec`] says.
pub fn parse_u64(s: &str) -> (r: Option<u64>)
    ensures
        r == parse_u64_spec(s@),
{
    let len = s.unicode_len();
    let ghost body: Seq<char> = if s@.len() > 0 && s@[0] == '+' {
        s@.drop_first()
    } else {
        s@
    };
    let mut i: usize = 0;
    if len > 0 && s.get_char(0) == '+' {
        i = 1;
    }
    if i == len {
        // empty body is not a number
        return None;
    }
    let ghost start = i as int;
    let mut value: u64 = 0;
    let mut overflowed: bool = false;
    proof {
        assert(body =~= s@.subrange(start, len as int));
        assert(body.subrange(0, 0) =~= Seq::<char>::empty());
    }
    while i < len
        invariant
            start <= i <= len,
            len == s@.len(),
            start == (if s@.len() > 0 && s@[0] == '+' {
                1int
            } else {
                0int
            }),
            body == (if s@.len() > 0 && s@[0] == '+' {
                s@.drop_first()
            } else {
                s@
            }),
            body == s@.subrange(start, len as int),
            forall|j: int| 0 <= j < i - start ==> is_digit(#[trigger] body[j]),
            !overflowed ==> value == dec_value(body.subrange(0, i - start)),
            overflowed ==> dec_value(body.subrange(0, i - start)) > u64::MAX,
        decreases len - i,
    {
        let c = s.get_char(i);
        proof {
            assert(body[i - start] == s@[i as int]);
        }
        match digit_of(c) {
            None => {
                proof {
                    assert(0 <= i - start < body.len());
                    assert(!is_digit(body[i - start]));
                    assert(!is_dec_digits(body));
                }
                return None;
            },
            Some(d) => {
                proof {
                    assert(body.subrange(0, i - start + 1).drop_last() =~= body.subrange(
                        0,
                        i - start,
                    ));
                    assert(body.subrange(0, i - start + 1).last() == body[i - start]);
                }
                if overflowed || value > (u64::MAX - d as u64) / 10 {
                    overflowed = true;
                } else {
                    value = value * 10 + d as u64;
                }
            },
        }
        i = i + 1;
    }
    proof {
        assert(body.subrange(0, len - start) =~= body);
    }
    if overflowed {
        None
    } else {
        Some(value)
    }
}

/// `n` capped at `u64::MAX`.
pub open spec fn sat_u64(n: nat) -> u64 {
    if n <= u64::MAX {
        n as u64
    } else {
        u64::MAX
    }
}

/// Digit sequences of up to three digits stay below one thousand.
proof fn lemma_dec_value_small(s: Seq<char>)
    requires
        all_digits(s),
    ensures
        s.len() == 0 ==> dec_value(s) == 0,
        s.len() == 1 ==> dec_value(s) <= 9,
        s.len() == 2 ==> dec_value(s) <= 99,
        s.len() == 3 ==> dec_value(s) <= 999,
    decreases s.len(),
{
    if 0 < s.len() <= 3 {
        assert(all_digits(s.drop_last()));
        lemma_dec_value_small(s.drop_last());
        assert(is_digit(s.last()));
        assert(digit_val(s.last()) <= 9);
    }
}

/// Read an all-digit string as a number, capped at `u64::MAX`;
/// nothing when some character is not a digit.
fn dec_value_sat(s: &str) -> (r: Option<u64>)
    ensures
        match r {
            Some(v) => all_digits(s@) && v == sat_u64(dec_value(s@)),
            None => !all_digits(s@),
        },
{
    let len = s.unicode_len();
    let mut value: u64 = 0;
    let mut i: usize = 0;
    proof {
        assert(s@.subrange(0, 0) =~= Seq::<char>::empty());
    }
    while i < len
        invariant
            i <= len,
            len == s@.len(),
            forall|j: int| 0 <= j < i ==> is_digit(#[trigger] s@[j]),
            value == sat_u64(dec_value(s@.subrange(0, i as int))),
        decreases len - i,
    {
        let c = s.get_char(i);
        match digit_of(c) {
            None => {
                return None;
            },
            Some(d) => {
                proof {
                    assert(s@.subrange(0, i + 1).drop_last() =~= s@.subrange(0, i as int));
                    assert(s@.subrange(0, i + 1).last() == s@[i as int]);
                }
                if value > (u64::MAX - d as u64) / 10 {
                    value = u64::MAX;
                } else {
                    value = value * 10 + d as u64;
                }
            },
        }
        i = i + 1;
    }
    proof {
        assert(s@.subrange(0, len as int) =~= s@);
    }
    Some(value)
}

/// Milliseconds contributed by the fractional digits of a seconds value:
/// the first three digits, right-padded with zeros; deeper digits are cut.
pub open spec fn frac_ms(fr: Seq<char>) -> nat {
    if fr.len() >= 3 {
        dec_value(fr.subrange(0, 3))
    } else if fr.len() == 2 {
        dec_value(fr) * 10
    } else if fr.len() == 1 {
        dec_value(fr) * 100
    } else {
        0
    }
}

/// What reading a seconds value as milliseconds returns: for text of the
/// shape `digits`, `digits.digits`, `digits.` or `.digits`, one thousand
/// times the seconds, capped at `u64::MAX`; zero for anything else.
pub open spec fn seconds_to_ms_spec(s: Seq<char>) -> u64 {
    let i = find_char(s, '.');
    let ip = if i < 0 {
        s
    } else {
        s.subrange(0, i)
    };
    let fr = if i < 0 {
        Seq::<char>::empty()
    } else {
        s.subrange(i + 1, s.len() as int)
    };
    if ip.len() + fr.len() > 0 && all_digits(ip) && all_digits(fr) {
        sat_u64((dec_value(ip) * 1000 + frac_ms(fr)) as nat)
    } else {
        0
    }
}

/// Read a decimal seconds value ("0.026") as milliseconds, as
/// [`seconds_to_ms_spec`] says.
pub fn seconds_str_to_ms(s: &str) -> (r: u64)
    ensures
        r == seconds_to_ms_spec(s@),
{
    let len = s.unicode_len();
    let dot = find_char_in(s, '.');
    proof {
        lemma_find_char(s@, '.');
    }
    let ip: &str;
    let fr: &str;
    match dot {
        None => {
            ip = s;
            fr = "";
            proof {
                reveal_strlit("");
                assert(fr@ =~= Seq::<char>::empty());
            }
        },
        Some(i) => {
            ip = s.substring_char(0, i);
            fr = s.substring_char(i + 1, len);
        },
    }
    let ip_len = ip.unicode_len();
    let fr_len = fr.unicode_len();
    if ip_len == 0 && fr_len == 0 {
        return 0;
    }
    let ip_val: u64;
    match dec_value_sat(ip) {
        None => {
            return 0;
        },
        Some(v) => {
            ip_val = v;
        },
    }
    match dec_value_sat(fr) {
        None => {
            return 0;
        },
        Some(_) => {},
    }
    let take: usize = if fr_len >= 3 {
        3
    } else {
        fr_len
    };
    let fr3s = fr.substring_char(0, take);
    proof {
        assert(forall|j: int| 0 <= j < fr3s@.len() ==> fr3s@[j] == fr@[j]);
        assert(all_digits(fr3s@));
        lemma_dec_value_small(fr3s@);
    }
    let fr3: u64;
    match dec_value_sat(fr3s) {
        None => {
            proof {
                assert(false);
            }
            return 0;
        },
        Some(v) => {
            fr3 = v;
        },
    }
    let fr_ms: u64 = if fr_len >= 3 {
        fr3
    } else if fr_len == 2 {
        fr3 * 10
    } else if fr_len == 1 {
        fr3 * 100
    } else {
        0
    };
    proof {
        if fr_len >= 3 {
            assert(fr3s@ =~= fr@.subrange(0, 3));
        } else {
            assert(fr3s@ =~= fr@);
        }
        assert(fr_ms == frac_ms(fr@));
    }
    if ip_val > (u64::MAX - fr_ms) / 1000 {
        u64::MAX
    } else {
        ip_val * 1000 + fr_ms
    }
}

/// Decimal digit character of `d`.
pub open spec fn digit_char(d: nat) -> char {
    if d == 0 {
        '0'
    } else if d == 1 {
        '1'
    } else if d == 2 {
        '2'
    } else if d == 3 {
        '3'
    } else if d == 4 {
        '4'
    } else if d == 5 {
        '5'
    } else if d == 6 {
        '6'
    } else if d == 7 {
        '7'
    } else if d == 8 {
        '8'
    } else {
        '9'
    }
}

/// Decimal writing of `n`, without a sign and without leading zeros.
pub open spec fn dec_str(n: nat) -> Seq<char>
    decreases n,
{
    if n < 10 {
        seq![digit_char(n)]
    } else {
        dec_str(n / 10).push(digit_char(n % 10))
    }
}

/// The one-character string of a decimal digit.
fn digit_str(d: u64) -> (r: &'static str)
    requires
        d < 10,
    ensures
        r@ == seq![digit_char(d as nat)],
{
    if d == 0 {
        proof {
            reveal_strlit("0");
            assert("0"@ =~= seq!['0']);
        }
        "0"
    } else if d == 1 {
        proof {
            reveal_strlit("1");
            assert("1"@ =~= seq!['1']);
        }
        "1"
    } else if d == 2 {
        proof {
            reveal_strlit("2");
            assert("2"@ =~= seq!['2']);
        }
        "2"
    } else if d == 3 {
        proof {
            reveal_strlit("3");
            assert("3"@ =~= seq!['3']);
        }
        "3"
    } else if d == 4 {
        proof {
            reveal_strlit("4");
            assert("4"@ =~= seq!['4']);
        }
        "4"
    } else if d == 5 {
        proof {
            reveal_strlit("5");
            assert("5"@ =~= seq!['5']);
        }
        "5"
    } else if d == 6 {
        proof {
            reveal_strlit("6");
            assert("6"@ =~= seq!['6']);
        }
        "6"
    } else if d == 7 {
        proof {
            reveal_strlit("7");
            assert("7"@ =~= seq!['7']);
        }
        "7"
    } else if d == 8 {
        proof {
            reveal_strlit("8");
            assert("8"@ =~= seq!['8']);
        }
        "8"
    } else {
        proof {
            reveal_strlit("9");
            assert("9"@ =~= seq!['9']);
        }
        "9"
    }
}

/// Write `n` in decimal.
pub fn u64_to_string(n: u64) -> (r: String)
    ensures
        r@ == dec_str(n as nat),
    decreases n,
{
    if n < 10 {
        digit_str(n).to_owned()
    } else {
        let mut front = u64_to_string(n / 10);
        front.append(digit_str(n % 10));
        proof {
            assert(dec_str((n / 10) as nat) + seq![digit_char((n % 10) as nat)] =~= dec_str(
                n as nat,
            ));
        }
        front
    }
}

} // verus!
