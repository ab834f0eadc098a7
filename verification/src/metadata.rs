//! Sandbox telemetry: the flat `key: value` measurement file the sandbox
//! launcher writes after each run, parsed into typed accessors.
//!
//! Missing or unparseable numeric fields read as zero: the classifier
//! must tolerate partial telemetry, so leniency is deliberate here.

use vstd::prelude::*;
use vstd::string::StrSliceExecFns;

use crate::strutil::find_char;
use crate::strutil::find_char_in;
use crate::strutil::lemma_find_char;
use crate::strutil::parse_u64_spec;
use crate::strutil::parse_u64;
use crate::strutil::seconds_str_to_ms;
use crate::strutil::seconds_to_ms_spec;
use crate::strutil::split_char;
use crate::strutil::split_char_spec;
use crate::strutil::str_eq;
use crate::strutil::trim_spec;
use crate::strutil::trim_str;

verus! {

/// Telemetry of one sandbox run: key-value pairs in file order.
pub struct Telemetry {
    pub entries: Vec<(String, String)>,
}

/// The entry a `key: value` line contributes: one pair when the line has
/// a colon (first colon wins, both sides trimmed), nothing otherwise.
pub open spec fn line_entry(l: Seq<char>) -> Seq<(Seq<char>, Seq<char>)> {
    let i = find_char(l, ':');
    if i < 0 {
        Seq::empty()
    } else {
        seq![(trim_spec(l.subrange(0, i)), trim_spec(l.subrange(i + 1, l.len() as int)))]
    }
}

/// The entries contributed by a sequence of lines, in order.
pub open spec fn lines_entries(lines: Seq<Seq<char>>) -> Seq<(Seq<char>, Seq<char>)>
    decreases lines.len(),
{
    if lines.len() == 0 {
        Seq::empty()
    } else {
        lines_entries(lines.drop_last()) + line_entry(lines.last())
    }
}

/// The entries of a whole telemetry file.
pub open spec fn parse_entries(s: Seq<char>) -> Seq<(Seq<char>, Seq<char>)> {
    lines_entries(split_char_spec(s, '\n'))
}

/// Value of `key` among `es`, the latest entry winning, as repeated map
/// insertion would have it.
pub open spec fn lookup_entries(es: Seq<(Seq<char>, Seq<char>)>, key: Seq<char>) -> Option<
    Seq<char>,
>
    decreases es.len(),
{
    if es.len() == 0 {
        None
    } else if es.last().0 == key {
        Some(es.last().1)
    } else {
        lookup_entries(es.drop_last(), key)
    }
}

impl Telemetry {
    /// The entries as sequences of characters.
    pub open spec fn view_entries(&self) -> Seq<(Seq<char>, Seq<char>)> {
        Seq::new(self.entries@.len(), |i: int| (self.entries@[i].0@, self.entries@[i].1@))
    }

    /// Value of `key` in this telemetry.
    pub open spec fn spec_lookup(&self, key: Seq<char>) -> Option<Seq<char>> {
        lookup_entries(self.view_entries(), key)
    }

    /// Look `key` up, the latest entry winning.
    pub fn get(&self, key: &str) -> (r: Option<String>)
        ensures
            match r {
                Some(v) => self.spec_lookup(key@) == Some(v@),
                None => self.spec_lookup(key@) is None,
            },
    {
        let mut i = self.entries.len();
        proof {
            assert(self.view_entries().subrange(0, i as int) =~= self.view_entries());
        }
        while i > 0
            invariant
                i <= self.entries.len(),
                lookup_entries(self.view_entries(), key@) == lookup_entries(
                    self.view_entries().subrange(0, i as int),
                    key@,
                ),
            decreases i,
        {
            let pair_key = &self.entries[i - 1].0;
            proof {
                assert(self.view_entries().subrange(0, i as int).last() == self.view_entries()[i
                    - 1]);
                assert(self.view_entries().subrange(0, i as int).drop_last()
                    =~= self.view_entries().subrange(0, i - 1));
            }
            if str_eq(pair_key.as_str(), key) {
                return Some(self.entries[i - 1].1.clone());
            }
            i = i - 1;
        }
        proof {
            assert(self.view_entries().subrange(0, 0) =~= Seq::<(Seq<char>, Seq<char>)>::empty());
        }
        None
    }

    /// Whether `key` occurs in this telemetry at all.
    pub fn contains_key(&self, key: &str) -> (r: bool)
        ensures
            r == (self.spec_lookup(key@) is Some),
    {
        match self.get(key) {
            Some(_) => true,
            None => false,
        }
    }

    /// Whether `key` is present with exactly the value `val`.
    pub fn has_value(&self, key: &str, val: &str) -> (r: bool)
        ensures
            r == (self.spec_lookup(key@) == Some(val@)),
    {
        match self.get(key) {
            Some(v) => str_eq(v.as_str(), val),
            None => false,
        }
    }
}

/// Parse the telemetry file's text: one `key: value` entry per line that
/// holds a colon; lines without one contribute nothing.
pub fn metadata_file_to_hashmap(content: &str) -> (t: Telemetry)
    ensures
        t.view_entries() == parse_entries(content@),
{
    let lines = split_char(content, '\n');
    let n = lines.len();
    let mut entries: Vec<(String, String)> = Vec::new();
    let mut idx: usize = 0;
    proof {
        assert(lines.deep_view().subrange(0, 0) =~= Seq::<Seq<char>>::empty());
        assert(Seq::new(entries@.len(), |i: int| (entries@[i].0@, entries@[i].1@))
            =~= Seq::<(Seq<char>, Seq<char>)>::empty());
    }
    while idx < n
        invariant
            idx <= n,
            n == lines@.len(),
            lines.deep_view() == split_char_spec(content@, '\n'),
            Seq::new(entries@.len(), |i: int| (entries@[i].0@, entries@[i].1@)) == lines_entries(
                lines.deep_view().subrange(0, idx as int),
            ),
        decreases n - idx,
    {
        let line: &str = lines[idx].as_str();
        let ghost prefix = lines.deep_view().subrange(0, idx as int);
        let ghost prev = Seq::new(entries@.len(), |i: int| (entries@[i].0@, entries@[i].1@));
        proof {
            assert(lines.deep_view().subrange(0, idx + 1).drop_last() =~= prefix);
            assert(lines.deep_view().subrange(0, idx + 1).last() == lines.deep_view()[idx as int]);
            assert(lines.deep_view()[idx as int] == lines@[idx as int]@);
            lemma_find_char(line@, ':');
        }
        match find_char_in(line, ':') {
            Some(p) => {
                let len = line.unicode_len();
                let k = trim_str(line.substring_char(0, p));
                let v = trim_str(line.substring_char(p + 1, len));
                entries.push((k.to_owned(), v.to_owned()));
                proof {
                    assert(Seq::new(entries@.len(), |i: int| (entries@[i].0@, entries@[i].1@))
                        =~= prev + line_entry(line@));
                }
            },
            None => {
                proof {
                    assert(line_entry(line@) =~= Seq::<(Seq<char>, Seq<char>)>::empty());
                    assert(prev + line_entry(line@) =~= prev);
                }
            },
        }
        proof {
            assert(lines_entries(lines.deep_view().subrange(0, idx + 1)) == prev + line_entry(
                line@,
            ));
        }
        idx = idx + 1;
    }
    proof {
        assert(lines.deep_view().subrange(0, n as int) =~= lines.deep_view());
    }
    let t = Telemetry { entries };
    proof {
        assert(t.view_entries() == lines_entries(lines.deep_view()));
    }
    t
}

/// What a numeric telemetry field reads as: the parsed value of the
/// entry, zero when the key is absent or its value is not a number.
pub open spec fn get_u64_spec(t: Telemetry, key: Seq<char>) -> u64 {
    match t.spec_lookup(key) {
        None => 0,
        Some(v) => match parse_u64_spec(v) {
            None => 0,
            Some(n) => n,
        },
    }
}

/// Read a numeric telemetry field, as [`get_u64_spec`] says.
pub fn get_u64(meta: &Telemetry, key: &str) -> (r: u64)
    ensures
        r == get_u64_spec(*meta, key@),
{
    match meta.get(key) {
        None => 0,
        Some(v) => match parse_u64(v.as_str()) {
            None => 0,
            Some(n) => n,
        },
    }
}

/// What a seconds-valued telemetry field reads as in milliseconds: zero
/// when the key is absent or the value is not a decimal number.
pub open spec fn get_ms_spec(t: Telemetry, key: Seq<char>) -> u64 {
    match t.spec_lookup(key) {
        None => 0,
        Some(v) => seconds_to_ms_spec(v),
    }
}

/// Read a seconds-valued telemetry field ("time: 0.026") as
/// milliseconds, as [`get_ms_spec`] says.
pub fn get_ms(meta: &Telemetry, key: &str) -> (r: u64)
    ensures
        r == get_ms_spec(*meta, key@),
{
    match meta.get(key) {
        None => 0,
        Some(v) => seconds_str_to_ms(v.as_str()),
    }
}

} // verus!
