//! The environment block: one `KEY=VALUE` pair per line.
//!
//! A line is trimmed; blank lines are skipped; a line without `=` sets the
//! key to an empty value; keys and values are trimmed around the first `=`.
//! Lines are split as `str::lines` splits them: at `\n`, with a `\r` directly
//! before the `\n` removed.

use vstd::prelude::*;

use crate::text::{find_char, find_char_str, is_ws, lemma_find_char, trim_spec, trim_str};

verus! {

/// One parsed environment override.
#[derive(Clone, Debug, PartialEq, Eq)]
pub struct EnvPair {
    pub key: String,
    pub value: String,
}

/// The mathematical content of an [`EnvPair`].
pub struct EnvEntry {
    pub key: Seq<char>,
    pub value: Seq<char>,
}

impl View for EnvPair {
    type V = EnvEntry;

    open spec fn view(&self) -> EnvEntry {
        EnvEntry { key: self.key@, value: self.value@ }
    }
}

/// A `\r` sitting directly before a line break is not part of the line.
pub open spec fn strip_cr(line: Seq<char>) -> Seq<char> {
    if line.len() > 0 && line[line.len() - 1] == '\r' {
        line.subrange(0, line.len() - 1)
    } else {
        line
    }
}

/// The lines of `s`, split as `str::lines` splits them.
pub open spec fn split_lines_spec(s: Seq<char>) -> Seq<Seq<char>>
    decreases s.len(),
    via split_lines_spec_decreases
{
    if s.len() == 0 {
        Seq::empty()
    } else {
        let i = find_char(s, '\n');
        if i == s.len() {
            seq![s]
        } else {
            seq![strip_cr(s.subrange(0, i))] + split_lines_spec(s.subrange(i + 1, s.len() as int))
        }
    }
}

#[via_fn]
proof fn split_lines_spec_decreases(s: Seq<char>) {
    lemma_find_char(s, '\n');
}

/// What one line of the block contributes: nothing if blank, the key with an
/// empty value if there is no `=`, otherwise the trimmed halves around the
/// first `=`.
pub open spec fn env_entry_of_line(line: Seq<char>) -> Option<EnvEntry> {
    let t = trim_spec(line);
    if t.len() == 0 {
        None
    } else {
        let i = find_char(t, '=');
        if i == t.len() {
            Some(EnvEntry { key: t, value: Seq::empty() })
        } else {
            Some(
                EnvEntry {
                    key: trim_spec(t.subrange(0, i)),
                    value: trim_spec(t.subrange(i + 1, t.len() as int)),
                },
            )
        }
    }
}

/// The entries contributed by a sequence of lines, in order.
pub open spec fn env_entries_of_lines(lines: Seq<Seq<char>>) -> Seq<EnvEntry>
    decreases lines.len(),
{
    if lines.len() == 0 {
        Seq::empty()
    } else {
        let rest = env_entries_of_lines(lines.subrange(1, lines.len() as int));
        match env_entry_of_line(lines[0]) {
            Some(e) => seq![e] + rest,
            None => rest,
        }
    }
}

/// The environment overrides described by the whole block.
pub open spec fn env_entries_spec(s: Seq<char>) -> Seq<EnvEntry> {
    env_entries_of_lines(split_lines_spec(s))
}

proof fn lemma_entries_of_cons(l: Seq<char>, rest: Seq<Seq<char>>)
    ensures
        env_entries_of_lines(seq![l] + rest) == match env_entry_of_line(l) {
            Some(e) => seq![e] + env_entries_of_lines(rest),
            None => env_entries_of_lines(rest),
        },
{
    let lines = seq![l] + rest;
    assert(lines[0] == l);
    assert(lines.subrange(1, lines.len() as int) =~= rest);
}

/// Parses one line of the block, already split out of the text.
fn parse_env_line(line: &str) -> (r: Option<EnvPair>)
    ensures
        r matches Some(p) ==> env_entry_of_line(line@) matches Some(e) && p@ == e,
        r is None ==> env_entry_of_line(line@) is None,
{
    let t = trim_str(line);
    let tlen = t.unicode_len();
    if tlen == 0 {
        return None;
    }
    let i = find_char_str(t, '=');
    if i == tlen {
        Some(EnvPair { key: String::from_str(t), value: String::new() })
    } else {
        let key = trim_str(t.substring_char(0, i));
        let value = trim_str(t.substring_char(i + 1, tlen));
        Some(EnvPair { key: String::from_str(key), value: String::from_str(value) })
    }
}

/// Parses the whole environment block, verified against `env_entries_spec`.
pub fn parse_env_block(s: &str) -> (r: Vec<EnvPair>)
    ensures
        r@.map_values(|p: EnvPair| p@) == env_entries_spec(s@),
{
    let mut out: Vec<EnvPair> = Vec::new();
    let mut rest: &str = s;
    loop
        invariant
            out@.map_values(|p: EnvPair| p@) + env_entries_spec(rest@) == env_entries_spec(s@),
        ensures
            rest@.len() == 0,
        decreases rest@.len(),
    {
        let len = rest.unicode_len();
        if len == 0 {
            break;
        }
        let i = find_char_str(rest, '\n');
        let ghost old_rest = rest@;
        let ghost old_out = out@;
        let line: &str;
        if i == len {
            line = rest;
            rest = rest.substring_char(len, len);
        } else {
            let raw = rest.substring_char(0, i);
            if i > 0 && raw.get_char(i - 1) == '\r' {
                line = rest.substring_char(0, i - 1);
            } else {
                line = raw;
            }
            rest = rest.substring_char(i + 1, len);
        }
        proof {
            if find_char(old_rest, '\n') == old_rest.len() {
                assert(split_lines_spec(old_rest) == seq![old_rest]);
                assert(seq![old_rest] =~= seq![line@] + Seq::<Seq<char>>::empty());
                lemma_entries_of_cons(line@, Seq::empty());
                assert(split_lines_spec(rest@) == Seq::<Seq<char>>::empty());
            } else {
                let j = find_char(old_rest, '\n');
                assert(line@ =~= strip_cr(old_rest.subrange(0, j)));
                assert(rest@ =~= old_rest.subrange(j + 1, old_rest.len() as int));
                lemma_entries_of_cons(line@, split_lines_spec(rest@));
            }
        }
        match parse_env_line(line) {
            Some(p) => {
                out.push(p);
                proof {
                    assert(out@.map_values(|p: EnvPair| p@) =~= old_out.map_values(
                        |p: EnvPair| p@,
                    ) + seq![out@[out@.len() - 1]@]);
                }
            },
            None => {
            },
        }
    }
    proof {
        assert(out@.map_values(|p: EnvPair| p@) + env_entries_spec(rest@) =~= out@.map_values(
            |p: EnvPair| p@,
        ));
    }
    out
}

} // verus!
