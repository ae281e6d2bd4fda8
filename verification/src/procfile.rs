//! Reading a Procfile: one process per line, written `name: command`.
//!
//! Blank lines and lines whose first non-blank character is `#` are skipped,
//! as are lines with no `:` or with an empty name or command. Spaces, tabs
//! and carriage returns around the name and the command are dropped.

use vstd::prelude::*;
use vstd::string::{StrSliceExecFns, StringExecFns};

use crate::app::ProcfileEntry;

verus! {

/// A character that is dropped around names and commands.
pub open spec fn is_blank(c: char) -> bool {
    c == ' ' || c == '\t' || c == '\r'
}

/// The first index in `[i, end)` that holds `c`, or `end` where none does.
pub open spec fn find_char(cs: Seq<char>, c: char, i: int, end: int) -> int
    decreases end - i,
{
    if i >= end {
        end
    } else if cs[i] == c {
        i
    } else {
        find_char(cs, c, i + 1, end)
    }
}

/// The first index in `[i, end)` that is not blank, or `end` where none is.
pub open spec fn skip_blanks(cs: Seq<char>, i: int, end: int) -> int
    decreases end - i,
{
    if i >= end {
        end
    } else if !is_blank(cs[i]) {
        i
    } else {
        skip_blanks(cs, i + 1, end)
    }
}

/// The end of `[start, end)` once trailing blanks are dropped.
pub open spec fn trim_end_at(cs: Seq<char>, start: int, end: int) -> int
    decreases end - start,
{
    if end <= start {
        start
    } else if !is_blank(cs[end - 1]) {
        end
    } else {
        trim_end_at(cs, start, end - 1)
    }
}

/// The name and command of the line `cs[a..b]`, if it declares a process.
pub open spec fn parse_line(cs: Seq<char>, a: int, b: int) -> Option<(Seq<char>, Seq<char>)> {
    let s = skip_blanks(cs, a, b);
    let colon = find_char(cs, ':', s, b);
    let name_end = trim_end_at(cs, s, colon);
    let cmd_start = skip_blanks(cs, colon + 1, b);
    let cmd_end = trim_end_at(cs, cmd_start, b);
    if s >= b || cs[s] == '#' || colon >= b || name_end <= s || cmd_end <= cmd_start {
        None
    } else {
        Some((cs.subrange(s, name_end), cs.subrange(cmd_start, cmd_end)))
    }
}

pub proof fn lemma_find_char_bounds(cs: Seq<char>, c: char, i: int, end: int)
    requires
        i <= end,
    ensures
        i <= find_char(cs, c, i, end) <= end,
    decreases end - i,
{
    if i < end && cs[i] != c {
        lemma_find_char_bounds(cs, c, i + 1, end);
    }
}

/// The processes declared from index `i` of `cs` on, line by line.
pub open spec fn entries_from(cs: Seq<char>, i: int) -> Seq<(Seq<char>, Seq<char>)>
    decreases cs.len() - i,
    via entries_from_decreases
{
    if i >= cs.len() {
        seq![]
    } else {
        let e = find_char(cs, '\n', i, cs.len() as int);
        let rest = if e < cs.len() {
            entries_from(cs, e + 1)
        } else {
            seq![]
        };
        match parse_line(cs, i, e) {
            Some(entry) => seq![entry] + rest,
            None => rest,
        }
    }
}

#[via_fn]
proof fn entries_from_decreases(cs: Seq<char>, i: int) {
    if i < cs.len() {
        lemma_find_char_bounds(cs, '\n', i, cs.len() as int);
    }
}

/// The processes that the Procfile text `text` declares, in order, each as
/// its name and its command.
pub open spec fn procfile_entries(text: Seq<char>) -> Seq<(Seq<char>, Seq<char>)> {
    entries_from(text, 0)
}

/// A list of entries as names and commands.
pub open spec fn entries_view(entries: Seq<ProcfileEntry>) -> Seq<(Seq<char>, Seq<char>)> {
    entries.map_values(|e: ProcfileEntry| (e.name@, e.command@))
}

fn chars_of(text: &str) -> (cs: Vec<char>)
    ensures
        cs@ == text@,
{
    let mut cs: Vec<char> = Vec::new();
    for c in it: text.chars()
        invariant
            cs@ == it.seq().take(it.index() as int),
    {
        cs.push(c);
    }
    cs
}

fn find_char_in(cs: &Vec<char>, c: char, i: usize, end: usize) -> (r: usize)
    requires
        i <= end <= cs@.len(),
    ensures
        r == find_char(cs@, c, i as int, end as int),
{
    let mut j = i;
    while j < end && cs[j] != c
        invariant
            i <= j <= end <= cs@.len(),
            find_char(cs@, c, i as int, end as int) == find_char(cs@, c, j as int, end as int),
        decreases end - j,
    {
        j = j + 1;
    }
    j
}

fn is_blank_char(c: char) -> (b: bool)
    ensures
        b == is_blank(c),
{
    c == ' ' || c == '\t' || c == '\r'
}

fn skip_blanks_in(cs: &Vec<char>, i: usize, end: usize) -> (r: usize)
    requires
        i <= end <= cs@.len(),
    ensures
        r == skip_blanks(cs@, i as int, end as int),
{
    let mut j = i;
    while j < end && is_blank_char(cs[j])
        invariant
            i <= j <= end <= cs@.len(),
            skip_blanks(cs@, i as int, end as int) == skip_blanks(cs@, j as int, end as int),
        decreases end - j,
    {
        j = j + 1;
    }
    j
}

fn trim_end_in(cs: &Vec<char>, start: usize, end: usize) -> (r: usize)
    requires
        start <= end <= cs@.len(),
    ensures
        r == trim_end_at(cs@, start as int, end as int),
{
    let mut j = end;
    while j > start && is_blank_char(cs[j - 1])
        invariant
            start <= j <= end <= cs@.len(),
            trim_end_at(cs@, start as int, end as int) == trim_end_at(cs@, start as int, j as int),
        decreases j,
    {
        j = j - 1;
    }
    j
}

fn parse_line_in(text: &str, cs: &Vec<char>, a: usize, b: usize) -> (r: Option<ProcfileEntry>)
    requires
        cs@ == text@,
        a <= b <= cs@.len(),
    ensures
        match r {
            Some(e) => parse_line(cs@, a as int, b as int) == Some((e.name@, e.command@)),
            None => parse_line(cs@, a as int, b as int) is None,
        },
{
    let s = skip_blanks_in(cs, a, b);
    proof {
        lemma_skip_blanks_bounds(cs@, a as int, b as int);
    }
    if s >= b || cs[s] == '#' {
        return None;
    }
    let colon = find_char_in(cs, ':', s, b);
    proof {
        lemma_find_char_bounds(cs@, ':', s as int, b as int);
    }
    if colon >= b {
        return None;
    }
    let name_end = trim_end_in(cs, s, colon);
    let cmd_start = skip_blanks_in(cs, colon + 1, b);
    proof {
        lemma_trim_end_bounds(cs@, s as int, colon as int);
        lemma_skip_blanks_bounds(cs@, colon + 1, b as int);
    }
    let cmd_end = trim_end_in(cs, cmd_start, b);
    proof {
        lemma_trim_end_bounds(cs@, cmd_start as int, b as int);
    }
    if name_end <= s || cmd_end <= cmd_start {
        return None;
    }
    let name = String::from_str(text.substring_char(s, name_end));
    let command = String::from_str(text.substring_char(cmd_start, cmd_end));
    Some(ProcfileEntry { name, command })
}

pub proof fn lemma_skip_blanks_bounds(cs: Seq<char>, i: int, end: int)
    requires
        i <= end,
    ensures
        i <= skip_blanks(cs, i, end) <= end,
    decreases end - i,
{
    if i < end && is_blank(cs[i]) {
        lemma_skip_blanks_bounds(cs, i + 1, end);
    }
}

pub proof fn lemma_trim_end_bounds(cs: Seq<char>, start: int, end: int)
    requires
        start <= end,
    ensures
        start <= trim_end_at(cs, start, end) <= end,
    decreases end - start,
{
    if end > start && is_blank(cs[end - 1]) {
        lemma_trim_end_bounds(cs, start, end - 1);
    }
}

/// The processes that the Procfile text declares, in order.
pub fn parse_procfile(text: &str) -> (entries: Vec<ProcfileEntry>)
    ensures
        entries_view(entries@) == procfile_entries(text@),
{
    let cs = chars_of(text);
    let n = cs.len();
    let mut entries: Vec<ProcfileEntry> = Vec::new();
    let mut i: usize = 0;
    while i < n
        invariant
            n == cs@.len(),
            cs@ == text@,
            i <= n,
            entries_view(entries@) + entries_from(cs@, i as int) == procfile_entries(text@),
        decreases n - i,
    {
        let e = find_char_in(&cs, '\n', i, n);
        proof {
            lemma_find_char_bounds(cs@, '\n', i as int, n as int);
        }
        let ghost before = entries@;
        match parse_line_in(text, &cs, i, e) {
            Some(entry) => {
                entries.push(entry);
            },
            None => {},
        }
        proof {
            let next = if e < n { e + 1 } else { n as int };
            assert(entries_view(entries@) + entries_from(cs@, next) =~= entries_view(before)
                + entries_from(cs@, i as int));
        }
        i = if e < n { e + 1 } else { n };
    }
    proof {
        assert(entries_view(entries@) =~= entries_view(entries@) + entries_from(cs@, i as int));
    }
    entries
}

/// A declared process as it comes out of the parser: a name and a command,
/// both non-empty and without blanks at either end, the name without `:`
/// and not starting with `#`, neither spanning more than one line.
pub open spec fn is_clean_entry(e: (Seq<char>, Seq<char>)) -> bool {
    let (name, command) = e;
    &&& name.len() > 0 && command.len() > 0
    &&& !is_blank(name[0]) && !is_blank(name.last()) && name[0] != '#'
    &&& !is_blank(command[0]) && !is_blank(command.last())
    &&& forall|j: int| 0 <= j < name.len() ==> #[trigger] name[j] != ':' && name[j] != '\n'
    &&& forall|j: int| 0 <= j < command.len() ==> #[trigger] command[j] != '\n'
}

proof fn lemma_find_char_first(cs: Seq<char>, c: char, i: int, end: int)
    requires
        0 <= i <= end <= cs.len(),
    ensures
        forall|j: int| i <= j < find_char(cs, c, i, end) ==> cs[j] != c,
        find_char(cs, c, i, end) < end ==> cs[find_char(cs, c, i, end)] == c,
    decreases end - i,
{
    if i < end && cs[i] != c {
        lemma_find_char_first(cs, c, i + 1, end);
    }
}

proof fn lemma_skip_blanks_stops(cs: Seq<char>, i: int, end: int)
    requires
        0 <= i <= end <= cs.len(),
    ensures
        skip_blanks(cs, i, end) < end ==> !is_blank(cs[skip_blanks(cs, i, end)]),
    decreases end - i,
{
    if i < end && is_blank(cs[i]) {
        lemma_skip_blanks_stops(cs, i + 1, end);
    }
}

proof fn lemma_trim_end_stops(cs: Seq<char>, start: int, end: int)
    requires
        0 <= start <= end <= cs.len(),
    ensures
        trim_end_at(cs, start, end) > start ==> !is_blank(cs[trim_end_at(cs, start, end) - 1]),
    decreases end - start,
{
    if end > start && is_blank(cs[end - 1]) {
        lemma_trim_end_stops(cs, start, end - 1);
    }
}

proof fn lemma_parse_line_clean(cs: Seq<char>, a: int, b: int)
    requires
        0 <= a <= b <= cs.len(),
        forall|j: int| a <= j < b ==> cs[j] != '\n',
    ensures
        parse_line(cs, a, b) matches Some(e) ==> is_clean_entry(e),
{
    let s = skip_blanks(cs, a, b);
    lemma_skip_blanks_bounds(cs, a, b);
    lemma_skip_blanks_stops(cs, a, b);
    let colon = find_char(cs, ':', s, b);
    lemma_find_char_bounds(cs, ':', s, b);
    lemma_find_char_first(cs, ':', s, b);
    let name_end = trim_end_at(cs, s, colon);
    lemma_trim_end_bounds(cs, s, colon);
    lemma_trim_end_stops(cs, s, colon);
    if colon < b {
        let cmd_start = skip_blanks(cs, colon + 1, b);
        lemma_skip_blanks_bounds(cs, colon + 1, b);
        lemma_skip_blanks_stops(cs, colon + 1, b);
        let cmd_end = trim_end_at(cs, cmd_start, b);
        lemma_trim_end_bounds(cs, cmd_start, b);
        lemma_trim_end_stops(cs, cmd_start, b);
        if let Some(e) = parse_line(cs, a, b) {
            let name = cs.subrange(s, name_end);
            let command = cs.subrange(cmd_start, cmd_end);
            assert(e == (name, command));
            assert(name.last() == cs[name_end - 1]);
            assert(command.last() == cs[cmd_end - 1]);
            assert forall|j: int| 0 <= j < name.len() implies #[trigger] name[j] != ':' && name[j]
                != '\n' by {
                assert(name[j] == cs[s + j]);
            }
            assert forall|j: int| 0 <= j < command.len() implies #[trigger] command[j] != '\n' by {
                assert(command[j] == cs[cmd_start + j]);
            }
        }
    }
}

proof fn lemma_entries_from_clean(cs: Seq<char>, i: int)
    requires
        0 <= i,
    ensures
        forall|k: int| 0 <= k < entries_from(cs, i).len() ==> is_clean_entry(#[trigger] entries_from(cs, i)[k]),
    decreases cs.len() - i,
{
    if i < cs.len() {
        let e = find_char(cs, '\n', i, cs.len() as int);
        lemma_find_char_bounds(cs, '\n', i, cs.len() as int);
        lemma_find_char_first(cs, '\n', i, cs.len() as int);
        lemma_parse_line_clean(cs, i, e);
        let rest = if e < cs.len() {
            entries_from(cs, e + 1)
        } else {
            seq![]
        };
        if e < cs.len() {
            lemma_entries_from_clean(cs, e + 1);
        }
        assert forall|k: int| 0 <= k < rest.len() implies is_clean_entry(#[trigger] rest[k]) by {
            if e < cs.len() {
                assert(rest[k] == entries_from(cs, e + 1)[k]);
            }
        }
        match parse_line(cs, i, e) {
            Some(entry) => {
                assert(entries_from(cs, i) == seq![entry] + rest);
                assert forall|k: int| 0 <= k < entries_from(cs, i).len() implies is_clean_entry(
                    #[trigger] entries_from(cs, i)[k],
                ) by {
                    if k > 0 {
                        assert(entries_from(cs, i)[k] == rest[k - 1]);
                    }
                }
            },
            None => {
                assert(entries_from(cs, i) == rest);
            },
        }
    }
}

/// Every process that a Procfile declares has a non-empty name and command,
/// trimmed of blanks, a name without `:` that does not start with `#`, and
/// both on one line.
pub proof fn lemma_parsed_entries_are_clean(text: Seq<char>)
    ensures
        forall|k: int|
            0 <= k < procfile_entries(text).len() ==> is_clean_entry(#[trigger] procfile_entries(text)[k]),
{
    lemma_entries_from_clean(text, 0);
}

} // verus!
