//! The operator's access keys, read out of the text of a credentials file.

use vstd::prelude::*;
use vstd::string::*;
use crate::aws_cli::common::starts_with;
use crate::text::{
    char_index, find_char, is_white_space, lemma_char_index_bounds, matches_at, slice_text,
    to_chars, white_space,
};

verus! {

/// How many characters of white space `s` begins with.
pub open spec fn lead(s: Seq<char>) -> nat
    decreases s.len(),
{
    if s.len() == 0 || !is_white_space(s[0]) {
        0
    } else {
        1 + lead(s.drop_first())
    }
}

/// How many characters of white space `s` ends with.
pub open spec fn trail(s: Seq<char>) -> nat
    decreases s.len(),
{
    if s.len() == 0 || !is_white_space(s.last()) {
        0
    } else {
        1 + trail(s.drop_last())
    }
}

/// `s` without the white space at its beginning and at its end.
pub open spec fn trimmed(s: Seq<char>) -> Seq<char> {
    let rest = s.subrange(lead(s) as int, s.len() as int);
    rest.subrange(0, rest.len() - trail(rest))
}

/// What a scan of a credentials file knows after some of its lines.
pub struct Scan {
    /// Whether the last section heading was that of the default profile.
    pub in_default: bool,
    pub access_key: Option<Seq<char>>,
    pub secret_key: Option<Seq<char>>,
}

/// What the scan knows after one more line, given trimmed: a heading opens
/// or closes the default profile; inside it, a line `key = value` sets the
/// access key or the secret key when `key` names one of them.
pub open spec fn after_line(scan: Scan, line: Seq<char>) -> Scan {
    if starts_with(line, "[default]"@) {
        Scan { in_default: true, ..scan }
    } else if starts_with(line, "["@) {
        Scan { in_default: false, ..scan }
    } else if !scan.in_default {
        scan
    } else {
        match char_index(line, '=', 0) {
            None => scan,
            Some(at) => {
                let key = trimmed(line.subrange(0, at));
                let value = trimmed(line.subrange(at + 1, line.len() as int));
                if key == "aws_access_key_id"@ {
                    Scan { access_key: Some(value), ..scan }
                } else if key == "aws_secret_access_key"@ {
                    Scan { secret_key: Some(value), ..scan }
                } else {
                    scan
                }
            },
        }
    }
}

/// Where the line that begins at `from` ends: at the next line feed, or at
/// the end of the text.
pub open spec fn line_end(text: Seq<char>, from: int) -> int {
    match char_index(text, '\n', from) {
        Some(end) => end,
        None => text.len() as int,
    }
}

/// What the scan knows after the lines of `text` from index `from` on.
pub open spec fn after_lines(text: Seq<char>, from: int, scan: Scan) -> Scan
    decreases text.len() - from,
{
    if from < 0 || from >= text.len() {
        scan
    } else {
        let end = line_end(text, from);
        let next = after_line(scan, trimmed(text.subrange(from, end)));
        if end >= text.len() {
            next
        } else {
            proof {
                lemma_char_index_bounds(text, '\n', from);
            }
            after_lines(text, end + 1, next)
        }
    }
}

/// The access key and the secret key of the default profile in the text of
/// a credentials file: for each, the last value given; `None` unless both
/// are given.
pub open spec fn default_credentials(text: Seq<char>) -> Option<(Seq<char>, Seq<char>)> {
    let scan = after_lines(
        text,
        0,
        Scan { in_default: false, access_key: None, secret_key: None },
    );
    match (scan.access_key, scan.secret_key) {
        (Some(access), Some(secret)) => Some((access, secret)),
        _ => None,
    }
}

/// White space at the beginning of `s` runs exactly as far as the first
/// character that is none.
pub proof fn lemma_lead(s: Seq<char>, k: int)
    requires
        0 <= k <= s.len(),
        forall|i: int| 0 <= i < k ==> is_white_space(#[trigger] s[i]),
        k == s.len() || !is_white_space(s[k]),
    ensures
        lead(s) == k,
    decreases k,
{
    if k > 0 {
        let rest = s.drop_first();
        assert forall|i: int| 0 <= i < k - 1 implies is_white_space(#[trigger] rest[i]) by {
            assert(rest[i] == s[i + 1]);
        }
        lemma_lead(rest, k - 1);
    }
}

/// White space at the end of `s` runs exactly back to the last character
/// that is none.
pub proof fn lemma_trail(s: Seq<char>, k: int)
    requires
        0 <= k <= s.len(),
        forall|i: int| s.len() - k <= i < s.len() ==> is_white_space(#[trigger] s[i]),
        k == s.len() || !is_white_space(s[s.len() - k - 1]),
    ensures
        trail(s) == k,
    decreases k,
{
    if k > 0 {
        let rest = s.drop_last();
        assert forall|i: int| rest.len() - (k - 1) <= i < rest.len() implies is_white_space(
            #[trigger] rest[i],
        ) by {
            assert(rest[i] == s[i]);
        }
        lemma_trail(rest, k - 1);
    }
}

/// Finds the part of `chars` between `from` and `to` that trimming leaves.
pub fn trim_bounds(chars: &Vec<char>, from: usize, to: usize) -> (r: (usize, usize))
    requires
        from <= to <= chars@.len(),
    ensures
        from <= r.0 <= r.1 <= to,
        chars@.subrange(r.0 as int, r.1 as int) == trimmed(chars@.subrange(from as int, to as int)),
{
    let ghost part = chars@.subrange(from as int, to as int);
    let mut a: usize = from;
    while a < to && white_space(chars[a])
        invariant
            from <= a <= to <= chars@.len(),
            forall|i: int| from <= i < a ==> is_white_space(#[trigger] chars@[i]),
        decreases to - a,
    {
        a += 1;
    }
    proof {
        assert forall|i: int| 0 <= i < a - from implies is_white_space(#[trigger] part[i]) by {
            assert(part[i] == chars@[from + i]);
        }
        lemma_lead(part, a - from);
    }
    let ghost rest = part.subrange(a - from, part.len() as int);
    let mut b: usize = to;
    while b > a && white_space(chars[b - 1])
        invariant
            a <= b <= to <= chars@.len(),
            forall|i: int| b <= i < to ==> is_white_space(#[trigger] chars@[i]),
        decreases b - a,
    {
        b -= 1;
    }
    proof {
        assert forall|i: int| rest.len() - (to - b) <= i < rest.len() implies is_white_space(
            #[trigger] rest[i],
        ) by {
            assert(rest[i] == chars@[a + i]);
        }
        if to - b != rest.len() {
            assert(rest[rest.len() - (to - b) - 1] == chars@[b - 1]);
        }
        lemma_trail(rest, to - b);
        assert(chars@.subrange(a as int, b as int) =~= rest.subrange(0, rest.len() - (to - b)));
    }
    (a, b)
}

/// The state of a scan as it is held while scanning.
pub struct ScanState {
    pub in_default: bool,
    pub access_key: Option<String>,
    pub secret_key: Option<String>,
}

impl View for ScanState {
    type V = Scan;

    open spec fn view(&self) -> Scan {
        Scan {
            in_default: self.in_default,
            access_key: match self.access_key {
                Some(key) => Some(key@),
                None => None,
            },
            secret_key: match self.secret_key {
                Some(key) => Some(key@),
                None => None,
            },
        }
    }
}

/// Takes one trimmed line into the scan.
pub fn take_line(state: &mut ScanState, line: &str)
    ensures
        final(state)@ == after_line(old(state)@, line@),
{
    let chars = to_chars(line);
    let heading = to_chars("[default]");
    let bracket = to_chars("[");
    proof {
        reveal_strlit("[default]");
        reveal_strlit("[");
    }
    if heading.len() <= chars.len() && matches_at(&chars, &heading, 0) {
        state.in_default = true;
        return ;
    }
    if bracket.len() <= chars.len() && matches_at(&chars, &bracket, 0) {
        state.in_default = false;
        return ;
    }
    if !state.in_default {
        return ;
    }
    let at = match find_char(&chars, '=', 0) {
        Some(at) => at,
        None => {
            return ;
        },
    };
    let (key_from, key_to) = trim_bounds(&chars, 0, at);
    let (value_from, value_to) = trim_bounds(&chars, at + 1, chars.len());
    let key = slice_text(line, key_from, key_to);
    let value = slice_text(line, value_from, value_to);
    if crate::text::same_text(key.as_str(), "aws_access_key_id") {
        state.access_key = Some(value);
    } else if crate::text::same_text(key.as_str(), "aws_secret_access_key") {
        state.secret_key = Some(value);
    }
}

/// Reads the access key and the secret key of the default profile out of
/// the text of a credentials file.
pub fn parse_default_credentials(contents: &str) -> (r: Option<(String, String)>)
    ensures
        match r {
            Some((access, secret)) => default_credentials(contents@) == Some((access@, secret@)),
            None => default_credentials(contents@) is None,
        },
{
    let chars = to_chars(contents);
    let n: usize = chars.len();
    let mut state = ScanState { in_default: false, access_key: None, secret_key: None };
    let ghost start = state@;
    let mut from: usize = 0;
    while from < n
        invariant
            n == chars@.len(),
            chars@ == contents@,
            after_lines(contents@, 0, start) == after_lines(contents@, from as int, state@),
        decreases n - from,
    {
        let end: usize = match find_char(&chars, '\n', from) {
            Some(end) => end,
            None => n,
        };
        let (a, b) = trim_bounds(&chars, from, end);
        let line = slice_text(contents, a, b);
        take_line(&mut state, line.as_str());
        if end == n {
            from = n;
        } else {
            from = end + 1;
        }
    }
    match (state.access_key, state.secret_key) {
        (Some(access), Some(secret)) => Some((access, secret)),
        _ => None,
    }
}

} // verus!
