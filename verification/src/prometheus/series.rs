//! Sample lines, series names, and label sets of the Prometheus text exposition.
use vstd::prelude::*;
use super::chars::{is_whitespace, is_ws};

verus! {

/// A series that is not valid exposition syntax.
#[derive(Debug, Clone, Copy, PartialEq, Eq, Structural)]
pub enum SeriesError {
    /// A label set was opened with `{` but the series does not end with `}`.
    LabelSetNotClosed,
    /// A label has no `=` between its name and value.
    LabelWithoutEquals,
    /// A label value does not start with `"`.
    ValueNotQuoted,
    /// A label value has no closing `"`.
    ValueNotClosed,
    /// Two labels are not separated by `,`.
    LabelsNotCommaSeparated,
}

impl SeriesError {
    /// The operator message of the error.
    pub open spec fn spec_message(self) -> Seq<char> {
        match self {
            SeriesError::LabelSetNotClosed => "label set is not closed"@,
            SeriesError::LabelWithoutEquals => "label has no equals sign"@,
            SeriesError::ValueNotQuoted => "label value is not quoted"@,
            SeriesError::ValueNotClosed => "label value is not closed"@,
            SeriesError::LabelsNotCommaSeparated => "labels are not comma separated"@,
        }
    }

    /// Return the operator message of the error.
    pub fn message(self) -> (message: &'static str)
        ensures
            message@ == self.spec_message(),
    {
        match self {
            SeriesError::LabelSetNotClosed => "label set is not closed",
            SeriesError::LabelWithoutEquals => "label has no equals sign",
            SeriesError::ValueNotQuoted => "label value is not quoted",
            SeriesError::ValueNotClosed => "label value is not closed",
            SeriesError::LabelsNotCommaSeparated => "labels are not comma separated",
        }
    }
}

/// Where a sample line splits into its series and the rest, scanning from `i` in the
/// given label, quote, and escape state: the first whitespace outside a label set.
pub open spec fn split_from(
    line: Seq<char>,
    i: nat,
    in_labels: bool,
    in_quotes: bool,
    escaped: bool,
) -> Option<nat>
    decreases line.len() - i,
{
    if i >= line.len() {
        None
    } else {
        let c = line[i as int];
        if escaped {
            split_from(line, i + 1, in_labels, in_quotes, false)
        } else if in_quotes && c == '\\' {
            split_from(line, i + 1, in_labels, in_quotes, true)
        } else if c == '"' && in_labels {
            split_from(line, i + 1, in_labels, !in_quotes, false)
        } else if c == '{' && !in_quotes {
            split_from(line, i + 1, true, in_quotes, false)
        } else if c == '}' && !in_quotes {
            split_from(line, i + 1, false, in_quotes, false)
        } else if is_ws(c) && !in_labels {
            Some(i)
        } else {
            split_from(line, i + 1, in_labels, in_quotes, false)
        }
    }
}

/// Position at which a sample line splits into series and value text, if any.
pub open spec fn sample_split(line: Seq<char>) -> Option<nat> {
    split_from(line, 0, false, false, false)
}

proof fn lemma_split_from_bound(line: Seq<char>, i: nat, in_labels: bool, in_quotes: bool, escaped: bool)
    ensures
        match split_from(line, i, in_labels, in_quotes, escaped) {
            Some(k) => i <= k < line.len(),
            None => true,
        },
    decreases line.len() - i,
{
    if i < line.len() {
        let c = line[i as int];
        if escaped {
            lemma_split_from_bound(line, i + 1, in_labels, in_quotes, false);
        } else if in_quotes && c == '\\' {
            lemma_split_from_bound(line, i + 1, in_labels, in_quotes, true);
        } else if c == '"' && in_labels {
            lemma_split_from_bound(line, i + 1, in_labels, !in_quotes, false);
        } else if c == '{' && !in_quotes {
            lemma_split_from_bound(line, i + 1, true, in_quotes, false);
        } else if c == '}' && !in_quotes {
            lemma_split_from_bound(line, i + 1, false, in_quotes, false);
        } else if is_ws(c) && !in_labels {
        } else {
            lemma_split_from_bound(line, i + 1, in_labels, in_quotes, false);
        }
    }
}

/// Find where a sample line splits into its series and its value text: the first
/// whitespace that is not inside a label set, skipping quoted and escaped characters.
pub fn split_sample(line: &[char]) -> (split: Option<usize>)
    ensures
        match sample_split(line@) {
            Some(k) => k < line@.len() && split == Some(k as usize),
            None => split is None,
        },
{
    proof {
        lemma_split_from_bound(line@, 0, false, false, false);
    }
    let mut in_labels = false;
    let mut in_quotes = false;
    let mut escaped = false;
    let mut i: usize = 0;
    while i < line.len()
        invariant
            i <= line@.len(),
            sample_split(line@) == split_from(line@, i as nat, in_labels, in_quotes, escaped),
        decreases line@.len() - i,
    {
        let c = line[i];
        if escaped {
            escaped = false;
        } else if in_quotes && c == '\\' {
            escaped = true;
        } else if c == '"' && in_labels {
            in_quotes = !in_quotes;
        } else if c == '{' && !in_quotes {
            in_labels = true;
        } else if c == '}' && !in_quotes {
            in_labels = false;
        } else if is_whitespace(c) && !in_labels {
            return Some(i);
        }
        i = i + 1;
    }
    None
}

/// The character a backslash escape stands for inside a quoted label value.
pub open spec fn unescape(c: char) -> char {
    if c == 'n' {
        '\n'
    } else {
        c
    }
}

/// Decoding of a quoted label value from position `i`, with the characters decoded so
/// far: the value and the number of characters consumed through the closing quote.
pub open spec fn quoted_from(s: Seq<char>, i: nat, value: Seq<char>, escaped: bool) -> Result<
    (Seq<char>, nat),
    SeriesError,
>
    decreases s.len() - i,
{
    if i >= s.len() {
        Err(SeriesError::ValueNotClosed)
    } else {
        let c = s[i as int];
        if escaped {
            quoted_from(s, i + 1, value.push(unescape(c)), false)
        } else if c == '\\' {
            quoted_from(s, i + 1, value, true)
        } else if c == '"' {
            Ok((value, i + 1))
        } else {
            quoted_from(s, i + 1, value.push(c), false)
        }
    }
}

/// Decoding of a label value that must start with `"`.
pub open spec fn quoted(s: Seq<char>) -> Result<(Seq<char>, nat), SeriesError> {
    if s.len() == 0 || s[0] != '"' {
        Err(SeriesError::ValueNotQuoted)
    } else {
        quoted_from(s, 1, Seq::empty(), false)
    }
}

/// A decoded value consumes at least its two quotes and never more than the text.
pub proof fn lemma_quoted_consumed(s: Seq<char>, i: nat, value: Seq<char>, escaped: bool)
    ensures
        match quoted_from(s, i, value, escaped) {
            Ok((_, consumed)) => i < consumed <= s.len(),
            Err(_) => true,
        },
    decreases s.len() - i,
{
    if i < s.len() {
        let c = s[i as int];
        if escaped {
            lemma_quoted_consumed(s, i + 1, value.push(unescape(c)), false);
        } else if c == '\\' {
            lemma_quoted_consumed(s, i + 1, value, true);
        } else if c == '"' {
        } else {
            lemma_quoted_consumed(s, i + 1, value.push(c), false);
        }
    }
}

/// Decode one quoted label value, resolving `\n`, `\\`, and `\"` escapes; return the
/// value and the number of characters consumed through the closing quote.
pub fn parse_quoted(source: &[char]) -> (result: Result<(Vec<char>, usize), SeriesError>)
    ensures
        match (result, quoted(source@)) {
            (Ok((value, consumed)), Ok((spec_value, spec_consumed))) => value@ == spec_value
                && consumed == spec_consumed,
            (Err(e), Err(spec_e)) => e == spec_e,
            _ => false,
        },
{
    if source.len() == 0 || source[0] != '"' {
        return Err(SeriesError::ValueNotQuoted);
    }
    let mut value: Vec<char> = Vec::new();
    let mut escaped = false;
    let mut i: usize = 1;
    proof {
        lemma_quoted_consumed(source@, 1, Seq::empty(), false);
    }
    while i < source.len()
        invariant
            1 <= i <= source@.len(),
            source@.len() > 0 && source@[0] == '"',
            quoted(source@) == quoted_from(source@, i as nat, value@, escaped),
        decreases source@.len() - i,
    {
        let c = source[i];
        if escaped {
            if c == 'n' {
                value.push('\n');
            } else {
                value.push(c);
            }
            escaped = false;
        } else if c == '\\' {
            escaped = true;
        } else if c == '"' {
            return Ok((value, i + 1));
        } else {
            value.push(c);
        }
        i = i + 1;
    }
    Err(SeriesError::ValueNotClosed)
}

/// Whether a body needs no escape: it holds neither a backslash nor a quote.
pub open spec fn plain_body(body: Seq<char>) -> bool {
    forall|j: int| 0 <= j < body.len() ==> body[j] != '\\' && body[j] != '"'
}

proof fn lemma_plain_suffix_is_copied(body: Seq<char>, rest: Seq<char>, k: nat)
    requires
        plain_body(body),
        k <= body.len(),
    ensures
        quoted_from(seq!['"'] + body + seq!['"'] + rest, k + 1, body.subrange(0, k as int), false)
            == Ok::<(Seq<char>, nat), SeriesError>((body, body.len() + 2)),
    decreases body.len() - k,
{
    let s = seq!['"'] + body + seq!['"'] + rest;
    if k == body.len() {
        assert(s[k + 1int] == '"');
        assert(body.subrange(0, k as int) =~= body);
    } else {
        let c = s[k + 1int];
        assert(c == body[k as int]);
        assert(body.subrange(0, k as int).push(c) =~= body.subrange(0, k as int + 1));
        lemma_plain_suffix_is_copied(body, rest, k + 1);
    }
}

/// A quoted label value without escapes decodes to exactly the text between its quotes,
/// every character copied unchanged (whitespace included), consuming both quotes and
/// nothing of what follows.
pub proof fn lemma_plain_value_is_copied(body: Seq<char>, rest: Seq<char>)
    requires
        plain_body(body),
    ensures
        quoted(seq!['"'] + body + seq!['"'] + rest) == Ok::<(Seq<char>, nat), SeriesError>(
            (body, body.len() + 2),
        ),
{
    lemma_plain_suffix_is_copied(body, rest, 0);
    assert(body.subrange(0, 0) =~= Seq::<char>::empty());
}

/// An escaped quote or backslash stands for itself and `\n` for a newline: a value made
/// of one escape decodes to that one character.
pub proof fn lemma_escape_decodes(e: char, rest: Seq<char>)
    ensures
        quoted(seq!['"', '\\', e, '"'] + rest) == Ok::<(Seq<char>, nat), SeriesError>(
            (seq![if e == 'n' { '\n' } else { e }], 4),
        ),
{
    let s = seq!['"', '\\', e, '"'] + rest;
    reveal_with_fuel(quoted_from, 4);
    assert(s[1] == '\\' && s[2] == e && s[3] == '"');
    assert(Seq::<char>::empty().push(unescape(e)) =~= seq![if e == 'n' { '\n' } else { e }]);
}

proof fn lemma_unclosed_plain_suffix(body: Seq<char>, k: nat, value: Seq<char>)
    requires
        plain_body(body),
        k <= body.len(),
    ensures
        quoted_from(seq!['"'] + body, k + 1, value, false) == Err::<(Seq<char>, nat), SeriesError>(
            SeriesError::ValueNotClosed,
        ),
    decreases body.len() - k,
{
    let s = seq!['"'] + body;
    if k < body.len() {
        assert(s[k + 1int] == body[k as int]);
        lemma_unclosed_plain_suffix(body, k + 1, value.push(s[k + 1int]));
    }
}

/// A label value is refused as unquoted exactly when it does not start with `"`, and a
/// value whose closing quote never comes is refused as not closed.
pub proof fn lemma_unquoted_and_unclosed_values_are_refused(s: Seq<char>, body: Seq<char>)
    requires
        plain_body(body),
    ensures
        (quoted(s) == Err::<(Seq<char>, nat), SeriesError>(SeriesError::ValueNotQuoted)) <==> (
        s.len() == 0 || s[0] != '"'),
        quoted(seq!['"'] + body) == Err::<(Seq<char>, nat), SeriesError>(
            SeriesError::ValueNotClosed,
        ),
{
    lemma_unclosed_plain_suffix(body, 0, Seq::empty());
    if s.len() > 0 && s[0] == '"' {
        lemma_quoted_never_unquoted(s, 1, Seq::empty(), false);
    }
}

proof fn lemma_quoted_never_unquoted(s: Seq<char>, i: nat, value: Seq<char>, escaped: bool)
    ensures
        quoted_from(s, i, value, escaped) != Err::<(Seq<char>, nat), SeriesError>(
            SeriesError::ValueNotQuoted,
        ),
    decreases s.len() - i,
{
    if i < s.len() {
        let c = s[i as int];
        if escaped {
            lemma_quoted_never_unquoted(s, i + 1, value.push(unescape(c)), false);
        } else if c == '\\' {
            lemma_quoted_never_unquoted(s, i + 1, value, true);
        } else if c == '"' {
        } else {
            lemma_quoted_never_unquoted(s, i + 1, value.push(c), false);
        }
    }
}

} // verus!
