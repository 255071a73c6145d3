//! Lines of an exposition body and their classification into samples.
use vstd::prelude::*;
use vstd::slice::{slice_subrange, slice_to_vec};
use super::chars::{is_whitespace, is_ws, skip_whitespace, trim, trim_chars, trim_start};
use super::series::{sample_split, split_sample};

verus! {

/// Lines of a text as `str::lines` yields them: split after each `\n`, with the `\n`
/// and a `\r` right before it removed, and no empty line after a final `\n`.
pub open spec fn text_lines(s: Seq<char>) -> Seq<Seq<char>>
    decreases s.len(),
{
    if s.len() == 0 {
        Seq::empty()
    } else {
        match super::chars::find_char(s, '\n') {
            None => seq![s],
            Some(i) => {
                proof {
                    super::chars::lemma_find_char(s, '\n');
                }
                let line = if i > 0 && s[i as int - 1] == '\r' {
                    s.subrange(0, i - 1)
                } else {
                    s.subrange(0, i as int)
                };
                seq![line] + text_lines(s.subrange(i as int + 1, s.len() as int))
            },
        }
    }
}

/// Split a text into lines as `str::lines` does.
pub fn split_lines(text: &[char]) -> (lines: Vec<Vec<char>>)
    ensures
        lines@.map_values(|line: Vec<char>| line@) == text_lines(text@),
{
    let mut lines: Vec<Vec<char>> = Vec::new();
    let mut start: usize = 0;
    proof {
        assert(text@.subrange(0, text@.len() as int) =~= text@);
    }
    while start < text.len()
        invariant
            start <= text@.len(),
            text_lines(text@) == lines@.map_values(|line: Vec<char>| line@) + text_lines(
                text@.subrange(start as int, text@.len() as int),
            ),
        decreases text@.len() - start,
    {
        let rest = slice_subrange(text, start, text.len());
        proof {
            super::chars::lemma_find_char(rest@, '\n');
        }
        let ghost before = lines@.map_values(|line: Vec<char>| line@);
        match super::chars::find(rest, '\n') {
            None => {
                lines.push(slice_to_vec(rest));
                proof {
                    assert(lines@.map_values(|line: Vec<char>| line@) =~= before.push(rest@));
                    assert(text@.subrange(text@.len() as int, text@.len() as int) =~= Seq::<
                        char,
                    >::empty());
                }
                start = text.len();
            },
            Some(i) => {
                let end = if i > 0 && rest[i - 1] == '\r' {
                    i - 1
                } else {
                    i
                };
                lines.push(slice_to_vec(slice_subrange(rest, 0, end)));
                proof {
                    assert(lines@.map_values(|line: Vec<char>| line@) =~= before.push(
                        rest@.subrange(0, end as int),
                    ));
                    assert(rest@.subrange(i as int + 1, rest@.len() as int) =~= text@.subrange(
                        start + i + 1,
                        text@.len() as int,
                    ));
                }
                start = start + i + 1;
            },
        }
    }
    proof {
        assert(text@.subrange(start as int, text@.len() as int) =~= Seq::<char>::empty());
        assert(text_lines(Seq::<char>::empty()) =~= Seq::<Seq<char>>::empty());
    }
    lines
}

/// The first whitespace-separated word of a text (`split_whitespace().next()`).
pub open spec fn first_word(s: Seq<char>) -> Option<Seq<char>> {
    let t = trim_start(s);
    if t.len() == 0 {
        None
    } else {
        Some(t.subrange(0, word_end(t, 0) as int))
    }
}

/// Position of the first whitespace at or after `i`, or the text's length.
pub open spec fn word_end(s: Seq<char>, i: nat) -> nat
    decreases s.len() - i,
{
    if i >= s.len() {
        s.len()
    } else if is_ws(s[i as int]) {
        i
    } else {
        word_end(s, i + 1)
    }
}

/// One line of an exposition body, classified.
pub enum SampleLine {
    /// The line holds only whitespace.
    Blank,
    /// The line is a `#` comment, `HELP` or `TYPE` metadata included.
    Comment,
    /// The line has a series but no value after it.
    MissingValue,
    /// A series and the text of its value.
    Sample { series: Vec<char>, value: Vec<char> },
}

/// Abstract value of a [`SampleLine`].
pub enum SampleLineView {
    Blank,
    Comment,
    MissingValue,
    Sample { series: Seq<char>, value: Seq<char> },
}

impl View for SampleLine {
    type V = SampleLineView;

    open spec fn view(&self) -> SampleLineView {
        match self {
            SampleLine::Blank => SampleLineView::Blank,
            SampleLine::Comment => SampleLineView::Comment,
            SampleLine::MissingValue => SampleLineView::MissingValue,
            SampleLine::Sample { series, value } => SampleLineView::Sample {
                series: series@,
                value: value@,
            },
        }
    }
}

/// Classification of one exposition line after trimming: blank, comment, or a sample
/// split at its first whitespace outside a label set, with the first word after it.
pub open spec fn classify_line(line: Seq<char>) -> SampleLineView {
    let t = trim(line);
    if t.len() == 0 {
        SampleLineView::Blank
    } else if t[0] == '#' {
        SampleLineView::Comment
    } else {
        match sample_split(t) {
            None => SampleLineView::MissingValue,
            Some(k) => match first_word(t.subrange(k as int, t.len() as int)) {
                None => SampleLineView::MissingValue,
                Some(value) => SampleLineView::Sample {
                    series: t.subrange(0, k as int),
                    value,
                },
            },
        }
    }
}

proof fn lemma_word_end_bound(s: Seq<char>, i: nat)
    requires
        i <= s.len(),
    ensures
        i <= word_end(s, i) <= s.len(),
    decreases s.len() - i,
{
    if i < s.len() && !is_ws(s[i as int]) {
        lemma_word_end_bound(s, i + 1);
    }
}

fn word_end_exec(s: &[char]) -> (end: usize)
    ensures
        end == word_end(s@, 0),
        end <= s@.len(),
{
    proof {
        lemma_word_end_bound(s@, 0);
    }
    let mut i: usize = 0;
    while i < s.len() && !is_whitespace(s[i])
        invariant
            i <= s@.len(),
            word_end(s@, 0) == word_end(s@, i as nat),
        decreases s@.len() - i,
    {
        i = i + 1;
    }
    proof {
        if i < s@.len() {
            assert(is_ws(s@[i as int]));
        }
        assert(word_end(s@, i as nat) == i);
    }
    i
}

/// Classify one exposition line: blank, comment, missing value, or a sample with the
/// text of its series and of its value.
pub fn sample_line(line: &[char]) -> (classified: SampleLine)
    ensures
        classified@ == classify_line(line@),
{
    let t = trim_chars(line);
    if t.len() == 0 {
        return SampleLine::Blank;
    }
    if t[0] == '#' {
        return SampleLine::Comment;
    }
    let k = match split_sample(t) {
        None => {
            return SampleLine::MissingValue;
        },
        Some(k) => k,
    };
    let remainder = slice_subrange(t, k, t.len());
    let start = skip_whitespace(remainder, 0);
    proof {
        assert(remainder@.subrange(0, remainder@.len() as int) =~= remainder@);
    }
    if start == remainder.len() {
        proof {
            assert(remainder@.subrange(start as int, remainder@.len() as int) =~= Seq::<
                char,
            >::empty());
        }
        return SampleLine::MissingValue;
    }
    let word = slice_subrange(remainder, start, remainder.len());
    let end = word_end_exec(word);
    SampleLine::Sample {
        series: slice_to_vec(slice_subrange(t, 0, k)),
        value: slice_to_vec(slice_subrange(word, 0, end)),
    }
}

} // verus!
