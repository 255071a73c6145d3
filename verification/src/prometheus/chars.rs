//! Character classes and trimming of Prometheus exposition text.
use vstd::prelude::*;
use vstd::slice::slice_subrange;

verus! {

/// Unicode `White_Space`, the property that `char::is_whitespace` tests.
pub open spec fn is_ws(c: char) -> bool {
    let u = c as u32;
    (0x09 <= u && u <= 0x0d) || u == 0x20 || u == 0x85 || u == 0xa0 || u == 0x1680 || (0x2000 <= u
        && u <= 0x200a) || u == 0x2028 || u == 0x2029 || u == 0x202f || u == 0x205f || u == 0x3000
}

/// Whether a character has the Unicode `White_Space` property.
pub fn is_whitespace(c: char) -> (ws: bool)
    ensures
        ws == is_ws(c),
{
    let u = c as u32;
    (0x09 <= u && u <= 0x0d) || u == 0x20 || u == 0x85 || u == 0xa0 || u == 0x1680 || (0x2000 <= u
        && u <= 0x200a) || u == 0x2028 || u == 0x2029 || u == 0x202f || u == 0x205f || u == 0x3000
}

/// The text with leading whitespace removed (`str::trim_start`).
pub open spec fn trim_start(s: Seq<char>) -> Seq<char>
    decreases s.len(),
{
    if s.len() > 0 && is_ws(s[0]) {
        trim_start(s.drop_first())
    } else {
        s
    }
}

/// The text with trailing whitespace removed (`str::trim_end`).
pub open spec fn trim_end(s: Seq<char>) -> Seq<char>
    decreases s.len(),
{
    if s.len() > 0 && is_ws(s.last()) {
        trim_end(s.drop_last())
    } else {
        s
    }
}

/// The text with leading and trailing whitespace removed (`str::trim`).
pub open spec fn trim(s: Seq<char>) -> Seq<char> {
    trim_end(trim_start(s))
}

/// Trimming the start of a suffix that begins with whitespace skips that character.
pub proof fn lemma_trim_start_step(s: Seq<char>, i: int)
    requires
        0 <= i < s.len(),
    ensures
        is_ws(s[i]) ==> trim_start(s.subrange(i, s.len() as int)) == trim_start(
            s.subrange(i + 1, s.len() as int),
        ),
        !is_ws(s[i]) ==> trim_start(s.subrange(i, s.len() as int)) == s.subrange(
            i,
            s.len() as int,
        ),
{
    assert(s.subrange(i, s.len() as int).drop_first() =~= s.subrange(i + 1, s.len() as int));
}

/// Trimming the end of a prefix that ends with whitespace drops that character.
pub proof fn lemma_trim_end_step(s: Seq<char>, j: int)
    requires
        0 < j <= s.len(),
    ensures
        is_ws(s[j - 1]) ==> trim_end(s.subrange(0, j)) == trim_end(s.subrange(0, j - 1)),
        !is_ws(s[j - 1]) ==> trim_end(s.subrange(0, j)) == s.subrange(0, j),
{
    assert(s.subrange(0, j).drop_last() =~= s.subrange(0, j - 1));
}

/// Trimming never lengthens the text, and the trimmed start is a suffix.
pub proof fn lemma_trim_start_suffix(s: Seq<char>)
    ensures
        trim_start(s).len() <= s.len(),
        trim_start(s) == s.subrange(s.len() - trim_start(s).len(), s.len() as int),
        trim_start(s).len() > 0 ==> !is_ws(trim_start(s)[0]),
    decreases s.len(),
{
    if s.len() > 0 && is_ws(s[0]) {
        lemma_trim_start_suffix(s.drop_first());
        assert(s.drop_first().subrange(
            s.drop_first().len() - trim_start(s).len(),
            s.drop_first().len() as int,
        ) =~= s.subrange(s.len() - trim_start(s).len(), s.len() as int));
    } else {
        assert(s.subrange(0, s.len() as int) =~= s);
    }
}

/// Index of the first non-whitespace character of `s[from..]`, or `s.len()`.
pub fn skip_whitespace(s: &[char], from: usize) -> (i: usize)
    requires
        from <= s@.len(),
    ensures
        from <= i <= s@.len(),
        trim_start(s@.subrange(from as int, s@.len() as int)) == s@.subrange(
            i as int,
            s@.len() as int,
        ),
{
    let mut i = from;
    while i < s.len() && is_whitespace(s[i])
        invariant
            from <= i <= s@.len(),
            trim_start(s@.subrange(from as int, s@.len() as int)) == trim_start(
                s@.subrange(i as int, s@.len() as int),
            ),
        decreases s@.len() - i,
    {
        proof {
            lemma_trim_start_step(s@, i as int);
        }
        i = i + 1;
    }
    proof {
        if i < s@.len() {
            lemma_trim_start_step(s@, i as int);
        } else {
            assert(s@.subrange(i as int, s@.len() as int) =~= Seq::<char>::empty());
        }
    }
    i
}

/// One past the last non-whitespace character of `s[..to]`, or `0`.
pub fn skip_trailing_whitespace(s: &[char], to: usize) -> (j: usize)
    requires
        to <= s@.len(),
    ensures
        j <= to,
        trim_end(s@.subrange(0, to as int)) == s@.subrange(0, j as int),
{
    let mut j = to;
    while j > 0 && is_whitespace(s[j - 1])
        invariant
            j <= to <= s@.len(),
            trim_end(s@.subrange(0, to as int)) == trim_end(s@.subrange(0, j as int)),
        decreases j,
    {
        proof {
            lemma_trim_end_step(s@, j as int);
        }
        j = j - 1;
    }
    proof {
        if j > 0 {
            lemma_trim_end_step(s@, j as int);
        } else {
            assert(s@.subrange(0, 0) =~= Seq::<char>::empty());
        }
    }
    j
}

/// `str::trim_start`.
pub fn trim_start_chars(s: &[char]) -> (t: &[char])
    ensures
        t@ == trim_start(s@),
{
    let i = skip_whitespace(s, 0);
    proof {
        assert(s@.subrange(0, s@.len() as int) =~= s@);
    }
    slice_subrange(s, i, s.len())
}

/// `str::trim`.
pub fn trim_chars(s: &[char]) -> (t: &[char])
    ensures
        t@ == trim(s@),
{
    let start = trim_start_chars(s);
    let j = skip_trailing_whitespace(start, start.len());
    proof {
        assert(start@.subrange(0, start@.len() as int) =~= start@);
    }
    slice_subrange(start, 0, j)
}

/// Position of the first occurrence of a character (`str::find` with a `char`).
pub open spec fn find_char(s: Seq<char>, c: char) -> Option<nat>
    decreases s.len(),
{
    if s.len() == 0 {
        None
    } else if s[0] == c {
        Some(0)
    } else {
        match find_char(s.drop_first(), c) {
            Some(i) => Some(i + 1),
            None => None,
        }
    }
}

/// `find_char` is the least index holding the character.
pub proof fn lemma_find_char(s: Seq<char>, c: char)
    ensures
        match find_char(s, c) {
            Some(i) => i < s.len() && s[i as int] == c && forall|j: int|
                0 <= j < i ==> s[j] != c,
            None => forall|j: int| 0 <= j < s.len() ==> s[j] != c,
        },
    decreases s.len(),
{
    if s.len() > 0 && s[0] != c {
        lemma_find_char(s.drop_first(), c);
        match find_char(s.drop_first(), c) {
            Some(i) => {
                assert forall|j: int| 0 <= j < i + 1 implies s[j] != c by {
                    if j > 0 {
                        assert(s[j] == s.drop_first()[j - 1]);
                    }
                }
            },
            None => {
                assert forall|j: int| 0 <= j < s.len() implies s[j] != c by {
                    if j > 0 {
                        assert(s[j] == s.drop_first()[j - 1]);
                    }
                }
            },
        }
    }
}

/// Return the position of the first occurrence of `c`.
pub fn find(s: &[char], c: char) -> (found: Option<usize>)
    ensures
        found == (match find_char(s@, c) {
            Some(i) => Some(i as usize),
            None => None,
        }),
{
    proof {
        lemma_find_char(s@, c);
    }
    let mut i: usize = 0;
    while i < s.len()
        invariant
            i <= s@.len(),
            forall|j: int| 0 <= j < i ==> s@[j] != c,
        decreases s@.len() - i,
    {
        if s[i] == c {
            proof {
                lemma_find_char(s@, c);
                assert(s@[i as int] == c);
                match find_char(s@, c) {
                    Some(k) => {
                        if k < i {
                            assert(s@[k as int] != c);
                        }
                        assert(k == i);
                    },
                    None => {},
                }
            }
            return Some(i);
        }
        i = i + 1;
    }
    None
}

} // verus!
