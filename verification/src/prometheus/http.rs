//! Framing of the HTTP/1.1 response that carries a metrics scrape.
use vstd::prelude::*;
use vstd::slice::{slice_subrange, slice_to_vec};
use vstd::utf8::{decode_utf8, valid_utf8};
use super::chars::{find, find_char, lemma_find_char, trim, trim_chars};
use super::exposition::{split_lines, text_lines};

verus! {

/// Whether the four bytes at `i` are the blank line `\r\n\r\n` ending the headers.
pub open spec fn blank_line_at(s: Seq<u8>, i: int) -> bool {
    0 <= i && i + 4 <= s.len() && s[i] == 13u8 && s[i + 1] == 10u8 && s[i + 2] == 13u8 && s[i
        + 3] == 10u8
}

/// Find the start of the first `\r\n\r\n` in a response.
pub fn find_header_end(response: &[u8]) -> (end: Option<usize>)
    ensures
        match end {
            Some(i) => blank_line_at(response@, i as int) && forall|j: int|
                0 <= j < i ==> !blank_line_at(response@, j),
            None => forall|j: int| 0 <= j ==> !blank_line_at(response@, j),
        },
{
    if response.len() < 4 {
        return None;
    }
    let mut i: usize = 0;
    while i <= response.len() - 4
        invariant
            response@.len() >= 4,
            i <= response@.len() - 3,
            forall|j: int| 0 <= j < i ==> !blank_line_at(response@, j),
        decreases response@.len() - i,
    {
        if response[i] == 13u8 && response[i + 1] == 10u8 && response[i + 2] == 13u8 && response[i
            + 3] == 10u8 {
            return Some(i);
        }
        i = i + 1;
    }
    None
}

/// Length of the whole response once its body of `body_length` bytes has arrived after
/// the headers ending at `header_end`; `None` when it cannot be represented.
pub fn expected_response_length(header_end: usize, body_length: usize) -> (length: Option<usize>)
    requires
        body_length + 4 <= usize::MAX,
    ensures
        length == (if header_end + 4 + body_length <= usize::MAX {
            Some((header_end + 4 + body_length) as usize)
        } else {
            None
        }),
{
    header_end.checked_add(4 + body_length)
}

/// The largest metrics response the foreground reads, in bytes.
pub const MAX_HTTP_RESPONSE_BYTES: usize = 8388608;

/// The whole response length its `Content-Length` announces, when the headers ending at
/// `header_end` carry one and the total can be represented.
pub fn announced_response_length(header_end: usize, body_length: Option<usize>) -> (length: Option<usize>)
    ensures
        length == (match body_length {
            Some(body) => if body + 4 <= usize::MAX && header_end + 4 + body <= usize::MAX {
                Some((header_end + 4 + body) as usize)
            } else {
                None
            },
            None => None,
        }),
{
    match body_length {
        Some(body) => if body <= usize::MAX - 4 {
            expected_response_length(header_end, body)
        } else {
            None
        },
        None => None,
    }
}

/// What to do after a read added bytes to a response.
#[derive(Debug, Clone, Copy, PartialEq, Eq, Structural)]
pub enum ReadProgress {
    /// The response is over the size limit and is abandoned.
    TooLarge,
    /// The announced response has fully arrived.
    Complete,
    /// More bytes are needed.
    More,
}

/// The step after `received` bytes have arrived of a response whose announced length is
/// `expected`: too large beyond the limit, complete once the announced length has
/// arrived, and otherwise read on.
pub open spec fn spec_read_progress(received: usize, expected: Option<usize>) -> ReadProgress {
    if received > MAX_HTTP_RESPONSE_BYTES {
        ReadProgress::TooLarge
    } else if expected matches Some(total) && received >= total {
        ReadProgress::Complete
    } else {
        ReadProgress::More
    }
}

/// Decide the step after `received` bytes have arrived of a response whose announced
/// length is `expected`.
pub fn read_progress(received: usize, expected: Option<usize>) -> (progress: ReadProgress)
    ensures
        progress == spec_read_progress(received, expected),
{
    if received > MAX_HTTP_RESPONSE_BYTES {
        return ReadProgress::TooLarge;
    }
    match expected {
        Some(total) => if received >= total {
            ReadProgress::Complete
        } else {
            ReadProgress::More
        },
        None => ReadProgress::More,
    }
}

/// A response header that cannot be read.
#[derive(Debug, Clone, Copy, PartialEq, Eq, Structural)]
pub enum HeaderError {
    /// The header bytes are not UTF-8.
    InvalidUtf8,
    /// The `Content-Length` value is not a decimal length.
    InvalidContentLength,
}

/// The header name `content-length`.
pub open spec fn content_length_name() -> Seq<char> {
    seq!['c', 'o', 'n', 't', 'e', 'n', 't', '-', 'l', 'e', 'n', 'g', 't', 'h']
}

/// The header name `CONTENT-LENGTH`.
pub open spec fn content_length_name_upper() -> Seq<char> {
    seq!['C', 'O', 'N', 'T', 'E', 'N', 'T', '-', 'L', 'E', 'N', 'G', 'T', 'H']
}

/// Whether a header name is `content-length` in any ASCII case
/// (`str::eq_ignore_ascii_case`): each character is the lower- or upper-case form of
/// the corresponding letter, or the hyphen itself.
pub open spec fn is_content_length_name(name: Seq<char>) -> bool {
    name.len() == content_length_name().len() && forall|i: int|
        0 <= i < name.len() ==> (#[trigger] name[i] == content_length_name()[i] || name[i]
            == content_length_name_upper()[i])
}

/// Whether a character is an ASCII decimal digit.
pub open spec fn is_digit(c: char) -> bool {
    '0' <= c && c <= '9'
}

/// Value of a sequence of decimal digits.
pub open spec fn digits_value(s: Seq<char>) -> nat
    decreases s.len(),
{
    if s.len() == 0 {
        0
    } else {
        digits_value(s.drop_last()) * 10 + ((s.last() as u32) - ('0' as u32)) as nat
    }
}

/// The digits of a decimal length: the text after an optional leading `+`.
pub open spec fn usize_digits(s: Seq<char>) -> Seq<char> {
    if s.len() > 0 && s[0] == '+' {
        s.drop_first()
    } else {
        s
    }
}

/// `usize::from_str`: an optional `+` followed by at least one decimal digit, whose
/// value fits in `usize`.
pub open spec fn parse_usize(s: Seq<char>) -> Option<usize> {
    let digits = usize_digits(s);
    if digits.len() == 0 || exists|i: int| 0 <= i < digits.len() && !is_digit(#[trigger] digits[i])
        || digits_value(digits) > usize::MAX {
        None
    } else {
        Some(digits_value(digits) as usize)
    }
}

/// Parse a decimal length as `usize::from_str` does.
pub fn parse_decimal_usize(s: &[char]) -> (value: Option<usize>)
    ensures
        value == parse_usize(s@),
{
    let start: usize = if s.len() > 0 && s[0] == '+' {
        1
    } else {
        0
    };
    let digits = slice_subrange(s, start, s.len());
    proof {
        if start == 1 {
            assert(digits@ =~= s@.drop_first());
        } else {
            assert(digits@ =~= s@);
        }
    }
    if digits.len() == 0 {
        return None;
    }
    let mut value: usize = 0;
    let mut i: usize = 0;
    proof {
        assert(digits@.subrange(0, 0) =~= Seq::<char>::empty());
    }
    while i < digits.len()
        invariant
            i <= digits@.len(),
            digits@.len() > 0,
            digits@ == usize_digits(s@),
            forall|j: int| 0 <= j < i ==> is_digit(#[trigger] digits@[j]),
            value == digits_value(digits@.subrange(0, i as int)),
        decreases digits@.len() - i,
    {
        let c = digits[i];
        if !('0' <= c && c <= '9') {
            proof {
                assert(!is_digit(usize_digits(s@)[i as int]));
            }
            return None;
        }
        let digit = (c as u32 - '0' as u32) as usize;
        proof {
            let next = digits@.subrange(0, i as int + 1);
            assert(next.drop_last() =~= digits@.subrange(0, i as int));
            assert(next.last() == c);
        }
        let scaled = match value.checked_mul(10) {
            Some(scaled) => scaled,
            None => {
                proof {
                    let next = digits@.subrange(0, i as int + 1);
                    assert(digits_value(next) == digits_value(next.drop_last()) * 10 + (digit as nat));
                    assert(digits_value(next) > usize::MAX);
                    lemma_digits_value_grows(digits@, i as int + 1);
                }
                return None;
            },
        };
        value = match scaled.checked_add(digit) {
            Some(next) => next,
            None => {
                proof {
                    let next = digits@.subrange(0, i as int + 1);
                    assert(digits_value(next) == digits_value(next.drop_last()) * 10 + (digit as nat));
                    assert(digits_value(next) > usize::MAX);
                    lemma_digits_value_grows(digits@, i as int + 1);
                }
                return None;
            },
        };
        proof {
            let next = digits@.subrange(0, i as int + 1);
            assert(digits_value(next) == digits_value(next.drop_last()) * 10 + (digit as nat));
        }
        i = i + 1;
    }
    proof {
        assert(digits@.subrange(0, digits@.len() as int) =~= digits@);
    }
    Some(value)
}

/// The value of a digit sequence is at least the value of each of its prefixes.
proof fn lemma_digits_value_grows(s: Seq<char>, n: int)
    requires
        0 <= n <= s.len(),
    ensures
        (forall|j: int| 0 <= j < s.len() ==> is_digit(#[trigger] s[j])) ==> digits_value(
            s.subrange(0, n),
        ) <= digits_value(s),
    decreases s.len() - n,
{
    if n < s.len() {
        lemma_digits_value_grows(s, n + 1);
        let next = s.subrange(0, n + 1);
        assert(next.drop_last() =~= s.subrange(0, n));
    } else {
        assert(s.subrange(0, n) =~= s);
    }
}

/// `Content-Length` lookup over header lines from position `i`: the first line with a
/// `:` whose name is `content-length` in any case decides; its trimmed value must be a
/// decimal length.
pub open spec fn content_length_from(lines: Seq<Seq<char>>, i: nat) -> Result<
    Option<usize>,
    HeaderError,
>
    decreases lines.len() - i,
{
    if i >= lines.len() {
        Ok(None)
    } else {
        let line = lines[i as int];
        match find_char(line, ':') {
            None => content_length_from(lines, i + 1),
            Some(colon) => {
                if is_content_length_name(line.subrange(0, colon as int)) {
                    match parse_usize(trim(line.subrange(colon as int + 1, line.len() as int))) {
                        Some(length) => Ok(Some(length)),
                        None => Err(HeaderError::InvalidContentLength),
                    }
                } else {
                    content_length_from(lines, i + 1)
                }
            },
        }
    }
}

/// `Content-Length` of UTF-8 response headers, if present.
pub open spec fn content_length_of(headers: Seq<u8>) -> Result<Option<usize>, HeaderError> {
    if !valid_utf8(headers) {
        Err(HeaderError::InvalidUtf8)
    } else {
        content_length_from(text_lines(decode_utf8(headers)), 0)
    }
}

/// Whether a header line names `Content-Length`, in any ASCII case, before its first `:`.
pub open spec fn names_content_length(line: Seq<char>) -> bool {
    exists|p: int|
        0 <= p < line.len() && line[p] == ':' && (forall|q: int| 0 <= q < p ==> line[q] != ':')
            && #[trigger] is_content_length_name(line.subrange(0, p))
}

/// What the first line naming `Content-Length` gives: its length, or the refusal of a
/// value that is not a decimal length.
pub open spec fn announced_by(value: Seq<char>) -> Result<Option<usize>, HeaderError> {
    match parse_usize(trim(value)) {
        Some(v) => Ok(Some(v)),
        None => Err(HeaderError::InvalidContentLength),
    }
}

proof fn lemma_lookup_passes_other_lines(
    lines: Seq<Seq<char>>,
    i: nat,
    k: nat,
    name: Seq<char>,
    value: Seq<char>,
)
    requires
        i <= k < lines.len(),
        lines[k as int] == name + seq![':'] + value,
        forall|q: int| 0 <= q < name.len() ==> name[q] != ':',
        is_content_length_name(name),
        forall|j: int| 0 <= j < k ==> !names_content_length(#[trigger] lines[j]),
    ensures
        content_length_from(lines, i) == announced_by(value),
    decreases k - i,
{
    let line = lines[i as int];
    lemma_find_char(line, ':');
    if i < k {
        lemma_lookup_passes_other_lines(lines, i + 1, k, name, value);
        match find_char(line, ':') {
            None => {},
            Some(c) => {
                assert(!names_content_length(line));
                if is_content_length_name(line.subrange(0, c as int)) {
                    assert(names_content_length(line));
                }
            },
        }
    } else {
        let n = name.len();
        assert(line[n as int] == ':');
        assert forall|q: int| 0 <= q < n implies line[q] != ':' by {
            assert(line[q] == name[q]);
        }
        match find_char(line, ':') {
            None => {},
            Some(c) => {
                if c < n {
                    assert(line[c as int] == name[c as int]);
                } else if c > n {
                    assert(line[n as int] == ':');
                }
                assert(c == n);
                assert(line.subrange(0, n as int) =~= name);
                assert(line.subrange(n as int + 1, line.len() as int) =~= value);
            },
        }
    }
}

/// The announced length is found among the header lines: when UTF-8 headers hold a line
/// `name: value` whose name (free of `:`) is `Content-Length` in any ASCII case and whose
/// trimmed value is a decimal length, and no earlier line names `Content-Length`, that
/// length is the result, whatever other header lines come before it.
pub proof fn lemma_content_length_found_among_headers(
    headers: Seq<u8>,
    k: int,
    name: Seq<char>,
    value: Seq<char>,
    v: usize,
)
    requires
        valid_utf8(headers),
        0 <= k < text_lines(decode_utf8(headers)).len(),
        text_lines(decode_utf8(headers))[k] == name + seq![':'] + value,
        forall|q: int| 0 <= q < name.len() ==> name[q] != ':',
        is_content_length_name(name),
        parse_usize(trim(value)) == Some(v),
        forall|j: int|
            0 <= j < k ==> !names_content_length(#[trigger] text_lines(decode_utf8(headers))[j]),
    ensures
        content_length_of(headers) == Ok::<Option<usize>, HeaderError>(Some(v)),
{
    lemma_lookup_passes_other_lines(text_lines(decode_utf8(headers)), 0, k as nat, name, value);
}

/// The first line naming `Content-Length` decides even when its value is not a decimal
/// length (the headers are then refused); headers with no such line announce no length;
/// and headers that are not UTF-8 are refused as such.
pub proof fn lemma_content_length_first_naming_line_decides(
    headers: Seq<u8>,
    k: int,
    name: Seq<char>,
    value: Seq<char>,
)
    ensures
        !valid_utf8(headers) ==> content_length_of(headers) == Err::<Option<usize>, HeaderError>(
            HeaderError::InvalidUtf8,
        ),
        valid_utf8(headers) && (forall|j: int|
            0 <= j < text_lines(decode_utf8(headers)).len() ==> !names_content_length(
                #[trigger] text_lines(decode_utf8(headers))[j],
            )) ==> content_length_of(headers) == Ok::<Option<usize>, HeaderError>(None),
        ({
            let lines = text_lines(decode_utf8(headers));
            valid_utf8(headers) && 0 <= k < lines.len() && lines[k] == name + seq![':'] + value
                && (forall|q: int| 0 <= q < name.len() ==> name[q] != ':') && is_content_length_name(
                name,
            ) && (forall|j: int| 0 <= j < k ==> !names_content_length(#[trigger] lines[j]))
                ==> content_length_of(headers) == announced_by(value)
        }),
{
    let lines = text_lines(decode_utf8(headers));
    if valid_utf8(headers) {
        if forall|j: int| 0 <= j < lines.len() ==> !names_content_length(#[trigger] lines[j]) {
            lemma_lookup_finds_nothing(lines, 0);
        }
        if 0 <= k < lines.len() && lines[k] == name + seq![':'] + value && (forall|q: int|
            0 <= q < name.len() ==> name[q] != ':') && is_content_length_name(name) && (forall|
            j: int,
        | 0 <= j < k ==> !names_content_length(#[trigger] lines[j])) {
            lemma_lookup_passes_other_lines(lines, 0, k as nat, name, value);
        }
    }
}

proof fn lemma_lookup_finds_nothing(lines: Seq<Seq<char>>, i: nat)
    requires
        forall|j: int| 0 <= j < lines.len() ==> !names_content_length(#[trigger] lines[j]),
    ensures
        content_length_from(lines, i) == Ok::<Option<usize>, HeaderError>(None),
    decreases lines.len() - i,
{
    if i < lines.len() {
        let line = lines[i as int];
        lemma_find_char(line, ':');
        lemma_lookup_finds_nothing(lines, i + 1);
        match find_char(line, ':') {
            None => {},
            Some(c) => {
                assert(!names_content_length(line));
                if is_content_length_name(line.subrange(0, c as int)) {
                    assert(names_content_length(line));
                }
            },
        }
    }
}

/// Decode UTF-8 bytes into characters with `std::str::from_utf8`, which accepts exactly
/// the well-formed UTF-8 sequences (no overlong forms, surrogates, or values above
/// U+10FFFF) and decodes them without loss.
#[verifier::external_body]
fn utf8_chars(bytes: &[u8]) -> (decoded: Option<Vec<char>>)
    ensures
        match decoded {
            Some(chars) => valid_utf8(bytes@) && chars@ == decode_utf8(bytes@),
            None => !valid_utf8(bytes@),
        },
{
    std::str::from_utf8(bytes).ok().map(|text| text.chars().collect())
}

fn is_content_length_name_exec(name: &[char]) -> (matches: bool)
    ensures
        matches == is_content_length_name(name@),
{
    let lower = ['c', 'o', 'n', 't', 'e', 'n', 't', '-', 'l', 'e', 'n', 'g', 't', 'h'];
    let upper = ['C', 'O', 'N', 'T', 'E', 'N', 'T', '-', 'L', 'E', 'N', 'G', 'T', 'H'];
    proof {
        assert(lower@ =~= content_length_name());
        assert(upper@ =~= content_length_name_upper());
    }
    if name.len() != 14 {
        return false;
    }
    let mut i: usize = 0;
    while i < 14
        invariant
            name@.len() == 14,
            lower@ == content_length_name(),
            upper@ == content_length_name_upper(),
            i <= 14,
            forall|j: int|
                0 <= j < i ==> (#[trigger] name@[j] == content_length_name()[j] || name@[j]
                    == content_length_name_upper()[j]),
        decreases 14 - i,
    {
        let c = name[i];
        if c != lower[i] && c != upper[i] {
            return false;
        }
        i = i + 1;
    }
    true
}

/// Read the `Content-Length` of raw response headers: `None` when no header names it,
/// an error when the headers are not UTF-8 or the length is not decimal.
pub fn content_length(headers: &[u8]) -> (length: Result<Option<usize>, HeaderError>)
    ensures
        length == content_length_of(headers@),
{
    let chars = match utf8_chars(headers) {
        Some(chars) => chars,
        None => {
            return Err(HeaderError::InvalidUtf8);
        },
    };
    let lines = split_lines(chars.as_slice());
    let ghost views = lines@.map_values(|line: Vec<char>| line@);
    let mut i: usize = 0;
    while i < lines.len()
        invariant
            i <= lines@.len(),
            views == lines@.map_values(|line: Vec<char>| line@),
            views == text_lines(decode_utf8(headers@)),
            valid_utf8(headers@),
            content_length_of(headers@) == content_length_from(views, i as nat),
        decreases lines@.len() - i,
    {
        let line = lines[i].as_slice();
        assert(line@ == views[i as int]);
        match find(line, ':') {
            None => {},
            Some(colon) => {
                proof {
                    lemma_find_char(line@, ':');
                }
                if is_content_length_name_exec(slice_subrange(line, 0, colon)) {
                    let value = trim_chars(slice_subrange(line, colon + 1, line.len()));
                    return match parse_decimal_usize(value) {
                        Some(length) => Ok(Some(length)),
                        None => Err(HeaderError::InvalidContentLength),
                    };
                }
            },
        }
        i = i + 1;
    }
    Ok(None)
}

/// The first line of a text, or nothing when the text has no lines.
pub open spec fn first_line(s: Seq<char>) -> Seq<char> {
    if text_lines(s).len() == 0 {
        Seq::empty()
    } else {
        text_lines(s)[0]
    }
}

/// Whether the four characters at `i` are the blank line `\r\n\r\n`.
pub open spec fn blank_chars_at(s: Seq<char>, i: int) -> bool {
    0 <= i && i + 4 <= s.len() && s[i] == '\r' && s[i + 1] == '\n' && s[i + 2] == '\r' && s[i
        + 3] == '\n'
}

fn find_blank_line(text: &[char]) -> (found: Option<usize>)
    ensures
        match found {
            Some(i) => blank_chars_at(text@, i as int) && forall|j: int|
                0 <= j < i ==> !blank_chars_at(text@, j),
            None => forall|j: int| !blank_chars_at(text@, j),
        },
{
    if text.len() < 4 {
        return None;
    }
    let mut i: usize = 0;
    while i <= text.len() - 4
        invariant
            text@.len() >= 4,
            i <= text@.len() - 3,
            forall|j: int| 0 <= j < i ==> !blank_chars_at(text@, j),
        decreases text@.len() - i,
    {
        if text[i] == '\r' && text[i + 1] == '\n' && text[i + 2] == '\r' && text[i + 3] == '\n' {
            return Some(i);
        }
        i = i + 1;
    }
    None
}

/// Whether a text contains ` 200 ` at position `i`.
pub open spec fn ok_status_at(s: Seq<char>, i: int) -> bool {
    0 <= i && i + 5 <= s.len() && s[i] == ' ' && s[i + 1] == '2' && s[i + 2] == '0' && s[i + 3]
        == '0' && s[i + 4] == ' '
}

fn contains_ok_status(status: &[char]) -> (ok: bool)
    ensures
        ok == exists|i: int| ok_status_at(status@, i),
{
    if status.len() < 5 {
        return false;
    }
    let mut k: usize = 0;
    while k <= status.len() - 5
        invariant
            status@.len() >= 5,
            k <= status@.len() - 4,
            forall|j: int| 0 <= j < k ==> !ok_status_at(status@, j),
        decreases status@.len() - k,
    {
        if status[k] == ' ' && status[k + 1] == '2' && status[k + 2] == '0' && status[k + 3] == '0'
            && status[k + 4] == ' ' {
            assert(ok_status_at(status@, k as int));
            return true;
        }
        k = k + 1;
    }
    proof {
        assert forall|j: int| !ok_status_at(status@, j) by {
            if 0 <= j && j + 5 <= status@.len() {
                assert(j < k);
            }
        }
    }
    false
}

/// A scrape response that carries no metrics.
#[derive(Debug, Clone, PartialEq, Eq)]
pub enum ResponseError {
    /// The response has no `\r\n\r\n` between headers and body.
    NoHeaderBoundary,
    /// The endpoint answered with this status line instead of one holding ` 200 `.
    Status(Vec<char>),
}

/// Decode a complete response: the body after the first `\r\n\r\n` when the first line
/// of the headers contains ` 200 `; otherwise the missing boundary or the status line.
pub fn response_body(response: &[char]) -> (body: Result<Vec<char>, ResponseError>)
    ensures
        match body {
            Ok(body) => exists|i: int|
                #![trigger blank_chars_at(response@, i)]
                blank_chars_at(response@, i) && (forall|j: int|
                    0 <= j < i ==> !blank_chars_at(response@, j)) && (exists|k: int|
                    ok_status_at(first_line(response@.subrange(0, i)), k)) && body@
                    == response@.subrange(i + 4, response@.len() as int),
            Err(ResponseError::NoHeaderBoundary) => forall|j: int| !blank_chars_at(response@, j),
            Err(ResponseError::Status(status)) => exists|i: int|
                #![trigger blank_chars_at(response@, i)]
                blank_chars_at(response@, i) && (forall|j: int|
                    0 <= j < i ==> !blank_chars_at(response@, j)) && !(exists|k: int|
                    ok_status_at(first_line(response@.subrange(0, i)), k)) && status@ == first_line(
                    response@.subrange(0, i),
                ),
        },
{
    let found = find_blank_line(response);
    if found.is_none() {
        return Err(ResponseError::NoHeaderBoundary);
    }
    let split = found.unwrap();
    assert(blank_chars_at(response@, split as int));
    let head = slice_subrange(response, 0, split);
    let lines = split_lines(head);
    let status: Vec<char> = if lines.len() == 0 {
        Vec::new()
    } else {
        slice_to_vec(lines[0].as_slice())
    };
    proof {
        if lines@.len() == 0 {
            assert(status@ =~= first_line(head@));
        } else {
            assert(lines@.map_values(|line: Vec<char>| line@)[0] == lines@[0]@);
        }
    }
    assert(status@ == first_line(response@.subrange(0, split as int)));
    if !contains_ok_status(status.as_slice()) {
        return Err(ResponseError::Status(status));
    }
    let length = response.len();
    assert(split + 4 <= length);
    let body = slice_to_vec(slice_subrange(response, split + 4, length));
    assert(body@ == response@.subrange(split + 4, response@.len() as int));
    Ok(body)
}

} // verus!
