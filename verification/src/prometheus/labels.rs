//! Label sets of exposition series: parsing and canonical (sorted) order.
use vstd::prelude::*;
use vstd::slice::{slice_subrange, slice_to_vec};
use super::chars::{
    find, find_char, lemma_find_char, lemma_trim_start_suffix, trim, trim_chars, trim_start,
    trim_start_chars,
};
use super::order::{
    insert_position, insertion_sorted, is_sorted_by, lemma_insert_position,
    lemma_insert_position_step, lemma_insertion_sorted, total_preorder,
};
use super::series::{lemma_quoted_consumed, parse_quoted, quoted, SeriesError};

verus! {

/// One label as a (name, value) pair of characters.
pub type Label = (Vec<char>, Vec<char>);

/// Abstract value of one label.
pub type LabelView = (Seq<char>, Seq<char>);

/// Views of a sequence of labels.
pub open spec fn label_views(labels: Seq<Label>) -> Seq<LabelView> {
    labels.map_values(|label: Label| (label.0@, label.1@))
}

/// Lexicographic order of character sequences by code point, as `Ord` orders strings.
pub open spec fn chars_le(a: Seq<char>, b: Seq<char>) -> bool
    decreases a.len(),
{
    if a.len() == 0 {
        true
    } else if b.len() == 0 {
        false
    } else if a[0] != b[0] {
        (a[0] as u32) < (b[0] as u32)
    } else {
        chars_le(a.drop_first(), b.drop_first())
    }
}

/// Order of labels: by name, then by value.
pub open spec fn label_le(x: LabelView, y: LabelView) -> bool {
    if x.0 == y.0 {
        chars_le(x.1, y.1)
    } else {
        chars_le(x.0, y.0)
    }
}

/// The label order as a relation.
pub open spec fn label_order() -> spec_fn(LabelView, LabelView) -> bool {
    |x: LabelView, y: LabelView| label_le(x, y)
}

/// Labels in canonical order: stably sorted by name, then value.
pub open spec fn sorted_labels(s: Seq<LabelView>) -> Seq<LabelView> {
    insertion_sorted(s, label_order())
}

/// Every sequence orders at or before itself.
pub proof fn lemma_chars_le_reflexive(a: Seq<char>)
    ensures
        chars_le(a, a),
    decreases a.len(),
{
    if a.len() > 0 {
        lemma_chars_le_reflexive(a.drop_first());
    }
}

/// Any two sequences are ordered one way or the other.
pub proof fn lemma_chars_le_total(a: Seq<char>, b: Seq<char>)
    ensures
        chars_le(a, b) || chars_le(b, a),
    decreases a.len(),
{
    if a.len() > 0 && b.len() > 0 {
        if a[0] == b[0] {
            lemma_chars_le_total(a.drop_first(), b.drop_first());
        } else {
            if (a[0] as u32) == (b[0] as u32) {
                vstd::utf8::char_u32_cast(a[0], a[0] as u32);
                vstd::utf8::char_u32_cast(b[0], b[0] as u32);
            }
        }
    }
}

/// The order of sequences is transitive.
pub proof fn lemma_chars_le_transitive(a: Seq<char>, b: Seq<char>, c: Seq<char>)
    requires
        chars_le(a, b),
        chars_le(b, c),
    ensures
        chars_le(a, c),
    decreases a.len(),
{
    if a.len() > 0 && b.len() > 0 && c.len() > 0 && a[0] == b[0] && b[0] == c[0] {
        lemma_chars_le_transitive(a.drop_first(), b.drop_first(), c.drop_first());
    }
}

/// Two sequences that each order at or before the other are equal.
pub proof fn lemma_chars_le_antisymmetric(a: Seq<char>, b: Seq<char>)
    requires
        chars_le(a, b),
        chars_le(b, a),
    ensures
        a == b,
    decreases a.len(),
{
    if a.len() > 0 && b.len() > 0 {
        lemma_chars_le_antisymmetric(a.drop_first(), b.drop_first());
        assert(a =~= seq![a[0]] + a.drop_first());
        assert(b =~= seq![b[0]] + b.drop_first());
    }
}

/// The label order is total and transitive.
pub proof fn lemma_label_order_is_total_preorder()
    ensures
        total_preorder(label_order()),
{
    let le = label_order();
    assert forall|x: LabelView, y: LabelView| #[trigger] le(x, y) || le(y, x) by {
        lemma_chars_le_total(x.0, y.0);
        lemma_chars_le_total(x.1, y.1);
    }
    assert forall|x: LabelView, y: LabelView, z: LabelView|
        #[trigger] le(x, y) && #[trigger] le(y, z) implies le(x, z) by {
        if x.0 == y.0 && y.0 == z.0 {
            lemma_chars_le_transitive(x.1, y.1, z.1);
        } else if x.0 != y.0 && y.0 != z.0 && x.0 == z.0 {
            lemma_chars_le_antisymmetric(x.0, y.0);
        } else if x.0 != y.0 && y.0 != z.0 {
            lemma_chars_le_transitive(x.0, y.0, z.0);
        }
    }
}

/// Canonical label order is an ordered rearrangement of the parsed labels: sorted by
/// name and then value, with every label kept exactly as often as it occurred.
pub proof fn lemma_sorted_labels_are_ordered(s: Seq<LabelView>)
    ensures
        is_sorted_by(sorted_labels(s), label_order()),
        sorted_labels(s).to_multiset() == s.to_multiset(),
{
    lemma_label_order_is_total_preorder();
    lemma_insertion_sorted(s, label_order());
}

/// Whether `a` orders at or before `b`.
pub(crate) fn chars_le_exec(a: &[char], b: &[char]) -> (le: bool)
    ensures
        le == chars_le(a@, b@),
{
    let mut i: usize = 0;
    proof {
        assert(a@.subrange(0, a@.len() as int) =~= a@);
        assert(b@.subrange(0, b@.len() as int) =~= b@);
    }
    while i < a.len()
        invariant
            i <= a@.len(),
            i <= b@.len(),
            forall|j: int| 0 <= j < i ==> a@[j] == b@[j],
            chars_le(a@, b@) == chars_le(
                a@.subrange(i as int, a@.len() as int),
                b@.subrange(i as int, b@.len() as int),
            ),
        decreases a@.len() - i,
    {
        proof {
            let sa = a@.subrange(i as int, a@.len() as int);
            let sb = b@.subrange(i as int, b@.len() as int);
            assert(sa.drop_first() =~= a@.subrange(i as int + 1, a@.len() as int));
            if sb.len() > 0 {
                assert(sb.drop_first() =~= b@.subrange(i as int + 1, b@.len() as int));
            }
        }
        if i >= b.len() {
            return false;
        }
        let x = a[i];
        let y = b[i];
        if x != y {
            return (x as u32) < (y as u32);
        }
        i = i + 1;
    }
    proof {
        assert(a@.subrange(i as int, a@.len() as int) =~= Seq::<char>::empty());
    }
    true
}

/// Whether two character sequences are equal.
pub(crate) fn chars_eq(a: &[char], b: &[char]) -> (eq: bool)
    ensures
        eq == (a@ == b@),
{
    if a.len() != b.len() {
        return false;
    }
    let mut i: usize = 0;
    while i < a.len()
        invariant
            a@.len() == b@.len(),
            i <= a@.len(),
            forall|j: int| 0 <= j < i ==> a@[j] == b@[j],
        decreases a@.len() - i,
    {
        if a[i] != b[i] {
            return false;
        }
        i = i + 1;
    }
    proof {
        assert(a@ =~= b@);
    }
    true
}

fn label_le_exec(x: &Label, y: &Label) -> (le: bool)
    ensures
        le == label_le((x.0@, x.1@), (y.0@, y.1@)),
{
    if chars_eq(&x.0, &y.0) {
        chars_le_exec(&x.1, &y.1)
    } else {
        chars_le_exec(&x.0, &y.0)
    }
}

fn copy_label(label: &Label) -> (copy: Label)
    ensures
        copy.0@ == label.0@,
        copy.1@ == label.1@,
{
    (slice_to_vec(label.0.as_slice()), slice_to_vec(label.1.as_slice()))
}

/// Sort labels by name, then value, keeping equal labels in the order given.
pub fn sort_labels(labels: &Vec<Label>) -> (sorted: Vec<Label>)
    ensures
        label_views(sorted@) == sorted_labels(label_views(labels@)),
{
    let ghost given = label_views(labels@);
    let mut sorted: Vec<Label> = Vec::new();
    let mut i: usize = 0;
    proof {
        assert(given.subrange(0, 0) =~= Seq::<LabelView>::empty());
    }
    while i < labels.len()
        invariant
            i <= labels@.len(),
            given == label_views(labels@),
            label_views(sorted@) == sorted_labels(given.subrange(0, i as int)),
        decreases labels@.len() - i,
    {
        let last = copy_label(&labels[i]);
        let ghost s = label_views(sorted@);
        let ghost x = (last.0@, last.1@);
        proof {
            lemma_insert_position(s, x, label_order());
            assert(s.subrange(0, s.len() as int) =~= s);
        }
        let mut k: usize = 0;
        while k < sorted.len() && label_le_exec(&sorted[k], &last)
            invariant
                k <= sorted@.len(),
                s == label_views(sorted@),
                x == (last.0@, last.1@),
                insert_position(s, x, label_order()) == k + insert_position(
                    s.subrange(k as int, s.len() as int),
                    x,
                    label_order(),
                ),
            decreases sorted@.len() - k,
        {
            proof {
                lemma_insert_position_step(s, x, label_order(), k as int);
            }
            k = k + 1;
        }
        proof {
            if k < s.len() {
                let rest = s.subrange(k as int, s.len() as int);
                assert(rest[0] == s[k as int]);
            } else {
                assert(s.subrange(k as int, s.len() as int) =~= Seq::<LabelView>::empty());
            }
            assert(insert_position(s, x, label_order()) == k);
        }
        sorted.insert(k, last);
        proof {
            let next = given.subrange(0, i as int + 1);
            assert(next.drop_last() =~= given.subrange(0, i as int));
            assert(next.last() == x);
            assert(label_views(sorted@) =~= s.insert(k as int, x));
        }
        i = i + 1;
    }
    proof {
        assert(given.subrange(0, labels@.len() as int) =~= given);
    }
    sorted
}

/// Parsing of the label list `remaining`, after the labels `parsed` so far, in the
/// order they appear: `name = "value"` pairs separated by commas, with surrounding
/// whitespace ignored and a trailing comma allowed.
pub open spec fn labels_from(remaining: Seq<char>, parsed: Seq<LabelView>) -> Result<
    Seq<LabelView>,
    SeriesError,
>
    decreases remaining.len(),
{
    if remaining.len() == 0 {
        Ok(parsed)
    } else {
        match find_char(remaining, '=') {
            None => Err(SeriesError::LabelWithoutEquals),
            Some(equal) => {
                let name = trim(remaining.subrange(0, equal as int));
                let after_equal = trim_start(
                    remaining.subrange(equal as int + 1, remaining.len() as int),
                );
                match quoted(after_equal) {
                    Err(error) => Err(error),
                    Ok((value, consumed)) => {
                        let rest = trim_start(
                            after_equal.subrange(consumed as int, after_equal.len() as int),
                        );
                        let next = parsed.push((name, value));
                        if rest.len() == 0 {
                            Ok(next)
                        } else if rest[0] != ',' {
                            Err(SeriesError::LabelsNotCommaSeparated)
                        } else {
                            proof {
                                lemma_labels_progress(remaining, equal, after_equal, consumed, rest);
                            }
                            labels_from(trim_start(rest.drop_first()), next)
                        }
                    },
                }
            },
        }
    }
}

/// Each label consumed strictly shortens the remaining label list.
pub proof fn lemma_labels_progress(
    remaining: Seq<char>,
    equal: nat,
    after_equal: Seq<char>,
    consumed: nat,
    rest: Seq<char>,
)
    requires
        find_char(remaining, '=') == Some(equal),
        after_equal == trim_start(remaining.subrange(equal as int + 1, remaining.len() as int)),
        quoted(after_equal) is Ok,
        consumed == quoted(after_equal)->Ok_0.1,
        rest == trim_start(after_equal.subrange(consumed as int, after_equal.len() as int)),
        rest.len() > 0,
    ensures
        trim_start(rest.drop_first()).len() < remaining.len(),
{
    lemma_find_char(remaining, '=');
    lemma_trim_start_suffix(remaining.subrange(equal as int + 1, remaining.len() as int));
    lemma_quoted_consumed(after_equal, 1, Seq::empty(), false);
    lemma_trim_start_suffix(after_equal.subrange(consumed as int, after_equal.len() as int));
    lemma_trim_start_suffix(rest.drop_first());
}

/// Label parsing of a label list: the labels in canonical order, or the first error.
pub open spec fn parsed_labels(source: Seq<char>) -> Result<Seq<LabelView>, SeriesError> {
    match labels_from(trim(source), Seq::empty()) {
        Ok(labels) => Ok(sorted_labels(labels)),
        Err(error) => Err(error),
    }
}

/// Parse the comma-separated `name="value"` list inside a series' braces, returning the
/// labels sorted by name and then value.
pub fn parse_labels(source: &[char]) -> (result: Result<Vec<Label>, SeriesError>)
    ensures
        match (result, parsed_labels(source@)) {
            (Ok(labels), Ok(spec_labels)) => label_views(labels@) == spec_labels,
            (Err(e), Err(spec_e)) => e == spec_e,
            _ => false,
        },
{
    let mut labels: Vec<Label> = Vec::new();
    let mut remaining = trim_chars(source);
    proof {
        assert(label_views(labels@) =~= Seq::<LabelView>::empty());
    }
    while remaining.len() > 0
        invariant
            labels_from(trim(source@), Seq::empty()) == labels_from(
                remaining@,
                label_views(labels@),
            ),
        decreases remaining@.len(),
    {
        let ghost before = label_views(labels@);
        let equal = match find(remaining, '=') {
            Some(equal) => equal,
            None => {
                return Err(SeriesError::LabelWithoutEquals);
            },
        };
        proof {
            lemma_find_char(remaining@, '=');
        }
        let name = trim_chars(slice_subrange(remaining, 0, equal));
        let after_equal = trim_start_chars(slice_subrange(remaining, equal + 1, remaining.len()));
        let (value, consumed) = match parse_quoted(after_equal) {
            Ok(parsed) => parsed,
            Err(error) => {
                return Err(error);
            },
        };
        proof {
            lemma_quoted_consumed(after_equal@, 1, Seq::empty(), false);
        }
        labels.push((slice_to_vec(name), value));
        let rest = trim_start_chars(slice_subrange(after_equal, consumed, after_equal.len()));
        proof {
            assert(label_views(labels@) =~= before.push((name@, value@)));
        }
        if rest.len() == 0 {
            remaining = rest;
        } else if rest[0] != ',' {
            return Err(SeriesError::LabelsNotCommaSeparated);
        } else {
            proof {
                lemma_labels_progress(remaining@, equal as nat, after_equal@, consumed as nat, rest@);
            }
            let after_comma = slice_subrange(rest, 1, rest.len());
            proof {
                assert(after_comma@ =~= rest@.drop_first());
            }
            remaining = trim_start_chars(after_comma);
        }
    }
    let sorted = sort_labels(&labels);
    Ok(sorted)
}

/// Parsing of a series into its metric name and canonical labels.
pub open spec fn parsed_series(series: Seq<char>) -> Result<(Seq<char>, Seq<LabelView>), SeriesError> {
    match find_char(series, '{') {
        None => Ok((series, Seq::empty())),
        Some(open) => {
            if series.len() == 0 || series.last() != '}' {
                Err(SeriesError::LabelSetNotClosed)
            } else {
                match parsed_labels(series.subrange(open as int + 1, series.len() - 1)) {
                    Ok(labels) => Ok((series.subrange(0, open as int), labels)),
                    Err(error) => Err(error),
                }
            }
        },
    }
}

/// Parse a series such as `name{label="value",...}` into its name and labels sorted by
/// name and then value; a series without `{` is a bare name.
pub fn parse_series(series: &[char]) -> (result: Result<(Vec<char>, Vec<Label>), SeriesError>)
    ensures
        match (result, parsed_series(series@)) {
            (Ok((name, labels)), Ok((spec_name, spec_labels))) => name@ == spec_name
                && label_views(labels@) == spec_labels,
            (Err(e), Err(spec_e)) => e == spec_e,
            _ => false,
        },
{
    let open = match find(series, '{') {
        None => {
            return Ok((slice_to_vec(series), Vec::new()));
        },
        Some(open) => open,
    };
    proof {
        lemma_find_char(series@, '{');
    }
    if series.len() == 0 || series[series.len() - 1] != '}' {
        return Err(SeriesError::LabelSetNotClosed);
    }
    let name = slice_to_vec(slice_subrange(series, 0, open));
    match parse_labels(slice_subrange(series, open + 1, series.len() - 1)) {
        Ok(labels) => Ok((name, labels)),
        Err(error) => Err(error),
    }
}

} // verus!
