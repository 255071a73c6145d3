//! Parsed samples of a scrape: canonical order and lookups by series name and label.
use vstd::prelude::*;
use super::labels::{
    chars_eq, chars_le, chars_le_exec, label_le, label_order, label_views, lemma_chars_le_antisymmetric,
    lemma_chars_le_total, lemma_chars_le_transitive, lemma_label_order_is_total_preorder,
    Label, LabelView,
};
use super::order::{
    insert_position, insertion_sorted, is_sorted_by, lemma_insert_position,
    lemma_insert_position_step, lemma_insertion_sorted, total_preorder,
};

verus! {

/// One sample of a scrape: its series name, canonical labels, and value.
#[derive(Debug)]
pub struct Sample<V> {
    pub name: Vec<char>,
    pub labels: Vec<Label>,
    pub value: V,
}

/// Abstract value of a sample: name, labels, and value.
pub type SampleView<V> = (Seq<char>, Seq<LabelView>, V);

impl<V> View for Sample<V> {
    type V = SampleView<V>;

    open spec fn view(&self) -> SampleView<V> {
        (self.name@, label_views(self.labels@), self.value)
    }
}

/// Views of a sequence of samples.
pub open spec fn sample_views<V>(samples: Seq<Sample<V>>) -> Seq<SampleView<V>> {
    samples.map_values(|sample: Sample<V>| sample@)
}

/// Lexicographic order of label lists, as `Vec<(String, String)>` orders them.
pub open spec fn labels_le(a: Seq<LabelView>, b: Seq<LabelView>) -> bool
    decreases a.len(),
{
    if a.len() == 0 {
        true
    } else if b.len() == 0 {
        false
    } else if a[0] != b[0] {
        label_le(a[0], b[0])
    } else {
        labels_le(a.drop_first(), b.drop_first())
    }
}

/// Order of samples: by series name, then by label list; values are not compared.
pub open spec fn sample_le<V>(x: SampleView<V>, y: SampleView<V>) -> bool {
    if x.0 == y.0 {
        labels_le(x.1, y.1)
    } else {
        chars_le(x.0, y.0)
    }
}

/// The sample order as a relation.
pub open spec fn sample_order<V>() -> spec_fn(SampleView<V>, SampleView<V>) -> bool {
    |x: SampleView<V>, y: SampleView<V>| sample_le(x, y)
}

/// Samples in canonical order: stably sorted by name, then labels.
pub open spec fn sorted_samples<V>(s: Seq<SampleView<V>>) -> Seq<SampleView<V>> {
    insertion_sorted(s, sample_order())
}

proof fn lemma_label_le_antisymmetric(x: LabelView, y: LabelView)
    requires
        label_le(x, y),
        label_le(y, x),
    ensures
        x == y,
{
    if x.0 == y.0 {
        lemma_chars_le_antisymmetric(x.1, y.1);
    } else {
        lemma_chars_le_antisymmetric(x.0, y.0);
    }
}

proof fn lemma_labels_le_total(a: Seq<LabelView>, b: Seq<LabelView>)
    ensures
        labels_le(a, b) || labels_le(b, a),
    decreases a.len(),
{
    lemma_label_order_is_total_preorder();
    if a.len() > 0 && b.len() > 0 {
        if a[0] == b[0] {
            lemma_labels_le_total(a.drop_first(), b.drop_first());
        } else {
            assert(label_order()(a[0], b[0]) || label_order()(b[0], a[0]));
        }
    }
}

proof fn lemma_labels_le_transitive(a: Seq<LabelView>, b: Seq<LabelView>, c: Seq<LabelView>)
    requires
        labels_le(a, b),
        labels_le(b, c),
    ensures
        labels_le(a, c),
    decreases a.len(),
{
    lemma_label_order_is_total_preorder();
    if a.len() > 0 && b.len() > 0 && c.len() > 0 {
        if a[0] == b[0] && b[0] == c[0] {
            lemma_labels_le_transitive(a.drop_first(), b.drop_first(), c.drop_first());
        } else if a[0] != b[0] && b[0] != c[0] {
            assert(label_order()(a[0], b[0]) && label_order()(b[0], c[0]));
            if a[0] == c[0] {
                lemma_label_le_antisymmetric(a[0], b[0]);
            }
        }
    }
}

/// The sample order is total and transitive.
pub proof fn lemma_sample_order_is_total_preorder<V>()
    ensures
        total_preorder(sample_order::<V>()),
{
    let le = sample_order::<V>();
    assert forall|x: SampleView<V>, y: SampleView<V>| #[trigger] le(x, y) || le(y, x) by {
        lemma_chars_le_total(x.0, y.0);
        lemma_labels_le_total(x.1, y.1);
    }
    assert forall|x: SampleView<V>, y: SampleView<V>, z: SampleView<V>|
        #[trigger] le(x, y) && #[trigger] le(y, z) implies le(x, z) by {
        if x.0 == y.0 && y.0 == z.0 {
            lemma_labels_le_transitive(x.1, y.1, z.1);
        } else if x.0 != y.0 && y.0 != z.0 && x.0 == z.0 {
            lemma_chars_le_antisymmetric(x.0, y.0);
        } else if x.0 != y.0 && y.0 != z.0 {
            lemma_chars_le_transitive(x.0, y.0, z.0);
        }
    }
}

/// Canonical sample order is an ordered rearrangement of the scraped samples: sorted
/// by name and then labels, with every sample kept exactly as often as it occurred.
pub proof fn lemma_sorted_samples_are_ordered<V>(s: Seq<SampleView<V>>)
    ensures
        is_sorted_by(sorted_samples(s), sample_order()),
        sorted_samples(s).to_multiset() == s.to_multiset(),
{
    lemma_sample_order_is_total_preorder::<V>();
    lemma_insertion_sorted(s, sample_order());
}

fn label_eq(x: &Label, y: &Label) -> (eq: bool)
    ensures
        eq == ((x.0@, x.1@) == (y.0@, y.1@)),
{
    chars_eq(&x.0, &y.0) && chars_eq(&x.1, &y.1)
}

fn labels_le_exec(a: &Vec<Label>, b: &Vec<Label>) -> (le: bool)
    ensures
        le == labels_le(label_views(a@), label_views(b@)),
{
    let ghost va = label_views(a@);
    let ghost vb = label_views(b@);
    let mut i: usize = 0;
    proof {
        assert(va.subrange(0, va.len() as int) =~= va);
        assert(vb.subrange(0, vb.len() as int) =~= vb);
    }
    while i < a.len()
        invariant
            va == label_views(a@),
            vb == label_views(b@),
            i <= a@.len(),
            i <= b@.len(),
            labels_le(va, vb) == labels_le(
                va.subrange(i as int, va.len() as int),
                vb.subrange(i as int, vb.len() as int),
            ),
        decreases a@.len() - i,
    {
        proof {
            let sa = va.subrange(i as int, va.len() as int);
            let sb = vb.subrange(i as int, vb.len() as int);
            assert(sa.drop_first() =~= va.subrange(i as int + 1, va.len() as int));
            if sb.len() > 0 {
                assert(sb.drop_first() =~= vb.subrange(i as int + 1, vb.len() as int));
            }
        }
        if i >= b.len() {
            return false;
        }
        if !label_eq(&a[i], &b[i]) {
            let x = &a[i];
            let y = &b[i];
            return if chars_eq(&x.0, &y.0) {
                chars_le_exec(&x.1, &y.1)
            } else {
                chars_le_exec(&x.0, &y.0)
            };
        }
        i = i + 1;
    }
    proof {
        assert(va.subrange(i as int, va.len() as int) =~= Seq::<LabelView>::empty());
    }
    true
}

fn sample_le_exec<V>(x: &Sample<V>, y: &Sample<V>) -> (le: bool)
    ensures
        le == sample_le(x@, y@),
{
    if chars_eq(&x.name, &y.name) {
        labels_le_exec(&x.labels, &y.labels)
    } else {
        chars_le_exec(&x.name, &y.name)
    }
}

/// Sort samples by series name and then label list, keeping samples with equal keys in
/// their scrape order.
pub fn sort_samples<V>(samples: Vec<Sample<V>>) -> (sorted: Vec<Sample<V>>)
    ensures
        sample_views(sorted@) == sorted_samples(sample_views(samples@)),
{
    let ghost given = sample_views(samples@);
    let count = samples.len();
    let mut pending = samples;
    let mut sorted: Vec<Sample<V>> = Vec::new();
    let mut taken: usize = 0;
    proof {
        assert(given.subrange(0, 0) =~= Seq::<SampleView<V>>::empty());
        assert(sample_views(sorted@) =~= Seq::<SampleView<V>>::empty());
        assert(sample_views(pending@) =~= given.subrange(0, given.len() as int));
    }
    while pending.len() > 0
        invariant
            given.len() == count,
            taken <= given.len(),
            pending@.len() == given.len() - taken,
            sample_views(pending@) == given.subrange(taken as int, given.len() as int),
            sample_views(sorted@) == sorted_samples(given.subrange(0, taken as int)),
        decreases pending@.len(),
    {
        let ghost before = pending@;
        let next = pending.remove(0);
        proof {
            assert(sample_views(pending@) =~= sample_views(before).drop_first());
            assert(next@ == sample_views(before)[0]);
        }
        let ghost s = sample_views(sorted@);
        let ghost x = next@;
        proof {
            lemma_insert_position(s, x, sample_order());
            assert(s.subrange(0, s.len() as int) =~= s);
        }
        let mut k: usize = 0;
        while k < sorted.len() && sample_le_exec(&sorted[k], &next)
            invariant
                k <= sorted@.len(),
                s == sample_views(sorted@),
                x == next@,
                insert_position(s, x, sample_order()) == k + insert_position(
                    s.subrange(k as int, s.len() as int),
                    x,
                    sample_order(),
                ),
            decreases sorted@.len() - k,
        {
            proof {
                lemma_insert_position_step(s, x, sample_order(), k as int);
            }
            k = k + 1;
        }
        proof {
            if k < s.len() {
                let rest = s.subrange(k as int, s.len() as int);
                assert(rest[0] == s[k as int]);
            } else {
                assert(s.subrange(k as int, s.len() as int) =~= Seq::<SampleView<V>>::empty());
            }
            assert(insert_position(s, x, sample_order()) == k);
        }
        sorted.insert(k, next);
        proof {
            let prefix = given.subrange(0, taken as int + 1);
            assert(prefix.drop_last() =~= given.subrange(0, taken as int));
            assert(prefix.last() == x);
            assert(sample_views(sorted@) =~= s.insert(k as int, x));
        }
        taken = taken + 1;
    }
    proof {
        assert(given.subrange(0, given.len() as int) =~= given);
    }
    sorted
}

/// Value of the first label of a list with the given name, if any.
pub open spec fn label_value(labels: Seq<LabelView>, name: Seq<char>) -> Option<Seq<char>>
    decreases labels.len(),
{
    if labels.len() == 0 {
        None
    } else if labels[0].0 == name {
        Some(labels[0].1)
    } else {
        label_value(labels.drop_first(), name)
    }
}

impl<V> Sample<V> {
    /// The value of this sample's first label with the given name, if any.
    pub fn label(&self, name: &[char]) -> (value: Option<&Vec<char>>)
        ensures
            match value {
                Some(v) => label_value(self@.1, name@) == Some(v@),
                None => label_value(self@.1, name@) is None,
            },
    {
        let ghost labels = self@.1;
        let mut i: usize = 0;
        proof {
            assert(labels.subrange(0, labels.len() as int) =~= labels);
        }
        while i < self.labels.len()
            invariant
                labels == label_views(self.labels@),
                i <= self.labels@.len(),
                label_value(labels, name@) == label_value(
                    labels.subrange(i as int, labels.len() as int),
                    name@,
                ),
            decreases self.labels@.len() - i,
        {
            proof {
                let rest = labels.subrange(i as int, labels.len() as int);
                assert(rest.drop_first() =~= labels.subrange(i as int + 1, labels.len() as int));
                assert(rest[0] == labels[i as int]);
            }
            if chars_eq(&self.labels[i].0, name) {
                return Some(&self.labels[i].1);
            }
            i = i + 1;
        }
        proof {
            assert(labels.subrange(i as int, labels.len() as int) =~= Seq::<LabelView>::empty());
        }
        None
    }
}

/// Whether a sample is the unlabelled series of the given name.
pub open spec fn is_unlabelled<V>(sample: SampleView<V>, name: Seq<char>) -> bool {
    sample.0 == name && sample.1.len() == 0
}

/// Whether a sample belongs to the given series and carries the given label value.
pub open spec fn has_label<V>(
    sample: SampleView<V>,
    name: Seq<char>,
    label: Seq<char>,
    value: Seq<char>,
) -> bool {
    sample.0 == name && label_value(sample.1, label) == Some(value)
}

/// Position of the first unlabelled sample of the series `name`, if any.
pub fn find_unlabelled<V>(samples: &[Sample<V>], name: &[char]) -> (found: Option<usize>)
    ensures
        match found {
            Some(i) => i < samples@.len() && is_unlabelled(samples@[i as int]@, name@) && forall|
                j: int,
            | 0 <= j < i ==> !is_unlabelled(#[trigger] samples@[j]@, name@),
            None => forall|j: int|
                0 <= j < samples@.len() ==> !is_unlabelled(#[trigger] samples@[j]@, name@),
        },
{
    let mut i: usize = 0;
    while i < samples.len()
        invariant
            i <= samples@.len(),
            forall|j: int| 0 <= j < i ==> !is_unlabelled(#[trigger] samples@[j]@, name@),
        decreases samples@.len() - i,
    {
        if samples[i].labels.len() == 0 && chars_eq(&samples[i].name, name) {
            return Some(i);
        }
        i = i + 1;
    }
    None
}

/// Position of the first sample of the series `name` whose label `label` has the value
/// `value`, if any.
pub fn find_with_label<V>(samples: &[Sample<V>], name: &[char], label: &[char], value: &[char]) -> (found: Option<usize>)
    ensures
        match found {
            Some(i) => i < samples@.len() && has_label(samples@[i as int]@, name@, label@, value@)
                && forall|j: int|
                0 <= j < i ==> !has_label(#[trigger] samples@[j]@, name@, label@, value@),
            None => forall|j: int|
                0 <= j < samples@.len() ==> !has_label(
                    #[trigger] samples@[j]@,
                    name@,
                    label@,
                    value@,
                ),
        },
{
    let mut i: usize = 0;
    while i < samples.len()
        invariant
            i <= samples@.len(),
            forall|j: int|
                0 <= j < i ==> !has_label(#[trigger] samples@[j]@, name@, label@, value@),
        decreases samples@.len() - i,
    {
        if chars_eq(&samples[i].name, name) {
            match samples[i].label(label) {
                Some(found) => {
                    if chars_eq(found, value) {
                        return Some(i);
                    }
                },
                None => {},
            }
        }
        i = i + 1;
    }
    None
}

/// Positions, in order, of every sample of the series `name`.
pub fn series_positions<V>(samples: &[Sample<V>], name: &[char]) -> (positions: Vec<usize>)
    ensures
        forall|k: int|
            #![trigger positions@[k]]
            0 <= k < positions@.len() ==> positions@[k] < samples@.len()
                && samples@[positions@[k] as int]@.0 == name@,
        forall|k: int, l: int|
            0 <= k < l < positions@.len() ==> #[trigger] positions@[k] < #[trigger] positions@[l],
        forall|i: int|
            0 <= i < samples@.len() && (#[trigger] samples@[i])@.0 == name@ ==> positions@.contains(
                i as usize,
            ),
{
    let mut positions: Vec<usize> = Vec::new();
    let mut i: usize = 0;
    while i < samples.len()
        invariant
            i <= samples@.len(),
            forall|k: int|
                #![trigger positions@[k]]
                0 <= k < positions@.len() ==> positions@[k] < i
                    && samples@[positions@[k] as int]@.0 == name@,
            forall|k: int, l: int|
                0 <= k < l < positions@.len() ==> #[trigger] positions@[k]
                    < #[trigger] positions@[l],
            forall|j: int|
                0 <= j < i && (#[trigger] samples@[j])@.0 == name@ ==> positions@.contains(
                    j as usize,
                ),
        decreases samples@.len() - i,
    {
        if chars_eq(&samples[i].name, name) {
            let ghost before = positions@;
            positions.push(i);
            proof {
                assert(positions@[before.len() as int] == i);
                assert forall|k: int| #![trigger positions@[k]] 0 <= k < before.len() implies positions@[k] == before[k] by {}
                assert forall|j: int|
                    0 <= j < i + 1 && (#[trigger] samples@[j])@.0 == name@ implies positions@.contains(
                    j as usize,
                ) by {
                    if j < i {
                        let k = choose|k: int| 0 <= k < before.len() && before[k] == j as usize;
                        assert(positions@[k] == j as usize);
                    } else {
                        assert(positions@[before.len() as int] == i);
                    }
                }
            }
        }
        i = i + 1;
    }
    positions
}

} // verus!
