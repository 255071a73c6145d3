//! Metric registrations described as data, so that a recorder can apply them exactly.
use vstd::prelude::*;

verus! {

/// The instrument of one metric family.
#[derive(Debug, Clone, Copy, PartialEq, Eq, Structural)]
pub enum MetricKind {
    Counter,
    Gauge,
    Histogram,
}

/// The unit a metric family is described with.
#[derive(Debug, Clone, Copy, PartialEq, Eq, Structural)]
pub enum MetricUnit {
    Count,
    Seconds,
}

/// Abstract value of a [`MetricDescription`].
pub struct MetricDescriptionView {
    pub kind: MetricKind,
    pub name: Seq<char>,
    pub unit: MetricUnit,
    pub description: Seq<char>,
}

/// Registry description of one metric family.
#[derive(Debug, Clone, Copy, PartialEq, Eq)]
pub struct MetricDescription {
    pub kind: MetricKind,
    pub name: &'static str,
    pub unit: MetricUnit,
    pub description: &'static str,
}

impl View for MetricDescription {
    type V = MetricDescriptionView;

    open spec fn view(&self) -> MetricDescriptionView {
        MetricDescriptionView {
            kind: self.kind,
            name: self.name@,
            unit: self.unit,
            description: self.description@,
        }
    }
}

/// Abstract value of a [`MetricSeries`]: its instrument, name, and ordered labels.
pub struct MetricSeriesView {
    pub kind: MetricKind,
    pub name: Seq<char>,
    pub labels: Seq<(Seq<char>, Seq<char>)>,
}

/// One labelled metric series registered at zero before any runtime reports.
#[derive(Debug, Clone, PartialEq, Eq)]
pub struct MetricSeries {
    pub kind: MetricKind,
    pub name: &'static str,
    pub labels: Vec<(&'static str, &'static str)>,
}

/// Views of label pairs.
pub open spec fn label_views(labels: Seq<(&'static str, &'static str)>) -> Seq<(Seq<char>, Seq<char>)> {
    labels.map_values(|label: (&'static str, &'static str)| (label.0@, label.1@))
}

impl View for MetricSeries {
    type V = MetricSeriesView;

    open spec fn view(&self) -> MetricSeriesView {
        MetricSeriesView { kind: self.kind, name: self.name@, labels: label_views(self.labels@) }
    }
}

/// Views of a sequence of series.
pub open spec fn series_views(series: Seq<MetricSeries>) -> Seq<MetricSeriesView> {
    series.map_values(|s: MetricSeries| s@)
}

/// Views of a sequence of descriptions.
pub open spec fn description_views(descriptions: Seq<MetricDescription>) -> Seq<
    MetricDescriptionView,
> {
    descriptions.map_values(|d: MetricDescription| d@)
}

/// A series without labels.
pub fn unlabelled(kind: MetricKind, name: &'static str) -> (series: MetricSeries)
    ensures
        series@ == (MetricSeriesView { kind, name: name@, labels: Seq::empty() }),
{
    let labels: Vec<(&'static str, &'static str)> = Vec::new();
    proof {
        assert(label_views(labels@) =~= Seq::empty());
    }
    MetricSeries { kind, name, labels }
}

/// A series with one label.
pub fn labelled(
    kind: MetricKind,
    name: &'static str,
    key: &'static str,
    value: &'static str,
) -> (series: MetricSeries)
    ensures
        series@ == (MetricSeriesView { kind, name: name@, labels: seq![(key@, value@)] }),
{
    let mut labels: Vec<(&'static str, &'static str)> = Vec::new();
    labels.push((key, value));
    proof {
        assert(label_views(labels@) =~= seq![(key@, value@)]);
    }
    MetricSeries { kind, name, labels }
}

/// A series with two labels, in order.
pub fn labelled2(
    kind: MetricKind,
    name: &'static str,
    first: (&'static str, &'static str),
    second: (&'static str, &'static str),
) -> (series: MetricSeries)
    ensures
        series@ == (MetricSeriesView {
            kind,
            name: name@,
            labels: seq![(first.0@, first.1@), (second.0@, second.1@)],
        }),
{
    let mut labels: Vec<(&'static str, &'static str)> = Vec::new();
    labels.push(first);
    labels.push(second);
    proof {
        assert(label_views(labels@) =~= seq![(first.0@, first.1@), (second.0@, second.1@)]);
    }
    MetricSeries { kind, name, labels }
}

} // verus!
