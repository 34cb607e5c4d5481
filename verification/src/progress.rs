//! What a long computation tells of its progress, and how it is told to
//! stop.
//!
//! A computation reports through a small, closed set of event kinds. A
//! computation that works on centroids on behalf of another reports as if it
//! were the main one; what it reports is rewritten to the centroid slots
//! before it is passed on.

use vstd::prelude::*;

verus! {

/// The computation was interrupted: it is to stop.
#[derive(Clone, Copy, Debug, PartialEq, Eq, Structural)]
pub struct Interrupt;

/// What a computation reports. `U` is a state update, `S` the statistics of
/// a layer.
pub enum ProgressEvent<U, S> {
    /// The state of the main computation.
    Progress(U),
    /// The statistics of the layer `layer` of the main computation.
    LayerStatistics { layer: usize, statistics: S },
    /// The state of the centroid computation.
    CentroidProgress(U),
    /// The statistics of the layer `layer` of the centroid computation.
    CentroidLayerStatistics { layer: usize, statistics: S },
    /// The question whether to go on.
    Alive,
    /// The wish to be kept alive over a span without reports.
    KeepAlive,
}

impl<U, S> ProgressEvent<U, S> {
    /// The event is about the centroid computation.
    pub open spec fn spec_is_centroid(&self) -> bool {
        *self is CentroidProgress || *self is CentroidLayerStatistics
    }

    /// What a report of a centroid computation is passed on as: its state
    /// and its statistics go to the centroid slots, and everything else
    /// stays as it is.
    pub open spec fn spec_rewritten(self) -> ProgressEvent<U, S> {
        match self {
            ProgressEvent::Progress(update) => ProgressEvent::CentroidProgress(update),
            ProgressEvent::LayerStatistics { layer, statistics } =>
                ProgressEvent::CentroidLayerStatistics { layer, statistics },
            other => other,
        }
    }

    #[verifier::when_used_as_spec(spec_is_centroid)]
    pub fn is_centroid(&self) -> (centroid: bool)
        ensures
            centroid == self.spec_is_centroid(),
    {
        matches!(
            self,
            ProgressEvent::CentroidProgress(_) | ProgressEvent::CentroidLayerStatistics { .. }
        )
    }
}

/// The rewriter for the reports of a centroid computation.
pub struct PqProgressMonitor;

impl PqProgressMonitor {
    /// Passes on a report of a centroid computation. Such a computation
    /// knows of no centroid slots of its own and never reports to them.
    pub fn rewrite<U, S>(event: ProgressEvent<U, S>) -> (rewritten: ProgressEvent<U, S>)
        requires
            !event.spec_is_centroid(),
        ensures
            rewritten == event.spec_rewritten(),
            rewritten is Alive || rewritten is KeepAlive || rewritten.spec_is_centroid(),
    {
        match event {
            ProgressEvent::Progress(update) => ProgressEvent::CentroidProgress(update),
            ProgressEvent::LayerStatistics { layer, statistics } =>
                ProgressEvent::CentroidLayerStatistics { layer, statistics },
            other => other,
        }
    }
}

/// The statistics that were reported last for each layer.
pub struct SimpleProgressMonitor<S> {
    layer_statistics: Vec<(usize, S)>,
    centroid_layer_statistics: Vec<(usize, S)>,
}

/// The statistics of the layer `layer` among `entries`: those of the last
/// entry for the layer.
pub open spec fn statistics_of<S>(entries: Seq<(usize, S)>, layer: usize) -> Option<S>
    decreases entries.len(),
{
    if entries.len() == 0 {
        None
    } else if entries.last().0 == layer {
        Some(entries.last().1)
    } else {
        statistics_of(entries.drop_last(), layer)
    }
}

/// The entries without those for the layer `layer`.
pub open spec fn without_layer<S>(entries: Seq<(usize, S)>, layer: usize) -> Seq<(usize, S)>
    decreases entries.len(),
{
    if entries.len() == 0 {
        entries
    } else if entries.last().0 == layer {
        without_layer(entries.drop_last(), layer)
    } else {
        without_layer(entries.drop_last(), layer).push(entries.last())
    }
}

/// Without the entries for a layer, the layer has no statistics, and every
/// other layer has those it had.
pub proof fn lemma_without_layer<S>(entries: Seq<(usize, S)>, layer: usize, other: usize)
    ensures
        statistics_of(without_layer(entries, layer), layer) is None,
        other != layer ==> statistics_of(without_layer(entries, layer), other) == statistics_of(
            entries,
            other,
        ),
    decreases entries.len(),
{
    if entries.len() > 0 {
        lemma_without_layer(entries.drop_last(), layer, other);
        if entries.last().0 != layer {
            let kept = without_layer(entries.drop_last(), layer);
            assert(kept.push(entries.last()).drop_last() == kept);
        }
    }
}

fn lookup<S: Copy>(entries: &Vec<(usize, S)>, layer: usize) -> (found: Option<S>)
    ensures
        found == statistics_of(entries@, layer),
{
    let mut i: usize = entries.len();
    assert(entries@.subrange(0, i as int) == entries@);
    while i > 0
        invariant
            i <= entries.len(),
            statistics_of(entries@, layer) == statistics_of(entries@.subrange(0, i as int), layer),
        decreases i,
    {
        assert(entries@.subrange(0, i as int).drop_last() == entries@.subrange(0, i - 1));
        if entries[i - 1].0 == layer {
            return Some(entries[i - 1].1);
        }
        i = i - 1;
    }
    None
}

fn remove<S: Copy>(entries: &Vec<(usize, S)>, layer: usize) -> (rest: Vec<(usize, S)>)
    ensures
        rest@ == without_layer(entries@, layer),
{
    let mut rest: Vec<(usize, S)> = Vec::new();
    let mut i: usize = 0;
    while i < entries.len()
        invariant
            i <= entries.len(),
            rest@ == without_layer(entries@.take(i as int), layer),
        decreases entries.len() - i,
    {
        assert(entries@.take(i + 1).drop_last() == entries@.take(i as int));
        if entries[i].0 != layer {
            rest.push((entries[i].0, entries[i].1));
        }
        i = i + 1;
    }
    assert(entries@.take(i as int) == entries@);
    rest
}

impl<S: Copy> SimpleProgressMonitor<S> {
    /// The statistics of the layer `layer` of the main computation.
    pub closed spec fn layer(self, layer: usize) -> Option<S> {
        statistics_of(self.layer_statistics@, layer)
    }

    /// The statistics of the layer `layer` of the centroid computation.
    pub closed spec fn centroid_layer(self, layer: usize) -> Option<S> {
        statistics_of(self.centroid_layer_statistics@, layer)
    }

    /// A monitor that has been told nothing yet.
    pub fn new() -> (monitor: Self)
        ensures
            forall|layer: usize| #[trigger] monitor.layer(layer) is None,
            forall|layer: usize| #[trigger] monitor.centroid_layer(layer) is None,
    {
        SimpleProgressMonitor {
            layer_statistics: Vec::new(),
            centroid_layer_statistics: Vec::new(),
        }
    }

    /// Whether the computation is to go on: it always is.
    pub fn alive(&mut self) -> (alive: Result<(), Interrupt>)
        ensures
            alive is Ok,
            *final(self) == *old(self),
    {
        Ok(())
    }

    pub fn set_layer_statistics(&mut self, layer: usize, statistics: S) -> (set: Result<
        (),
        Interrupt,
    >)
        ensures
            set is Ok,
            final(self).layer(layer) == Some(statistics),
            forall|other: usize|
                other != layer ==> #[trigger] final(self).layer(other) == old(self).layer(other),
            forall|other: usize|
                #[trigger] final(self).centroid_layer(other) == old(self).centroid_layer(other),
    {
        let mut entries = remove(&self.layer_statistics, layer);
        let ghost kept = entries@;
        entries.push((layer, statistics));
        assert(entries@.drop_last() == kept);
        proof {
            assert forall|other: usize| other != layer implies statistics_of(entries@, other)
                == statistics_of(self.layer_statistics@, other) by {
                lemma_without_layer(self.layer_statistics@, layer, other);
            }
        }
        self.layer_statistics = entries;
        Ok(())
    }

    pub fn set_centroid_layer_statistics(&mut self, layer: usize, statistics: S) -> (set: Result<
        (),
        Interrupt,
    >)
        ensures
            set is Ok,
            final(self).centroid_layer(layer) == Some(statistics),
            forall|other: usize|
                other != layer ==> #[trigger] final(self).centroid_layer(other) == old(
                    self,
                ).centroid_layer(other),
            forall|other: usize| #[trigger] final(self).layer(other) == old(self).layer(other),
    {
        let mut entries = remove(&self.centroid_layer_statistics, layer);
        let ghost kept = entries@;
        entries.push((layer, statistics));
        assert(entries@.drop_last() == kept);
        proof {
            assert forall|other: usize| other != layer implies statistics_of(entries@, other)
                == statistics_of(self.centroid_layer_statistics@, other) by {
                lemma_without_layer(self.centroid_layer_statistics@, layer, other);
            }
        }
        self.centroid_layer_statistics = entries;
        Ok(())
    }

    pub fn get_layer_statistics(&self, layer_from_top: usize) -> (statistics: Result<
        Option<S>,
        Interrupt,
    >)
        ensures
            statistics == Ok::<Option<S>, Interrupt>(self.layer(layer_from_top)),
    {
        Ok(lookup(&self.layer_statistics, layer_from_top))
    }

    pub fn get_centroid_layer_statistics(&self, layer_from_top: usize) -> (statistics: Result<
        Option<S>,
        Interrupt,
    >)
        ensures
            statistics == Ok::<Option<S>, Interrupt>(self.centroid_layer(layer_from_top)),
    {
        Ok(lookup(&self.centroid_layer_statistics, layer_from_top))
    }

    pub fn invalidate_layer_statistics(&mut self, layer_from_top: usize) -> (done: Result<
        (),
        Interrupt,
    >)
        ensures
            done is Ok,
            final(self).layer(layer_from_top) is None,
            forall|other: usize|
                other != layer_from_top ==> #[trigger] final(self).layer(other) == old(
                    self,
                ).layer(other),
            forall|other: usize|
                #[trigger] final(self).centroid_layer(other) == old(self).centroid_layer(other),
    {
        let entries = remove(&self.layer_statistics, layer_from_top);
        proof {
            lemma_without_layer(self.layer_statistics@, layer_from_top, layer_from_top);
            assert forall|other: usize| other != layer_from_top implies statistics_of(
                entries@,
                other,
            ) == statistics_of(self.layer_statistics@, other) by {
                lemma_without_layer(self.layer_statistics@, layer_from_top, other);
            }
        }
        self.layer_statistics = entries;
        Ok(())
    }

    pub fn invalidate_centroid_layer_statistics(&mut self, layer_from_top: usize) -> (done: Result<
        (),
        Interrupt,
    >)
        ensures
            done is Ok,
            final(self).centroid_layer(layer_from_top) is None,
            forall|other: usize|
                other != layer_from_top ==> #[trigger] final(self).centroid_layer(other) == old(
                    self,
                ).centroid_layer(other),
            forall|other: usize| #[trigger] final(self).layer(other) == old(self).layer(other),
    {
        let entries = remove(&self.centroid_layer_statistics, layer_from_top);
        proof {
            lemma_without_layer(self.centroid_layer_statistics@, layer_from_top, layer_from_top);
            assert forall|other: usize| other != layer_from_top implies statistics_of(
                entries@,
                other,
            ) == statistics_of(self.centroid_layer_statistics@, other) by {
                lemma_without_layer(self.centroid_layer_statistics@, layer_from_top, other);
            }
        }
        self.centroid_layer_statistics = entries;
        Ok(())
    }
}

} // verus!
