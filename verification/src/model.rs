use crate::aggregator::{AggregationView, QueryView, ReplyView, Stage};
use crate::registry::{concrete, lemma_concrete_has_no_sentinel, SENTINEL};
use crate::status::{ServiceDetailsView, Status, StatusRecordView};
use vstd::prelude::*;

verus! {

/// The state of the services as the inspector would report it, were it asked
/// at one moment: which names exist, which of them run, what their details
/// are, and what enumerating all of them gives (`None`: the enumeration
/// fails).
pub ghost struct Inspector {
    pub enumerated: Option<Seq<Seq<char>>>,
    pub present: Set<Seq<char>>,
    pub running: Set<Seq<char>>,
    pub details: spec_fn(Seq<char>) -> ServiceDetailsView,
}

impl Inspector {
    /// The answer to a query about one service.
    pub open spec fn reply(self, query: QueryView) -> ReplyView {
        match query {
            QueryView::Exists(name) => ReplyView::Exists(self.present.contains(name)),
            QueryView::IsRunning(name) => ReplyView::Running(self.running.contains(name)),
            QueryView::FetchDetail(name) => ReplyView::Detail((self.details)(name)),
            _ => ReplyView::Exists(false),
        }
    }

    /// The record of an existing service.
    pub open spec fn record(self, name: Seq<char>) -> StatusRecordView {
        StatusRecordView {
            name,
            status: Status::of_running(self.running.contains(name)),
            detail: (self.details)(name),
        }
    }

    /// The records of those of `names` that exist, in the order of `names`.
    pub open spec fn records(self, names: Seq<Seq<char>>) -> Seq<StatusRecordView> {
        names.filter(|name: Seq<char>| self.present.contains(name)).map_values(
            |name: Seq<char>| self.record(name),
        )
    }
}

/// The names that a pass queries when it starts on `registry`: the registry
/// itself, or, where it holds the sentinel, what the enumeration gives
/// without the sentinel, and nothing if the enumeration fails.
pub open spec fn working_set(registry: Seq<Seq<char>>, inspector: Inspector) -> Seq<Seq<char>> {
    if registry.contains(SENTINEL@) {
        match inspector.enumerated {
            Some(all) => concrete(all),
            None => Seq::empty(),
        }
    } else {
        registry
    }
}

/// What the registry holds after that pass: the enumerated names where the
/// sentinel was resolved, else what it held before.
pub open spec fn registry_after(registry: Seq<Seq<char>>, inspector: Inspector) -> Seq<
    Seq<char>,
> {
    if registry.contains(SENTINEL@) && inspector.enumerated is Some {
        concrete(inspector.enumerated->0)
    } else {
        registry
    }
}

/// The list that one whole aggregation pass yields.
pub open spec fn aggregate(registry: Seq<Seq<char>>, inspector: Inspector) -> Seq<
    StatusRecordView,
> {
    inspector.records(working_set(registry, inspector))
}

/// A pass together with the registry it works on.
pub ghost struct Pass {
    pub registry: Seq<Seq<char>>,
    pub run: AggregationView,
}

impl Pass {
    /// The pass as it starts on `registry`.
    pub open spec fn begun(registry: Seq<Seq<char>>) -> Pass {
        Pass { registry, run: AggregationView::begun(registry) }
    }

    /// The pass after its pending query was put to `inspector` and the
    /// answer handed back. A finished pass stays as it is.
    pub open spec fn step(self, inspector: Inspector) -> Pass {
        match self.run.pending() {
            QueryView::Done => self,
            QueryView::EnumerateAll => Pass {
                registry: self.run.registry_resolved(self.registry, inspector.enumerated),
                run: self.run.resolved(inspector.enumerated),
            },
            query => Pass { registry: self.registry, run: self.run.answered(inspector.reply(query)) },
        }
    }

    /// The pass after `steps` such steps.
    pub open spec fn after(self, inspector: Inspector, steps: nat) -> Pass
        decreases steps,
    {
        if steps == 0 {
            self
        } else {
            self.step(inspector).after(inspector, (steps - 1) as nat)
        }
    }

    /// A number of steps that is enough to finish the pass.
    pub open spec fn enough(self, inspector: Inspector) -> nat {
        if self.run.stage == Stage::Enumerating {
            1 + 3 * working_set(self.run.names, inspector).len()
        } else {
            let left = 3 * (self.run.names.len() - self.run.position);
            match self.run.stage {
                Stage::RunningState => (left - 1) as nat,
                Stage::Detail => (left - 2) as nat,
                _ => left as nat,
            }
        }
    }

    /// The pass driven to its end against `inspector`.
    pub open spec fn completed(self, inspector: Inspector) -> Pass {
        self.after(inspector, self.enough(inspector))
    }

    /// What holds of a pass that queries `inspector`, once the working set
    /// is settled: the records are those of the names dealt with, and what
    /// is remembered of the current name is what the inspector said.
    pub open spec fn on_track(self, inspector: Inspector) -> bool {
        let run = self.run;
        &&& run.wf()
        &&& run.stage != Stage::Enumerating
        &&& run.records == inspector.records(run.names.take(run.position as int))
        &&& (run.stage == Stage::RunningState || run.stage == Stage::Detail)
            ==> inspector.present.contains(run.names[run.position as int])
        &&& run.stage == Stage::Detail ==> run.running == inspector.running.contains(
            run.names[run.position as int],
        )
    }
}

/// Taking one more name into account adds its record if it exists and
/// nothing if it does not.
pub proof fn lemma_records_step(inspector: Inspector, names: Seq<Seq<char>>, i: int)
    requires
        0 <= i < names.len(),
    ensures
        inspector.records(names.take(i + 1)) == (if inspector.present.contains(names[i]) {
            inspector.records(names.take(i)).push(inspector.record(names[i]))
        } else {
            inspector.records(names.take(i))
        }),
{
    reveal(Seq::filter);
    assert(names.take(i + 1).drop_last() =~= names.take(i));
    assert(names.take(i + 1).last() == names[i]);
    let exists = |name: Seq<char>| inspector.present.contains(name);
    let shorter = names.take(i).filter(exists);
    if inspector.present.contains(names[i]) {
        assert(names.take(i + 1).filter(exists) == shorter.push(names[i]));
        assert(inspector.records(names.take(i + 1)) =~= inspector.records(names.take(i)).push(
            inspector.record(names[i]),
        ));
    } else {
        assert(names.take(i + 1).filter(exists) == shorter);
    }
}

/// No record is made for a name that does not exist, so the records are at
/// most as many as the names, and as many only if every name exists.
pub proof fn lemma_records_len(inspector: Inspector, names: Seq<Seq<char>>)
    ensures
        inspector.records(names).len() <= names.len(),
        inspector.records(names).len() == names.len() <==> forall|i: int|
            0 <= i < names.len() ==> inspector.present.contains(#[trigger] names[i]),
    decreases names.len(),
{
    if names.len() == 0 {
        reveal(Seq::filter);
    } else {
        let last = names.len() - 1;
        lemma_records_len(inspector, names.take(last));
        lemma_records_step(inspector, names, last);
        assert(names.take(last + 1) =~= names);
        if inspector.records(names).len() == names.len() {
            assert forall|i: int| 0 <= i < names.len() implies inspector.present.contains(
                #[trigger] names[i],
            ) by {
                if i < last {
                    assert(names.take(last)[i] == names[i]);
                }
            }
        }
        if forall|i: int| 0 <= i < names.len() ==> inspector.present.contains(#[trigger] names[i]) {
            assert forall|i: int| 0 <= i < names.take(last).len() implies inspector.present.contains(
                #[trigger] names.take(last)[i],
            ) by {
                assert(names.take(last)[i] == names[i]);
            }
        }
    }
}

/// One step keeps a pass on track, leaves its names and the registry alone,
/// and brings it nearer to its end.
pub proof fn lemma_step_on_track(pass: Pass, inspector: Inspector)
    requires
        pass.on_track(inspector),
    ensures
        pass.step(inspector).on_track(inspector),
        pass.step(inspector).run.names == pass.run.names,
        pass.step(inspector).registry == pass.registry,
        pass.run.stage != Stage::Finished ==> pass.step(inspector).enough(inspector) < pass.enough(
            inspector,
        ),
        pass.run.stage == Stage::Finished ==> pass.step(inspector) == pass,
{
    let run = pass.run;
    let at = run.position as int;
    if run.stage != Stage::Finished {
        lemma_records_step(inspector, run.names, at);
    }
}

/// Enough steps bring a pass that is on track to its end, with the records
/// of all its names.
pub proof fn lemma_after_enough(pass: Pass, inspector: Inspector, steps: nat)
    requires
        pass.on_track(inspector),
        steps >= pass.enough(inspector),
    ensures
        pass.after(inspector, steps).run.stage == Stage::Finished,
        pass.after(inspector, steps).run.records == inspector.records(pass.run.names),
        pass.after(inspector, steps).run.names == pass.run.names,
        pass.after(inspector, steps).registry == pass.registry,
    decreases steps,
{
    lemma_step_on_track(pass, inspector);
    if steps == 0 {
        assert(pass.run.names.take(pass.run.position as int) =~= pass.run.names);
    } else {
        lemma_after_enough(pass.step(inspector), inspector, (steps - 1) as nat);
    }
}

/// Driving a pass to its end gives the list that [`aggregate`] names and
/// leaves the registry as [`registry_after`] says: the queries, put one by
/// one, compute what the whole pass is meant to compute.
pub proof fn lemma_pass_computes_aggregate(registry: Seq<Seq<char>>, inspector: Inspector)
    ensures
        Pass::begun(registry).completed(inspector).run.stage == Stage::Finished,
        Pass::begun(registry).completed(inspector).run.records == aggregate(registry, inspector),
        Pass::begun(registry).completed(inspector).registry == registry_after(registry, inspector),
{
    let pass = Pass::begun(registry);
    if registry.contains(SENTINEL@) {
        let next = pass.step(inspector);
        match inspector.enumerated {
            Some(all) => {
                lemma_concrete_has_no_sentinel(all);
            },
            None => {},
        }
        assert(next.run.names.take(0) =~= Seq::<Seq<char>>::empty());
        assert(inspector.records(Seq::<Seq<char>>::empty()) =~= Seq::<StatusRecordView>::empty())
            by {
            reveal(Seq::filter);
        }
        assert(next.on_track(inspector));
        let steps = pass.enough(inspector);
        assert(pass.after(inspector, steps) == next.after(inspector, (steps - 1) as nat));
        lemma_after_enough(next, inspector, (steps - 1) as nat);
    } else {
        assert(pass.run.names.take(0) =~= Seq::<Seq<char>>::empty());
        assert(inspector.records(Seq::<Seq<char>>::empty()) =~= Seq::<StatusRecordView>::empty())
            by {
            reveal(Seq::filter);
        }
        lemma_after_enough(pass, inspector, pass.enough(inspector));
    }
}

/// A pass over names that hold no sentinel yields at most one record per
/// name, and exactly one per name if and only if every named service exists.
pub proof fn lemma_aggregate_length(registry: Seq<Seq<char>>, inspector: Inspector)
    requires
        !registry.contains(SENTINEL@),
    ensures
        aggregate(registry, inspector).len() <= registry.len(),
        aggregate(registry, inspector).len() == registry.len() <==> forall|i: int|
            0 <= i < registry.len() ==> inspector.present.contains(#[trigger] registry[i]),
{
    lemma_records_len(inspector, registry);
}

/// The sentinel is resolved, never queried: no record of a pass bears its
/// name, and every record bears a name of the working set.
pub proof fn lemma_aggregate_names(registry: Seq<Seq<char>>, inspector: Inspector)
    ensures
        !working_set(registry, inspector).contains(SENTINEL@),
        forall|i: int|
            0 <= i < aggregate(registry, inspector).len() ==> {
                &&& (#[trigger] aggregate(registry, inspector)[i]).name != SENTINEL@
                &&& working_set(registry, inspector).contains(
                    aggregate(registry, inspector)[i].name,
                )
                &&& inspector.present.contains(aggregate(registry, inspector)[i].name)
            },
{
    let names = working_set(registry, inspector);
    if registry.contains(SENTINEL@) && inspector.enumerated is Some {
        lemma_concrete_has_no_sentinel(inspector.enumerated->0);
    }
    let exists = |name: Seq<char>| inspector.present.contains(name);
    let kept = names.filter(exists);
    assert forall|i: int| 0 <= i < aggregate(registry, inspector).len() implies {
        &&& (#[trigger] aggregate(registry, inspector)[i]).name != SENTINEL@
        &&& names.contains(aggregate(registry, inspector)[i].name)
        &&& inspector.present.contains(aggregate(registry, inspector)[i].name)
    } by {
        assert(aggregate(registry, inspector)[i].name == kept[i]);
        names.lemma_filter_pred(exists, i);
        assert(kept.contains(kept[i]));
        names.lemma_filter_contains_rev(exists, kept[i]);
    }
}

/// Two passes in a row, with the services unchanged and nothing written to
/// the registry in between, yield the same list in the same order, and the
/// second leaves the registry as the first left it.
pub proof fn lemma_aggregate_twice(registry: Seq<Seq<char>>, inspector: Inspector)
    ensures
        aggregate(registry_after(registry, inspector), inspector) == aggregate(
            registry,
            inspector,
        ),
        registry_after(registry_after(registry, inspector), inspector) == registry_after(
            registry,
            inspector,
        ),
{
    if registry.contains(SENTINEL@) {
        match inspector.enumerated {
            Some(all) => {
                lemma_concrete_has_no_sentinel(all);
            },
            None => {},
        }
    }
}

/// A pass that resolves the sentinel leaves a registry without it.
pub proof fn lemma_sentinel_consumed(registry: Seq<Seq<char>>, inspector: Inspector)
    requires
        registry.contains(SENTINEL@),
        inspector.enumerated is Some,
    ensures
        !registry_after(registry, inspector).contains(SENTINEL@),
        !Pass::begun(registry).completed(inspector).registry.contains(SENTINEL@),
{
    lemma_concrete_has_no_sentinel(inspector.enumerated->0);
    lemma_pass_computes_aggregate(registry, inspector);
}

/// A pass asks for the enumeration only at its start and only if the
/// registry holds the sentinel: once a pass is past that point, no answer
/// brings it back.
pub proof fn lemma_enumeration_only_at_start(
    registry: Seq<Seq<char>>,
    run: AggregationView,
    reply: ReplyView,
    enumerated: Option<Seq<Seq<char>>>,
)
    ensures
        !registry.contains(SENTINEL@) ==> AggregationView::begun(registry).stage
            != Stage::Enumerating,
        run.stage != Stage::Enumerating ==> run.answered(reply).stage != Stage::Enumerating,
        run.resolved(enumerated).stage != Stage::Enumerating,
{
}

/// A pass that starts on a registry without the sentinel never asks for the
/// enumeration, however many steps it takes.
pub proof fn lemma_no_enumeration_without_sentinel(
    registry: Seq<Seq<char>>,
    inspector: Inspector,
    steps: nat,
)
    requires
        !registry.contains(SENTINEL@),
    ensures
        Pass::begun(registry).after(inspector, steps).run.pending() != QueryView::EnumerateAll,
        Pass::begun(registry).after(inspector, steps).registry == registry,
{
    lemma_stays_past_enumeration(Pass::begun(registry), inspector, steps);
}

/// A pass that is past the enumeration stays past it and leaves the
/// registry alone.
pub proof fn lemma_stays_past_enumeration(pass: Pass, inspector: Inspector, steps: nat)
    requires
        pass.run.stage != Stage::Enumerating,
    ensures
        pass.after(inspector, steps).run.stage != Stage::Enumerating,
        pass.after(inspector, steps).registry == pass.registry,
    decreases steps,
{
    if steps > 0 {
        lemma_stays_past_enumeration(pass.step(inspector), inspector, (steps - 1) as nat);
    }
}

} // verus!
