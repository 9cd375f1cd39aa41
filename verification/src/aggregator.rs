use crate::registry::{
    concrete, concrete_names, holds_sentinel, lemma_concrete_has_no_sentinel, Registry, SENTINEL,
};
use crate::status::{ServiceDetails, ServiceDetailsView, Status, StatusRecord, StatusRecordView};
use vstd::prelude::*;

verus! {

/// Where an aggregation pass stands: which answer it is waiting for.
#[derive(Debug, Clone, Copy, PartialEq, Eq, Structural)]
pub enum Stage {
    /// The snapshot held the sentinel; the list of all services is awaited.
    Enumerating,
    /// Waiting to hear whether the current name exists.
    Existence,
    /// The current name exists; waiting to hear whether it runs.
    RunningState,
    /// Waiting for the details of the current name.
    Detail,
    /// Every name has been dealt with.
    Finished,
}

/// What the driver of a pass has to ask the inspector next.
#[derive(Debug, PartialEq, Eq)]
pub enum Query {
    EnumerateAll,
    Exists(String),
    IsRunning(String),
    FetchDetail(String),
    Done,
}

/// The mathematical content of a [`Query`].
pub ghost enum QueryView {
    EnumerateAll,
    Exists(Seq<char>),
    IsRunning(Seq<char>),
    FetchDetail(Seq<char>),
    Done,
}

impl View for Query {
    type V = QueryView;

    open spec fn view(&self) -> QueryView {
        match self {
            Query::EnumerateAll => QueryView::EnumerateAll,
            Query::Exists(name) => QueryView::Exists(name@),
            Query::IsRunning(name) => QueryView::IsRunning(name@),
            Query::FetchDetail(name) => QueryView::FetchDetail(name@),
            Query::Done => QueryView::Done,
        }
    }
}

/// The inspector's answer to one of the three queries about a single service.
#[derive(Debug, PartialEq, Eq)]
pub enum Reply {
    Exists(bool),
    Running(bool),
    Detail(ServiceDetails),
}

/// The mathematical content of a [`Reply`].
pub ghost enum ReplyView {
    Exists(bool),
    Running(bool),
    Detail(ServiceDetailsView),
}

impl View for Reply {
    type V = ReplyView;

    open spec fn view(&self) -> ReplyView {
        match self {
            Reply::Exists(present) => ReplyView::Exists(*present),
            Reply::Running(running) => ReplyView::Running(*running),
            Reply::Detail(detail) => ReplyView::Detail(detail@),
        }
    }
}

/// The mathematical content of an [`Aggregation`].
pub ghost struct AggregationView {
    /// The names this pass works through.
    pub names: Seq<Seq<char>>,
    /// How many of them have been dealt with.
    pub position: nat,
    pub stage: Stage,
    /// The answer to the running-state check of the current name; it counts
    /// only in stage `Detail`.
    pub running: bool,
    /// The records made so far, in query order.
    pub records: Seq<StatusRecordView>,
}

impl AggregationView {
    /// A pass that has dealt with `position` of `names`, made `records`, and
    /// is about to turn to the next name, if there is one.
    pub open spec fn at(
        names: Seq<Seq<char>>,
        position: nat,
        records: Seq<StatusRecordView>,
    ) -> AggregationView {
        AggregationView {
            names,
            position,
            stage: if position < names.len() {
                Stage::Existence
            } else {
                Stage::Finished
            },
            running: false,
            records,
        }
    }

    /// The pass as it starts on a snapshot of the registry.
    pub open spec fn begun(snapshot: Seq<Seq<char>>) -> AggregationView {
        if snapshot.contains(SENTINEL@) {
            AggregationView {
                names: snapshot,
                position: 0,
                stage: Stage::Enumerating,
                running: false,
                records: Seq::empty(),
            }
        } else {
            AggregationView::at(snapshot, 0, Seq::empty())
        }
    }

    /// What every pass keeps true of itself.
    pub open spec fn wf(self) -> bool {
        &&& self.position <= self.names.len()
        &&& self.records.len() <= self.position
        &&& match self.stage {
            Stage::Enumerating => self.position == 0 && self.names.contains(SENTINEL@),
            Stage::Existence | Stage::RunningState | Stage::Detail => {
                self.position < self.names.len() && !self.names.contains(SENTINEL@)
            },
            Stage::Finished => {
                self.position == self.names.len() && !self.names.contains(SENTINEL@)
            },
        }
        &&& forall|i: int|
            0 <= i < self.records.len() ==> (#[trigger] self.records[i]).name != SENTINEL@
    }

    /// The query that the pass is waiting on.
    pub open spec fn pending(self) -> QueryView {
        match self.stage {
            Stage::Enumerating => QueryView::EnumerateAll,
            Stage::Existence => QueryView::Exists(self.names[self.position as int]),
            Stage::RunningState => QueryView::IsRunning(self.names[self.position as int]),
            Stage::Detail => QueryView::FetchDetail(self.names[self.position as int]),
            Stage::Finished => QueryView::Done,
        }
    }

    /// The pass after the list of all services came back, or failed to.
    ///
    /// A list that came back is stripped of the sentinel and becomes the
    /// working set. A failure leaves nothing to query.
    pub open spec fn resolved(self, enumerated: Option<Seq<Seq<char>>>) -> AggregationView {
        if self.stage == Stage::Enumerating {
            match enumerated {
                Some(all) => AggregationView::at(concrete(all), 0, Seq::empty()),
                None => AggregationView::at(Seq::empty(), 0, Seq::empty()),
            }
        } else {
            self
        }
    }

    /// What the registry holds after the same event.
    pub open spec fn registry_resolved(
        self,
        registry: Seq<Seq<char>>,
        enumerated: Option<Seq<Seq<char>>>,
    ) -> Seq<Seq<char>> {
        if self.stage == Stage::Enumerating && enumerated is Some {
            concrete(enumerated->0)
        } else {
            registry
        }
    }

    /// The pass after one answer about the current name. An answer to a
    /// question that was not asked changes nothing.
    pub open spec fn answered(self, reply: ReplyView) -> AggregationView {
        match (self.stage, reply) {
            (Stage::Existence, ReplyView::Exists(true)) => AggregationView {
                stage: Stage::RunningState,
                ..self
            },
            (Stage::Existence, ReplyView::Exists(false)) => AggregationView::at(
                self.names,
                self.position + 1,
                self.records,
            ),
            (Stage::RunningState, ReplyView::Running(running)) => AggregationView {
                stage: Stage::Detail,
                running,
                ..self
            },
            (Stage::Detail, ReplyView::Detail(detail)) => AggregationView::at(
                self.names,
                self.position + 1,
                self.records.push(
                    StatusRecordView {
                        name: self.names[self.position as int],
                        status: Status::of_running(self.running),
                        detail,
                    },
                ),
            ),
            _ => self,
        }
    }
}

/// One aggregation pass: the names to query, how far the pass has come, and
/// the records made so far.
///
/// The pass never talks to the inspector itself. It says what to ask
/// ([`Aggregation::pending`]) and takes the answer ([`Aggregation::resolve`],
/// [`Aggregation::answer`]); whoever drives it makes the calls.
#[derive(Debug)]
pub struct Aggregation {
    names: Vec<String>,
    position: usize,
    stage: Stage,
    running: bool,
    records: Vec<StatusRecord>,
}

impl View for Aggregation {
    type V = AggregationView;

    closed spec fn view(&self) -> AggregationView {
        AggregationView {
            names: self.names.deep_view(),
            position: self.position as nat,
            stage: self.stage,
            running: self.running,
            records: self.records.deep_view(),
        }
    }
}

/// Turns to the name after the current one.
fn advance(names: &Vec<String>, position: &mut usize, stage: &mut Stage, running: &mut bool)
    requires
        *old(position) < names.len(),
    ensures
        *final(position) == *old(position) + 1,
        *final(running) == false,
        *final(stage) == (if *old(position) + 1 < names.len() {
            Stage::Existence
        } else {
            Stage::Finished
        }),
    no_unwind
{
    *position = *position + 1;
    *running = false;
    *stage = if *position < names.len() {
        Stage::Existence
    } else {
        Stage::Finished
    };
}

impl Aggregation {
    /// Holds of every pass.
    #[verifier::type_invariant]
    pub open spec fn sound(self) -> bool {
        self@.wf()
    }

    /// Starts a pass on a snapshot of the registry.
    pub fn begin(registry: &Registry) -> (pass: Aggregation)
        ensures
            pass@ == AggregationView::begun(registry@),
            pass@.wf(),
    {
        let names = registry.get();
        let resolve_first = holds_sentinel(&names);
        let stage = if resolve_first {
            Stage::Enumerating
        } else if names.len() > 0 {
            Stage::Existence
        } else {
            Stage::Finished
        };
        let pass = Aggregation { names, position: 0, stage, running: false, records: Vec::new() };
        assert(pass.records.deep_view() =~= Seq::<StatusRecordView>::empty());
        pass
    }

    /// Where the pass stands.
    pub fn stage(&self) -> (stage: Stage)
        ensures
            stage == self@.stage,
    {
        self.stage
    }

    /// Whether every name has been dealt with.
    pub fn is_finished(&self) -> (done: bool)
        ensures
            done == (self@.stage == Stage::Finished),
    {
        match self.stage {
            Stage::Finished => true,
            _ => false,
        }
    }

    /// What to ask the inspector next.
    pub fn pending(&self) -> (query: Query)
        ensures
            query@ == self@.pending(),
            self@.wf(),
    {
        proof {
            use_type_invariant(self);
        }
        match self.stage {
            Stage::Enumerating => Query::EnumerateAll,
            Stage::Existence => Query::Exists(self.names[self.position].clone()),
            Stage::RunningState => Query::IsRunning(self.names[self.position].clone()),
            Stage::Detail => Query::FetchDetail(self.names[self.position].clone()),
            Stage::Finished => Query::Done,
        }
    }

    /// Takes the outcome of enumerating all services: `Some` with the names,
    /// or `None` if the inspector could not be reached.
    ///
    /// On `Some` the registry is given the enumerated names in place of the
    /// sentinel, and the pass goes on with them. On `None` the registry is
    /// left alone and the pass ends with no records. A pass that did not ask
    /// for the enumeration ignores the call.
    pub fn resolve(&mut self, registry: &mut Registry, enumerated: Option<Vec<String>>)
        ensures
            final(self)@ == old(self)@.resolved(enumerated.deep_view()),
            final(registry)@ == old(self)@.registry_resolved(
                old(registry)@,
                enumerated.deep_view(),
            ),
            final(self)@.wf(),
    {
        proof {
            use_type_invariant(&*self);
        }
        match self.stage {
            Stage::Enumerating => {
                let names = match enumerated {
                    Some(all) => {
                        let kept = concrete_names(&all);
                        registry.replace(kept.clone());
                        proof {
                            lemma_concrete_has_no_sentinel(all.deep_view());
                        }
                        kept
                    },
                    None => {
                        let none: Vec<String> = Vec::new();
                        assert(none.deep_view() =~= Seq::<Seq<char>>::empty());
                        none
                    },
                };
                let stage = if names.len() > 0 {
                    Stage::Existence
                } else {
                    Stage::Finished
                };
                let records: Vec<StatusRecord> = Vec::new();
                assert(records.deep_view() =~= Seq::<StatusRecordView>::empty());
                *self = Aggregation { names, position: 0, stage, running: false, records };
            },
            _ => {},
        }
    }

    /// Takes the inspector's answer about the current name and moves on.
    ///
    /// An answer of another kind than the one awaited changes nothing.
    pub fn answer(&mut self, reply: Reply)
        ensures
            final(self)@ == old(self)@.answered(reply@),
            final(self)@.wf(),
    {
        proof {
            use_type_invariant(&*self);
        }
        match (self.stage, reply) {
            (Stage::Existence, Reply::Exists(present)) => {
                if present {
                    self.stage = Stage::RunningState;
                } else {
                    advance(&self.names, &mut self.position, &mut self.stage, &mut self.running);
                }
            },
            (Stage::RunningState, Reply::Running(running)) => {
                self.running = running;
                self.stage = Stage::Detail;
            },
            (Stage::Detail, Reply::Detail(detail)) => {
                let record = StatusRecord {
                    name: self.names[self.position].clone(),
                    status: Status::from_running(self.running),
                    detail,
                };
                let mut records: Vec<StatusRecord> = Vec::new();
                assert(records.deep_view() =~= Seq::<StatusRecordView>::empty());
                std::mem::swap(&mut records, &mut self.records);
                let ghost before = records.deep_view();
                records.push(record);
                assert(records.deep_view() =~= before.push(record@));
                advance(&self.names, &mut self.position, &mut self.stage, &mut self.running);
                self.records = records;
            },
            _ => {},
        }
    }

    /// The records made so far, in query order. Once the pass is finished
    /// they are its result.
    pub fn into_records(self) -> (records: Vec<StatusRecord>)
        ensures
            records.deep_view() == self@.records,
            records.len() <= self@.names.len(),
            forall|i: int| 0 <= i < records.len() ==> (#[trigger] records[i])@.name != SENTINEL@,
    {
        proof {
            use_type_invariant(&self);
            assert forall|i: int| 0 <= i < self.records.len() implies (
            #[trigger] self.records[i])@.name != SENTINEL@ by {
                assert(self.records.deep_view()[i] == self.records[i]@);
            }
        }
        self.records
    }
}

} // verus!
