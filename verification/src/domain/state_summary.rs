use vstd::prelude::*;

verus! {

/// The health of a pipeline as shown to observers.
#[derive(Clone, Copy, Debug, PartialEq, Eq, Structural)]
pub enum StateSummary {
    Okay,
    OkPending,
    Failure,
    FailurePending,
}

impl StateSummary {
    /// Severity: `Okay < OkPending < FailurePending < Failure`.
    pub open spec fn rank(self) -> nat {
        match self {
            StateSummary::Okay => 0,
            StateSummary::OkPending => 1,
            StateSummary::FailurePending => 2,
            StateSummary::Failure => 3,
        }
    }
}

/// The more severe of the two; on equal severity the one already held.
pub open spec fn combined(current: Option<StateSummary>, next: StateSummary) -> StateSummary {
    match current {
        None => next,
        Some(existing) => if next.rank() > existing.rank() {
            next
        } else {
            existing
        },
    }
}

/// Left fold of the opinions of a list of repositories; `None` entries
/// contribute nothing.
pub open spec fn folded(opinions: Seq<Option<StateSummary>>) -> Option<StateSummary>
    decreases opinions.len(),
{
    if opinions.len() == 0 {
        None
    } else {
        let before = folded(opinions.drop_last());
        match opinions.last() {
            None => before,
            Some(next) => Some(combined(before, next)),
        }
    }
}

pub fn summary_rank(summary: StateSummary) -> (rank: u8)
    ensures
        rank == summary.rank(),
{
    match summary {
        StateSummary::Okay => 0,
        StateSummary::OkPending => 1,
        StateSummary::FailurePending => 2,
        StateSummary::Failure => 3,
    }
}

pub fn combine_summaries(current: Option<StateSummary>, next: StateSummary) -> (winner: StateSummary)
    ensures
        winner == combined(current, next),
{
    match current {
        None => next,
        Some(existing) => {
            if summary_rank(next) > summary_rank(existing) {
                next
            } else {
                existing
            }
        },
    }
}

/// Two summaries of the same severity are the same summary.
pub proof fn lemma_rank_identifies(a: StateSummary, b: StateSummary)
    requires
        a.rank() == b.rank(),
    ensures
        a == b,
{
}

/// Folding yields nothing exactly when every opinion is absent; otherwise it
/// yields one of the opinions, and none of them is more severe.
pub proof fn lemma_fold_is_most_severe(opinions: Seq<Option<StateSummary>>)
    ensures
        folded(opinions) is None <==> forall|i: int|
            0 <= i < opinions.len() ==> (#[trigger] opinions[i]) is None,
        folded(opinions) matches Some(top) ==> {
            &&& exists|i: int| 0 <= i < opinions.len() && opinions[i] == Some(top)
            &&& forall|i: int|
                0 <= i < opinions.len() && (#[trigger] opinions[i]) is Some ==> opinions[i]->0.rank()
                    <= top.rank()
        },
    decreases opinions.len(),
{
    if opinions.len() > 0 {
        let front = opinions.drop_last();
        let last = opinions.len() - 1;
        lemma_fold_is_most_severe(front);
        assert(forall|i: int| 0 <= i < front.len() ==> front[i] == opinions[i]);
        match folded(opinions) {
            None => {
                assert(opinions[last] is None);
            },
            Some(top) => {
                if folded(front) == Some(top) {
                    let w = choose|i: int| 0 <= i < front.len() && front[i] == Some(top);
                    assert(opinions[w] == Some(top));
                } else {
                    assert(opinions[last] == Some(top));
                }
            },
        }
    }
}

/// Combining is associative.
pub proof fn lemma_combine_associative(a: StateSummary, b: StateSummary, c: StateSummary)
    ensures
        combined(Some(combined(Some(a), b)), c) == combined(Some(a), combined(Some(b), c)),
{
}

/// What two summaries add to a fold does not depend on which comes first.
pub proof fn lemma_combine_exchange(current: Option<StateSummary>, a: StateSummary, b: StateSummary)
    ensures
        combined(Some(combined(current, a)), b) == combined(Some(combined(current, b)), a),
{
}

/// Combining two summaries in either order gives the same severity, and so
/// the same summary.
pub proof fn lemma_combine_commutative(a: StateSummary, b: StateSummary)
    ensures
        combined(Some(a), b).rank() == combined(Some(b), a).rank(),
        combined(Some(a), b) == combined(Some(b), a),
{
}

/// The order of the opinions does not change what folding them yields.
pub proof fn lemma_fold_order_independent(
    first: Seq<Option<StateSummary>>,
    second: Seq<Option<StateSummary>>,
)
    requires
        first.to_multiset() == second.to_multiset(),
    ensures
        folded(first) == folded(second),
{
    first.to_multiset_ensures();
    second.to_multiset_ensures();
    lemma_fold_is_most_severe(first);
    lemma_fold_is_most_severe(second);
    assert forall|i: int| 0 <= i < first.len() implies second.contains(#[trigger] first[i]) by {
        assert(first.contains(first[i]));
        assert(first.to_multiset().count(first[i]) > 0);
    }
    assert forall|i: int| 0 <= i < second.len() implies first.contains(#[trigger] second[i]) by {
        assert(second.contains(second[i]));
        assert(second.to_multiset().count(second[i]) > 0);
    }
    match (folded(first), folded(second)) {
        (Some(a), Some(b)) => {
            let i = choose|i: int| 0 <= i < first.len() && first[i] == Some(a);
            assert(second.contains(first[i]));
            let j = choose|j: int| 0 <= j < second.len() && second[j] == Some(b);
            assert(first.contains(second[j]));
            lemma_rank_identifies(a, b);
        },
        (Some(a), None) => {
            let i = choose|i: int| 0 <= i < first.len() && first[i] == Some(a);
            assert(second.contains(first[i]));
        },
        (None, Some(b)) => {
            let j = choose|j: int| 0 <= j < second.len() && second[j] == Some(b);
            assert(first.contains(second[j]));
        },
        (None, None) => {},
    }
}

/// The summaries a subscriber has been handed, oldest first. This exists in
/// proofs only: no value of it is ever made when the program runs.
pub type SummaryLog = Seq<StateSummary>;

/// A subscriber to summary changes.
///
/// `seen` is what contracts say of a subscriber; it is never called. A
/// subscriber written where nothing is proved gives it a body that cannot
/// be reached, and is then taken at its word that it takes note of every
/// summary it is handed.
pub trait StateSummaryAdapter: Send + Sync {
    /// Every summary this subscriber has been handed, oldest first.
    spec fn seen(&self) -> SummaryLog;

    /// Takes note of `state`.
    fn set_state_summary(&mut self, state: StateSummary)
        ensures
            final(self).seen() == old(self).seen().push(state),
    ;
}

/// A boxed subscriber is a subscriber: it hands on what it is handed. This
/// lets one gateway hold subscribers of different kinds.
impl<T: StateSummaryAdapter + ?Sized> StateSummaryAdapter for Box<T> {
    open spec fn seen(&self) -> SummaryLog {
        (**self).seen()
    }

    fn set_state_summary(&mut self, state: StateSummary) {
        (**self).set_state_summary(state)
    }
}

/// The deliveries of one broadcast of `state` to `sinks` subscribers: one
/// for each position, in ascending order.
pub open spec fn broadcast(sinks: nat, state: StateSummary) -> Seq<(nat, StateSummary)> {
    Seq::new(sinks, |i: int| (i as nat, state))
}

/// `after` is `before` once `state` has been published through it: the
/// same number of subscribers, each of which has been handed `state`
/// exactly once more and nothing else.
pub open spec fn published<S: StateSummaryAdapter>(
    before: StateSummaryGateway<S>,
    after: StateSummaryGateway<S>,
    state: StateSummary,
) -> bool {
    &&& after.sinks().len() == before.sinks().len()
    &&& forall|i: int|
        0 <= i < before.sinks().len() ==> #[trigger] after.sinks()[i].seen()
            == before.sinks()[i].seen().push(state)
    &&& after.seen() == before.seen().push(state)
    &&& after.deliveries() == before.deliveries() + broadcast(before.sinks().len(), state)
}

/// The registry of subscribers. Subscribers are kept in the order in which
/// they were added and are never removed. Publishing hands the summary to
/// each of them before it returns.
pub struct StateSummaryGateway<S: StateSummaryAdapter> {
    controllers: Vec<S>,
    published: Ghost<Seq<StateSummary>>,
    journal: Ghost<Seq<(nat, StateSummary)>>,
}

impl<S: StateSummaryAdapter> StateSummaryGateway<S> {
    /// The subscribers, in registration order.
    pub closed spec fn sinks(&self) -> Seq<S> {
        self.controllers@
    }

    /// The gateway's own account of the order in which it has called its
    /// subscribers: the position of each subscriber called and the summary
    /// handed to it, oldest first. That the calls were made is stated by
    /// what each subscriber has seen, not by this account.
    pub closed spec fn deliveries(&self) -> Seq<(nat, StateSummary)> {
        self.journal@
    }

    pub fn new() -> (gateway: Self)
        ensures
            gateway.sinks() == Seq::<S>::empty(),
            gateway.seen() == Seq::<StateSummary>::empty(),
            gateway.deliveries() == Seq::<(nat, StateSummary)>::empty(),
    {
        StateSummaryGateway {
            controllers: Vec::new(),
            published: Ghost(Seq::empty()),
            journal: Ghost(Seq::empty()),
        }
    }

    /// Registers a subscriber behind those already there. It has been
    /// handed nothing by the gateway yet.
    pub fn add_controller(&mut self, controller: S)
        ensures
            final(self).sinks() == old(self).sinks().push(controller),
            final(self).seen() == old(self).seen(),
            final(self).deliveries() == old(self).deliveries(),
    {
        self.controllers.push(controller);
    }

    /// How many subscribers are registered.
    pub fn controller_count(&self) -> (count: usize)
        ensures
            count == self.sinks().len(),
    {
        self.controllers.len()
    }

    /// The subscriber at a position, counted in registration order.
    pub fn controller(&self, position: usize) -> (sink: Option<&S>)
        ensures
            match sink {
                Some(found) => position < self.sinks().len() && *found == self.sinks()[
                    position as int
                ],
                None => position >= self.sinks().len(),
            },
    {
        if position < self.controllers.len() {
            Some(&self.controllers[position])
        } else {
            None
        }
    }
}

impl<S: StateSummaryAdapter> StateSummaryAdapter for StateSummaryGateway<S> {
    /// Every summary published through this gateway, oldest first.
    closed spec fn seen(&self) -> SummaryLog {
        self.published@
    }

    /// Hands `state` to every subscriber, once each, in registration order.
    fn set_state_summary(&mut self, state: StateSummary)
        ensures
            published(*old(self), *final(self), state),
    {
        let count = self.controllers.len();
        let mut i: usize = 0;
        while i < count
            invariant
                i <= count,
                count == self.controllers@.len(),
                count == old(self).controllers@.len(),
                self.published@ == old(self).published@,
                self.journal@ == old(self).journal@ + broadcast(i as nat, state),
                forall|j: int|
                    0 <= j < i ==> #[trigger] self.controllers@[j].seen() == old(
                        self,
                    ).controllers@[j].seen().push(state),
                forall|j: int|
                    i <= j < count ==> #[trigger] self.controllers@[j] == old(
                        self,
                    ).controllers@[j],
            decreases count - i,
        {
            self.controllers[i].set_state_summary(state);
            self.journal = Ghost(self.journal@.push((i as nat, state)));
            assert(broadcast((i + 1) as nat, state) == broadcast(i as nat, state).push(
                (i as nat, state),
            ));
            i += 1;
        }
        self.published = Ghost(self.published@.push(state));
    }
}

/// Publishing once to a gateway with `n` subscribers reaches each of them
/// exactly once, with the published summary. The gateway's account of its
/// calls grows by `n` entries, one for each subscriber in registration
/// order, and what stood in it before stays as it was.
pub proof fn lemma_publish_reaches_each_once<S: StateSummaryAdapter>(
    before: StateSummaryGateway<S>,
    after: StateSummaryGateway<S>,
    state: StateSummary,
)
    requires
        published(before, after, state),
    ensures
        after.sinks().len() == before.sinks().len(),
        forall|i: int|
            0 <= i < before.sinks().len() ==> {
                &&& (#[trigger] after.sinks()[i]).seen().len() == before.sinks()[i].seen().len() + 1
                &&& after.sinks()[i].seen().last() == state
                &&& after.sinks()[i].seen().drop_last() == before.sinks()[i].seen()
            },
        after.deliveries().len() == before.deliveries().len() + before.sinks().len(),
        after.deliveries().subrange(0, before.deliveries().len() as int) == before.deliveries(),
        forall|i: int|
            0 <= i < before.sinks().len() ==> #[trigger] after.deliveries()[before.deliveries().len()
                + i] == (i as nat, state),
{
    assert(after.deliveries().subrange(0, before.deliveries().len() as int)
        =~= before.deliveries());
    assert forall|i: int| 0 <= i < before.sinks().len() implies {
        &&& (#[trigger] after.sinks()[i]).seen().len() == before.sinks()[i].seen().len() + 1
        &&& after.sinks()[i].seen().last() == state
        &&& after.sinks()[i].seen().drop_last() == before.sinks()[i].seen()
    } by {
        let earlier = before.sinks()[i].seen();
        assert(after.sinks()[i].seen() == earlier.push(state));
        assert(earlier.push(state).drop_last() =~= earlier);
    }
}

} // verus!
