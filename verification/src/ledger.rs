//! The correlation ledger: which correlation identifiers have been dispatched
//! for each operation, and which of them have had their result delivered.

use std::collections::HashMap;
use vstd::prelude::*;
use vstd::std_specs::hash::group_hash_axioms;
use crate::catalog::{index_of, lemma_index_is_injective, OperationKind, OPERATION_COUNT};

verus! {

broadcast use group_hash_axioms;

/// How a computation ended.
#[derive(Clone, Copy, Debug, PartialEq, Eq, Structural)]
pub enum Outcome {
    Success,
    Aborted,
}

/// The state of one correlation identifier. `Delivered` is terminal.
#[derive(Clone, Copy, Debug, PartialEq, Eq, Structural)]
pub enum RequestState {
    /// The request was handed out for submission; no result has been routed.
    Dispatched,
    /// The one result of the request has been routed.
    Delivered(Outcome),
}

/// Whether no request of the operation has used the identifier.
pub open spec fn is_fresh(
    ledger: Map<(OperationKind, u64), RequestState>,
    kind: OperationKind,
    correlation_id: u64,
) -> bool {
    !ledger.contains_key((kind, correlation_id))
}

/// Whether the result of the request has been routed.
pub open spec fn is_terminal(
    ledger: Map<(OperationKind, u64), RequestState>,
    kind: OperationKind,
    correlation_id: u64,
) -> bool {
    ledger.contains_key((kind, correlation_id)) && ledger[(kind, correlation_id)] is Delivered
}

/// One step of a ledger's life: every identifier that was recorded stays
/// recorded, and a delivered one keeps its outcome.
pub open spec fn ledger_advances(
    before: Map<(OperationKind, u64), RequestState>,
    after: Map<(OperationKind, u64), RequestState>,
) -> bool {
    forall|kind: OperationKind, correlation_id: u64| #[trigger]
        before.contains_key((kind, correlation_id)) ==> {
            &&& after.contains_key((kind, correlation_id))
            &&& before[(kind, correlation_id)] is Delivered ==> after[(kind, correlation_id)]
                == before[(kind, correlation_id)]
        }
}

/// Advancing is reflexive and transitive, so any number of steps advance.
pub proof fn lemma_advances_compose(
    first: Map<(OperationKind, u64), RequestState>,
    second: Map<(OperationKind, u64), RequestState>,
    third: Map<(OperationKind, u64), RequestState>,
)
    requires
        ledger_advances(first, second),
        ledger_advances(second, third),
    ensures
        ledger_advances(first, third),
        ledger_advances(first, first),
{
    assert forall|kind: OperationKind, correlation_id: u64| #[trigger]
        first.contains_key((kind, correlation_id)) implies {
        &&& third.contains_key((kind, correlation_id))
        &&& first[(kind, correlation_id)] is Delivered ==> third[(kind, correlation_id)]
            == first[(kind, correlation_id)]
    } by {
        assert(second.contains_key((kind, correlation_id)));
    }
}

/// Whether `mark` is the operation's next identifier in line: every
/// identifier from it on is fresh and the one before it is not. `None` stands
/// for a line that has ended: the greatest identifier is in use.
pub open spec fn is_next_in_line(
    ledger: Map<(OperationKind, u64), RequestState>,
    kind: OperationKind,
    mark: Option<u64>,
) -> bool {
    match mark {
        Some(next) => {
            &&& forall|id: u64| id >= next ==> !(#[trigger] ledger.contains_key((kind, id)))
            &&& next == 0 || ledger.contains_key((kind, (next - 1) as u64))
        },
        None => ledger.contains_key((kind, u64::MAX)),
    }
}

/// The operation's next identifier in line, where there is one.
pub open spec fn next_in_line(
    ledger: Map<(OperationKind, u64), RequestState>,
    kind: OperationKind,
) -> Option<u64> {
    choose|mark: Option<u64>| is_next_in_line(ledger, kind, mark)
}

/// A ledger has at most one next identifier in line for an operation.
pub proof fn lemma_next_in_line_is_unique(
    ledger: Map<(OperationKind, u64), RequestState>,
    kind: OperationKind,
    mark: Option<u64>,
)
    requires
        is_next_in_line(ledger, kind, mark),
    ensures
        next_in_line(ledger, kind) == mark,
        mark matches Some(next) ==> is_fresh(ledger, kind, next),
{
    let other = next_in_line(ledger, kind);
    assert(is_next_in_line(ledger, kind, other));
    match (mark, other) {
        (Some(a), Some(b)) => {
            if a < b {
                assert(!ledger.contains_key((kind, (b - 1) as u64)));
            }
            if b < a {
                assert(!ledger.contains_key((kind, (a - 1) as u64)));
            }
        },
        (Some(_), None) | (None, Some(_)) => {
            assert(!ledger.contains_key((kind, u64::MAX)));
        },
        (None, None) => {},
    }
}

/// The table key of a request: the operation's position in the high half,
/// the identifier in the low half.
spec fn ledger_key(kind: OperationKind, correlation_id: u64) -> u128 {
    (index_of(kind) * 0x1_0000_0000_0000_0000 + correlation_id) as u128
}

proof fn lemma_ledger_key_is_injective()
    ensures
        forall|k1: OperationKind, i1: u64, k2: OperationKind, i2: u64|
            #[trigger] ledger_key(k1, i1) == #[trigger] ledger_key(k2, i2) ==> k1 == k2 && i1
                == i2,
{
    lemma_index_is_injective();
}

/// The mark of an operation after `correlation_id` has been recorded for it.
spec fn advanced(mark: Option<u64>, correlation_id: u64) -> Option<u64> {
    match mark {
        Some(next) if correlation_id >= next => {
            if correlation_id == u64::MAX {
                None
            } else {
                Some((correlation_id + 1) as u64)
            }
        },
        _ => mark,
    }
}

/// Recording an identifier for one operation moves that operation's mark
/// past it and leaves the marks of the others where they are.
proof fn lemma_recording_advances_the_line(
    before: Map<(OperationKind, u64), RequestState>,
    kind: OperationKind,
    correlation_id: u64,
    state: RequestState,
    other: OperationKind,
    mark: Option<u64>,
)
    requires
        is_next_in_line(before, other, mark),
    ensures
        is_next_in_line(
            before.insert((kind, correlation_id), state),
            other,
            if other == kind {
                advanced(mark, correlation_id)
            } else {
                mark
            },
        ),
{
    let after = before.insert((kind, correlation_id), state);
    if let Some(next) = mark {
        if other == kind && correlation_id >= next {
            // The mark moves to just past the new identifier, which is now in use.
            assert(after.contains_key((kind, correlation_id)));
        } else if next > 0 {
            // The mark stays: the identifier before it was in use and still is.
            assert(before.contains_key((other, (next - 1) as u64)));
        }
    }
}

/// The record of dispatched and delivered requests.
pub struct CorrelationLedger {
    entries: HashMap<u128, RequestState>,
    /// For each operation, by position, its next identifier in line.
    marks: Vec<Option<u64>>,
}

impl CorrelationLedger {
    /// The ledger as a map from operation and correlation identifier to the
    /// request's state.
    pub closed spec fn view(&self) -> Map<(OperationKind, u64), RequestState> {
        Map::new(
            |request: (OperationKind, u64)|
                self.entries@.contains_key(ledger_key(request.0, request.1)),
            |request: (OperationKind, u64)| self.entries@[ledger_key(request.0, request.1)],
        )
    }

    /// The ledger knows each operation's next identifier in line.
    pub closed spec fn wf(&self) -> bool {
        &&& self.marks.len() == OPERATION_COUNT
        &&& forall|kind: OperationKind|
            is_next_in_line(self@, kind, #[trigger] self.marks[index_of(kind)])
    }

    fn key(kind: OperationKind, correlation_id: u64) -> (key: u128)
        ensures
            key == ledger_key(kind, correlation_id),
    {
        (kind.index() as u128) * 0x1_0000_0000_0000_0000u128 + (correlation_id as u128)
    }

    /// A ledger without requests.
    pub fn new() -> (ledger: CorrelationLedger)
        ensures
            ledger.wf(),
            ledger@ == Map::<(OperationKind, u64), RequestState>::empty(),
    {
        let mut marks: Vec<Option<u64>> = Vec::new();
        let mut i: u8 = 0;
        while i < OPERATION_COUNT
            invariant
                i <= OPERATION_COUNT,
                marks.len() == i,
                forall|j: int| 0 <= j < i ==> marks[j] == Some(0u64),
            decreases OPERATION_COUNT - i,
        {
            marks.push(Some(0));
            i = i + 1;
        }
        let ledger = CorrelationLedger { entries: HashMap::new(), marks };
        proof {
            lemma_index_is_injective();
            assert(ledger@ =~= Map::<(OperationKind, u64), RequestState>::empty());
        }
        ledger
    }

    /// The state of a request, if its identifier has been dispatched or
    /// delivered.
    pub fn state_of(&self, kind: OperationKind, correlation_id: u64) -> (state: Option<
        RequestState,
    >)
        ensures
            state == if self@.contains_key((kind, correlation_id)) {
                Some(self@[(kind, correlation_id)])
            } else {
                None
            },
    {
        let key = Self::key(kind, correlation_id);
        match self.entries.get(&key) {
            Some(state) => Some(*state),
            None => None,
        }
    }

    /// The operation's next identifier in line: the least from which on all
    /// are fresh. `None` once the greatest identifier has been used.
    pub fn peek_next(&self, kind: OperationKind) -> (mark: Option<u64>)
        requires
            self.wf(),
        ensures
            mark == next_in_line(self@, kind),
            is_next_in_line(self@, kind, mark),
    {
        let mark = self.marks[kind.index() as usize];
        proof {
            lemma_next_in_line_is_unique(self@, kind, mark);
        }
        mark
    }

    /// Records an identifier with a state, and moves the operation's mark past
    /// it where it does not lie before the mark already.
    fn record(&mut self, kind: OperationKind, correlation_id: u64, state: RequestState)
        requires
            old(self).wf(),
        ensures
            final(self).wf(),
            final(self)@ == old(self)@.insert((kind, correlation_id), state),
    {
        let key = Self::key(kind, correlation_id);
        let position = kind.index() as usize;
        let mark = self.marks[position];
        self.entries.insert(key, state);
        let moved = match mark {
            Some(next) => {
                if correlation_id >= next {
                    if correlation_id == u64::MAX {
                        None
                    } else {
                        Some(correlation_id + 1)
                    }
                } else {
                    mark
                }
            },
            None => mark,
        };
        self.marks[position] = moved;
        proof {
            lemma_ledger_key_is_injective();
            lemma_index_is_injective();
            assert(self@ =~= old(self)@.insert((kind, correlation_id), state));
            assert forall|other: OperationKind|
                is_next_in_line(self@, other, #[trigger] self.marks[index_of(other)]) by {
                lemma_recording_advances_the_line(
                    old(self)@,
                    kind,
                    correlation_id,
                    state,
                    other,
                    old(self).marks[index_of(other)],
                );
            }
        }
    }

    /// Records a request as dispatched if its identifier is fresh. Returns
    /// whether it was; where it was not, nothing changes.
    pub fn reserve(&mut self, kind: OperationKind, correlation_id: u64) -> (reserved: bool)
        requires
            old(self).wf(),
        ensures
            final(self).wf(),
            reserved == is_fresh(old(self)@, kind, correlation_id),
            reserved ==> final(self)@ == old(self)@.insert(
                (kind, correlation_id),
                RequestState::Dispatched,
            ),
            !reserved ==> final(self)@ == old(self)@,
    {
        let key = Self::key(kind, correlation_id);
        if self.entries.contains_key(&key) {
            return false;
        }
        self.record(kind, correlation_id, RequestState::Dispatched);
        true
    }

    /// Reserves the operation's next identifier in line and records a request
    /// under it as dispatched. `None`, with nothing changed, once the
    /// greatest identifier has been used.
    pub fn reserve_correlation_id(&mut self, kind: OperationKind) -> (reserved: Option<u64>)
        requires
            old(self).wf(),
        ensures
            final(self).wf(),
            reserved == next_in_line(old(self)@, kind),
            reserved matches Some(correlation_id) ==> is_fresh(old(self)@, kind, correlation_id)
                && final(self)@ == old(self)@.insert(
                (kind, correlation_id),
                RequestState::Dispatched,
            ),
            reserved is None ==> final(self)@ == old(self)@,
    {
        match self.peek_next(kind) {
            Some(correlation_id) => {
                self.record(kind, correlation_id, RequestState::Dispatched);
                Some(correlation_id)
            },
            None => None,
        }
    }

    /// Records the outcome of a request unless one is recorded already.
    /// Returns whether it was recorded; where it was not, nothing changes.
    pub fn mark_terminal(
        &mut self,
        kind: OperationKind,
        correlation_id: u64,
        outcome: Outcome,
    ) -> (marked: bool)
        requires
            old(self).wf(),
        ensures
            final(self).wf(),
            marked == !is_terminal(old(self)@, kind, correlation_id),
            marked ==> final(self)@ == old(self)@.insert(
                (kind, correlation_id),
                RequestState::Delivered(outcome),
            ),
            !marked ==> final(self)@ == old(self)@,
    {
        match self.state_of(kind, correlation_id) {
            Some(RequestState::Delivered(_)) => false,
            _ => {
                self.record(kind, correlation_id, RequestState::Delivered(outcome));
                true
            },
        }
    }
}

} // verus!
