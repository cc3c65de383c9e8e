//! The secret store: what can be asked of it, what it answers, and what each
//! request does to its contents.
//!
//! The contents of a store are modelled as the sequence of its entities in
//! the order in which they were inserted.
use crate::secret::{SecretEntity, SecretId};
use vstd::prelude::*;

verus! {

/// A request to the secret store.
#[derive(Debug, PartialEq, Eq)]
pub enum StoreRequest {
    /// Keep a new entity.
    Insert { entity: SecretEntity },
    /// Hand out the entity with this identifier.
    Find { id: SecretId },
    /// Hand out every entity that nobody has solved.
    FindUnsolved,
    /// Set the attempt count of an entity, if it is still unsolved.
    RecordAttempt { id: SecretId, attempts: u16 },
    /// Set the winner and the revealed answer of an entity together, if it
    /// is still unsolved.
    RecordWin { id: SecretId, winner: String, revealed_answer: String },
    /// Say whether the store is alive.
    Ping,
}

/// What the secret store answers.
#[derive(Debug, PartialEq, Eq)]
pub enum StoreReply {
    /// The request was carried out and there is nothing to hand out.
    Done,
    /// The entity that was asked for, or `None` if the store has none.
    Entity { found: Option<SecretEntity> },
    /// The entities that were asked for.
    Entities { entities: Vec<SecretEntity> },
    /// The store could not carry out the request.
    Failed,
}

/// A reply with its entities as a mathematical sequence.
pub enum StoreReplyView {
    Done,
    Entity { found: Option<SecretEntity> },
    Entities { entities: Seq<SecretEntity> },
    Failed,
}

impl View for StoreReply {
    type V = StoreReplyView;

    open spec fn view(&self) -> StoreReplyView {
        match *self {
            StoreReply::Done => StoreReplyView::Done,
            StoreReply::Entity { found } => StoreReplyView::Entity { found },
            StoreReply::Entities { entities } => StoreReplyView::Entities { entities: entities@ },
            StoreReply::Failed => StoreReplyView::Failed,
        }
    }
}

/// The entity at position `i` is the first one with this identifier.
pub open spec fn occurs_at(store: Seq<SecretEntity>, id: SecretId, i: int) -> bool {
    &&& 0 <= i < store.len()
    &&& store[i].id == id
    &&& forall|j: int| 0 <= j < i ==> (#[trigger] store[j]).id != id
}

/// The store has an entity with this identifier.
pub open spec fn holds(store: Seq<SecretEntity>, id: SecretId) -> bool {
    exists|i: int| occurs_at(store, id, i)
}

/// The position of the first entity with this identifier.
pub open spec fn slot_of(store: Seq<SecretEntity>, id: SecretId) -> int {
    choose|i: int| occurs_at(store, id, i)
}

/// The entity that the store hands out for an identifier.
pub open spec fn lookup(store: Seq<SecretEntity>, id: SecretId) -> Option<SecretEntity> {
    if holds(store, id) {
        Some(store[slot_of(store, id)])
    } else {
        None
    }
}

/// No two entities share an identifier.
pub open spec fn distinct_ids(store: Seq<SecretEntity>) -> bool {
    forall|i: int, j: int|
        0 <= i < j < store.len() ==> (#[trigger] store[i]).id != (#[trigger] store[j]).id
}

/// Every entity has its winner and its revealed answer together or not at
/// all.
pub open spec fn all_consistent(store: Seq<SecretEntity>) -> bool {
    forall|i: int| 0 <= i < store.len() ==> (#[trigger] store[i]).consistent()
}

/// The test that an entity is unsolved.
pub open spec fn is_unsolved() -> spec_fn(SecretEntity) -> bool {
    |e: SecretEntity| e.guesser is None
}

/// The unsolved entities among some entities, in their order.
pub open spec fn unsolved(entities: Seq<SecretEntity>) -> Seq<SecretEntity> {
    entities.filter(is_unsolved())
}

/// An entity with another attempt count.
pub open spec fn with_attempts(entity: SecretEntity, attempts: u16) -> SecretEntity {
    SecretEntity { guess_attempts: attempts, ..entity }
}

/// An entity with a winner and the answer that won.
pub open spec fn with_win(
    entity: SecretEntity,
    winner: String,
    revealed_answer: String,
) -> SecretEntity {
    SecretEntity { guesser: Some(winner), guessed_secret: Some(revealed_answer), ..entity }
}

/// The store can still change the entity with this identifier: it has one
/// and nobody has solved it.
pub open spec fn open_for_change(store: Seq<SecretEntity>, id: SecretId) -> bool {
    holds(store, id) && store[slot_of(store, id)].guesser is None
}

/// What a request does to the contents of a store that does not fail, and
/// what the store answers.
///
/// An insert is refused when the identifier is taken. The two updates change
/// an entity only while it is unsolved, and say `Done` whether they changed
/// anything or not.
pub open spec fn store_apply(store: Seq<SecretEntity>, request: StoreRequest) -> (
    Seq<SecretEntity>,
    StoreReplyView,
) {
    match request {
        StoreRequest::Insert { entity } => if holds(store, entity.id) {
            (store, StoreReplyView::Failed)
        } else {
            (store.push(entity), StoreReplyView::Done)
        },
        StoreRequest::Find { id } => (store, StoreReplyView::Entity { found: lookup(store, id) }),
        StoreRequest::FindUnsolved => (
            store,
            StoreReplyView::Entities { entities: unsolved(store) },
        ),
        StoreRequest::RecordAttempt { id, attempts } => if open_for_change(store, id) {
            let i = slot_of(store, id);
            (store.update(i, with_attempts(store[i], attempts)), StoreReplyView::Done)
        } else {
            (store, StoreReplyView::Done)
        },
        StoreRequest::RecordWin { id, winner, revealed_answer } => if open_for_change(store, id) {
            let i = slot_of(store, id);
            (store.update(i, with_win(store[i], winner, revealed_answer)), StoreReplyView::Done)
        } else {
            (store, StoreReplyView::Done)
        },
        StoreRequest::Ping => (store, StoreReplyView::Done),
    }
}

/// The first entity with an identifier is found where it stands.
pub proof fn lemma_occurs(store: Seq<SecretEntity>, id: SecretId, i: int)
    requires
        occurs_at(store, id, i),
    ensures
        holds(store, id),
        slot_of(store, id) == i,
        lookup(store, id) == Some(store[i]),
{
    let k = slot_of(store, id);
    assert(occurs_at(store, id, k));
    if k < i {
        assert(store[k].id != id);
    }
    if i < k {
        assert(store[i].id != id);
    }
}

/// A store without an entity of some identifier hands out nothing for it.
pub proof fn lemma_absent(store: Seq<SecretEntity>, id: SecretId)
    requires
        forall|j: int| 0 <= j < store.len() ==> (#[trigger] store[j]).id != id,
    ensures
        !holds(store, id),
        lookup(store, id) is None,
{
    if holds(store, id) {
        let k = slot_of(store, id);
        assert(occurs_at(store, id, k));
        assert(store[k].id != id);
    }
}

/// An entity with some identifier, wherever it stands, shows that the store
/// holds that identifier.
pub proof fn lemma_held(store: Seq<SecretEntity>, id: SecretId, j: int)
    requires
        0 <= j < store.len(),
        store[j].id == id,
    ensures
        holds(store, id),
    decreases j,
{
    if exists|k: int| 0 <= k < j && (#[trigger] store[k]).id == id {
        let k = choose|k: int| 0 <= k < j && (#[trigger] store[k]).id == id;
        lemma_held(store, id, k);
    } else {
        assert(occurs_at(store, id, j));
    }
}

/// Replacing the first entity of some identifier by one with the same
/// identifier changes what the store hands out for that identifier, and for
/// no other.
pub proof fn lemma_replaced(
    store: Seq<SecretEntity>,
    id: SecretId,
    revised: SecretEntity,
    other: SecretId,
)
    requires
        holds(store, id),
        revised.id == id,
    ensures
        lookup(store.update(slot_of(store, id), revised), id) == Some(revised),
        other != id ==> lookup(store.update(slot_of(store, id), revised), other) == lookup(
            store,
            other,
        ),
{
    let i = slot_of(store, id);
    let after = store.update(i, revised);
    assert(occurs_at(store, id, i));
    assert forall|j: int| 0 <= j < after.len() implies (#[trigger] after[j]).id == store[j].id by {}
    assert(occurs_at(after, id, i));
    lemma_occurs(after, id, i);
    if other != id {
        if holds(store, other) {
            let k = slot_of(store, other);
            assert(occurs_at(store, other, k));
            assert(occurs_at(after, other, k));
            lemma_occurs(after, other, k);
        } else {
            if holds(after, other) {
                let k = slot_of(after, other);
                assert(occurs_at(after, other, k));
                lemma_held(store, other, k);
            }
        }
    }
}

/// Taking the unsolved entities of a list of unsolved entities changes
/// nothing.
pub proof fn lemma_unsolved_twice(entities: Seq<SecretEntity>)
    ensures
        unsolved(unsolved(entities)) == unsolved(entities),
    decreases entities.len(),
{
    reveal(Seq::filter);
    if entities.len() > 0 {
        lemma_unsolved_twice(entities.drop_last());
        let rest = unsolved(entities.drop_last());
        if entities.last().guesser is None {
            assert(rest.push(entities.last()).drop_last() =~= rest);
        }
    }
}

} // verus!
