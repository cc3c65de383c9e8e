//! The guess engine: the rules by which secrets are created, looked up,
//! listed and guessed at.
//!
//! The engine holds no state between operations and never touches a store.
//! An operation begins with a [`Step`]: either a request for the store,
//! together with the [`Session`] that remembers what the operation is in the
//! middle of, or the outcome. The caller sends the request, hands the reply
//! to [`advance`] and so gets the next step, until the operation finishes.
use crate::digest::{digest_of, lowercase, lowercase_of, same_text, text_digest};
use crate::error::AppError;
use crate::secret::{kind_bits, random_id, random_kind, NewSecret, SecretEntity, SecretId};
use crate::store::{store_apply, unsolved, StoreReply, StoreReplyView, StoreRequest};
use vstd::prelude::*;

verus! {

/// What an operation is waiting for.
#[derive(Debug, PartialEq, Eq)]
pub enum Session {
    /// A new entity was sent to the store; next it is read back.
    Inserting { id: SecretId },
    /// An entity was asked for; it is the result.
    Fetching,
    /// The entity to guess at was asked for; next the guess is judged.
    Judging { id: SecretId, guess: String, username: String },
    /// The result of a guess was sent to the store; next the entity is read
    /// back.
    Committing { id: SecretId },
    /// The unsolved entities were asked for.
    Listing,
    /// The store was asked whether it is alive.
    Probing,
}

/// How an operation ended.
#[derive(Debug, PartialEq, Eq)]
pub enum Outcome {
    /// The entity that the operation was about, as the store holds it now.
    Secret { entity: SecretEntity },
    /// The unsolved entities.
    Secrets { entities: Vec<SecretEntity> },
    /// Whether the store is alive.
    Health { alive: bool },
    /// The operation failed.
    Failed { error: AppError },
}

/// An outcome with its entities as a mathematical sequence.
pub enum OutcomeView {
    Secret { entity: SecretEntity },
    Secrets { entities: Seq<SecretEntity> },
    Health { alive: bool },
    Failed { error: AppError },
}

/// What to do next in an operation.
#[derive(Debug, PartialEq, Eq)]
pub enum Step {
    /// Send the request to the store and call [`advance`] with the session
    /// and the reply.
    Call { session: Session, request: StoreRequest },
    /// The operation is over.
    Finish { outcome: Outcome },
}

/// A step with its entities as mathematical sequences.
pub enum StepView {
    Call { session: Session, request: StoreRequest },
    Finish { outcome: OutcomeView },
}

impl View for Outcome {
    type V = OutcomeView;

    open spec fn view(&self) -> OutcomeView {
        match *self {
            Outcome::Secret { entity } => OutcomeView::Secret { entity },
            Outcome::Secrets { entities } => OutcomeView::Secrets { entities: entities@ },
            Outcome::Health { alive } => OutcomeView::Health { alive },
            Outcome::Failed { error } => OutcomeView::Failed { error },
        }
    }
}

impl View for Step {
    type V = StepView;

    open spec fn view(&self) -> StepView {
        match *self {
            Step::Call { session, request } => StepView::Call { session, request },
            Step::Finish { outcome } => StepView::Finish { outcome: outcome@ },
        }
    }
}

/// The outcome of an operation that ended with an entity.
pub open spec fn ended_with(entity: SecretEntity) -> OutcomeView {
    OutcomeView::Secret { entity }
}

/// The outcome of an operation that failed.
pub open spec fn failed_with(error: AppError) -> OutcomeView {
    OutcomeView::Failed { error }
}

/// The step that ends an operation with an error.
pub open spec fn failure(error: AppError) -> StepView {
    StepView::Finish { outcome: failed_with(error) }
}

/// The step that asks the store for an entity and ends with it.
pub open spec fn fetch(id: SecretId) -> StepView {
    StepView::Call { session: Session::Fetching, request: StoreRequest::Find { id } }
}

/// The attempt count after one more wrong guess. The count stops at the
/// largest value it can hold.
pub open spec fn next_attempts(attempts: u16) -> u16 {
    if attempts < u16::MAX {
        (attempts + 1) as u16
    } else {
        attempts
    }
}

/// The first step of creating a secret from an entity.
pub open spec fn inserting(entity: SecretEntity) -> StepView {
    StepView::Call {
        session: Session::Inserting { id: entity.id },
        request: StoreRequest::Insert { entity },
    }
}

/// The first step of a guess, after the guess has been brought to lowercase.
pub open spec fn guessing(id: SecretId, guess: String, username: String) -> StepView {
    StepView::Call {
        session: Session::Judging { id, guess, username },
        request: StoreRequest::Find { id },
    }
}

/// The first step of listing the unsolved secrets.
pub open spec fn listing() -> StepView {
    StepView::Call { session: Session::Listing, request: StoreRequest::FindUnsolved }
}

/// The first step of a health check.
pub open spec fn probing() -> StepView {
    StepView::Call { session: Session::Probing, request: StoreRequest::Ping }
}

/// What a guess leads to, given the entity it is aimed at and the digest of
/// the guess.
///
/// A solved secret refuses every guess. A guess whose digest is the stored
/// one wins: the winner and the guess are recorded and the attempt count is
/// left alone. Any other guess counts as one more attempt.
pub open spec fn judged(
    entity: SecretEntity,
    guess_digest: Seq<char>,
    id: SecretId,
    guess: String,
    username: String,
) -> StepView {
    if entity.guesser is Some {
        failure(AppError::AlreadyGuessed)
    } else if guess_digest == entity.secret@ {
        StepView::Call {
            session: Session::Committing { id },
            request: StoreRequest::RecordWin { id, winner: username, revealed_answer: guess },
        }
    } else {
        StepView::Call {
            session: Session::Committing { id },
            request: StoreRequest::RecordAttempt {
                id,
                attempts: next_attempts(entity.guess_attempts),
            },
        }
    }
}

/// The step that follows a reply from the store.
///
/// A reply that says the store failed, or that is not of the kind the
/// session waits for, ends the operation with `MongoDbError`; only a health
/// check takes every reply but `Failed` as a sign of life.
pub open spec fn advanced(session: Session, reply: StoreReplyView) -> StepView {
    match session {
        Session::Inserting { id } => match reply {
            StoreReplyView::Done => fetch(id),
            _ => failure(AppError::MongoDbError),
        },
        Session::Fetching => match reply {
            StoreReplyView::Entity { found: Some(entity) } => StepView::Finish {
                outcome: ended_with(entity),
            },
            StoreReplyView::Entity { found: None } => failure(AppError::NotFound),
            _ => failure(AppError::MongoDbError),
        },
        Session::Judging { id, guess, username } => match reply {
            StoreReplyView::Entity { found: Some(entity) } => judged(
                entity,
                digest_of(guess@),
                id,
                guess,
                username,
            ),
            StoreReplyView::Entity { found: None } => failure(AppError::NotFound),
            _ => failure(AppError::MongoDbError),
        },
        Session::Committing { id } => match reply {
            StoreReplyView::Done => fetch(id),
            _ => failure(AppError::MongoDbError),
        },
        Session::Listing => match reply {
            StoreReplyView::Entities { entities } => StepView::Finish {
                outcome: OutcomeView::Secrets { entities: unsolved(entities) },
            },
            _ => failure(AppError::MongoDbError),
        },
        Session::Probing => StepView::Finish {
            outcome: OutcomeView::Health { alive: !(reply is Failed) },
        },
    }
}

impl Session {
    /// The most requests that an operation in this session can still send,
    /// the one it waits for included.
    pub open spec fn rank(self) -> nat {
        match self {
            Session::Judging { .. } => 3,
            Session::Inserting { .. } => 2,
            Session::Committing { .. } => 2,
            Session::Fetching => 1,
            Session::Listing => 1,
            Session::Probing => 1,
        }
    }
}

impl StepView {
    /// The most requests that an operation at this step can still send.
    pub open spec fn rank(self) -> nat {
        match self {
            StepView::Call { session, .. } => session.rank(),
            StepView::Finish { .. } => 0,
        }
    }
}

/// Carries an operation through from a step, against a store that does not
/// fail and that nobody else is using: the contents of the store afterwards
/// and the outcome.
pub open spec fn run(store: Seq<SecretEntity>, step: StepView) -> (Seq<SecretEntity>, OutcomeView)
    decreases step.rank(),
{
    match step {
        StepView::Finish { outcome } => (store, outcome),
        StepView::Call { session, request } => {
            let (next, reply) = store_apply(store, request);
            run(next, advanced(session, reply))
        },
    }
}

/// The entity that an operation ended with, or why it has none. An outcome
/// of another kind counts as a failure of the store.
pub open spec fn entity_of(outcome: OutcomeView) -> Result<SecretEntity, AppError> {
    match outcome {
        OutcomeView::Secret { entity } => Ok(entity),
        OutcomeView::Failed { error } => Err(error),
        _ => Err(AppError::MongoDbError),
    }
}

/// The entities that an operation ended with, or why it has none. An
/// outcome of another kind counts as a failure of the store.
pub open spec fn entities_of(outcome: OutcomeView) -> Result<Seq<SecretEntity>, AppError> {
    match outcome {
        OutcomeView::Secrets { entities } => Ok(entities),
        OutcomeView::Failed { error } => Err(error),
        _ => Err(AppError::MongoDbError),
    }
}

/// Whether an operation ended with a store that is alive.
pub open spec fn alive_of(outcome: OutcomeView) -> bool {
    outcome matches OutcomeView::Health { alive } && alive
}

impl Outcome {
    /// Takes the entity out of the outcome of an operation on one secret.
    pub fn into_entity(self) -> (result: Result<SecretEntity, AppError>)
        ensures
            result == entity_of(self@),
    {
        match self {
            Outcome::Secret { entity } => Ok(entity),
            Outcome::Failed { error } => Err(error),
            _ => Err(AppError::MongoDbError),
        }
    }

    /// Takes the entities out of the outcome of a listing.
    pub fn into_entities(self) -> (result: Result<Vec<SecretEntity>, AppError>)
        ensures
            result matches Ok(entities) ==> entities_of(self@) == Ok::<Seq<SecretEntity>, AppError>(
                entities@,
            ),
            result matches Err(error) ==> entities_of(self@) == Err::<Seq<SecretEntity>, AppError>(
                error,
            ),
    {
        match self {
            Outcome::Secrets { entities } => Ok(entities),
            Outcome::Failed { error } => Err(error),
            _ => Err(AppError::MongoDbError),
        }
    }

    /// Reads the outcome of a health check: alive only if the outcome says
    /// so.
    pub fn into_health(self) -> (alive: bool)
        ensures
            alive == alive_of(self@),
    {
        match self {
            Outcome::Health { alive } => alive,
            _ => false,
        }
    }
}

/// Ends an operation with an error.
fn fail(error: AppError) -> (step: Step)
    ensures
        step@ == failure(error),
{
    Step::Finish { outcome: Outcome::Failed { error } }
}

/// Begins reading an entity back from the store.
pub fn start_get(secret_id: SecretId) -> (step: Step)
    ensures
        step@ == fetch(secret_id),
{
    Step::Call { session: Session::Fetching, request: StoreRequest::Find { id: secret_id } }
}

/// Begins the creation of a secret whose entity is already built.
pub fn insert_secret(entity: SecretEntity) -> (step: Step)
    ensures
        step@ == inserting(entity),
{
    Step::Call {
        session: Session::Inserting { id: entity.id },
        request: StoreRequest::Insert { entity },
    }
}

/// A step is the first step of creating a secret from an answer and three
/// clues: it asks the store to keep an entity with an identifier of the
/// random kind, the digest of the lowercase answer, the clues as supplied,
/// no attempts, no winner and no revealed answer.
pub open spec fn starts_creation(step: StepView, new_secret: NewSecret) -> bool {
    &&& step matches StepView::Call { request: StoreRequest::Insert { entity }, .. }
    &&& step == inserting(entity)
    &&& kind_bits(entity.id) == random_kind()
    &&& entity.secret@ == digest_of(lowercase_of(new_secret.secret@))
    &&& entity.clue1 == new_secret.clue1
    &&& entity.clue2 == new_secret.clue2
    &&& entity.clue3 == new_secret.clue3
    &&& entity.unplayed()
}

/// Begins the creation of a secret: draws a random identifier, brings the
/// answer to lowercase, digests it and asks the store to keep the entity.
/// The entity never holds the answer itself.
pub fn start_create(new_secret: NewSecret) -> (step: Step)
    ensures
        starts_creation(step@, new_secret),
{
    let id = random_id();
    let answer = lowercase(new_secret.secret.as_str());
    let digest = text_digest(answer.as_str());
    insert_secret(
        SecretEntity::fresh(id, digest, new_secret.clue1, new_secret.clue2, new_secret.clue3),
    )
}

/// Begins listing the secrets that nobody has solved.
pub fn start_listing() -> (step: Step)
    ensures
        step@ == listing(),
{
    Step::Call { session: Session::Listing, request: StoreRequest::FindUnsolved }
}

/// Begins a health check of the store.
pub fn start_health_check() -> (step: Step)
    ensures
        step@ == probing(),
{
    Step::Call { session: Session::Probing, request: StoreRequest::Ping }
}

/// Begins a guess that is already in lowercase.
pub fn submit_guess(secret_id: SecretId, guess: String, username: String) -> (step: Step)
    ensures
        step@ == guessing(secret_id, guess, username),
{
    Step::Call {
        session: Session::Judging { id: secret_id, guess, username },
        request: StoreRequest::Find { id: secret_id },
    }
}

/// A step is the first step of a guess: it asks the store for the secret
/// and remembers the guess in lowercase and the name of the player.
pub open spec fn starts_guess(
    step: StepView,
    id: SecretId,
    guess: Seq<char>,
    username: String,
) -> bool {
    &&& step matches StepView::Call { session: Session::Judging { guess: folded, .. }, .. }
    &&& folded@ == lowercase_of(guess)
    &&& step == guessing(id, folded, username)
}

/// Begins a guess: brings it to lowercase and asks the store for the secret
/// it is aimed at.
pub fn start_guess(secret_id: SecretId, guess: String, username: String) -> (step: Step)
    ensures
        starts_guess(step@, secret_id, guess@, username),
{
    let folded = lowercase(guess.as_str());
    submit_guess(secret_id, folded, username)
}

/// Counts one more wrong guess.
pub fn count_attempt(attempts: u16) -> (next: u16)
    ensures
        next == next_attempts(attempts),
{
    if attempts < u16::MAX {
        attempts + 1
    } else {
        attempts
    }
}

/// Judges a guess against the entity it is aimed at, given the digest of
/// the guess.
pub fn judge(
    entity: &SecretEntity,
    guess_digest: &str,
    id: SecretId,
    guess: String,
    username: String,
) -> (step: Step)
    ensures
        step@ == judged(*entity, guess_digest@, id, guess, username),
{
    if entity.guesser.is_some() {
        fail(AppError::AlreadyGuessed)
    } else if same_text(guess_digest, entity.secret.as_str()) {
        Step::Call {
            session: Session::Committing { id },
            request: StoreRequest::RecordWin { id, winner: username, revealed_answer: guess },
        }
    } else {
        Step::Call {
            session: Session::Committing { id },
            request: StoreRequest::RecordAttempt {
                id,
                attempts: count_attempt(entity.guess_attempts),
            },
        }
    }
}

/// Keeps the unsolved entities of a list, in their order.
pub fn keep_unsolved(found: &Vec<SecretEntity>) -> (kept: Vec<SecretEntity>)
    ensures
        kept@ == unsolved(found@),
{
    let mut kept: Vec<SecretEntity> = Vec::new();
    let mut i: usize = 0;
    proof {
        reveal(Seq::filter);
        assert(found@.take(0) =~= Seq::<SecretEntity>::empty());
    }
    while i < found.len()
        invariant
            i <= found.len(),
            kept@ == unsolved(found@.take(i as int)),
        decreases found.len() - i,
    {
        proof {
            reveal(Seq::filter);
            assert(found@.take(i + 1).drop_last() =~= found@.take(i as int));
        }
        if found[i].guesser.is_none() {
            kept.push(found[i].clone());
        }
        i += 1;
    }
    proof {
        assert(found@.take(found.len() as int) =~= found@);
    }
    kept
}

/// Takes the reply of the store to the request of the last step and says
/// what to do next.
pub fn advance(session: Session, reply: StoreReply) -> (step: Step)
    ensures
        step@ == advanced(session, reply@),
{
    match session {
        Session::Inserting { id } => match reply {
            StoreReply::Done => start_get(id),
            _ => fail(AppError::MongoDbError),
        },
        Session::Fetching => match reply {
            StoreReply::Entity { found: Some(entity) } => Step::Finish {
                outcome: Outcome::Secret { entity },
            },
            StoreReply::Entity { found: None } => fail(AppError::NotFound),
            _ => fail(AppError::MongoDbError),
        },
        Session::Judging { id, guess, username } => match reply {
            StoreReply::Entity { found: Some(entity) } => {
                if entity.guesser.is_some() {
                    fail(AppError::AlreadyGuessed)
                } else {
                    let guess_digest = text_digest(guess.as_str());
                    judge(&entity, guess_digest.as_str(), id, guess, username)
                }
            },
            StoreReply::Entity { found: None } => fail(AppError::NotFound),
            _ => fail(AppError::MongoDbError),
        },
        Session::Committing { id } => match reply {
            StoreReply::Done => start_get(id),
            _ => fail(AppError::MongoDbError),
        },
        Session::Listing => match reply {
            StoreReply::Entities { entities } => Step::Finish {
                outcome: Outcome::Secrets { entities: keep_unsolved(&entities) },
            },
            _ => fail(AppError::MongoDbError),
        },
        Session::Probing => match reply {
            StoreReply::Failed => Step::Finish { outcome: Outcome::Health { alive: false } },
            _ => Step::Finish { outcome: Outcome::Health { alive: true } },
        },
    }
}

} // verus!
