//! A secret store that lives in memory.
//!
//! It answers every request as the model of a store says and never fails on
//! its own account, so the operations of the engine can be carried through
//! on it from beginning to end.
use crate::digest::{digest_of, lowercase_of};
use crate::engine::{
    advance, keep_unsolved, next_attempts, run, start_create, start_get, start_guess,
    start_health_check, start_listing, Outcome, Step,
};
use crate::error::AppError;
use crate::laws::{
    law_correct_guess_wins, law_create_then_fetch, law_fetch_reads_the_store,
    law_listing_reads_the_unsolved, law_solved_secret_refuses_guesses,
    law_taken_identifier_is_refused, law_unknown_secret_is_not_found, law_wrong_guess_counts,
};
use crate::secret::{kind_bits, random_kind, NewSecret, SecretEntity, SecretId};
use crate::store::{
    holds, lemma_absent, lemma_occurs, lookup, occurs_at, slot_of, store_apply, unsolved,
    with_attempts, with_win, StoreReply, StoreRequest,
};
use vstd::prelude::*;

verus! {

/// The entities of a store in the order in which they were inserted.
pub struct SecretStore {
    entities: Vec<SecretEntity>,
}

impl View for SecretStore {
    type V = Seq<SecretEntity>;

    closed spec fn view(&self) -> Seq<SecretEntity> {
        self.entities@
    }
}

/// What creating a secret does to a store and what it returns.
///
/// The identifier is drawn at random. If the store does not hold it yet,
/// the new entity is appended and returned: it has the digest of the
/// lowercase answer, the clues as supplied, no attempts and no winner. If
/// the store holds it already, nothing changes and the store's refusal is
/// returned.
pub open spec fn created(
    before: Seq<SecretEntity>,
    new_secret: NewSecret,
    after: Seq<SecretEntity>,
    result: Result<SecretEntity, AppError>,
) -> bool {
    match result {
        Ok(entity) => {
            &&& kind_bits(entity.id) == random_kind()
            &&& !holds(before, entity.id)
            &&& entity.secret@ == digest_of(lowercase_of(new_secret.secret@))
            &&& entity.clue1 == new_secret.clue1
            &&& entity.clue2 == new_secret.clue2
            &&& entity.clue3 == new_secret.clue3
            &&& entity.unplayed()
            &&& after == before.push(entity)
            &&& lookup(after, entity.id) == Some(entity)
        },
        Err(error) => {
            &&& error == AppError::MongoDbError
            &&& after == before
            &&& exists|id: SecretId| #[trigger] holds(before, id) && kind_bits(id) == random_kind()
        },
    }
}

/// What fetching a secret returns.
pub open spec fn fetched(store: Seq<SecretEntity>, id: SecretId) -> Result<SecretEntity, AppError> {
    match lookup(store, id) {
        Some(entity) => Ok(entity),
        None => Err(AppError::NotFound),
    }
}

/// What a guess does to a store and what it returns.
///
/// An unknown identifier gives `NotFound` and a solved secret
/// `AlreadyGuessed`, both without a change. At an unsolved secret, a guess
/// whose lowercase form has the stored digest records the player as the
/// winner and that lowercase form as the revealed answer; any other guess
/// raises the attempt count by one. Either way the entity is returned as
/// the store holds it afterwards.
pub open spec fn guess_made(
    before: Seq<SecretEntity>,
    id: SecretId,
    guess: Seq<char>,
    username: String,
    after: Seq<SecretEntity>,
    result: Result<SecretEntity, AppError>,
) -> bool {
    match lookup(before, id) {
        None => result == Err::<SecretEntity, AppError>(AppError::NotFound) && after == before,
        Some(entity) => if entity.guesser is Some {
            result == Err::<SecretEntity, AppError>(AppError::AlreadyGuessed) && after == before
        } else {
            &&& result matches Ok(now)
            &&& after == before.update(slot_of(before, id), now)
            &&& lookup(after, id) == Some(now)
            &&& if digest_of(lowercase_of(guess)) == entity.secret@ {
                &&& now.guessed_secret matches Some(answer)
                &&& answer@ == lowercase_of(guess)
                &&& now == with_win(entity, username, answer)
            } else {
                now == with_attempts(entity, next_attempts(entity.guess_attempts))
            }
        },
    }
}

impl SecretStore {
    /// An empty store.
    pub fn new() -> (store: Self)
        ensures
            store@ == Seq::<SecretEntity>::empty(),
    {
        SecretStore { entities: Vec::new() }
    }

    /// The position of the first entity with an identifier.
    fn position(&self, id: SecretId) -> (at: Option<usize>)
        ensures
            at matches Some(i) ==> occurs_at(self@, id, i as int),
            at is None ==> !holds(self@, id),
    {
        let mut i: usize = 0;
        while i < self.entities.len()
            invariant
                i <= self.entities.len(),
                forall|j: int| 0 <= j < i ==> (#[trigger] self.entities@[j]).id != id,
            decreases self.entities.len() - i,
        {
            if self.entities[i].id == id {
                return Some(i);
            }
            i += 1;
        }
        proof {
            lemma_absent(self@, id);
        }
        None
    }

    /// Carries out a request and answers it.
    pub fn apply(&mut self, request: StoreRequest) -> (reply: StoreReply)
        ensures
            (final(self)@, reply@) == store_apply(old(self)@, request),
    {
        match request {
            StoreRequest::Insert { entity } => match self.position(entity.id) {
                Some(_) => StoreReply::Failed,
                None => {
                    self.entities.push(entity);
                    StoreReply::Done
                },
            },
            StoreRequest::Find { id } => match self.position(id) {
                Some(i) => {
                    proof {
                        lemma_occurs(self@, id, i as int);
                    }
                    StoreReply::Entity { found: Some(self.entities[i].clone()) }
                },
                None => StoreReply::Entity { found: None },
            },
            StoreRequest::FindUnsolved => StoreReply::Entities {
                entities: keep_unsolved(&self.entities),
            },
            StoreRequest::RecordAttempt { id, attempts } => {
                match self.position(id) {
                    Some(i) => {
                        proof {
                            lemma_occurs(self@, id, i as int);
                        }
                        if self.entities[i].guesser.is_none() {
                            self.entities[i].guess_attempts = attempts;
                        }
                    },
                    None => {},
                }
                StoreReply::Done
            },
            StoreRequest::RecordWin { id, winner, revealed_answer } => {
                match self.position(id) {
                    Some(i) => {
                        proof {
                            lemma_occurs(self@, id, i as int);
                        }
                        if self.entities[i].guesser.is_none() {
                            self.entities[i].guesser = Some(winner);
                            self.entities[i].guessed_secret = Some(revealed_answer);
                        }
                    },
                    None => {},
                }
                StoreReply::Done
            },
            StoreRequest::Ping => StoreReply::Done,
        }
    }

    /// Carries an operation of the engine through from a step to its
    /// outcome, answering each request itself.
    pub fn run(&mut self, step: Step) -> (outcome: Outcome)
        ensures
            (final(self)@, outcome@) == run(old(self)@, step@),
    {
        let ghost goal = run(self@, step@);
        let mut current = step;
        loop
            invariant
                goal == run(old(self)@, step@),
                run(self@, current@) == goal,
            decreases current@.rank(),
        {
            match current {
                Step::Finish { outcome } => {
                    return outcome;
                },
                Step::Call { session, request } => {
                    let reply = self.apply(request);
                    current = advance(session, reply);
                },
            }
        }
    }

    /// Creates a secret from an answer and three clues and returns its
    /// entity as stored.
    pub fn create_secret(&mut self, new_secret: NewSecret) -> (result: Result<
        SecretEntity,
        AppError,
    >)
        ensures
            created(old(self)@, new_secret, final(self)@, result),
    {
        let step = start_create(new_secret);
        proof {
            let entity = step@->request->entity;
            if holds(self@, entity.id) {
                law_taken_identifier_is_refused(self@, entity);
            } else {
                law_create_then_fetch(self@, entity);
            }
        }
        self.run(step).into_entity()
    }

    /// Fetches the entity of a secret.
    pub fn get_secret_entity(&mut self, secret_id: SecretId) -> (result: Result<
        SecretEntity,
        AppError,
    >)
        ensures
            final(self)@ == old(self)@,
            result == fetched(old(self)@, secret_id),
    {
        proof {
            law_fetch_reads_the_store(self@, secret_id);
        }
        self.run(start_get(secret_id)).into_entity()
    }

    /// Lists the entities of the secrets that nobody has solved, in the
    /// order in which they were created.
    pub fn get_all_unguessed_secrets(&mut self) -> (result: Result<Vec<SecretEntity>, AppError>)
        ensures
            final(self)@ == old(self)@,
            result matches Ok(entities) && entities@ == unsolved(old(self)@),
    {
        proof {
            law_listing_reads_the_unsolved(self@);
        }
        self.run(start_listing()).into_entities()
    }

    /// Submits a guess at a secret in the name of a player and returns the
    /// entity as the store holds it afterwards.
    pub fn guess_secret(&mut self, secret_id: SecretId, guess: String, username: String) -> (result:
        Result<SecretEntity, AppError>)
        ensures
            guess_made(old(self)@, secret_id, guess@, username, final(self)@, result),
    {
        let ghost player = username;
        let step = start_guess(secret_id, guess, username);
        proof {
            let folded = step@->session->guess;
            match lookup(self@, secret_id) {
                None => {
                    law_unknown_secret_is_not_found(self@, secret_id, folded, player);
                },
                Some(entity) => {
                    if entity.guesser is Some {
                        law_solved_secret_refuses_guesses(self@, secret_id, folded, player);
                    } else if digest_of(folded@) == entity.secret@ {
                        law_correct_guess_wins(self@, secret_id, folded, player);
                    } else {
                        law_wrong_guess_counts(self@, secret_id, folded, player);
                    }
                },
            }
        }
        self.run(step).into_entity()
    }

    /// Asks the store whether it is alive. A store in memory always is.
    pub fn health_check(&mut self) -> (alive: bool)
        ensures
            final(self)@ == old(self)@,
            alive,
    {
        proof {
            reveal_with_fuel(run, 2);
        }
        self.run(start_health_check()).into_health()
    }
}

} // verus!
