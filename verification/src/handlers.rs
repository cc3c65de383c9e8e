//! The operations as a web service offers them: identifiers arrive as text,
//! results leave as the view that players may see, and every failure has a
//! status code and a message.
//!
//! A service with a database of its own reads the identifier with
//! [`secret_id`], carries the operation through against its database, and
//! shapes the answer with [`create_response`], [`get_response`],
//! [`guess_response`] or [`list_response`]. The handlers at the end do all
//! of that on a store in memory.
use crate::error::AppError;
use crate::memory::{created, fetched, guess_made, SecretStore};
use crate::secret::{
    parse_id, parsed_id, process_secret, projection, AttemptCountRule, NewSecret, Secret,
    SecretEntity, SecretId,
};
use crate::store::unsolved;
use vstd::prelude::*;

verus! {

/// A guess as a player sends it.
#[derive(Debug, PartialEq, Eq)]
pub struct GuessSecretRequest {
    pub guess: String,
    pub username: String,
}

impl Clone for GuessSecretRequest {
    fn clone(&self) -> (copy: Self)
        ensures
            copy == *self,
    {
        GuessSecretRequest { guess: self.guess.clone(), username: self.username.clone() }
    }
}

/// The unsolved secrets as players see them.
#[derive(Debug, PartialEq, Eq)]
pub struct AllSecretsResponse {
    pub secrets: Vec<Secret>,
}

/// Why a handler turned a request down.
#[derive(Clone, Copy, Debug, PartialEq, Eq, Structural)]
pub enum Failure {
    /// The identifier in the request is no UUID.
    InvalidId,
    /// No secret has the identifier.
    NotFound,
    /// The secret is already solved.
    AlreadyGuessed,
    /// The store failed while a secret was being created.
    CreateFailed,
    /// The store failed while a secret was fetched or the secrets were
    /// listed.
    Internal,
    /// The store failed during a guess.
    GuessFailed,
}

impl Failure {
    /// The HTTP status code of a failure.
    pub open spec fn status_of(self) -> u16 {
        match self {
            Failure::InvalidId => 400,
            Failure::NotFound => 404,
            Failure::AlreadyGuessed => 400,
            Failure::CreateFailed => 500,
            Failure::Internal => 500,
            Failure::GuessFailed => 500,
        }
    }

    /// The message of a failure.
    pub open spec fn message_of(self) -> Seq<char> {
        match self {
            Failure::InvalidId => "Invalid Secret ID."@,
            Failure::NotFound => "Secret not found."@,
            Failure::AlreadyGuessed => "Secret already guessed."@,
            Failure::CreateFailed => "Failed to create secret. Please try again later."@,
            Failure::Internal => "Internal Server Error."@,
            Failure::GuessFailed => "Internal Server Error"@,
        }
    }

    /// The HTTP status code to answer with.
    pub fn status(&self) -> (code: u16)
        ensures
            code == self.status_of(),
    {
        match self {
            Failure::InvalidId => 400,
            Failure::NotFound => 404,
            Failure::AlreadyGuessed => 400,
            Failure::CreateFailed => 500,
            Failure::Internal => 500,
            Failure::GuessFailed => 500,
        }
    }

    /// The message to answer with.
    pub fn message(&self) -> (text: &'static str)
        ensures
            text@ == self.message_of(),
    {
        match self {
            Failure::InvalidId => "Invalid Secret ID.",
            Failure::NotFound => "Secret not found.",
            Failure::AlreadyGuessed => "Secret already guessed.",
            Failure::CreateFailed => "Failed to create secret. Please try again later.",
            Failure::Internal => "Internal Server Error.",
            Failure::GuessFailed => "Internal Server Error",
        }
    }
}

/// The views of some entities under a rule, in their order.
pub open spec fn projections(rule: AttemptCountRule, entities: Seq<SecretEntity>) -> Seq<Secret> {
    Seq::new(entities.len(), |i: int| projection(rule, entities[i]))
}

/// The answer to a request to create a secret.
pub open spec fn create_reply(
    rule: AttemptCountRule,
    stored: Result<SecretEntity, AppError>,
) -> Result<Secret, Failure> {
    match stored {
        Ok(entity) => Ok(projection(rule, entity)),
        Err(_) => Err(Failure::CreateFailed),
    }
}

/// The answer to a request for one secret.
pub open spec fn get_reply(
    rule: AttemptCountRule,
    stored: Result<SecretEntity, AppError>,
) -> Result<Secret, Failure> {
    match stored {
        Ok(entity) => Ok(projection(rule, entity)),
        Err(AppError::NotFound) => Err(Failure::NotFound),
        Err(_) => Err(Failure::Internal),
    }
}

/// The answer to a guess.
pub open spec fn guess_reply(
    rule: AttemptCountRule,
    stored: Result<SecretEntity, AppError>,
) -> Result<Secret, Failure> {
    match stored {
        Ok(entity) => Ok(projection(rule, entity)),
        Err(AppError::NotFound) => Err(Failure::NotFound),
        Err(AppError::AlreadyGuessed) => Err(Failure::AlreadyGuessed),
        Err(AppError::MongoDbError) => Err(Failure::GuessFailed),
    }
}

/// The identifier that the text of a request names, or the failure to
/// answer with when the text is no UUID.
pub open spec fn requested_id(text: Seq<char>) -> Result<SecretId, Failure> {
    match parsed_id(text) {
        Some(value) => Ok(SecretId(value)),
        None => Err(Failure::InvalidId),
    }
}

/// The answer to a request for the secret that a text names.
pub open spec fn get_answer(
    rule: AttemptCountRule,
    store: Seq<SecretEntity>,
    text: Seq<char>,
) -> Result<Secret, Failure> {
    match requested_id(text) {
        Ok(id) => get_reply(rule, fetched(store, id)),
        Err(failure) => Err(failure),
    }
}

/// A request to create a secret was answered as the store made of it.
pub open spec fn creation_answered(
    before: Seq<SecretEntity>,
    rule: AttemptCountRule,
    new_secret: NewSecret,
    after: Seq<SecretEntity>,
    response: Result<Secret, Failure>,
) -> bool {
    exists|stored: Result<SecretEntity, AppError>|
        #[trigger] created(before, new_secret, after, stored) && response == create_reply(
            rule,
            stored,
        )
}

/// A guess at the secret that a text names was answered as the store made
/// of it; a text that is no UUID is turned down before the store is asked.
pub open spec fn guess_answered(
    before: Seq<SecretEntity>,
    rule: AttemptCountRule,
    text: Seq<char>,
    guess: GuessSecretRequest,
    after: Seq<SecretEntity>,
    response: Result<Secret, Failure>,
) -> bool {
    match requested_id(text) {
        Ok(id) => exists|stored: Result<SecretEntity, AppError>|
            #[trigger] guess_made(before, id, guess.guess@, guess.username, after, stored)
                && response == guess_reply(rule, stored),
        Err(failure) => response == Err::<Secret, Failure>(failure) && after == before,
    }
}

/// A request for the unsolved secrets was answered as the store made of it:
/// with the view of each entity, in the order of the entities, or with a
/// failure if the store failed.
pub open spec fn listing_answered(
    rule: AttemptCountRule,
    stored: Result<Vec<SecretEntity>, AppError>,
    response: Result<AllSecretsResponse, Failure>,
) -> bool {
    match stored {
        Ok(entities) => response matches Ok(all) && all.secrets@ == projections(rule, entities@),
        Err(_) => response == Err::<AllSecretsResponse, Failure>(Failure::Internal),
    }
}

/// Reads the identifier of a secret from the text of a request.
pub fn secret_id(id: &str) -> (result: Result<SecretId, Failure>)
    ensures
        result == requested_id(id@),
{
    match parse_id(id) {
        Some(secret_id) => Ok(secret_id),
        None => Err(Failure::InvalidId),
    }
}

/// Answers a request to create a secret, given what the store made of it.
pub fn create_response(
    attempt_rule: AttemptCountRule,
    stored: Result<SecretEntity, AppError>,
) -> (response: Result<Secret, Failure>)
    ensures
        response == create_reply(attempt_rule, stored),
{
    match stored {
        Ok(entity) => Ok(process_secret(attempt_rule, entity)),
        Err(_) => Err(Failure::CreateFailed),
    }
}

/// Answers a request for one secret, given what the store made of it.
pub fn get_response(
    attempt_rule: AttemptCountRule,
    stored: Result<SecretEntity, AppError>,
) -> (response: Result<Secret, Failure>)
    ensures
        response == get_reply(attempt_rule, stored),
{
    match stored {
        Ok(entity) => Ok(process_secret(attempt_rule, entity)),
        Err(AppError::NotFound) => Err(Failure::NotFound),
        Err(_) => Err(Failure::Internal),
    }
}

/// Answers a guess, given what the store made of it.
pub fn guess_response(
    attempt_rule: AttemptCountRule,
    stored: Result<SecretEntity, AppError>,
) -> (response: Result<Secret, Failure>)
    ensures
        response == guess_reply(attempt_rule, stored),
{
    match stored {
        Ok(entity) => Ok(process_secret(attempt_rule, entity)),
        Err(AppError::NotFound) => Err(Failure::NotFound),
        Err(AppError::AlreadyGuessed) => Err(Failure::AlreadyGuessed),
        Err(AppError::MongoDbError) => Err(Failure::GuessFailed),
    }
}

/// Answers a request for the unsolved secrets, given what the store made of
/// it: the view of each entity, in the order of the entities.
pub fn list_response(
    attempt_rule: AttemptCountRule,
    stored: Result<Vec<SecretEntity>, AppError>,
) -> (response: Result<AllSecretsResponse, Failure>)
    ensures
        listing_answered(attempt_rule, stored, response),
{
    match stored {
        Ok(entities) => {
            let mut secrets: Vec<Secret> = Vec::new();
            let mut i: usize = 0;
            while i < entities.len()
                invariant
                    i <= entities.len(),
                    secrets@.len() == i,
                    forall|j: int|
                        0 <= j < i ==> secrets@[j] == projection(attempt_rule, entities@[j]),
                decreases entities.len() - i,
            {
                secrets.push(process_secret(attempt_rule, entities[i].clone()));
                i += 1;
            }
            assert(secrets@ =~= projections(attempt_rule, entities@));
            Ok(AllSecretsResponse { secrets })
        },
        Err(_) => Err(Failure::Internal),
    }
}

/// Creates a secret and answers with its view.
pub fn create_secret_handler(
    storage: &mut SecretStore,
    attempt_rule: &AttemptCountRule,
    secret: NewSecret,
) -> (response: Result<Secret, Failure>)
    ensures
        creation_answered(old(storage)@, *attempt_rule, secret, final(storage)@, response),
{
    let stored = storage.create_secret(secret);
    create_response(*attempt_rule, stored)
}

/// Answers with the view of one secret.
pub fn get_secret_handler(
    storage: &mut SecretStore,
    attempt_rule: &AttemptCountRule,
    id: &str,
) -> (response: Result<Secret, Failure>)
    ensures
        final(storage)@ == old(storage)@,
        response == get_answer(*attempt_rule, old(storage)@, id@),
{
    match secret_id(id) {
        Ok(secret_id) => {
            let stored = storage.get_secret_entity(secret_id);
            get_response(*attempt_rule, stored)
        },
        Err(failure) => Err(failure),
    }
}

/// Answers with the views of the secrets that nobody has solved.
pub fn get_all_secrets_handler(
    storage: &mut SecretStore,
    attempt_rule: &AttemptCountRule,
) -> (response: Result<AllSecretsResponse, Failure>)
    ensures
        final(storage)@ == old(storage)@,
        response matches Ok(all) && all.secrets@ == projections(
            *attempt_rule,
            unsolved(old(storage)@),
        ),
{
    let stored = storage.get_all_unguessed_secrets();
    list_response(*attempt_rule, stored)
}

/// Submits a guess and answers with the view of the secret afterwards.
pub fn guess_secret_handler(
    storage: &mut SecretStore,
    attempt_rule: &AttemptCountRule,
    id: &str,
    guess: GuessSecretRequest,
) -> (response: Result<Secret, Failure>)
    ensures
        guess_answered(old(storage)@, *attempt_rule, id@, guess, final(storage)@, response),
{
    match secret_id(id) {
        Ok(secret_id) => {
            let stored = storage.guess_secret(secret_id, guess.guess, guess.username);
            guess_response(*attempt_rule, stored)
        },
        Err(failure) => Err(failure),
    }
}

} // verus!
