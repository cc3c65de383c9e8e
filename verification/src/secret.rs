//! Secrets as the store keeps them, and the view of a secret that players see.
use uuid::Uuid;
use vstd::prelude::*;

verus! {

/// The identifier of a secret: the 128-bit value of a UUID.
#[derive(Clone, Copy, Debug, PartialEq, Eq, Structural)]
pub struct SecretId(pub u128);

/// How many wrong guesses it takes before each clue is shown.
#[derive(Clone, Copy, Debug, PartialEq, Eq)]
pub struct AttemptCountRule {
    pub clue1_attempts: u16,
    pub clue2_attempts: u16,
    pub clue3_attempts: u16,
}

/// What a caller supplies to create a secret: the answer and three clues.
#[derive(Debug, PartialEq, Eq)]
pub struct NewSecret {
    pub secret: String,
    pub clue1: String,
    pub clue2: String,
    pub clue3: String,
}

/// A secret as the store keeps it.
///
/// `secret` holds the digest of the answer, never the answer itself. The
/// answer appears in `guessed_secret` once somebody has guessed it, together
/// with the name of the winner in `guesser`.
#[derive(Debug, PartialEq, Eq)]
pub struct SecretEntity {
    pub id: SecretId,
    pub secret: String,
    pub clue1: String,
    pub clue2: String,
    pub clue3: String,
    pub guess_attempts: u16,
    pub guesser: Option<String>,
    pub guessed_secret: Option<String>,
}

/// A secret as players see it: a clue is present once enough wrong guesses
/// have been made, the winner and the answer once the secret is solved.
#[derive(Debug, PartialEq, Eq)]
pub struct Secret {
    pub id: SecretId,
    pub guessed: bool,
    pub clue1: Option<String>,
    pub clue2: Option<String>,
    pub clue3: Option<String>,
    pub guesser: Option<String>,
    pub secret: Option<String>,
}

/// The identifier that `Uuid::parse_str` reads from a text, if it reads one.
pub uninterp spec fn parsed_id(text: Seq<char>) -> Option<u128>;

/// The version and variant bits of an identifier.
pub open spec fn kind_bits(id: SecretId) -> u128 {
    id.0 & 0x0000_0000_0000_f000_c000_0000_0000_0000u128
}

/// The version and variant bits of a random identifier: version 4, variant
/// `10`.
pub open spec fn random_kind() -> u128 {
    0x0000_0000_0000_4000_8000_0000_0000_0000u128
}

/// Calls `Uuid::new_v4` and takes the value with `Uuid::as_u128`. Trusted:
/// whatever the random bits, the version is 4 and the variant is `10`.
#[verifier::external_body]
pub(crate) fn random_id() -> (id: SecretId)
    ensures
        kind_bits(id) == random_kind(),
{
    SecretId(Uuid::new_v4().as_u128())
}

/// Calls `Uuid::parse_str` and takes the value with `Uuid::as_u128`; an
/// error of the parser becomes `None`. Trusted: what is read depends on the
/// text alone.
#[verifier::external_body]
pub(crate) fn parse_id(text: &str) -> (id: Option<SecretId>)
    ensures
        id == id_from(parsed_id(text@)),
{
    match Uuid::parse_str(text) {
        Ok(value) => Some(SecretId(value.as_u128())),
        Err(_) => None,
    }
}

/// The identifier with a given value, if there is a value.
pub open spec fn id_from(value: Option<u128>) -> Option<SecretId> {
    match value {
        Some(v) => Some(SecretId(v)),
        None => None,
    }
}

impl AttemptCountRule {
    /// Each clue takes more wrong guesses than the one before it.
    pub open spec fn strictly_increasing(self) -> bool {
        self.clue1_attempts < self.clue2_attempts < self.clue3_attempts
    }
}

impl Clone for SecretEntity {
    fn clone(&self) -> (copy: Self)
        ensures
            copy == *self,
    {
        SecretEntity {
            id: self.id,
            secret: self.secret.clone(),
            clue1: self.clue1.clone(),
            clue2: self.clue2.clone(),
            clue3: self.clue3.clone(),
            guess_attempts: self.guess_attempts,
            guesser: clone_name(&self.guesser),
            guessed_secret: clone_name(&self.guessed_secret),
        }
    }
}

impl Clone for NewSecret {
    fn clone(&self) -> (copy: Self)
        ensures
            copy == *self,
    {
        NewSecret {
            secret: self.secret.clone(),
            clue1: self.clue1.clone(),
            clue2: self.clue2.clone(),
            clue3: self.clue3.clone(),
        }
    }
}

impl Clone for Secret {
    fn clone(&self) -> (copy: Self)
        ensures
            copy == *self,
    {
        Secret {
            id: self.id,
            guessed: self.guessed,
            clue1: clone_name(&self.clue1),
            clue2: clone_name(&self.clue2),
            clue3: clone_name(&self.clue3),
            guesser: clone_name(&self.guesser),
            secret: clone_name(&self.secret),
        }
    }
}

/// Copies an optional text.
fn clone_name(name: &Option<String>) -> (copy: Option<String>)
    ensures
        copy == *name,
{
    match name {
        Some(text) => Some(text.clone()),
        None => None,
    }
}

impl SecretEntity {
    /// Somebody has guessed the answer.
    pub open spec fn solved(&self) -> bool {
        self.guesser is Some
    }

    /// The winner and the revealed answer are present together or not at
    /// all.
    pub open spec fn consistent(&self) -> bool {
        self.guesser is Some <==> self.guessed_secret is Some
    }

    /// A secret that nobody has guessed at yet.
    pub open spec fn unplayed(&self) -> bool {
        &&& self.guess_attempts == 0
        &&& self.guesser is None
        &&& self.guessed_secret is None
    }

    /// Builds the entity of a new secret from the digest of its answer and
    /// its clues: no attempts, no winner, no revealed answer.
    pub fn fresh(
        id: SecretId,
        digest: String,
        clue1: String,
        clue2: String,
        clue3: String,
    ) -> (entity: Self)
        ensures
            entity == (SecretEntity {
                id,
                secret: digest,
                clue1,
                clue2,
                clue3,
                guess_attempts: 0,
                guesser: None,
                guessed_secret: None,
            }),
    {
        SecretEntity {
            id,
            secret: digest,
            clue1,
            clue2,
            clue3,
            guess_attempts: 0,
            guesser: None,
            guessed_secret: None,
        }
    }
}

/// A clue as players see it: shown if and only if the attempts have reached
/// its threshold.
pub open spec fn shown_at(clue: String, attempts: u16, threshold: u16) -> Option<String> {
    if attempts >= threshold {
        Some(clue)
    } else {
        None
    }
}

/// What players may see of an entity under a rule.
///
/// Each clue goes by its own threshold. The winner and the answer are shown
/// only for a solved secret.
pub open spec fn projection(rule: AttemptCountRule, entity: SecretEntity) -> Secret {
    Secret {
        id: entity.id,
        guessed: entity.solved(),
        clue1: shown_at(entity.clue1, entity.guess_attempts, rule.clue1_attempts),
        clue2: shown_at(entity.clue2, entity.guess_attempts, rule.clue2_attempts),
        clue3: shown_at(entity.clue3, entity.guess_attempts, rule.clue3_attempts),
        guesser: entity.guesser,
        secret: if entity.solved() {
            entity.guessed_secret
        } else {
            None
        },
    }
}

/// Shows a clue if the attempts have reached its threshold.
fn show_clue(clue: String, attempts: u16, threshold: u16) -> (shown: Option<String>)
    ensures
        shown == shown_at(clue, attempts, threshold),
{
    if attempts >= threshold {
        Some(clue)
    } else {
        None
    }
}

/// Projects an entity into the view that players see.
pub fn process_secret(attempt_rule: AttemptCountRule, entity: SecretEntity) -> (view: Secret)
    ensures
        view == projection(attempt_rule, entity),
{
    let attempts = entity.guess_attempts;
    let solved = entity.guesser.is_some();
    Secret {
        id: entity.id,
        guessed: solved,
        clue1: show_clue(entity.clue1, attempts, attempt_rule.clue1_attempts),
        clue2: show_clue(entity.clue2, attempts, attempt_rule.clue2_attempts),
        clue3: show_clue(entity.clue3, attempts, attempt_rule.clue3_attempts),
        guesser: entity.guesser,
        secret: if solved {
            entity.guessed_secret
        } else {
            None
        },
    }
}

} // verus!
