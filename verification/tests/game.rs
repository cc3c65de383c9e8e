use guesser_game::handlers::{
    create_response, create_secret_handler, get_all_secrets_handler, get_response,
    get_secret_handler, guess_response, guess_secret_handler, list_response, secret_id,
    AllSecretsResponse, Failure, GuessSecretRequest,
};
use guesser_game::error::AppError;
use guesser_game::memory::SecretStore;
use guesser_game::secret::{AttemptCountRule, NewSecret, Secret, SecretEntity, SecretId};
use guesser_game::store::StoreRequest;

const FUTEBOL: &str = "44070423f8332ac096181eb2716adf27434ceaaa501c6d4369a6aa0949d71dc0";
const KNOWN: u128 = 0x550e8400_e29b_41d4_a716_446655440000;
const KNOWN_TEXT: &str = "550e8400-e29b-41d4-a716-446655440000";

fn rule() -> AttemptCountRule {
    AttemptCountRule { clue1_attempts: 1, clue2_attempts: 2, clue3_attempts: 3 }
}

fn futebol() -> NewSecret {
    NewSecret {
        secret: "Futebol".to_string(),
        clue1: "Pés".to_string(),
        clue2: "22".to_string(),
        clue3: "Bola".to_string(),
    }
}

fn known(attempts: u16) -> SecretEntity {
    SecretEntity {
        id: SecretId(KNOWN),
        secret: FUTEBOL.to_string(),
        clue1: "Pés".to_string(),
        clue2: "22".to_string(),
        clue3: "Bola".to_string(),
        guess_attempts: attempts,
        guesser: None,
        guessed_secret: None,
    }
}

fn store_with_known(attempts: u16) -> SecretStore {
    let mut store = SecretStore::new();
    store.apply(StoreRequest::Insert { entity: known(attempts) });
    store
}

fn guess(text: &str, username: &str) -> GuessSecretRequest {
    GuessSecretRequest { guess: text.to_string(), username: username.to_string() }
}

fn hyphenated(id: SecretId) -> String {
    let hex = format!("{:032x}", id.0);
    format!("{}-{}-{}-{}-{}", &hex[0..8], &hex[8..12], &hex[12..16], &hex[16..20], &hex[20..32])
}

#[test]
fn the_game_from_creation_to_the_win() {
    let mut store = SecretStore::new();
    let created = create_secret_handler(&mut store, &rule(), futebol()).unwrap();
    let id = hyphenated(created.id);

    let first = guess_secret_handler(&mut store, &rule(), &id, guess("errado", "ana")).unwrap();
    assert_eq!(
        first,
        Secret {
            id: created.id,
            guessed: false,
            clue1: Some("Pés".to_string()),
            clue2: None,
            clue3: None,
            guesser: None,
            secret: None,
        }
    );

    let second = guess_secret_handler(&mut store, &rule(), &id, guess("errado", "ana")).unwrap();
    assert_eq!(second.clue1, Some("Pés".to_string()));
    assert_eq!(second.clue2, Some("22".to_string()));
    assert_eq!(second.clue3, None);
    assert!(!second.guessed);

    let third = guess_secret_handler(&mut store, &rule(), &id, guess("Futebol", "ana")).unwrap();
    assert_eq!(
        third,
        Secret {
            id: created.id,
            guessed: true,
            clue1: Some("Pés".to_string()),
            clue2: Some("22".to_string()),
            clue3: None,
            guesser: Some("ana".to_string()),
            secret: Some("futebol".to_string()),
        }
    );

    assert_eq!(
        guess_secret_handler(&mut store, &rule(), &id, guess("qualquer", "bia")),
        Err(Failure::AlreadyGuessed)
    );
    assert_eq!(
        guess_secret_handler(&mut store, &rule(), &id, guess("futebol", "bia")),
        Err(Failure::AlreadyGuessed)
    );
    assert_eq!(get_secret_handler(&mut store, &rule(), &id), Ok(third));
}

#[test]
fn a_created_secret_is_hidden_when_fetched() {
    let mut store = SecretStore::new();
    let created = create_secret_handler(&mut store, &rule(), futebol()).unwrap();
    let hidden = Secret {
        id: created.id,
        guessed: false,
        clue1: None,
        clue2: None,
        clue3: None,
        guesser: None,
        secret: None,
    };
    assert_eq!(created, hidden);
    assert_eq!(get_secret_handler(&mut store, &rule(), &hyphenated(created.id)), Ok(hidden));
}

#[test]
fn a_created_secret_keeps_its_clues_as_written() {
    let mut store = SecretStore::new();
    let open = AttemptCountRule { clue1_attempts: 0, clue2_attempts: 0, clue3_attempts: 0 };
    let created = create_secret_handler(&mut store, &open, futebol()).unwrap();
    assert_eq!(created.clue1, Some("Pés".to_string()));
    assert_eq!(created.clue2, Some("22".to_string()));
    assert_eq!(created.clue3, Some("Bola".to_string()));
    assert_eq!(created.secret, None);
}

#[test]
fn wrong_guesses_below_the_first_threshold_show_nothing() {
    let late = AttemptCountRule { clue1_attempts: 4, clue2_attempts: 6, clue3_attempts: 9 };
    let mut store = store_with_known(0);
    for _ in 0..3 {
        let view = guess_secret_handler(&mut store, &late, KNOWN_TEXT, guess("errado", "ana")).unwrap();
        assert_eq!(view.clue1, None);
        assert_eq!(view.clue2, None);
        assert_eq!(view.clue3, None);
    }
    let view = guess_secret_handler(&mut store, &late, KNOWN_TEXT, guess("errado", "ana")).unwrap();
    assert_eq!(view.clue1, Some("Pés".to_string()));
    assert_eq!(view.clue2, None);
    assert_eq!(view.clue3, None);
}

#[test]
fn a_win_freezes_the_attempt_count() {
    let mut store = store_with_known(0);
    for _ in 0..2 {
        guess_secret_handler(&mut store, &rule(), KNOWN_TEXT, guess("errado", "ana")).unwrap();
    }
    guess_secret_handler(&mut store, &rule(), KNOWN_TEXT, guess("futebol", "ana")).unwrap();
    for _ in 0..3 {
        assert_eq!(
            guess_secret_handler(&mut store, &rule(), KNOWN_TEXT, guess("errado", "bia")),
            Err(Failure::AlreadyGuessed)
        );
    }
    let entity = store.get_secret_entity(SecretId(KNOWN)).unwrap();
    assert_eq!(entity.guess_attempts, 2);
    assert_eq!(entity.guesser, Some("ana".to_string()));
    assert_eq!(entity.guessed_secret, Some("futebol".to_string()));
}

#[test]
fn a_guess_matches_whatever_its_case() {
    for text in ["futebol", "Futebol", "FUTEBOL", "fuTEbol"] {
        let mut store = store_with_known(0);
        let view = guess_secret_handler(&mut store, &rule(), KNOWN_TEXT, guess(text, "ana")).unwrap();
        assert!(view.guessed);
        assert_eq!(view.secret, Some("futebol".to_string()));
        assert_eq!(view.guesser, Some("ana".to_string()));
    }
}

#[test]
fn the_identifier_is_read_in_every_form_of_a_uuid() {
    for text in [
        KNOWN_TEXT,
        "550e8400e29b41d4a716446655440000",
        "550E8400-E29B-41D4-A716-446655440000",
        "urn:uuid:550e8400-e29b-41d4-a716-446655440000",
        "{550e8400-e29b-41d4-a716-446655440000}",
    ] {
        assert_eq!(secret_id(text), Ok(SecretId(KNOWN)));
        let mut store = store_with_known(1);
        let view = get_secret_handler(&mut store, &rule(), text).unwrap();
        assert_eq!(view.id, SecretId(KNOWN));
        assert_eq!(view.clue1, Some("Pés".to_string()));
    }
}

#[test]
fn a_text_that_is_no_uuid_is_an_invalid_identifier() {
    for text in ["", "not-a-uuid", "550e8400-e29b-41d4-a716", "550e8400-e29b-41d4-a716-44665544000g"] {
        assert_eq!(secret_id(text), Err(Failure::InvalidId));
        let mut store = store_with_known(0);
        assert_eq!(get_secret_handler(&mut store, &rule(), text), Err(Failure::InvalidId));
        assert_eq!(
            guess_secret_handler(&mut store, &rule(), text, guess("futebol", "ana")),
            Err(Failure::InvalidId)
        );
        assert_eq!(store.get_secret_entity(SecretId(KNOWN)), Ok(known(0)));
    }
}

#[test]
fn an_unknown_identifier_is_not_found() {
    let mut store = store_with_known(0);
    let other = "00000000-0000-4000-8000-000000000001";
    assert_eq!(get_secret_handler(&mut store, &rule(), other), Err(Failure::NotFound));
    assert_eq!(
        guess_secret_handler(&mut store, &rule(), other, guess("futebol", "ana")),
        Err(Failure::NotFound)
    );
}

#[test]
fn the_listing_shows_the_unsolved_secrets_only() {
    let mut store = SecretStore::new();
    let first = create_secret_handler(&mut store, &rule(), futebol()).unwrap();
    let second = create_secret_handler(&mut store, &rule(), futebol()).unwrap();
    let third = create_secret_handler(&mut store, &rule(), futebol()).unwrap();
    guess_secret_handler(&mut store, &rule(), &hyphenated(second.id), guess("futebol", "ana")).unwrap();
    let shown = guess_secret_handler(&mut store, &rule(), &hyphenated(third.id), guess("errado", "ana")).unwrap();
    let all = get_all_secrets_handler(&mut store, &rule()).unwrap();
    assert!(all.secrets.iter().all(|secret| !secret.guessed && secret.guesser.is_none()));
    assert_eq!(all, AllSecretsResponse { secrets: vec![first, shown] });
}

#[test]
fn the_listing_of_an_empty_store_is_empty() {
    let mut store = SecretStore::new();
    assert_eq!(
        get_all_secrets_handler(&mut store, &rule()),
        Ok(AllSecretsResponse { secrets: Vec::new() })
    );
}

#[test]
fn responses_show_the_view_of_the_entity() {
    let view = Secret {
        id: SecretId(KNOWN),
        guessed: false,
        clue1: Some("Pés".to_string()),
        clue2: Some("22".to_string()),
        clue3: None,
        guesser: None,
        secret: None,
    };
    assert_eq!(create_response(rule(), Ok(known(2))), Ok(view.clone()));
    assert_eq!(get_response(rule(), Ok(known(2))), Ok(view.clone()));
    assert_eq!(guess_response(rule(), Ok(known(2))), Ok(view.clone()));
    assert_eq!(
        list_response(rule(), Ok(vec![known(2), known(0)])),
        Ok(AllSecretsResponse {
            secrets: vec![
                view,
                Secret {
                    id: SecretId(KNOWN),
                    guessed: false,
                    clue1: None,
                    clue2: None,
                    clue3: None,
                    guesser: None,
                    secret: None,
                },
            ],
        })
    );
}

#[test]
fn every_failure_of_creation_is_one_failure() {
    for error in [AppError::MongoDbError, AppError::NotFound, AppError::AlreadyGuessed] {
        assert_eq!(create_response(rule(), Err(error)), Err(Failure::CreateFailed));
    }
}

#[test]
fn failures_of_a_fetch() {
    assert_eq!(get_response(rule(), Err(AppError::NotFound)), Err(Failure::NotFound));
    assert_eq!(get_response(rule(), Err(AppError::MongoDbError)), Err(Failure::Internal));
    assert_eq!(get_response(rule(), Err(AppError::AlreadyGuessed)), Err(Failure::Internal));
}

#[test]
fn failures_of_a_guess() {
    assert_eq!(guess_response(rule(), Err(AppError::NotFound)), Err(Failure::NotFound));
    assert_eq!(guess_response(rule(), Err(AppError::AlreadyGuessed)), Err(Failure::AlreadyGuessed));
    assert_eq!(guess_response(rule(), Err(AppError::MongoDbError)), Err(Failure::GuessFailed));
}

#[test]
fn failures_of_a_listing() {
    for error in [AppError::MongoDbError, AppError::NotFound, AppError::AlreadyGuessed] {
        assert_eq!(list_response(rule(), Err(error)), Err(Failure::Internal));
    }
}

#[test]
fn status_codes_of_the_failures() {
    assert_eq!(Failure::InvalidId.status(), 400);
    assert_eq!(Failure::NotFound.status(), 404);
    assert_eq!(Failure::AlreadyGuessed.status(), 400);
    assert_eq!(Failure::CreateFailed.status(), 500);
    assert_eq!(Failure::Internal.status(), 500);
    assert_eq!(Failure::GuessFailed.status(), 500);
}

#[test]
fn messages_of_the_failures() {
    assert_eq!(Failure::InvalidId.message(), "Invalid Secret ID.");
    assert_eq!(Failure::NotFound.message(), "Secret not found.");
    assert_eq!(Failure::AlreadyGuessed.message(), "Secret already guessed.");
    assert_eq!(
        Failure::CreateFailed.message(),
        "Failed to create secret. Please try again later."
    );
    assert_eq!(Failure::Internal.message(), "Internal Server Error.");
    assert_eq!(Failure::GuessFailed.message(), "Internal Server Error");
}
