//! What holds of the game, proved from the rules of the engine and the
//! behaviour of a store that does not fail.
//!
//! Most laws speak of one operation carried through while nobody else uses
//! the store; the last ones speak of requests from any number of callers.
use crate::digest::{case_variants, digest_of, lowercase_of};
use crate::engine::{
    advanced, ended_with, failed_with, fetch, guessing, inserting, listing, next_attempts, run,
    OutcomeView, StepView,
};
use crate::error::AppError;
use crate::memory::guess_made;
use crate::secret::{projection, AttemptCountRule, SecretEntity, SecretId};
use crate::store::{
    all_consistent, distinct_ids, holds, is_unsolved, lemma_held, lemma_occurs, lemma_replaced,
    lemma_unsolved_twice, lookup, occurs_at, open_for_change, slot_of, store_apply, unsolved,
    with_attempts, with_win, StoreRequest,
};
use vstd::prelude::*;

verus! {

/// The store holds an unsolved secret under the identifier and the guess,
/// in lowercase, has its digest.
pub open spec fn hits(store: Seq<SecretEntity>, id: SecretId, guess: String) -> bool {
    lookup(store, id) matches Some(entity) && entity.guesser is None && digest_of(guess@)
        == entity.secret@
}

/// The store holds an unsolved secret under the identifier and the guess,
/// in lowercase, does not have its digest.
pub open spec fn misses(store: Seq<SecretEntity>, id: SecretId, guess: String) -> bool {
    lookup(store, id) matches Some(entity) && entity.guesser is None && digest_of(guess@)
        != entity.secret@
}

/// The store holds a solved secret under the identifier.
pub open spec fn solved_in(store: Seq<SecretEntity>, id: SecretId) -> bool {
    lookup(store, id) matches Some(entity) && entity.guesser is Some
}

/// Creating a secret under an identifier that the store does not hold
/// keeps the entity as it was built, and fetching it right afterwards hands
/// out that same entity.
pub proof fn law_create_then_fetch(store: Seq<SecretEntity>, entity: SecretEntity)
    requires
        !holds(store, entity.id),
    ensures
        run(store, inserting(entity)) == (store.push(entity), ended_with(entity)),
        run(store.push(entity), fetch(entity.id)) == (store.push(entity), ended_with(entity)),
        lookup(store.push(entity), entity.id) == Some(entity),
{
    reveal_with_fuel(run, 3);
    assert forall|j: int| 0 <= j < store.len() implies (#[trigger] store[j]).id != entity.id by {
        if store[j].id == entity.id {
            lemma_held(store, entity.id, j);
        }
    }
    lemma_occurs(store.push(entity), entity.id, store.len() as int);
}

/// Creating a secret under an identifier that is taken fails and changes
/// nothing.
pub proof fn law_taken_identifier_is_refused(store: Seq<SecretEntity>, entity: SecretEntity)
    requires
        holds(store, entity.id),
    ensures
        run(store, inserting(entity)) == (store, failed_with(AppError::MongoDbError)),
{
    reveal_with_fuel(run, 2);
}

/// Fetching a secret hands out what the store holds under the identifier,
/// fails with `NotFound` if it holds nothing, and changes nothing.
pub proof fn law_fetch_reads_the_store(store: Seq<SecretEntity>, id: SecretId)
    ensures
        run(store, fetch(id)).0 == store,
        lookup(store, id) matches Some(entity) ==> run(store, fetch(id)).1 == ended_with(entity),
        lookup(store, id) is None ==> run(store, fetch(id)).1 == failed_with(AppError::NotFound),
{
    reveal_with_fuel(run, 2);
}

/// A secret that was just created and is fetched at once shows as not
/// guessed, with no winner and no answer, and with every clue hidden as
/// long as every clue takes at least one wrong guess.
pub proof fn law_new_secret_is_hidden(
    store: Seq<SecretEntity>,
    entity: SecretEntity,
    rule: AttemptCountRule,
)
    requires
        !holds(store, entity.id),
        entity.unplayed(),
        rule.clue1_attempts > 0,
        rule.clue2_attempts > 0,
        rule.clue3_attempts > 0,
    ensures
        ({
            let created = run(store, inserting(entity)).0;
            let fetched = run(created, fetch(entity.id)).1;
            &&& fetched matches OutcomeView::Secret { entity: found }
            &&& !projection(rule, found).guessed
            &&& projection(rule, found).clue1 is None
            &&& projection(rule, found).clue2 is None
            &&& projection(rule, found).clue3 is None
            &&& projection(rule, found).guesser is None
            &&& projection(rule, found).secret is None
        }),
{
    law_create_then_fetch(store, entity);
}

/// A guess at a secret that the store does not hold fails with `NotFound`
/// and changes nothing.
pub proof fn law_unknown_secret_is_not_found(
    store: Seq<SecretEntity>,
    id: SecretId,
    guess: String,
    username: String,
)
    requires
        !holds(store, id),
    ensures
        run(store, guessing(id, guess, username)) == (store, failed_with(AppError::NotFound)),
{
    reveal_with_fuel(run, 2);
}

/// A wrong guess at an unsolved secret raises its attempt count by one, up
/// to the largest count, and touches nothing else; the outcome is the entity
/// as the store holds it afterwards.
pub proof fn law_wrong_guess_counts(
    store: Seq<SecretEntity>,
    id: SecretId,
    guess: String,
    username: String,
)
    requires
        misses(store, id, guess),
    ensures
        ({
            let entity = lookup(store, id).unwrap();
            let counted = with_attempts(entity, next_attempts(entity.guess_attempts));
            let after = store.update(slot_of(store, id), counted);
            &&& run(store, guessing(id, guess, username)) == (after, ended_with(counted))
            &&& lookup(after, id) == Some(counted)
            &&& counted.guess_attempts >= entity.guess_attempts
            &&& counted.guesser is None
        }),
{
    reveal_with_fuel(run, 4);
    let entity = lookup(store, id).unwrap();
    let counted = with_attempts(entity, next_attempts(entity.guess_attempts));
    lemma_replaced(store, id, counted, id);
}

/// A correct guess at an unsolved secret records the winner and the guess
/// as the revealed answer, together, and leaves the attempt count where it
/// was; the outcome is the entity as the store holds it afterwards.
pub proof fn law_correct_guess_wins(
    store: Seq<SecretEntity>,
    id: SecretId,
    guess: String,
    username: String,
)
    requires
        hits(store, id, guess),
    ensures
        ({
            let entity = lookup(store, id).unwrap();
            let solved = with_win(entity, username, guess);
            let after = store.update(slot_of(store, id), solved);
            &&& run(store, guessing(id, guess, username)) == (after, ended_with(solved))
            &&& lookup(after, id) == Some(solved)
            &&& solved.guess_attempts == entity.guess_attempts
            &&& solved.guesser == Some(username)
            &&& solved.guessed_secret == Some(guess)
        }),
{
    reveal_with_fuel(run, 4);
    let entity = lookup(store, id).unwrap();
    let solved = with_win(entity, username, guess);
    lemma_replaced(store, id, solved, id);
}

/// After a correct guess the secret shows as guessed, with the player as
/// the winner and the guess as the answer, and its attempt count is the one
/// it had before the guess.
pub proof fn law_win_is_shown(
    store: Seq<SecretEntity>,
    id: SecretId,
    guess: String,
    username: String,
    rule: AttemptCountRule,
)
    requires
        hits(store, id, guess),
    ensures
        ({
            let (after, outcome) = run(store, guessing(id, guess, username));
            &&& outcome matches OutcomeView::Secret { entity: solved }
            &&& lookup(after, id) == Some(solved)
            &&& solved.guess_attempts == lookup(store, id).unwrap().guess_attempts
            &&& projection(rule, solved).guessed
            &&& projection(rule, solved).guesser == Some(username)
            &&& projection(rule, solved).secret == Some(guess)
        }),
{
    law_correct_guess_wins(store, id, guess, username);
}

/// Any guess at a solved secret, right or wrong, fails with
/// `AlreadyGuessed` and changes nothing in the store.
pub proof fn law_solved_secret_refuses_guesses(
    store: Seq<SecretEntity>,
    id: SecretId,
    guess: String,
    username: String,
)
    requires
        solved_in(store, id),
    ensures
        run(store, guessing(id, guess, username)) == (
            store,
            failed_with(AppError::AlreadyGuessed),
        ),
{
    reveal_with_fuel(run, 2);
}

/// The store after a run of guesses at one secret, each a pair of the guess
/// in lowercase and the name of the player, first to last.
pub open spec fn after_guesses(
    store: Seq<SecretEntity>,
    id: SecretId,
    guesses: Seq<(String, String)>,
) -> Seq<SecretEntity>
    decreases guesses.len(),
{
    if guesses.len() == 0 {
        store
    } else {
        run(
            after_guesses(store, id, guesses.drop_last()),
            guessing(id, guesses.last().0, guesses.last().1),
        ).0
    }
}

/// The attempt count after a number of wrong guesses.
pub open spec fn count_after(attempts: u16, wrong: nat) -> u16 {
    if attempts + wrong <= u16::MAX {
        (attempts + wrong) as u16
    } else {
        u16::MAX
    }
}

/// Every guess of a run is wrong for an entity.
pub open spec fn all_wrong(entity: SecretEntity, guesses: Seq<(String, String)>) -> bool {
    forall|i: int|
        0 <= i < guesses.len() ==> digest_of((#[trigger] guesses[i]).0@) != entity.secret@
}

/// Wrong guesses add up: after `k` of them at an unsolved secret its
/// attempt count is `k` higher, up to the largest count, and nothing else
/// about it has changed.
pub proof fn law_wrong_guesses_add_up(
    store: Seq<SecretEntity>,
    id: SecretId,
    guesses: Seq<(String, String)>,
)
    requires
        lookup(store, id) matches Some(entity) && entity.guesser is None && all_wrong(
            entity,
            guesses,
        ),
    ensures
        ({
            let entity = lookup(store, id).unwrap();
            lookup(after_guesses(store, id, guesses), id) == Some(
                with_attempts(entity, count_after(entity.guess_attempts, guesses.len())),
            )
        }),
    decreases guesses.len(),
{
    let entity = lookup(store, id).unwrap();
    if guesses.len() == 0 {
        assert(with_attempts(entity, entity.guess_attempts) == entity);
    } else {
        let earlier = guesses.drop_last();
        assert(all_wrong(entity, earlier)) by {
            assert forall|i: int| 0 <= i < earlier.len() implies digest_of(
                (#[trigger] earlier[i]).0@,
            ) != entity.secret@ by {
                assert(earlier[i] == guesses[i]);
            }
        }
        law_wrong_guesses_add_up(store, id, earlier);
        assert(guesses[guesses.len() - 1] == guesses.last());
        law_wrong_guess_counts(
            after_guesses(store, id, earlier),
            id,
            guesses.last().0,
            guesses.last().1,
        );
    }
}

/// Clues unlock in turn. After `k` wrong guesses at a secret that nobody
/// had guessed at, the first clue is hidden while `k` is below its
/// threshold; when `k` is exactly that threshold the first clue is shown
/// and, with thresholds that strictly increase, the other two are not.
pub proof fn law_clues_unlock_in_turn(
    store: Seq<SecretEntity>,
    id: SecretId,
    guesses: Seq<(String, String)>,
    rule: AttemptCountRule,
)
    requires
        lookup(store, id) matches Some(entity) && entity.unplayed() && all_wrong(entity, guesses),
        rule.strictly_increasing(),
    ensures
        ({
            let entity = lookup(store, id).unwrap();
            let shown = projection(rule, lookup(after_guesses(store, id, guesses), id).unwrap());
            &&& lookup(after_guesses(store, id, guesses), id) is Some
            &&& !shown.guessed
            &&& guesses.len() < rule.clue1_attempts ==> shown.clue1 is None
            &&& guesses.len() == rule.clue1_attempts ==> {
                &&& shown.clue1 == Some(entity.clue1)
                &&& shown.clue2 is None
                &&& shown.clue3 is None
            }
        }),
{
    law_wrong_guesses_add_up(store, id, guesses);
}

/// A guess never lowers an attempt count and never removes an entity:
/// whatever the store held under an identifier before, it holds an entity
/// with at least as many attempts afterwards.
pub proof fn law_guess_never_lowers_a_count(
    store: Seq<SecretEntity>,
    id: SecretId,
    guess: String,
    username: String,
    other: SecretId,
)
    requires
        lookup(store, other) is Some,
    ensures
        ({
            let after = run(store, guessing(id, guess, username)).0;
            &&& lookup(after, other) is Some
            &&& lookup(after, other).unwrap().guess_attempts >= lookup(
                store,
                other,
            ).unwrap().guess_attempts
        }),
{
    if !holds(store, id) {
        law_unknown_secret_is_not_found(store, id, guess, username);
    } else if solved_in(store, id) {
        law_solved_secret_refuses_guesses(store, id, guess, username);
    } else if hits(store, id, guess) {
        law_correct_guess_wins(store, id, guess, username);
        lemma_replaced(store, id, with_win(lookup(store, id).unwrap(), username, guess), other);
    } else {
        let entity = lookup(store, id).unwrap();
        law_wrong_guess_counts(store, id, guess, username);
        lemma_replaced(
            store,
            id,
            with_attempts(entity, next_attempts(entity.guess_attempts)),
            other,
        );
    }
}

/// The digest does not tell case variants apart once they are brought to
/// lowercase: two texts with the same lowercase form have the same digest of
/// that form.
pub proof fn law_digest_ignores_case(x: Seq<char>, y: Seq<char>)
    requires
        case_variants(x, y),
    ensures
        digest_of(lowercase_of(x)) == digest_of(lowercase_of(y)),
{
}

/// Guesses match whatever their case: what a guess does to a store and
/// what it returns, any case variant of it does and returns as well.
pub proof fn law_case_variants_are_judged_alike(
    before: Seq<SecretEntity>,
    id: SecretId,
    x: Seq<char>,
    y: Seq<char>,
    username: String,
    after: Seq<SecretEntity>,
    result: Result<SecretEntity, AppError>,
)
    requires
        case_variants(x, y),
        guess_made(before, id, x, username, after, result),
    ensures
        guess_made(before, id, y, username, after, result),
{
}

/// Listing hands out exactly the unsolved entities of the store, in their
/// order, and changes nothing.
pub proof fn law_listing_reads_the_unsolved(store: Seq<SecretEntity>)
    ensures
        run(store, listing()) == (store, OutcomeView::Secrets { entities: unsolved(store) }),
{
    reveal_with_fuel(run, 2);
    lemma_unsolved_twice(store);
}

/// The list of unsolved secrets never holds a secret that has a winner, and
/// leaves out no secret that has none.
pub proof fn law_listing_holds_no_solved_secret(store: Seq<SecretEntity>, rule: AttemptCountRule)
    ensures
        forall|i: int|
            0 <= i < unsolved(store).len() ==> {
                &&& (#[trigger] unsolved(store)[i]).guesser is None
                &&& !projection(rule, unsolved(store)[i]).guessed
            },
        forall|j: int|
            0 <= j < store.len() && (#[trigger] store[j]).guesser is None ==> unsolved(
                store,
            ).contains(store[j]),
{
    assert forall|i: int| 0 <= i < unsolved(store).len() implies {
        &&& (#[trigger] unsolved(store)[i]).guesser is None
        &&& !projection(rule, unsolved(store)[i]).guessed
    } by {
        store.lemma_filter_pred(is_unsolved(), i);
    }
    assert forall|j: int|
        0 <= j < store.len() && (#[trigger] store[j]).guesser is None implies unsolved(
        store,
    ).contains(store[j]) by {
        store.lemma_filter_contains(is_unsolved(), j);
    }
}

/// Whatever is asked of the store, a solved entity stays exactly as it is:
/// its winner, its revealed answer and its attempt count never change again.
pub proof fn law_solved_secret_is_final(
    store: Seq<SecretEntity>,
    request: StoreRequest,
    id: SecretId,
)
    requires
        solved_in(store, id),
    ensures
        lookup(store_apply(store, request).0, id) == lookup(store, id),
{
    let i = slot_of(store, id);
    assert(occurs_at(store, id, i));
    match request {
        StoreRequest::Insert { entity } => {
            if !holds(store, entity.id) {
                lemma_occurs(store.push(entity), id, i);
            }
        },
        StoreRequest::RecordAttempt { id: target, attempts } => {
            if open_for_change(store, target) {
                let changed = with_attempts(store[slot_of(store, target)], attempts);
                lemma_replaced(store, target, changed, id);
            }
        },
        StoreRequest::RecordWin { id: target, winner, revealed_answer } => {
            if open_for_change(store, target) {
                let changed = with_win(store[slot_of(store, target)], winner, revealed_answer);
                lemma_replaced(store, target, changed, id);
            }
        },
        _ => {},
    }
}

/// The contents of a store after a run of requests, first to last, from
/// whichever callers and in whichever order.
pub open spec fn apply_all(store: Seq<SecretEntity>, requests: Seq<StoreRequest>) -> Seq<
    SecretEntity,
>
    decreases requests.len(),
{
    if requests.len() == 0 {
        store
    } else {
        store_apply(apply_all(store, requests.drop_last()), requests.last()).0
    }
}

/// A win is recorded once. However the requests of any number of callers
/// follow one another, a solved entity comes out of them as it went in:
/// a later win does not replace the winner, and no attempt is counted.
pub proof fn law_win_is_recorded_once(
    store: Seq<SecretEntity>,
    requests: Seq<StoreRequest>,
    id: SecretId,
)
    requires
        solved_in(store, id),
    ensures
        lookup(apply_all(store, requests), id) == lookup(store, id),
    decreases requests.len(),
{
    if requests.len() > 0 {
        law_win_is_recorded_once(store, requests.drop_last(), id);
        law_solved_secret_is_final(apply_all(store, requests.drop_last()), requests.last(), id);
    }
}

/// Whatever is asked of the store, no two entities come to share an
/// identifier, and every entity keeps its winner and its revealed answer
/// together or not at all, provided that an inserted entity does.
pub proof fn law_store_stays_sound(store: Seq<SecretEntity>, request: StoreRequest)
    requires
        distinct_ids(store),
        all_consistent(store),
        request matches StoreRequest::Insert { entity } ==> entity.consistent(),
    ensures
        distinct_ids(store_apply(store, request).0),
        all_consistent(store_apply(store, request).0),
{
    match request {
        StoreRequest::Insert { entity } => {
            if !holds(store, entity.id) {
                assert forall|j: int| 0 <= j < store.len() implies (#[trigger] store[j]).id
                    != entity.id by {
                    if store[j].id == entity.id {
                        lemma_held(store, entity.id, j);
                    }
                }
            }
        },
        _ => {},
    }
}

/// A step asks the store to keep an entity only if the entity has its
/// winner and its revealed answer together or not at all.
pub open spec fn inserts_consistently(step: StepView) -> bool {
    step matches StepView::Call { request: StoreRequest::Insert { entity }, .. }
        ==> entity.consistent()
}

/// Carrying an operation through keeps the store sound: identifiers stay
/// distinct, and every entity keeps its winner and its revealed answer
/// together or not at all.
pub proof fn law_operations_keep_the_store_sound(store: Seq<SecretEntity>, step: StepView)
    requires
        distinct_ids(store),
        all_consistent(store),
        inserts_consistently(step),
    ensures
        distinct_ids(run(store, step).0),
        all_consistent(run(store, step).0),
    decreases step.rank(),
{
    match step {
        StepView::Finish { .. } => {},
        StepView::Call { session, request } => {
            law_store_stays_sound(store, request);
            let (next, reply) = store_apply(store, request);
            law_operations_keep_the_store_sound(next, advanced(session, reply));
        },
    }
}

} // verus!
