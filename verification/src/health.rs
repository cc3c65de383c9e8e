//! Liveness answers: a plain health probe, an echo, and the report on the
//! secret store.
use crate::memory::SecretStore;
use vstd::prelude::*;

verus! {

/// The answer to a health probe.
#[derive(Debug, PartialEq, Eq)]
pub struct HealthResponse {
    pub status: String,
}

/// A text to send back.
#[derive(Debug, PartialEq, Eq)]
pub struct EchoRequest {
    pub text: String,
}

/// The text that was sent.
#[derive(Debug, PartialEq, Eq)]
pub struct EchoResponse {
    pub response: String,
}

/// The report on the secret store: `db` tells whether it is alive, and
/// `status` says the same in a word.
#[derive(Debug, PartialEq, Eq)]
pub struct StoreHealth {
    pub status: String,
    pub db: bool,
}

/// The word for the state of the store: `pass` if it is alive, `fail` if
/// not.
pub open spec fn status_word(db_status: bool) -> Seq<char> {
    if db_status {
        "pass"@
    } else {
        "fail"@
    }
}

/// Answers a health probe: the service is up.
pub fn health_handler() -> (response: HealthResponse)
    ensures
        response.status@ == "ok"@,
{
    HealthResponse { status: "ok".to_owned() }
}

/// Answers with the text of the request.
pub fn echo_handler(text: EchoRequest) -> (response: EchoResponse)
    ensures
        response.response == text.text,
{
    EchoResponse { response: text.text }
}

/// Reports on the store, given whether it is alive.
pub fn store_health(db_status: bool) -> (health: StoreHealth)
    ensures
        health.db == db_status,
        health.status@ == status_word(db_status),
{
    let status = if db_status {
        "pass"
    } else {
        "fail"
    };
    StoreHealth { status: status.to_owned(), db: db_status }
}

/// Checks the store and reports on it.
pub fn full_health_handler(storage: &mut SecretStore) -> (health: StoreHealth)
    ensures
        final(storage)@ == old(storage)@,
        health.db,
        health.status@ == "pass"@,
{
    let db_status = storage.health_check();
    store_health(db_status)
}

} // verus!
