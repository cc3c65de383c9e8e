//! A guessing game of secret words.
//!
//! A secret is created with a hidden answer and three clues. Players submit
//! guesses; every wrong guess raises an attempt counter, which unlocks the
//! clues one by one, and the first correct guess records the winner and the
//! answer for good.
//!
//! The library holds the rules and never talks to a database itself. Each
//! operation is a small state machine ([`engine`]) that says which request
//! to send to the secret store next and what to do with the reply; the
//! caller performs the requests against whatever backend it has. What a
//! store is asked and what a request does to its contents is laid down in
//! [`store`], and [`memory`] holds a store that keeps to it, on which the
//! operations can be carried through as they are. [`handlers`] has the
//! operations as a web service offers them, and [`laws`] what holds of the
//! game as a whole.
pub mod config;
pub mod digest;
pub mod engine;
pub mod error;
pub mod handlers;
pub mod health;
pub mod laws;
pub mod memory;
pub mod secret;
pub mod store;
