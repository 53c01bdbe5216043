//! Bounded-retry connection bootstrap for a remote node's RPC endpoint.
//!
//! A bootstrap tries to open a connection to an endpoint. When an attempt
//! fails it waits for a fixed delay and tries again, whatever the cause of
//! the failure. It ends with the handle of the first connection made or,
//! once its budget of attempts is spent, with one terminal failure that
//! names the endpoint and the budget.
//!
//! The crate holds the decisions of the bootstrap and leaves the network,
//! the clock and the log to its caller:
//!
//! - [`config`] holds the budget and the delay;
//! - [`machine`] is the bootstrap as a state machine: it takes the outcome
//!   of one attempt and says which effects are due next (tell the observer,
//!   connect, sleep, return);
//! - [`error`] holds the terminal failure and its text;
//! - [`run`] runs the machine against a list of outcomes;
//! - [`trace`] says what can be read off the effects of a run;
//! - [`laws`] states what holds of every run.

pub mod config;
pub mod error;
pub mod laws;
pub mod machine;
pub mod run;
pub mod trace;
