//! OAuth 2.0 device authorization grant for a command-line client.
//!
//! The library holds the decisions of the flow: how a reply of the
//! device-code endpoint becomes a grant, how a reply of the token endpoint
//! becomes an outcome, and the polling state machine that says when to
//! wait, when to send the next exchange request and when to stop.
//! Sending requests and sleeping are left to the caller.

pub mod json;
pub mod outcome;
pub mod grant;
pub mod poller;
