//! What one reply of the token endpoint means for the polling loop.

use vstd::prelude::*;
use crate::json::{json_text_member, text_member, text_of};

verus! {

/// Seconds by which a `slow_down` reply raises the polling interval.
pub const SLOW_DOWN_STEP: u32 = 5;

/// The decoded meaning of one reply of the token endpoint.
#[derive(Debug, Clone, PartialEq, Eq)]
pub enum TokenOutcome {
    /// The user approved; the server issued the bearer token.
    Granted { access_token: String },
    /// The user has not finished yet.
    Pending,
    /// The server asks for a longer interval between requests.
    SlowDown { new_interval: u32 },
    /// The server refused for good, with its reason.
    Denied { reason: String },
    /// The server says the device code has expired.
    Expired,
}

/// A [`TokenOutcome`] with its strings as sequences of characters.
pub enum OutcomeModel {
    Granted { access_token: Seq<char> },
    Pending,
    SlowDown { new_interval: u32 },
    Denied { reason: Seq<char> },
    Expired,
}

impl View for TokenOutcome {
    type V = OutcomeModel;

    open spec fn view(&self) -> OutcomeModel {
        match *self {
            TokenOutcome::Granted { access_token } => OutcomeModel::Granted {
                access_token: access_token@,
            },
            TokenOutcome::Pending => OutcomeModel::Pending,
            TokenOutcome::SlowDown { new_interval } => OutcomeModel::SlowDown { new_interval },
            TokenOutcome::Denied { reason } => OutcomeModel::Denied { reason: reason@ },
            TokenOutcome::Expired => OutcomeModel::Expired,
        }
    }
}

/// The model of an optional outcome.
pub open spec fn outcome_model(outcome: Option<TokenOutcome>) -> Option<OutcomeModel> {
    match outcome {
        Some(o) => Some(o@),
        None => None,
    }
}

/// The interval that a `slow_down` reply asks for: the current one raised
/// by [`SLOW_DOWN_STEP`], held at the largest `u32`.
pub open spec fn slowed(current_interval: u32) -> u32 {
    if current_interval > u32::MAX - SLOW_DOWN_STEP {
        u32::MAX
    } else {
        (current_interval + SLOW_DOWN_STEP) as u32
    }
}

/// The outcome that the members of a token reply stand for.
///
/// An `access_token` is a grant, whatever else the reply holds. Without it
/// the `error` code decides: `authorization_pending`, `slow_down` and
/// `expired_token` have their own outcomes, every other code is a denial
/// whose reason is the server's description, or the code where it gave
/// none. A reply with neither member is unreadable: `None`.
pub open spec fn outcome_of(
    access_token: Option<Seq<char>>,
    error: Option<Seq<char>>,
    description: Option<Seq<char>>,
    current_interval: u32,
) -> Option<OutcomeModel> {
    match access_token {
        Some(token) => Some(OutcomeModel::Granted { access_token: token }),
        None => match error {
            None => None,
            Some(code) => if code == "authorization_pending"@ {
                Some(OutcomeModel::Pending)
            } else if code == "slow_down"@ {
                Some(OutcomeModel::SlowDown { new_interval: slowed(current_interval) })
            } else if code == "expired_token"@ {
                Some(OutcomeModel::Expired)
            } else {
                Some(
                    OutcomeModel::Denied {
                        reason: match description {
                            Some(text) => text,
                            None => code,
                        },
                    },
                )
            },
        },
    }
}

/// The outcome that the JSON document `body` stands for, read through
/// `serde_json`.
pub open spec fn outcome_of_body(body: Seq<char>, current_interval: u32) -> Option<OutcomeModel> {
    outcome_of(
        json_text_member(body, "access_token"@),
        json_text_member(body, "error"@),
        json_text_member(body, "error_description"@),
        current_interval,
    )
}

/// Turns the members of a token reply into an outcome; `None` where the
/// reply holds neither a token nor an error code.
pub fn classify(
    access_token: Option<String>,
    error: Option<String>,
    description: Option<String>,
    current_interval: u32,
) -> (r: Option<TokenOutcome>)
    ensures
        outcome_model(r) == outcome_of(
            text_of(access_token),
            text_of(error),
            text_of(description),
            current_interval,
        ),
        access_token.is_some() ==> r.is_some() && r.unwrap()@ == (OutcomeModel::Granted {
            access_token: access_token.unwrap()@,
        }),
{
    match access_token {
        Some(token) => Some(TokenOutcome::Granted { access_token: token }),
        None => match error {
            None => None,
            Some(code) => {
                let pending: String = "authorization_pending".to_owned();
                let slow_down: String = "slow_down".to_owned();
                let expired: String = "expired_token".to_owned();
                if code == pending {
                    Some(TokenOutcome::Pending)
                } else if code == slow_down {
                    let new_interval: u32 = if current_interval > u32::MAX - SLOW_DOWN_STEP {
                        u32::MAX
                    } else {
                        current_interval + SLOW_DOWN_STEP
                    };
                    Some(TokenOutcome::SlowDown { new_interval })
                } else if code == expired {
                    Some(TokenOutcome::Expired)
                } else {
                    match description {
                        Some(text) => Some(TokenOutcome::Denied { reason: text }),
                        None => Some(TokenOutcome::Denied { reason: code }),
                    }
                }
            },
        },
    }
}

/// Decodes the body of a token reply. `current_interval` is the interval
/// in force when the request was sent.
pub fn decode_token_response(body: &str, current_interval: u32) -> (r: Option<TokenOutcome>)
    ensures
        outcome_model(r) == outcome_of_body(body@, current_interval),
{
    let access_token = text_member(body, "access_token");
    let error = text_member(body, "error");
    let description = text_member(body, "error_description");
    classify(access_token, error, description, current_interval)
}

/// A reply that carries an access token decodes to a grant of exactly that
/// token, whatever its other members say.
pub proof fn granted_token_is_unaltered(
    token: Seq<char>,
    error: Option<Seq<char>>,
    description: Option<Seq<char>>,
    current_interval: u32,
)
    ensures
        outcome_of(Some(token), error, description, current_interval) == Some(
            OutcomeModel::Granted { access_token: token },
        ),
{
}

/// A body in which `serde_json` finds the string `token` under
/// `access_token` decodes to a grant of exactly that token.
pub proof fn granted_body_yields_its_token(body: Seq<char>, token: Seq<char>, current_interval: u32)
    requires
        json_text_member(body, "access_token"@) == Some(token),
    ensures
        outcome_of_body(body, current_interval) == Some(
            OutcomeModel::Granted { access_token: token },
        ),
{
}

} // verus!
