//! The device-code request and the grant that answers it.

use vstd::prelude::*;
use crate::json::{count_member, json_count_member, json_text_member, text_member, text_of};

verus! {

/// What the device-code endpoint issues for one authorization attempt.
#[derive(Debug, Clone, PartialEq, Eq)]
pub struct DeviceCodeGrant {
    /// The secret that is later exchanged for a token.
    pub device_code: String,
    /// The short code that the user types in.
    pub user_code: String,
    /// Where the user goes to approve.
    pub verification_uri: String,
    /// The same address with the user code filled in.
    pub verification_uri_complete: String,
    /// Seconds for which the device code is good.
    pub expires_in: u32,
    /// Least number of seconds between two exchange requests.
    pub interval: u32,
}

/// A [`DeviceCodeGrant`] with its strings as sequences of characters.
pub struct GrantModel {
    pub device_code: Seq<char>,
    pub user_code: Seq<char>,
    pub verification_uri: Seq<char>,
    pub verification_uri_complete: Seq<char>,
    pub expires_in: u32,
    pub interval: u32,
}

impl View for DeviceCodeGrant {
    type V = GrantModel;

    open spec fn view(&self) -> GrantModel {
        GrantModel {
            device_code: self.device_code@,
            user_code: self.user_code@,
            verification_uri: self.verification_uri@,
            verification_uri_complete: self.verification_uri_complete@,
            expires_in: self.expires_in,
            interval: self.interval,
        }
    }
}

/// Why no grant was issued.
#[derive(Debug, Clone, Copy, PartialEq, Eq, Structural)]
pub enum RequestError {
    /// The server could not be reached.
    Network,
    /// The server answered with a status outside 200..=299.
    Protocol,
    /// The body is no grant: malformed, or a member is missing.
    Decode,
}

/// What came back for one HTTP request.
#[derive(Debug, Clone, PartialEq, Eq)]
pub enum HttpReply {
    /// No answer: the transport failed.
    Unreachable,
    /// An answer with its status code and body.
    Answered { status: u16, body: String },
}

/// Whether an HTTP status code reports success.
pub open spec fn is_success(status: u16) -> bool {
    200 <= status < 300
}

/// The grant that six members stand for: all must be there, and the two
/// counts must fit in a `u32`.
pub open spec fn grant_of(
    device_code: Option<Seq<char>>,
    user_code: Option<Seq<char>>,
    verification_uri: Option<Seq<char>>,
    verification_uri_complete: Option<Seq<char>>,
    expires_in: Option<u64>,
    interval: Option<u64>,
) -> Option<GrantModel> {
    if device_code.is_some() && user_code.is_some() && verification_uri.is_some()
        && verification_uri_complete.is_some() && expires_in.is_some() && interval.is_some()
        && expires_in.unwrap() <= u32::MAX && interval.unwrap() <= u32::MAX {
        Some(
            GrantModel {
                device_code: device_code.unwrap(),
                user_code: user_code.unwrap(),
                verification_uri: verification_uri.unwrap(),
                verification_uri_complete: verification_uri_complete.unwrap(),
                expires_in: expires_in.unwrap() as u32,
                interval: interval.unwrap() as u32,
            },
        )
    } else {
        None
    }
}

/// The grant that the JSON document `body` stands for, read through
/// `serde_json`.
pub open spec fn grant_of_body(body: Seq<char>) -> Option<GrantModel> {
    grant_of(
        json_text_member(body, "device_code"@),
        json_text_member(body, "user_code"@),
        json_text_member(body, "verification_uri"@),
        json_text_member(body, "verification_uri_complete"@),
        json_count_member(body, "expires_in"@),
        json_count_member(body, "interval"@),
    )
}

/// What a reply of the device-code endpoint amounts to.
pub open spec fn issuance_of(reply: HttpReply) -> Result<GrantModel, RequestError> {
    match reply {
        HttpReply::Unreachable => Err(RequestError::Network),
        HttpReply::Answered { status, body } => if !is_success(status) {
            Err(RequestError::Protocol)
        } else {
            match grant_of_body(body@) {
                Some(grant) => Ok(grant),
                None => Err(RequestError::Decode),
            }
        },
    }
}

/// The model of a result that holds a grant.
pub open spec fn issuance_model(r: Result<DeviceCodeGrant, RequestError>) -> Result<
    GrantModel,
    RequestError,
> {
    match r {
        Ok(grant) => Ok(grant@),
        Err(e) => Err(e),
    }
}

impl DeviceCodeGrant {
    /// Builds a grant from the members of a reply, or fails with
    /// [`RequestError::Decode`] where one is missing or a count is too large.
    pub fn from_members(
        device_code: Option<String>,
        user_code: Option<String>,
        verification_uri: Option<String>,
        verification_uri_complete: Option<String>,
        expires_in: Option<u64>,
        interval: Option<u64>,
    ) -> (r: Result<DeviceCodeGrant, RequestError>)
        ensures
            issuance_model(r) == (match grant_of(
                text_of(device_code),
                text_of(user_code),
                text_of(verification_uri),
                text_of(verification_uri_complete),
                expires_in,
                interval,
            ) {
                Some(grant) => Ok::<GrantModel, RequestError>(grant),
                None => Err(RequestError::Decode),
            }),
    {
        match (
            device_code,
            user_code,
            verification_uri,
            verification_uri_complete,
            expires_in,
            interval,
        ) {
            (Some(device_code), Some(user_code), Some(uri), Some(uri_complete), Some(ttl), Some(gap)) => {
                if ttl <= 0xffff_ffff && gap <= 0xffff_ffff {
                    Ok(
                        DeviceCodeGrant {
                            device_code,
                            user_code,
                            verification_uri: uri,
                            verification_uri_complete: uri_complete,
                            expires_in: ttl as u32,
                            interval: gap as u32,
                        },
                    )
                } else {
                    Err(RequestError::Decode)
                }
            },
            _ => Err(RequestError::Decode),
        }
    }

    /// Decodes the body of a successful reply of the device-code endpoint.
    pub fn decode(body: &str) -> (r: Result<DeviceCodeGrant, RequestError>)
        ensures
            issuance_model(r) == (match grant_of_body(body@) {
                Some(grant) => Ok::<GrantModel, RequestError>(grant),
                None => Err(RequestError::Decode),
            }),
    {
        let device_code = text_member(body, "device_code");
        let user_code = text_member(body, "user_code");
        let verification_uri = text_member(body, "verification_uri");
        let verification_uri_complete = text_member(body, "verification_uri_complete");
        let expires_in = count_member(body, "expires_in");
        let interval = count_member(body, "interval");
        DeviceCodeGrant::from_members(
            device_code,
            user_code,
            verification_uri,
            verification_uri_complete,
            expires_in,
            interval,
        )
    }
}

/// Asks the authorization server for a device code: it says what to send
/// and reads what came back. Sending is the caller's part.
#[derive(Debug, Clone, PartialEq, Eq)]
pub struct DeviceCodeRequester {
    pub client_id: String,
    pub scope: String,
    pub audience: String,
}

impl DeviceCodeRequester {
    pub fn new(client_id: String, scope: String, audience: String) -> (r: DeviceCodeRequester)
        ensures
            r.client_id == client_id,
            r.scope == scope,
            r.audience == audience,
    {
        DeviceCodeRequester { client_id, scope, audience }
    }

    /// The fields of the form to post to the device-code endpoint, in
    /// order: `client_id`, `scope`, `audience`.
    pub fn form(&self) -> (r: Vec<(String, String)>)
        ensures
            r@.len() == 3,
            r@[0].0@ == "client_id"@ && r@[0].1@ == self.client_id@,
            r@[1].0@ == "scope"@ && r@[1].1@ == self.scope@,
            r@[2].0@ == "audience"@ && r@[2].1@ == self.audience@,
    {
        let mut fields: Vec<(String, String)> = Vec::new();
        fields.push(("client_id".to_owned(), self.client_id.clone()));
        fields.push(("scope".to_owned(), self.scope.clone()));
        fields.push(("audience".to_owned(), self.audience.clone()));
        fields
    }

    /// Reads the reply to the posted form: a grant, or the reason why none
    /// was issued.
    pub fn receive(&self, reply: &HttpReply) -> (r: Result<DeviceCodeGrant, RequestError>)
        ensures
            issuance_model(r) == issuance_of(*reply),
    {
        match reply {
            HttpReply::Unreachable => Err(RequestError::Network),
            HttpReply::Answered { status, body } => {
                if *status < 200 || *status >= 300 {
                    Err(RequestError::Protocol)
                } else {
                    DeviceCodeGrant::decode(body.as_str())
                }
            },
        }
    }
}

} // verus!
