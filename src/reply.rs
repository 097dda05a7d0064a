//! Decoding the registry's reply envelope and the results it carries.
//!
//! A reply is one JSON object. `"success": true` marks a result, carried in
//! `"data"`; `"success": false` marks a failure, described by the string in
//! `"message"`. Anything else is a decode error.
use vstd::prelude::*;
use crate::error::{ApiError, ErrorModel};
use crate::json::{json_bool, json_object_members, json_string, member, parse_bool, parse_object_members, parse_string};

verus! {

/// What a well-formed envelope in `body` holds: the text of its payload, or the
/// error that it reports or that decoding met.
pub open spec fn envelope_spec(body: Seq<u8>) -> Result<Seq<u8>, ErrorModel> {
    match json_object_members(body) {
        None => Err(ErrorModel::Decode),
        Some(m) => if !m.contains_key("success"@) {
            Err(ErrorModel::Decode)
        } else {
            match json_bool(m["success"@]) {
                Some(true) => if m.contains_key("data"@) {
                    Ok(m["data"@])
                } else {
                    Err(ErrorModel::Decode)
                },
                Some(false) => if m.contains_key("message"@) && json_string(m["message"@]) is Some {
                    Err(ErrorModel::Application(json_string(m["message"@])->0))
                } else {
                    Err(ErrorModel::Decode)
                },
                None => Err(ErrorModel::Decode),
            }
        },
    }
}

/// The outcome of a transport exchange, as the transport hands it back: the
/// reply body, or a description of why the exchange failed.
pub type Reply = Result<Vec<u8>, String>;

/// The view of a transport outcome.
pub open spec fn reply_view(reply: Reply) -> Result<Seq<u8>, Seq<char>> {
    match reply {
        Ok(b) => Ok(b@),
        Err(e) => Err(e@),
    }
}

/// The payload text of a reply: a failed exchange is a transport error and is
/// not decoded; a received body is decoded as an envelope.
pub open spec fn receive_spec(reply: Result<Seq<u8>, Seq<char>>) -> Result<Seq<u8>, ErrorModel> {
    match reply {
        Err(e) => Err(ErrorModel::Transport(e)),
        Ok(b) => envelope_spec(b),
    }
}

/// The user named by a whoami payload: its member `user`, a string.
pub open spec fn whoami_spec(data: Seq<u8>) -> Result<Seq<char>, ErrorModel> {
    match json_object_members(data) {
        Some(m) => if m.contains_key("user"@) && json_string(m["user"@]) is Some {
            Ok(json_string(m["user"@])->0)
        } else {
            Err(ErrorModel::Decode)
        },
        None => Err(ErrorModel::Decode),
    }
}

/// A payload that the registry defines and the client passes on untouched: it
/// must be a JSON object.
pub open spec fn record_spec(data: Seq<u8>) -> Result<Seq<u8>, ErrorModel> {
    if json_object_members(data) is Some {
        Ok(data)
    } else {
        Err(ErrorModel::Decode)
    }
}

/// The user that a session-verification reply names.
pub open spec fn whoami_reply_spec(reply: Result<Seq<u8>, Seq<char>>) -> Result<Seq<char>, ErrorModel> {
    match receive_spec(reply) {
        Ok(data) => whoami_spec(data),
        Err(e) => Err(e),
    }
}

/// The record that a publish, download or module-info reply carries.
pub open spec fn record_reply_spec(reply: Result<Seq<u8>, Seq<char>>) -> Result<Seq<u8>, ErrorModel> {
    match receive_spec(reply) {
        Ok(data) => record_spec(data),
        Err(e) => Err(e),
    }
}

/// Decodes the envelope in `body` into the text of its payload.
pub fn decode_envelope(body: &[u8]) -> (r: Result<Vec<u8>, ApiError>)
    ensures
        match r {
            Ok(d) => envelope_spec(body@) == Ok::<Seq<u8>, ErrorModel>(d@),
            Err(e) => envelope_spec(body@) == Err::<Seq<u8>, ErrorModel>(e@),
        },
{
    let ghost gm = json_object_members(body@);
    let members = match parse_object_members(body) {
        Some(v) => v,
        None => return Err(ApiError::Decode),
    };
    let ghost m = gm->0;
    let flag = match member(&members, "success", Ghost(m)) {
        Some(t) => t,
        None => return Err(ApiError::Decode),
    };
    match parse_bool(flag.as_slice()) {
        Some(true) => match member(&members, "data", Ghost(m)) {
            Some(d) => Ok(d),
            None => Err(ApiError::Decode),
        },
        Some(false) => {
            let text = match member(&members, "message", Ghost(m)) {
                Some(t) => t,
                None => return Err(ApiError::Decode),
            };
            match parse_string(text.as_slice()) {
                Some(msg) => Err(ApiError::Application(msg)),
                None => Err(ApiError::Decode),
            }
        },
        None => Err(ApiError::Decode),
    }
}

/// The payload text of a transport outcome: a failed exchange becomes a
/// transport error without any decoding; a body is decoded as an envelope.
pub fn receive(reply: Reply) -> (r: Result<Vec<u8>, ApiError>)
    ensures
        match r {
            Ok(d) => receive_spec(reply_view(reply)) == Ok::<Seq<u8>, ErrorModel>(d@),
            Err(e) => receive_spec(reply_view(reply)) == Err::<Seq<u8>, ErrorModel>(e@),
        },
        reply matches Err(t) ==> r == Err::<Vec<u8>, ApiError>(ApiError::Transport(t)),
{
    match reply {
        Err(e) => Err(ApiError::Transport(e)),
        Ok(b) => decode_envelope(b.as_slice()),
    }
}

/// The payload of a session-verification reply.
#[derive(Clone, Debug, PartialEq, Eq)]
pub struct WhoamiResult {
    pub user: String,
}

/// What the registry answers to a publish: a JSON object, kept as its text.
#[derive(Clone, Debug, PartialEq, Eq)]
pub struct PublishResult {
    pub json: Vec<u8>,
}

/// A downloaded module with its metadata: a JSON object, kept as its text.
#[derive(Clone, Debug, PartialEq, Eq)]
pub struct DownloadResult {
    pub json: Vec<u8>,
}

/// The metadata of a module: a JSON object, kept as its text.
#[derive(Clone, Debug, PartialEq, Eq)]
pub struct ModuleInfoResult {
    pub json: Vec<u8>,
}

/// Decodes a whoami payload.
pub fn decode_whoami(data: &[u8]) -> (r: Result<WhoamiResult, ApiError>)
    ensures
        match r {
            Ok(w) => whoami_spec(data@) == Ok::<Seq<char>, ErrorModel>(w.user@),
            Err(e) => whoami_spec(data@) == Err::<Seq<char>, ErrorModel>(e@),
        },
{
    let ghost gm = json_object_members(data@);
    let members = match parse_object_members(data) {
        Some(v) => v,
        None => return Err(ApiError::Decode),
    };
    let text = match member(&members, "user", Ghost(gm->0)) {
        Some(t) => t,
        None => return Err(ApiError::Decode),
    };
    match parse_string(text.as_slice()) {
        Some(user) => Ok(WhoamiResult { user }),
        None => Err(ApiError::Decode),
    }
}

/// Checks that a payload is a JSON object, and hands it back.
pub fn decode_record(data: Vec<u8>) -> (r: Result<Vec<u8>, ApiError>)
    ensures
        match r {
            Ok(d) => record_spec(data@) == Ok::<Seq<u8>, ErrorModel>(d@),
            Err(e) => record_spec(data@) == Err::<Seq<u8>, ErrorModel>(e@),
        },
{
    match parse_object_members(data.as_slice()) {
        Some(_) => Ok(data),
        None => Err(ApiError::Decode),
    }
}

/// The user that the registry reports for the session, from the outcome of
/// the request that `Client::verify_session_request` built.
pub fn verify_session_reply(reply: Reply) -> (r: Result<String, ApiError>)
    ensures
        match r {
            Ok(u) => whoami_reply_spec(reply_view(reply)) == Ok::<Seq<char>, ErrorModel>(u@),
            Err(e) => whoami_reply_spec(reply_view(reply)) == Err::<Seq<char>, ErrorModel>(e@),
        },
        reply matches Err(t) ==> r == Err::<String, ApiError>(ApiError::Transport(t)),
{
    let data = receive(reply)?;
    let w = decode_whoami(data.as_slice())?;
    Ok(w.user)
}

/// The record of a reply to a publish, download or module-info request.
fn record_reply(reply: Reply) -> (r: Result<Vec<u8>, ApiError>)
    ensures
        match r {
            Ok(d) => record_reply_spec(reply_view(reply)) == Ok::<Seq<u8>, ErrorModel>(d@),
            Err(e) => record_reply_spec(reply_view(reply)) == Err::<Seq<u8>, ErrorModel>(e@),
        },
        reply matches Err(t) ==> r == Err::<Vec<u8>, ApiError>(ApiError::Transport(t)),
{
    let data = receive(reply)?;
    decode_record(data)
}

/// The registry's answer to the request that `Client::publish_request` built.
pub fn publish_reply(reply: Reply) -> (r: Result<PublishResult, ApiError>)
    ensures
        match r {
            Ok(p) => record_reply_spec(reply_view(reply)) == Ok::<Seq<u8>, ErrorModel>(p.json@),
            Err(e) => record_reply_spec(reply_view(reply)) == Err::<Seq<u8>, ErrorModel>(e@),
        },
        reply matches Err(t) ==> r == Err::<PublishResult, ApiError>(ApiError::Transport(t)),
{
    let json = record_reply(reply)?;
    Ok(PublishResult { json })
}

/// The module that the request built by `Client::download_request` fetched.
pub fn download_reply(reply: Reply) -> (r: Result<DownloadResult, ApiError>)
    ensures
        match r {
            Ok(d) => record_reply_spec(reply_view(reply)) == Ok::<Seq<u8>, ErrorModel>(d.json@),
            Err(e) => record_reply_spec(reply_view(reply)) == Err::<Seq<u8>, ErrorModel>(e@),
        },
        reply matches Err(t) ==> r == Err::<DownloadResult, ApiError>(ApiError::Transport(t)),
{
    let json = record_reply(reply)?;
    Ok(DownloadResult { json })
}

/// The metadata that the request built by `Client::query_request` fetched.
pub fn query_reply(reply: Reply) -> (r: Result<ModuleInfoResult, ApiError>)
    ensures
        match r {
            Ok(i) => record_reply_spec(reply_view(reply)) == Ok::<Seq<u8>, ErrorModel>(i.json@),
            Err(e) => record_reply_spec(reply_view(reply)) == Err::<Seq<u8>, ErrorModel>(e@),
        },
        reply matches Err(t) ==> r == Err::<ModuleInfoResult, ApiError>(ApiError::Transport(t)),
{
    let json = record_reply(reply)?;
    Ok(ModuleInfoResult { json })
}

/// A failed exchange is a transport error, whatever the operation, and its
/// reply is never decoded.
pub proof fn lemma_transport_failure(e: Seq<char>)
    ensures
        receive_spec(Err(e)) == Err::<Seq<u8>, ErrorModel>(ErrorModel::Transport(e)),
        whoami_reply_spec(Err(e)) == Err::<Seq<char>, ErrorModel>(ErrorModel::Transport(e)),
        record_reply_spec(Err(e)) == Err::<Seq<u8>, ErrorModel>(ErrorModel::Transport(e)),
{
}

/// An envelope that reports an error gives that error, whatever result the
/// caller expects.
pub proof fn lemma_application_error_any_result(body: Seq<u8>, message: Seq<char>)
    requires
        envelope_spec(body) == Err::<Seq<u8>, ErrorModel>(ErrorModel::Application(message)),
    ensures
        whoami_reply_spec(Ok(body)) == Err::<Seq<char>, ErrorModel>(ErrorModel::Application(message)),
        record_reply_spec(Ok(body)) == Err::<Seq<u8>, ErrorModel>(ErrorModel::Application(message)),
{
}

/// A body that is not a JSON object, such as a truncated one, is a decode
/// error for every operation, never a result.
pub proof fn lemma_malformed_reply(body: Seq<u8>)
    requires
        json_object_members(body) is None,
    ensures
        envelope_spec(body) == Err::<Seq<u8>, ErrorModel>(ErrorModel::Decode),
        whoami_reply_spec(Ok(body)) == Err::<Seq<char>, ErrorModel>(ErrorModel::Decode),
        record_reply_spec(Ok(body)) == Err::<Seq<u8>, ErrorModel>(ErrorModel::Decode),
{
}

} // verus!
