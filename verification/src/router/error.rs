//! The errors of the router side.

use vstd::prelude::*;

verus! {

#[verifier::external_type_specification]
#[verifier::external_body]
pub struct ExJsonError(serde_json::Error);

#[verifier::external_type_specification]
#[verifier::external_body]
pub struct ExIoError(std::io::Error);

#[verifier::external_type_specification]
#[verifier::external_body]
pub struct ExProtocolError(actix_ws::ProtocolError);

#[verifier::external_type_specification]
#[verifier::external_body]
pub struct ExActixError(actix_web::Error);

#[verifier::external_type_specification]
#[verifier::external_body]
pub struct ExAnyhowError(anyhow::Error);

/// What went wrong on a websocket of the router.
#[derive(Debug)]
pub enum WsError {
    Connection(String),
    Message(String),
    SendError(String),
    ReceiveError(String),
    Serialization(serde_json::Error),
    Io(std::io::Error),
    WebSocket(actix_ws::ProtocolError),
    Actix(actix_web::Error),
    Other(anyhow::Error),
}

/// The result of an operation of the router side.
pub type WsResult<T> = Result<T, WsError>;

} // verus!
