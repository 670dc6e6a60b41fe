//! The client side of the protocol: the handle a client holds, and the
//! interpretation of each broker response. Connecting and exchanging the
//! frames is the caller's business; deciding what a response means is
//! settled here.

use vstd::prelude::*;
use crate::wire::BrokerResponse;

verus! {

/// A live virtual gamepad as a client names it.
#[derive(Clone, Copy, Debug, PartialEq, Eq, Structural)]
pub struct GamepadHandle(pub u64);

/// Why a client call failed.
#[derive(Clone, Debug, PartialEq, Eq)]
pub enum ClientError {
    /// The broker answered with a failure; its message.
    Broker(String),
    /// The broker answered, but not with a response this call expects.
    Unexpected,
    /// The broker closed the connection before answering.
    NoResponse,
}

/// Interprets the answer to a ping: only a pong will do.
pub fn expect_pong(resp: Option<BrokerResponse>) -> (r: Result<(), ClientError>)
    ensures
        match resp {
            Some(BrokerResponse::Pong) => r == Ok::<(), ClientError>(()),
            Some(BrokerResponse::Failed { message }) => r == Err::<(), ClientError>(
                ClientError::Broker(message),
            ),
            Some(_) => r == Err::<(), ClientError>(ClientError::Unexpected),
            None => r == Err::<(), ClientError>(ClientError::NoResponse),
        },
{
    match resp {
        Some(BrokerResponse::Pong) => Ok(()),
        Some(BrokerResponse::Failed { message }) => Err(ClientError::Broker(message)),
        Some(_) => Err(ClientError::Unexpected),
        None => Err(ClientError::NoResponse),
    }
}

/// Interprets the answer to a create: the handle of the new device.
pub fn expect_created(resp: Option<BrokerResponse>) -> (r: Result<GamepadHandle, ClientError>)
    ensures
        match resp {
            Some(BrokerResponse::OkCreate { handle }) => r == Ok::<GamepadHandle, ClientError>(
                GamepadHandle(handle),
            ),
            Some(BrokerResponse::Failed { message }) => r == Err::<GamepadHandle, ClientError>(
                ClientError::Broker(message),
            ),
            Some(_) => r == Err::<GamepadHandle, ClientError>(ClientError::Unexpected),
            None => r == Err::<GamepadHandle, ClientError>(ClientError::NoResponse),
        },
{
    match resp {
        Some(BrokerResponse::OkCreate { handle }) => Ok(GamepadHandle(handle)),
        Some(BrokerResponse::Failed { message }) => Err(ClientError::Broker(message)),
        Some(_) => Err(ClientError::Unexpected),
        None => Err(ClientError::NoResponse),
    }
}

/// Interprets the answer to a destroy or an update: a plain success.
pub fn expect_done(resp: Option<BrokerResponse>) -> (r: Result<(), ClientError>)
    ensures
        match resp {
            Some(BrokerResponse::Done) => r == Ok::<(), ClientError>(()),
            Some(BrokerResponse::Failed { message }) => r == Err::<(), ClientError>(
                ClientError::Broker(message),
            ),
            Some(_) => r == Err::<(), ClientError>(ClientError::Unexpected),
            None => r == Err::<(), ClientError>(ClientError::NoResponse),
        },
{
    match resp {
        Some(BrokerResponse::Done) => Ok(()),
        Some(BrokerResponse::Failed { message }) => Err(ClientError::Broker(message)),
        Some(_) => Err(ClientError::Unexpected),
        None => Err(ClientError::NoResponse),
    }
}

} // verus!
