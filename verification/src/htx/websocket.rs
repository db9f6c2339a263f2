//! HTX WebSocket connector state: which account type and network it serves,
//! the credentials it logs in with, and the check made before a stream is
//! handed to the transport.

use vstd::prelude::*;
use crate::common::types::{AccountType, Credentials, StreamSpec, WebSocketError};
use crate::htx::protocol::{spec_topic_for, HtxProtocol};

verus! {

/// A stream HTX refuses outright: its topic lookup fails with "not supported".
pub open spec fn refused_by_htx(spec: StreamSpec) -> bool {
    spec_topic_for(spec) is Err && spec_topic_for(spec)->Err_0.0
}

/// HTX WebSocket connector (the transport that sends and receives is outside the library).
pub struct HtxWebSocket {
    credentials: Option<Credentials>,
    account_type: AccountType,
    testnet: bool,
}

impl HtxWebSocket {
    pub closed spec fn account(&self) -> AccountType {
        self.account_type
    }

    pub closed spec fn on_testnet(&self) -> bool {
        self.testnet
    }

    pub closed spec fn has_credentials(&self) -> bool {
        self.credentials is Some
    }

    /// A connector for an account type and network; construction always succeeds.
    pub fn new(credentials: Option<Credentials>, testnet: bool, account_type: AccountType) -> (r: Result<
        Self,
        WebSocketError,
    >)
        ensures
            r matches Ok(w) && w.account() == account_type && w.on_testnet() == testnet
                && w.has_credentials() == credentials is Some,
    {
        Ok(HtxWebSocket { credentials, account_type, testnet })
    }

    /// The account type the connector was made for.
    pub fn account_type(&self) -> (r: AccountType)
        ensures
            r == self.account(),
    {
        self.account_type
    }

    /// Whether the connector talks to testnet.
    pub fn is_testnet(&self) -> (r: bool)
        ensures
            r == self.on_testnet(),
    {
        self.testnet
    }

    /// The check `subscribe` makes before handing a stream to the transport:
    /// a stream HTX does not offer is refused with its "not supported" error;
    /// every other stream passes (an unsupported-kind error is left for the
    /// transport to report when it builds the frame).
    pub fn subscribe_check(&self, spec: &StreamSpec) -> (r: Result<(), WebSocketError>)
        ensures
            r is Err <==> refused_by_htx(*spec),
            r matches Err(e) ==> e is NotSupported && e->NotSupported_0@ == spec_topic_for(*spec)->Err_0.1,
    {
        let mut probe = HtxProtocol::new(spec.account_type, self.testnet);
        match probe.subscribe_frame(spec) {
            Err(WebSocketError::NotSupported(msg)) => Err(WebSocketError::NotSupported(msg)),
            _ => Ok(()),
        }
    }
}

} // verus!
