//! Deribit WebSocket connector state: the protocol it speaks, the account
//! type and the credentials it logs in with. The transport that connects,
//! sends and receives is outside the library.

use vstd::prelude::*;
use crate::common::types::{AccountType, Credentials, WebSocketError};
use crate::deribit::protocol::DeribitProtocol;

verus! {

pub struct DeribitWebSocket {
    protocol: DeribitProtocol,
    account_type: AccountType,
    credentials: Option<Credentials>,
}

impl DeribitWebSocket {
    pub closed spec fn speaks(&self) -> DeribitProtocol {
        self.protocol
    }

    pub closed spec fn account(&self) -> AccountType {
        self.account_type
    }

    pub closed spec fn has_credentials(&self) -> bool {
        self.credentials is Some
    }

    /// A connector for an account type and network, its request ids starting
    /// at 1; construction always succeeds.
    pub fn new(credentials: Option<Credentials>, testnet: bool, account_type: AccountType) -> (r: Result<
        Self,
        WebSocketError,
    >)
        ensures
            r matches Ok(w) && w.account() == account_type && w.has_credentials() == credentials is Some
                && w.speaks().on_testnet() == testnet && w.speaks().account() == account_type
                && w.speaks().id_counter() == 1,
    {
        let protocol = DeribitProtocol::new(account_type, testnet);
        Ok(DeribitWebSocket { protocol, account_type, credentials })
    }

    /// The protocol the transport drives.
    pub fn protocol(&self) -> (r: &DeribitProtocol)
        ensures
            *r == self.speaks(),
    {
        &self.protocol
    }

    /// The account type the connector was made for.
    pub fn account_type(&self) -> (r: AccountType)
        ensures
            r == self.account(),
    {
        self.account_type
    }
}

} // verus!
