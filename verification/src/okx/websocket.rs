//! OKX WebSocket connector state: the protocol it speaks (public or business
//! endpoint), the account type and the credentials it logs in with. The
//! transport that connects, sends and receives is outside the library.

use vstd::prelude::*;
use crate::common::types::{AccountType, Credentials, WebSocketError};
use crate::okx::protocol::OkxProtocol;

verus! {

pub struct OkxWebSocket {
    protocol: OkxProtocol,
    account_type: AccountType,
    credentials: Option<Credentials>,
}

impl OkxWebSocket {
    pub closed spec fn speaks(&self) -> OkxProtocol {
        self.protocol
    }

    pub closed spec fn account(&self) -> AccountType {
        self.account_type
    }

    pub closed spec fn has_credentials(&self) -> bool {
        self.credentials is Some
    }

    /// A connector on the public endpoint; construction always succeeds.
    pub fn new(credentials: Option<Credentials>, testnet: bool, account_type: AccountType) -> (r: Result<
        Self,
        WebSocketError,
    >)
        ensures
            r matches Ok(w) && w.account() == account_type && w.has_credentials() == credentials is Some
                && w.speaks().on_testnet() == testnet && w.speaks().account() == account_type
                && !w.speaks().business(),
    {
        let protocol = OkxProtocol::new(account_type, testnet);
        Ok(OkxWebSocket { protocol, account_type, credentials })
    }

    /// A connector on the business endpoint (mark-price, index and
    /// funding-rate candles); construction always succeeds.
    pub fn new_business(credentials: Option<Credentials>, testnet: bool, account_type: AccountType) -> (r: Result<
        Self,
        WebSocketError,
    >)
        ensures
            r matches Ok(w) && w.account() == account_type && w.has_credentials() == credentials is Some
                && w.speaks().on_testnet() == testnet && w.speaks().account() == account_type
                && w.speaks().business(),
    {
        let protocol = OkxProtocol::new_business(account_type, testnet);
        Ok(OkxWebSocket { protocol, account_type, credentials })
    }

    /// The protocol the transport drives.
    pub fn protocol(&self) -> (r: &OkxProtocol)
        ensures
            *r == self.speaks(),
    {
        &self.protocol
    }

    /// The account type the connector was made for.
    pub fn account_type(&self) -> (r: AccountType)
        ensures
            r == self.account(),
    {
        self.account_type
    }
}

} // verus!
