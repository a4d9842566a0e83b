//! Versioned messages that carry encoded payloads to a wallet front end.

use vstd::prelude::*;

verus! {

/// Version stamped on every message.
pub const MESSAGE_VERSION: &'static str = "0.0.0";

/// Shielded address message.
#[derive(Clone, Debug)]
pub struct ShieldedAddressMessage {
    /// Address
    pub address: Vec<u8>,
    /// Version
    pub version: String,
}

impl ShieldedAddressMessage {
    /// Builds a new message around `address`.
    pub fn new(address: Vec<u8>) -> (r: Self)
        ensures
            r.address@ == address@,
            r.version@ == MESSAGE_VERSION@,
    {
        ShieldedAddressMessage { address, version: MESSAGE_VERSION.to_owned() }
    }
}

/// Recovered account message.
#[derive(Clone, Debug)]
pub struct RecoverAccountMessage {
    /// Recovered account
    pub recovered_account: Vec<u8>,
    /// Version
    pub version: String,
}

impl RecoverAccountMessage {
    /// Builds a new message around `recovered_account`.
    pub fn new(recovered_account: Vec<u8>) -> (r: Self)
        ensures
            r.recovered_account@ == recovered_account@,
            r.version@ == MESSAGE_VERSION@,
    {
        RecoverAccountMessage { recovered_account, version: MESSAGE_VERSION.to_owned() }
    }
}

/// Asset message.
#[derive(Clone, Debug)]
pub struct AssetMessage {
    /// Asset
    pub asset: Vec<u8>,
    /// Version
    pub version: String,
}

impl AssetMessage {
    /// Builds a new message around `asset`.
    pub fn new(asset: Vec<u8>) -> (r: Self)
        ensures
            r.asset@ == asset@,
            r.version@ == MESSAGE_VERSION@,
    {
        AssetMessage { asset, version: MESSAGE_VERSION.to_owned() }
    }
}

/// Mint message.
#[derive(Clone, Debug)]
pub struct MintMessage {
    /// Mint data
    pub mint_data: Vec<u8>,
    /// Version
    pub version: String,
}

impl MintMessage {
    /// Builds a new message around `mint_data`.
    pub fn new(mint_data: Vec<u8>) -> (r: Self)
        ensures
            r.mint_data@ == mint_data@,
            r.version@ == MESSAGE_VERSION@,
    {
        MintMessage { mint_data, version: MESSAGE_VERSION.to_owned() }
    }
}

/// Private transfer message.
#[derive(Clone, Debug)]
pub struct PrivateTransferMessage {
    /// Private transfer data
    pub private_transfer_data: Vec<u8>,
    /// Version
    pub version: String,
}

impl PrivateTransferMessage {
    /// Builds a new message around `private_transfer_data`.
    pub fn new(private_transfer_data: Vec<u8>) -> (r: Self)
        ensures
            r.private_transfer_data@ == private_transfer_data@,
            r.version@ == MESSAGE_VERSION@,
    {
        PrivateTransferMessage { private_transfer_data, version: MESSAGE_VERSION.to_owned() }
    }
}

/// Reclaim message.
#[derive(Clone, Debug)]
pub struct ReclaimMessage {
    /// Reclaim data
    pub reclaim_data: Vec<u8>,
    /// Version
    pub version: String,
}

impl ReclaimMessage {
    /// Builds a new message around `reclaim_data`.
    pub fn new(reclaim_data: Vec<u8>) -> (r: Self)
        ensures
            r.reclaim_data@ == reclaim_data@,
            r.version@ == MESSAGE_VERSION@,
    {
        ReclaimMessage { reclaim_data, version: MESSAGE_VERSION.to_owned() }
    }
}

} // verus!
