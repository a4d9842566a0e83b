//! Networks served in parallel and data kept once per network.

use vstd::prelude::*;

verus! {

/// One of the three instances of the ledger that the signer serves.
#[derive(Clone, Copy, Debug, PartialEq, Eq, Hash, Structural)]
pub enum Network {
    /// Test network
    Dolphin,
    /// Canary network
    Calamari,
    /// Main network
    Manta,
}

impl Network {
    /// The name of the network as shown to users.
    pub fn as_str(&self) -> (r: &'static str)
        ensures
            r@ == self.name(),
    {
        match self {
            Network::Dolphin => "Dolphin",
            Network::Calamari => "Calamari",
            Network::Manta => "Manta",
        }
    }

    pub open spec fn name(&self) -> Seq<char> {
        match self {
            Network::Dolphin => "Dolphin"@,
            Network::Calamari => "Calamari"@,
            Network::Manta => "Manta"@,
        }
    }

    /// All networks, in their fixed order.
    pub fn all() -> (r: Vec<Network>)
        ensures
            r@ == seq![Network::Dolphin, Network::Calamari, Network::Manta],
    {
        vec![Network::Dolphin, Network::Calamari, Network::Manta]
    }
}

/// A value for each network.
#[derive(Clone, Copy, Debug, Default, PartialEq, Eq, Hash)]
pub struct NetworkSpecific<T> {
    /// Value for the test network
    pub dolphin: T,
    /// Value for the canary network
    pub calamari: T,
    /// Value for the main network
    pub manta: T,
}

impl<T> NetworkSpecific<T> {
    /// The value kept for `network`.
    pub open spec fn at(&self, network: Network) -> T {
        match network {
            Network::Dolphin => self.dolphin,
            Network::Calamari => self.calamari,
            Network::Manta => self.manta,
        }
    }

    /// Builds the record from the value of each network.
    pub fn new(dolphin: T, calamari: T, manta: T) -> (r: Self)
        ensures
            r.dolphin == dolphin,
            r.calamari == calamari,
            r.manta == manta,
    {
        NetworkSpecific { dolphin, calamari, manta }
    }

    /// Returns the value kept for `network`.
    pub fn get(&self, network: Network) -> (r: &T)
        ensures
            *r == self.at(network),
    {
        match network {
            Network::Dolphin => &self.dolphin,
            Network::Calamari => &self.calamari,
            Network::Manta => &self.manta,
        }
    }

    /// Replaces the value kept for `network`, leaving the others as they were.
    pub fn set(&mut self, network: Network, value: T)
        ensures
            final(self).at(network) == value,
            forall|n: Network| n != network ==> #[trigger] final(self).at(n) == old(self).at(n),
    {
        match network {
            Network::Dolphin => self.dolphin = value,
            Network::Calamari => self.calamari = value,
            Network::Manta => self.manta = value,
        }
    }
}

/// A message addressed to one network.
#[derive(Clone, Copy, Debug, PartialEq, Eq, Hash)]
pub struct Message<T> {
    /// Network the message is for
    pub network: Network,
    /// Message content
    pub message: T,
}

impl<T> Message<T> {
    /// Builds a message for `network`.
    pub fn new(network: Network, message: T) -> (r: Self)
        ensures
            r.network == network,
            r.message == message,
    {
        Message { network, message }
    }
}

} // verus!
