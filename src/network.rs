use vstd::prelude::*;

verus! {

/// The chain that the provisioned daemon runs against.
#[derive(Clone, Copy, Debug, PartialEq, Eq, Structural)]
pub enum Network {
    Bitcoin,
    Testnet,
    Signet,
    Regtest,
}

/// The name under which a network is written in paths and configuration files.
pub open spec fn network_name(n: Network) -> Seq<char> {
    match n {
        Network::Bitcoin => "bitcoin"@,
        Network::Testnet => "testnet"@,
        Network::Signet => "signet"@,
        Network::Regtest => "regtest"@,
    }
}

/// Relies on the `Display` impl of `bitcoin::Network`, which writes the
/// lower-case name of each variant.
#[verifier::external_body]
fn bitcoin_network_name(n: Network) -> (r: String)
    ensures
        r@ == network_name(n),
{
    let b = match n {
        Network::Bitcoin => bitcoin::Network::Bitcoin,
        Network::Testnet => bitcoin::Network::Testnet,
        Network::Signet => bitcoin::Network::Signet,
        Network::Regtest => bitcoin::Network::Regtest,
    };
    b.to_string()
}

impl Network {
    /// The network's name, as used for its data subdirectory.
    pub fn name(&self) -> (r: String)
        ensures
            r@ == network_name(*self),
    {
        bitcoin_network_name(*self)
    }
}

} // verus!
