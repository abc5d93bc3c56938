//! The networks a transaction can be looked up on, and where to ask.

use crate::text::str_eq;
use vstd::prelude::*;

verus! {

/// A network of the messaging protocol.
#[derive(Clone, Copy, Debug, PartialEq, Eq, Structural)]
pub enum Network {
    Mainnet,
    Testnet,
    Sandbox,
}

/// A token that names no network.
#[derive(Clone, Debug, PartialEq, Eq)]
pub struct UnknownNetwork {
    /// The token as it was given.
    pub token: String,
}

/// Whether `token` is one of the spellings of the main network.
pub open spec fn names_mainnet(token: Seq<char>) -> bool {
    token == "Mainnet"@ || token == "m"@ || token == "main"@ || token == "mainnet"@
}

/// Whether `token` is one of the spellings of the test network.
pub open spec fn names_testnet(token: Seq<char>) -> bool {
    token == "Testnet"@ || token == "t"@ || token == "test"@ || token == "testnet"@
}

/// Whether `token` is one of the spellings of the sandbox network.
pub open spec fn names_sandbox(token: Seq<char>) -> bool {
    token == "Sandbox"@ || token == "s"@ || token == "sand"@ || token == "sandbox"@
}

/// The network that `token` names, if it names one. Spellings are matched
/// exactly, case included.
pub open spec fn network_of(token: Seq<char>) -> Option<Network> {
    if names_mainnet(token) {
        Some(Network::Mainnet)
    } else if names_testnet(token) {
        Some(Network::Testnet)
    } else if names_sandbox(token) {
        Some(Network::Sandbox)
    } else {
        None
    }
}

impl UnknownNetwork {
    /// The diagnostic for a token that names no network.
    pub fn message(&self) -> (text: String)
        ensures
            text@ == "Incorrect network! Consider \"mainnet\", \"testnet\", or \"sandbox\"."@,
    {
        String::from_str("Incorrect network! Consider \"mainnet\", \"testnet\", or \"sandbox\".")
    }
}

impl Network {
    /// Resolves a token to the network it names. A token that is none of the
    /// accepted spellings is handed back in the error.
    pub fn resolve(token: &str) -> (resolved: Result<Network, UnknownNetwork>)
        ensures
            match resolved {
                Ok(network) => network_of(token@) == Some(network),
                Err(unknown) => network_of(token@) is None && unknown.token@ == token@,
            },
    {
        if str_eq(token, "Mainnet") || str_eq(token, "m") || str_eq(token, "main") || str_eq(
            token,
            "mainnet",
        ) {
            Ok(Network::Mainnet)
        } else if str_eq(token, "Testnet") || str_eq(token, "t") || str_eq(token, "test")
            || str_eq(token, "testnet") {
            Ok(Network::Testnet)
        } else if str_eq(token, "Sandbox") || str_eq(token, "s") || str_eq(token, "sand")
            || str_eq(token, "sandbox") {
            Ok(Network::Sandbox)
        } else {
            Err(UnknownNetwork { token: String::from_str(token) })
        }
    }

    /// The address of the network's status service.
    pub open spec fn base(self) -> Seq<char> {
        match self {
            Network::Mainnet => "https://api-mainnet.layerzero-scan.com"@,
            Network::Testnet => "https://api-testnet.layerzero-scan.com"@,
            Network::Sandbox => "https://api-sandbox.layerzero-scan.com"@,
        }
    }

    /// The address that reports on the transaction `tx_hash`: the base address,
    /// `/tx/`, and the hash as it was given.
    pub open spec fn endpoint_of(self, tx_hash: Seq<char>) -> Seq<char> {
        self.base() + "/tx/"@ + tx_hash
    }

    /// The address of the network's status service.
    pub fn base_url(self) -> (url: &'static str)
        ensures
            url@ == self.base(),
    {
        match self {
            Network::Mainnet => "https://api-mainnet.layerzero-scan.com",
            Network::Testnet => "https://api-testnet.layerzero-scan.com",
            Network::Sandbox => "https://api-sandbox.layerzero-scan.com",
        }
    }

    /// The address to ask for the status of the transaction `tx_hash`. The hash
    /// is appended unescaped.
    pub fn endpoint(self, tx_hash: &str) -> (url: String)
        ensures
            url@ == self.endpoint_of(tx_hash@),
    {
        String::from_str(self.base_url()).concat("/tx/").concat(tx_hash)
    }
}

/// The address to ask about the transaction `tx_hash` on the network that
/// `token` names. There is an address only when the token names a network.
pub fn endpoint_for(token: &str, tx_hash: &str) -> (url: Result<String, UnknownNetwork>)
    ensures
        match url {
            Ok(url) => network_of(token@) matches Some(network) && url@ == network.endpoint_of(
                tx_hash@,
            ),
            Err(unknown) => network_of(token@) is None && unknown.token@ == token@,
        },
{
    match Network::resolve(token) {
        Ok(network) => Ok(network.endpoint(tx_hash)),
        Err(unknown) => Err(unknown),
    }
}

/// Each network is named by exactly its four spellings, and a token that is
/// none of the twelve names no network.
pub proof fn lemma_token_table(token: Seq<char>)
    ensures
        network_of(token) == Some(Network::Mainnet) <==> names_mainnet(token),
        network_of(token) == Some(Network::Testnet) <==> names_testnet(token),
        network_of(token) == Some(Network::Sandbox) <==> names_sandbox(token),
        network_of(token) is None <==> !names_mainnet(token) && !names_testnet(token)
            && !names_sandbox(token),
{
    reveal_strlit("Mainnet");
    reveal_strlit("m");
    reveal_strlit("main");
    reveal_strlit("mainnet");
    reveal_strlit("Testnet");
    reveal_strlit("t");
    reveal_strlit("test");
    reveal_strlit("testnet");
    reveal_strlit("Sandbox");
    reveal_strlit("s");
    reveal_strlit("sand");
    reveal_strlit("sandbox");
    if names_mainnet(token) {
        assert(token[0] == 'M' || token[0] == 'm');
    }
    if names_testnet(token) {
        assert(token[0] == 'T' || token[0] == 't');
    }
    if names_sandbox(token) {
        assert(token[0] == 'S' || token[0] == 's');
    }
}

} // verus!
