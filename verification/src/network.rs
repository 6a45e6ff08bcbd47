//! The table of networks: where each one is reached and which proof
//! parameters hold on it.

use vstd::prelude::*;

verus! {

/// The network that a request is verified against.
#[derive(Clone, Copy, Debug, PartialEq, Eq, Structural)]
pub enum SuiEnv {
    Mainnet,
    Testnet,
    Devnet,
    Localnet,
}

/// The circuit parameters that the proof verifier works with.
#[derive(Clone, Copy, Debug, PartialEq, Eq, Structural)]
pub enum ProofEnvironment {
    /// The verifying key that came out of the ceremony.
    Production,
    /// The verifying key of a local setup, not secure.
    Test,
}

impl Default for SuiEnv {
    /// A request that names no network is verified against Mainnet.
    fn default() -> (env: SuiEnv)
        ensures
            env == SuiEnv::Mainnet,
    {
        SuiEnv::Mainnet
    }
}

impl SuiEnv {
    /// The address of the full node of this network.
    pub open spec fn endpoint(self) -> Seq<char> {
        match self {
            SuiEnv::Mainnet => "https://fullnode.mainnet.sui.io:443"@,
            SuiEnv::Testnet => "https://fullnode.testnet.sui.io:443"@,
            SuiEnv::Devnet => "https://fullnode.devnet.sui.io:443"@,
            SuiEnv::Localnet => "http://127.0.0.1:9000"@,
        }
    }

    /// The proof parameters of this network: the secure ones on the two
    /// public networks that hold value, the test ones elsewhere.
    pub open spec fn proof_environment(self) -> ProofEnvironment {
        match self {
            SuiEnv::Mainnet | SuiEnv::Testnet => ProofEnvironment::Production,
            SuiEnv::Devnet | SuiEnv::Localnet => ProofEnvironment::Test,
        }
    }

    /// The endpoint and the proof parameters of this network.
    pub fn get_params(&self) -> (params: (&'static str, ProofEnvironment))
        ensures
            params.0@ == self.endpoint(),
            params.1 == self.proof_environment(),
    {
        match self {
            SuiEnv::Mainnet => ("https://fullnode.mainnet.sui.io:443", ProofEnvironment::Production),
            SuiEnv::Testnet => ("https://fullnode.testnet.sui.io:443", ProofEnvironment::Production),
            SuiEnv::Devnet => ("https://fullnode.devnet.sui.io:443", ProofEnvironment::Test),
            SuiEnv::Localnet => ("http://127.0.0.1:9000", ProofEnvironment::Test),
        }
    }
}

} // verus!
