use zklogin_verifier::network::{ProofEnvironment, SuiEnv};

#[test]
fn mainnet_is_the_default_network() {
    assert_eq!(SuiEnv::default(), SuiEnv::Mainnet);
}

#[test]
fn each_network_has_its_endpoint_and_parameters() {
    assert_eq!(
        SuiEnv::Mainnet.get_params(),
        ("https://fullnode.mainnet.sui.io:443", ProofEnvironment::Production)
    );
    assert_eq!(
        SuiEnv::Testnet.get_params(),
        ("https://fullnode.testnet.sui.io:443", ProofEnvironment::Production)
    );
    assert_eq!(
        SuiEnv::Devnet.get_params(),
        ("https://fullnode.devnet.sui.io:443", ProofEnvironment::Test)
    );
    assert_eq!(SuiEnv::Localnet.get_params(), ("http://127.0.0.1:9000", ProofEnvironment::Test));
}
