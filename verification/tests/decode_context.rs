use prism_core::decode::decode_context::{DecodeContext, DecodeContextBuilder, OutputFormat};
use prism_core::types::network::{Network, NetworkConfig};

#[test]
fn builder_defaults_to_testnet() {
    let ctx = DecodeContext::builder().build();
    assert_eq!(ctx.network.network, Network::Testnet);
    assert_eq!(ctx.verbosity, 0);
    assert_eq!(ctx.output_format, OutputFormat::Human);
}

#[test]
fn builder_sets_all_fields() {
    let ctx = DecodeContext::builder()
        .network(NetworkConfig::mainnet())
        .verbosity(2)
        .output_format(OutputFormat::Json)
        .build();

    assert_eq!(ctx.network.network, Network::Mainnet);
    assert_eq!(ctx.verbosity, 2);
    assert_eq!(ctx.output_format, OutputFormat::Json);
}

#[test]
fn output_format_roundtrip() {
    for (s, expected) in [
        ("human", OutputFormat::Human),
        ("json", OutputFormat::Json),
        ("compact", OutputFormat::Compact),
        ("short", OutputFormat::Short),
        ("unknown", OutputFormat::Human),
    ] {
        assert_eq!(OutputFormat::from_str(s), expected);
        if s != "unknown" {
            assert_eq!(expected.as_str(), s);
        }
    }
}

#[test]
fn builder_from_network_config_ref() {
    let network = NetworkConfig::mainnet();
    let ctx = DecodeContextBuilder::from(&network).build();
    assert_eq!(ctx.network.network, Network::Mainnet);
}

#[test]
fn every_format_reads_back_from_its_name() {
    for f in [OutputFormat::Human, OutputFormat::Json, OutputFormat::Compact, OutputFormat::Short] {
        assert_eq!(OutputFormat::from_str(f.as_str()), f);
    }
}

#[test]
fn default_format_is_human() {
    assert_eq!(OutputFormat::default(), OutputFormat::Human);
}

#[test]
fn builder_from_network_copies_settings() {
    let network = NetworkConfig::testnet();
    let ctx = DecodeContextBuilder::from(&network).verbosity(3).build();
    assert_eq!(ctx.network.rpc_url, "https://soroban-testnet.stellar.org");
    assert_eq!(ctx.network.request_timeout_secs, 30);
    assert_eq!(ctx.verbosity, 3);
}
