//! Configuration assembly, the chain-source form round trip, and the text
//! helpers: decimal parsing, hex encoding, path building.

use ldk_server_gui::config::{
    api_key_path, network_to_dir_name, BitcoindSection, ChainSourceConfig, ChainSourceType,
    GuiConfig, ServerConfigFile,
};
use ldk_server_gui::dispatch::build_channel_config;
use ldk_server_gui::state::{AppState, ChainSourceForm};
use ldk_server_gui::text::{api_key_hex, parse_u32, parse_u64};

#[test]
fn parse_u64_exact_values() {
    assert_eq!(parse_u64("123"), Some(123));
    assert_eq!(parse_u64("0"), Some(0));
    assert_eq!(parse_u64("007"), Some(7));
    assert_eq!(parse_u64("+42"), Some(42));
    assert_eq!(parse_u64("18446744073709551615"), Some(u64::MAX));
    assert_eq!(parse_u64("18446744073709551616"), None);
    assert_eq!(parse_u64(""), None);
    assert_eq!(parse_u64("+"), None);
    assert_eq!(parse_u64("12a"), None);
    assert_eq!(parse_u64("-1"), None);
    assert_eq!(parse_u64(" 12"), None);
}

#[test]
fn parse_u64_matches_std() {
    for s in ["", "9", "+0", "4294967296", "99999999999999999999999", "1x", "  7"] {
        assert_eq!(parse_u64(s), s.parse::<u64>().ok(), "input {:?}", s);
    }
}

#[test]
fn parse_u32_range() {
    assert_eq!(parse_u32("4294967295"), Some(u32::MAX));
    assert_eq!(parse_u32("4294967296"), None);
    assert_eq!(parse_u32("600"), Some(600));
    assert_eq!(parse_u32("x"), None);
}

#[test]
fn hex_encoding_is_lowercase_two_digits_per_byte() {
    assert_eq!(api_key_hex(&vec![]), "");
    assert_eq!(api_key_hex(&vec![0x00, 0xff, 0x0f, 0xa0]), "00ff0fa0");
    assert_eq!(api_key_hex(&vec![0xde, 0xad, 0xbe, 0xef]), "deadbeef");
}

#[test]
fn network_directory_names() {
    assert_eq!(network_to_dir_name("bitcoin"), "bitcoin");
    assert_eq!(network_to_dir_name("mainnet"), "bitcoin");
    assert_eq!(network_to_dir_name("testnet"), "testnet");
    assert_eq!(network_to_dir_name("testnet4"), "testnet4");
    assert_eq!(network_to_dir_name("signet"), "signet");
    assert_eq!(network_to_dir_name("regtest"), "regtest");
    assert_eq!(network_to_dir_name("somenet"), "somenet");
}

#[test]
fn api_key_path_uses_network_directory() {
    assert_eq!(api_key_path("/data", "mainnet"), "/data/bitcoin/api_key");
    assert_eq!(api_key_path("/data", "regtest"), "/data/regtest/api_key");
}

fn base_file() -> ServerConfigFile {
    ServerConfigFile {
        network: "regtest".to_string(),
        rest_service_address: "127.0.0.1:3002".to_string(),
        storage_dir_path: "/data/ldk".to_string(),
        bitcoind: None,
        electrum_server_url: None,
        esplora_server_url: None,
    }
}

#[test]
fn gui_config_from_parsed_file() {
    let mut file = base_file();
    file.bitcoind = Some(BitcoindSection {
        rpc_address: "127.0.0.1:18443".to_string(),
        rpc_user: "user".to_string(),
        rpc_password: "pw".to_string(),
    });
    let cfg = GuiConfig::from_parsed(file, Some(vec![0xab, 0xcd]));
    assert_eq!(cfg.server_url, "127.0.0.1:3002");
    assert_eq!(cfg.api_key, "abcd");
    assert_eq!(cfg.tls_cert_path, "/data/ldk/tls.crt");
    assert_eq!(cfg.network, "regtest");
    assert!(matches!(cfg.chain_source, ChainSourceConfig::Bitcoind { .. }));
}

#[test]
fn chain_source_precedence() {
    let mut file = base_file();
    file.bitcoind = Some(BitcoindSection {
        rpc_address: "a".to_string(),
        rpc_user: "u".to_string(),
        rpc_password: "p".to_string(),
    });
    file.electrum_server_url = Some("ssl://e:50002".to_string());
    let cfg = GuiConfig::from_parsed(file, None);
    assert!(matches!(cfg.chain_source, ChainSourceConfig::Bitcoind { .. }));
    assert_eq!(cfg.api_key, "");

    let mut file = base_file();
    file.electrum_server_url = Some("ssl://e:50002".to_string());
    file.esplora_server_url = Some("https://esp/api".to_string());
    let cfg = GuiConfig::from_parsed(file, None);
    assert!(
        matches!(cfg.chain_source, ChainSourceConfig::Electrum { ref server_url } if server_url == "ssl://e:50002")
    );

    let cfg = GuiConfig::from_parsed(base_file(), None);
    assert!(matches!(cfg.chain_source, ChainSourceConfig::NoSource));
}

#[test]
fn chain_source_form_round_trip() {
    let configs = vec![
        ChainSourceConfig::NoSource,
        ChainSourceConfig::Bitcoind {
            rpc_address: "127.0.0.1:8332".to_string(),
            rpc_user: "u".to_string(),
            rpc_password: "p".to_string(),
        },
        ChainSourceConfig::Electrum { server_url: "ssl://e:50002".to_string() },
        ChainSourceConfig::Esplora { server_url: "https://esp/api".to_string() },
    ];
    for config in configs {
        let form = ChainSourceForm::from_config(&config);
        let back = form.to_config();
        match (&config, &back) {
            (ChainSourceConfig::NoSource, ChainSourceConfig::NoSource) => {},
            (
                ChainSourceConfig::Bitcoind { rpc_address: a1, rpc_user: u1, rpc_password: p1 },
                ChainSourceConfig::Bitcoind { rpc_address: a2, rpc_user: u2, rpc_password: p2 },
            ) => {
                assert_eq!(a1, a2);
                assert_eq!(u1, u2);
                assert_eq!(p1, p2);
            },
            (
                ChainSourceConfig::Electrum { server_url: s1 },
                ChainSourceConfig::Electrum { server_url: s2 },
            ) => assert_eq!(s1, s2),
            (
                ChainSourceConfig::Esplora { server_url: s1 },
                ChainSourceConfig::Esplora { server_url: s2 },
            ) => assert_eq!(s1, s2),
            _ => panic!("round trip changed the variant"),
        }
    }
}

#[test]
fn chain_source_labels() {
    assert_eq!(ChainSourceType::NoSource.label(), "None");
    assert_eq!(ChainSourceType::Bitcoind.label(), "Bitcoin Core RPC");
    assert_eq!(ChainSourceType::Electrum.label(), "Electrum");
    assert_eq!(ChainSourceType::Esplora.label(), "Esplora");
    assert_eq!(
        ChainSourceType::all(),
        vec![ChainSourceType::Bitcoind, ChainSourceType::Electrum, ChainSourceType::Esplora]
    );
}

#[test]
fn chain_source_types() {
    assert_eq!(ChainSourceConfig::NoSource.source_type(), ChainSourceType::NoSource);
    let btc = ChainSourceConfig::Bitcoind {
        rpc_address: "a".to_string(),
        rpc_user: "u".to_string(),
        rpc_password: "p".to_string(),
    };
    assert_eq!(btc.source_type(), ChainSourceType::Bitcoind);
    assert_eq!(
        ChainSourceConfig::Electrum { server_url: "e".to_string() }.source_type(),
        ChainSourceType::Electrum
    );
    assert_eq!(
        ChainSourceConfig::Esplora { server_url: "e".to_string() }.source_type(),
        ChainSourceType::Esplora
    );
}

#[test]
fn build_channel_config_requires_one_field() {
    assert!(build_channel_config("", "", "").is_none());
    assert!(build_channel_config("x", "y", "z").is_none());
    let cfg = build_channel_config("", "10", "").unwrap();
    assert_eq!(cfg.forwarding_fee_proportional_millionths, None);
    assert_eq!(cfg.forwarding_fee_base_msat, Some(10));
    assert_eq!(cfg.cltv_expiry_delta, None);
}

#[test]
fn apply_loaded_config_takes_over_settings() {
    let mut st = AppState::default();
    let mut file = base_file();
    file.electrum_server_url = Some("ssl://e:50002".to_string());
    let cfg = GuiConfig::from_parsed(file, Some(vec![0x01]));

    st.apply_loaded_config(cfg.clone(), None);
    assert_eq!(st.server_url, "127.0.0.1:3002");
    assert_eq!(st.api_key, "01");
    assert_eq!(st.network, "regtest");
    assert!(st.config_file_path.is_none());
    assert_eq!(
        st.status_message.as_ref().unwrap().text,
        "Config loaded from ldk-server-config.toml"
    );
    assert_eq!(st.forms.chain_source.source_type, ChainSourceType::Electrum);
    assert_eq!(st.forms.chain_source.server_url, "ssl://e:50002");

    st.apply_loaded_config(cfg, Some("/etc/ldk/ldk-server-config.toml".to_string()));
    assert_eq!(st.config_file_path.as_deref(), Some("/etc/ldk/ldk-server-config.toml"));
    assert_eq!(
        st.status_message.as_ref().unwrap().text,
        "Config loaded from /etc/ldk/ldk-server-config.toml"
    );
}
