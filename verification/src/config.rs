//! Configuration data as the client uses it: the connection settings extracted
//! from a server configuration file, and the chain-source section.
//!
//! Reading, parsing and writing the file itself is I/O and stays with the caller;
//! this module holds the assembly rules: which directory a network maps to, where
//! the generated API key and the TLS certificate live under the storage directory,
//! and which chain-source section wins when several are present.

use vstd::prelude::*;
use vstd::string::StringExecFns;
use crate::text::{str_eq, hex_of};

verus! {

/// Chain source type for UI selection
#[derive(Debug, Clone, Copy, PartialEq, Eq, Structural)]
pub enum ChainSourceType {
    NoSource,
    Bitcoind,
    Electrum,
    Esplora,
}

impl Default for ChainSourceType {
    fn default() -> (r: Self)
        ensures
            r == ChainSourceType::NoSource,
    {
        ChainSourceType::NoSource
    }
}

impl ChainSourceType {
    /// The selectable chain source types, in the order the UI offers them.
    pub fn all() -> (r: Vec<ChainSourceType>)
        ensures
            r@ == seq![
                ChainSourceType::Bitcoind,
                ChainSourceType::Electrum,
                ChainSourceType::Esplora,
            ],
    {
        let mut v: Vec<ChainSourceType> = Vec::new();
        v.push(ChainSourceType::Bitcoind);
        v.push(ChainSourceType::Electrum);
        v.push(ChainSourceType::Esplora);
        proof {
            assert(v@ =~= seq![
                ChainSourceType::Bitcoind,
                ChainSourceType::Electrum,
                ChainSourceType::Esplora,
            ]);
        }
        v
    }

    pub fn label(&self) -> (r: &'static str)
        ensures
            r@ == match *self {
                ChainSourceType::NoSource => "None"@,
                ChainSourceType::Bitcoind => "Bitcoin Core RPC"@,
                ChainSourceType::Electrum => "Electrum"@,
                ChainSourceType::Esplora => "Esplora"@,
            },
    {
        match self {
            ChainSourceType::NoSource => "None",
            ChainSourceType::Bitcoind => "Bitcoin Core RPC",
            ChainSourceType::Electrum => "Electrum",
            ChainSourceType::Esplora => "Esplora",
        }
    }
}

/// Chain source configuration (Bitcoind RPC, Electrum, or Esplora)
#[derive(Debug, Clone)]
pub enum ChainSourceConfig {
    NoSource,
    Bitcoind { rpc_address: String, rpc_user: String, rpc_password: String },
    Electrum { server_url: String },
    Esplora { server_url: String },
}

impl Default for ChainSourceConfig {
    fn default() -> (r: Self)
        ensures
            r == ChainSourceConfig::NoSource,
    {
        ChainSourceConfig::NoSource
    }
}

impl ChainSourceConfig {
    pub fn source_type(&self) -> (r: ChainSourceType)
        ensures
            r == match *self {
                ChainSourceConfig::NoSource => ChainSourceType::NoSource,
                ChainSourceConfig::Bitcoind { .. } => ChainSourceType::Bitcoind,
                ChainSourceConfig::Electrum { .. } => ChainSourceType::Electrum,
                ChainSourceConfig::Esplora { .. } => ChainSourceType::Esplora,
            },
    {
        match self {
            ChainSourceConfig::NoSource => ChainSourceType::NoSource,
            ChainSourceConfig::Bitcoind { .. } => ChainSourceType::Bitcoind,
            ChainSourceConfig::Electrum { .. } => ChainSourceType::Electrum,
            ChainSourceConfig::Esplora { .. } => ChainSourceType::Esplora,
        }
    }
}

/// GUI-specific config extracted from a server config file.
#[derive(Debug, Clone)]
pub struct GuiConfig {
    pub server_url: String,
    pub api_key: String,
    pub tls_cert_path: String,
    pub network: String,
    pub chain_source: ChainSourceConfig,
}

impl Default for GuiConfig {
    fn default() -> (r: Self)
        ensures
            r.server_url@ == Seq::<char>::empty(),
            r.api_key@ == Seq::<char>::empty(),
            r.tls_cert_path@ == Seq::<char>::empty(),
            r.network@ == Seq::<char>::empty(),
            r.chain_source == ChainSourceConfig::NoSource,
    {
        GuiConfig {
            server_url: String::new(),
            api_key: String::new(),
            tls_cert_path: String::new(),
            network: String::new(),
            chain_source: ChainSourceConfig::NoSource,
        }
    }
}

/// The directory name the server uses for a network.
pub open spec fn dir_name_spec(network: Seq<char>) -> Seq<char> {
    if network == "bitcoin"@ || network == "mainnet"@ {
        "bitcoin"@
    } else {
        network
    }
}

/// Map network string to the directory name used by the server.
pub fn network_to_dir_name<'a>(network: &'a str) -> (r: &'a str)
    ensures
        r@ == dir_name_spec(network@),
{
    if str_eq(network, "bitcoin") || str_eq(network, "mainnet") {
        "bitcoin"
    } else if str_eq(network, "testnet") {
        "testnet"
    } else if str_eq(network, "testnet4") {
        "testnet4"
    } else if str_eq(network, "signet") {
        "signet"
    } else if str_eq(network, "regtest") {
        "regtest"
    } else {
        network
    }
}

/// Where the server stores the generated API key: {storage_dir}/{network dir}/api_key.
pub fn api_key_path(storage_dir: &str, network: &str) -> (r: String)
    ensures
        r@ == storage_dir@ + "/"@ + dir_name_spec(network@) + "/api_key"@,
{
    let mut p = storage_dir.to_owned();
    p.append("/");
    p.append(network_to_dir_name(network));
    p.append("/api_key");
    p
}

/// Where the server stores its TLS certificate: {storage_dir}/tls.crt.
pub fn tls_cert_path(storage_dir: &str) -> (r: String)
    ensures
        r@ == storage_dir@ + "/tls.crt"@,
{
    let mut p = storage_dir.to_owned();
    p.append("/tls.crt");
    p
}

/// The `bitcoind` section of a server config file.
#[derive(Debug, Clone)]
pub struct BitcoindSection {
    pub rpc_address: String,
    pub rpc_user: String,
    pub rpc_password: String,
}

/// The fields of a server config file that matter for connecting as a client,
/// already parsed into plain values by the caller.
#[derive(Debug, Clone)]
pub struct ServerConfigFile {
    pub network: String,
    pub rest_service_address: String,
    pub storage_dir_path: String,
    pub bitcoind: Option<BitcoindSection>,
    pub electrum_server_url: Option<String>,
    pub esplora_server_url: Option<String>,
}

/// Which chain source a config file selects: bitcoind wins over electrum, which
/// wins over esplora; with no section there is no chain source.
pub open spec fn chain_source_of_file(file: ServerConfigFile) -> ChainSourceConfig {
    if file.bitcoind is Some {
        ChainSourceConfig::Bitcoind {
            rpc_address: file.bitcoind->0.rpc_address,
            rpc_user: file.bitcoind->0.rpc_user,
            rpc_password: file.bitcoind->0.rpc_password,
        }
    } else if file.electrum_server_url is Some {
        ChainSourceConfig::Electrum { server_url: file.electrum_server_url->0 }
    } else if file.esplora_server_url is Some {
        ChainSourceConfig::Esplora { server_url: file.esplora_server_url->0 }
    } else {
        ChainSourceConfig::NoSource
    }
}

impl GuiConfig {
    /// Assemble the GUI configuration from a parsed config file and the raw bytes
    /// of the generated API key file, if that file could be read.  The server
    /// ignores any api_key field in the config file; the key is always the hex of
    /// the generated file's bytes, or empty when there is none.
    pub fn from_parsed(file: ServerConfigFile, api_key_bytes: Option<Vec<u8>>) -> (r: GuiConfig)
        ensures
            r.server_url == file.rest_service_address,
            r.api_key@ == match api_key_bytes {
                Some(bytes) => hex_of(bytes@),
                None => Seq::<char>::empty(),
            },
            r.tls_cert_path@ == file.storage_dir_path@ + "/tls.crt"@,
            r.network == file.network,
            r.chain_source == chain_source_of_file(file),
    {
        let tls = tls_cert_path(file.storage_dir_path.as_str());
        let api_key = match api_key_bytes {
            Some(bytes) => crate::text::api_key_hex(&bytes),
            None => String::new(),
        };
        let chain_source = match file.bitcoind {
            Some(btc) => ChainSourceConfig::Bitcoind {
                rpc_address: btc.rpc_address,
                rpc_user: btc.rpc_user,
                rpc_password: btc.rpc_password,
            },
            None => match file.electrum_server_url {
                Some(server_url) => ChainSourceConfig::Electrum { server_url },
                None => match file.esplora_server_url {
                    Some(server_url) => ChainSourceConfig::Esplora { server_url },
                    None => ChainSourceConfig::NoSource,
                },
            },
        };
        GuiConfig {
            server_url: file.rest_service_address,
            api_key,
            tls_cert_path: tls,
            network: file.network,
            chain_source,
        }
    }
}

} // verus!
