//! The configuration of the radio, as plain values.

use crate::query::QueryError;
use vstd::prelude::*;
use vstd::string::*;

verus! {

/// The Graphcast network that the radio joins.
#[derive(Debug, Clone, Copy, PartialEq, Eq, Default, Structural)]
pub enum GraphcastNetworkName {
    Mainnet,
    #[default]
    Testnet,
}

/// How the signers of incoming messages are checked.
#[derive(Debug, Clone, Copy, PartialEq, Eq, Default, Structural)]
pub enum IdentityValidation {
    /// Every signer is valid.
    NoCheck,
    /// The signer needs to be a valid Ethereum address.
    ValidAddress,
    /// The signer must be registered at the Graphcast registry.
    GraphcastRegistered,
    /// The signer must be a Graph account.
    GraphNetworkAccount,
    /// The signer must be registered at the Graphcast registry and belong
    /// to an indexer with the minimum stake.
    RegisteredIndexer,
    /// The signer must be registered at the Graphcast registry or be a
    /// Graph account, and belong to an indexer with the minimum stake.
    #[default]
    Indexer,
}

/// The format of the log.
#[derive(Debug, Clone, Copy, PartialEq, Eq, Default, Structural)]
pub enum LogFormat {
    Compact,
    #[default]
    Pretty,
    Json,
    Full,
}

/// Accounts, keys and the subgraphs that are consulted.
#[derive(Clone, Debug, Default, PartialEq, Eq)]
pub struct GraphStack {
    /// Graph account corresponding to the operator (must be the subgraph
    /// owner of the upgrade intent subgraph)
    pub graph_account: String,
    /// Subgraph endpoint to the Graphcast Registry
    pub registry_subgraph: String,
    /// Subgraph endpoint to The Graph network subgraph
    pub network_subgraph: String,
    /// Private key to the Graphcast ID wallet (precedence over mnemonics)
    pub private_key: Option<String>,
    /// Mnemonic to the Graphcast ID wallet
    pub mnemonic: Option<String>,
}

/// How the radio runs.
#[derive(Clone, Debug, Default, PartialEq, Eq)]
pub struct RadioInfrastructure {
    pub graphcast_network: GraphcastNetworkName,
    /// Static list of content topics to subscribe to
    pub topics: Vec<String>,
    pub slack_token: Option<String>,
    pub slack_channel: Option<String>,
    pub discord_webhook: Option<String>,
    pub telegram_token: Option<String>,
    pub telegram_chat_id: Option<i64>,
    pub radio_name: String,
    pub id_validation: IdentityValidation,
    pub topic_update_interval: u64,
    pub log_level: String,
    pub log_format: LogFormat,
}

/// The gossip node.
#[derive(Clone, Debug, Default, PartialEq, Eq)]
pub struct Waku {
    pub waku_host: Option<String>,
    pub waku_port: Option<String>,
    pub waku_node_key: Option<String>,
    pub waku_addr: Option<String>,
    pub boot_node_addresses: Vec<String>,
    pub waku_log_level: Option<String>,
    pub discv5_enrs: Option<Vec<String>>,
    pub discv5_port: Option<u16>,
    pub filter_protocol: Option<bool>,
}

/// What the radio is asked to do.
#[derive(Clone, Debug, PartialEq, Eq)]
pub enum Commands {
    /// Send an upgrade intent for a subgraph.
    UpgradePresync(UpgradePresyncArg),
    /// Ask the indexers how far they have come with a deployment.
    IndexingStatus(IndexingStatusArg),
}

/// The upgrade to announce.
#[derive(Clone, Debug, Default, PartialEq, Eq)]
pub struct UpgradePresyncArg {
    /// Subgraph id shared by the old and new deployment
    pub subgraph_id: String,
    /// Subgraph hash for the upgrade version of the subgraph
    pub new_hash: String,
}

/// The deployment to ask about.
#[derive(Clone, Debug, Default, PartialEq, Eq)]
pub struct IndexingStatusArg {
    /// Subgraph id shared by the old and new deployment
    pub subgraph_id: String,
    /// Subgraph hash for the upgrade version of the subgraph
    pub new_hash: String,
}

/// Everything the radio is configured with.
#[derive(Clone, Debug, PartialEq, Eq)]
pub struct Config {
    pub graph_stack: GraphStack,
    pub waku: Waku,
    pub radio_infrastructure: RadioInfrastructure,
    pub subcommand: Commands,
    /// Number of tries for the subcommand
    pub max_retry: u64,
    /// Configuration file (toml or yaml format)
    pub config_file: Option<String>,
}

/// What can be wrong with a configuration. Where the cause lies outside
/// this crate the variant holds its text.
#[derive(Debug, Clone, PartialEq, Eq)]
pub enum ConfigError {
    ValidateInput(String),
    GenerateJson(String),
    QueryError(QueryError),
    ReadStr(String),
    Other(String),
}

/// What a Graphcast agent is set up with, in the order in which the agent
/// takes it.
#[derive(Debug, Clone, PartialEq, Eq)]
pub struct GraphcastAgentSettings {
    pub wallet_key: String,
    pub graph_account: String,
    pub radio_name: String,
    pub registry_subgraph: String,
    pub network_subgraph: String,
    pub id_validation: IdentityValidation,
    pub boot_node_addresses: Vec<String>,
    pub graphcast_network: String,
    pub topics: Vec<String>,
    pub waku_node_key: Option<String>,
    pub waku_host: Option<String>,
    pub waku_port: Option<String>,
    pub waku_addr: Option<String>,
    pub filter_protocol: Option<bool>,
    pub discv5_enrs: Option<Vec<String>>,
    pub discv5_port: Option<u16>,
}

/// The message that asks for a key.
pub open spec fn missing_wallet_notice() -> Seq<char> {
    "Must provide either private key or mnemonic"@
}

impl GraphcastNetworkName {
    /// The name of the network in lower case.
    pub open spec fn name(self) -> Seq<char> {
        match self {
            GraphcastNetworkName::Mainnet => "mainnet"@,
            GraphcastNetworkName::Testnet => "testnet"@,
        }
    }

    /// The name of the network in lower case.
    pub fn to_string(&self) -> (text: String)
        ensures
            text@ == self.name(),
    {
        match self {
            GraphcastNetworkName::Mainnet => "mainnet".to_owned(),
            GraphcastNetworkName::Testnet => "testnet".to_owned(),
        }
    }
}

fn clone_texts(texts: &Vec<String>) -> (copy: Vec<String>)
    ensures
        copy@ == texts@,
{
    let mut copy: Vec<String> = Vec::new();
    let mut i: usize = 0;
    while i < texts.len()
        invariant
            i <= texts.len(),
            copy@ == texts@.take(i as int),
        decreases texts.len() - i,
    {
        copy.push(texts[i].clone());
        i = i + 1;
    }
    copy
}

fn clone_optional_text(text: &Option<String>) -> (copy: Option<String>)
    ensures
        copy == *text,
{
    match text {
        Some(t) => Some(t.clone()),
        None => None,
    }
}

/// The texts of an optional list, where there is one.
pub open spec fn optional_texts(texts: Option<Vec<String>>) -> Option<Seq<String>> {
    match texts {
        Some(t) => Some(t@),
        None => None,
    }
}

fn clone_optional_texts(texts: &Option<Vec<String>>) -> (copy: Option<Vec<String>>)
    ensures
        optional_texts(copy) == optional_texts(*texts),
{
    match texts {
        Some(t) => Some(clone_texts(t)),
        None => None,
    }
}

impl GraphStack {
    /// The Graph account of the operator.
    pub fn graph_account(&self) -> (r: &String)
        ensures
            r == self.graph_account,
    {
        &self.graph_account
    }

    /// The endpoint of the Graphcast registry subgraph.
    pub fn registry_subgraph(&self) -> (r: &String)
        ensures
            r == self.registry_subgraph,
    {
        &self.registry_subgraph
    }

    /// The endpoint of the network subgraph.
    pub fn network_subgraph(&self) -> (r: &String)
        ensures
            r == self.network_subgraph,
    {
        &self.network_subgraph
    }

    /// The private key of the wallet, if one is configured.
    pub fn private_key(&self) -> (r: &Option<String>)
        ensures
            r == self.private_key,
    {
        &self.private_key
    }

    /// The mnemonic of the wallet, if one is configured.
    pub fn mnemonic(&self) -> (r: &Option<String>)
        ensures
            r == self.mnemonic,
    {
        &self.mnemonic
    }
}

impl Config {
    /// Accounts, keys and subgraphs.
    pub fn graph_stack(&self) -> (r: &GraphStack)
        ensures
            r == self.graph_stack,
    {
        &self.graph_stack
    }

    /// The settings of the gossip node.
    pub fn waku(&self) -> (r: &Waku)
        ensures
            r == self.waku,
    {
        &self.waku
    }

    /// How the radio runs.
    pub fn radio_infrastructure(&self) -> (r: &RadioInfrastructure)
        ensures
            r == self.radio_infrastructure,
    {
        &self.radio_infrastructure
    }

    /// What the radio is asked to do.
    pub fn subcommand(&self) -> (r: &Commands)
        ensures
            r == self.subcommand,
    {
        &self.subcommand
    }

    /// How often a failed send is tried again.
    pub fn max_retry(&self) -> (r: &u64)
        ensures
            r == self.max_retry,
    {
        &self.max_retry
    }

    /// The configuration file, if one is named.
    pub fn config_file(&self) -> (r: &Option<String>)
        ensures
            r == self.config_file,
    {
        &self.config_file
    }

    /// Which secret the wallet is built from.
    pub open spec fn wallet_secret(self) -> Option<String> {
        match self.graph_stack.private_key {
            Some(key) => Some(key),
            None => self.graph_stack.mnemonic,
        }
    }

    /// Private key takes precedence over mnemonic
    pub fn wallet_input(&self) -> (r: Result<&String, ConfigError>)
        ensures
            match self.wallet_secret() {
                Some(secret) => r == Ok::<&String, ConfigError>(&secret),
                None => r matches Err(ConfigError::ValidateInput(notice)) && notice@
                    == missing_wallet_notice(),
            },
    {
        match (&self.graph_stack.private_key, &self.graph_stack.mnemonic) {
            (Some(p), _) => Ok(p),
            (_, Some(m)) => Ok(m),
            _ => Err(
                ConfigError::ValidateInput("Must provide either private key or mnemonic".to_owned()),
            ),
        }
    }

    /// What a Graphcast agent for this configuration is set up with: the
    /// wallet secret and every setting of the configuration that the agent
    /// takes, unchanged, with the network spelled by its name. It takes a
    /// configuration with a private key or a mnemonic;
    /// [`Config::wallet_input`] tells whether there is one.
    pub fn to_graphcast_agent_config(&self) -> (settings: GraphcastAgentSettings)
        requires
            self.wallet_secret() is Some,
        ensures
            settings.wallet_key == self.wallet_secret()->0,
            settings.graph_account == self.graph_stack.graph_account,
            settings.radio_name == self.radio_infrastructure.radio_name,
            settings.registry_subgraph == self.graph_stack.registry_subgraph,
            settings.network_subgraph == self.graph_stack.network_subgraph,
            settings.id_validation == self.radio_infrastructure.id_validation,
            settings.boot_node_addresses@ == self.waku.boot_node_addresses@,
            settings.graphcast_network@ == self.radio_infrastructure.graphcast_network.name(),
            settings.topics@ == self.radio_infrastructure.topics@,
            settings.waku_node_key == self.waku.waku_node_key,
            settings.waku_host == self.waku.waku_host,
            settings.waku_port == self.waku.waku_port,
            settings.waku_addr == self.waku.waku_addr,
            settings.filter_protocol == self.waku.filter_protocol,
            optional_texts(settings.discv5_enrs) == optional_texts(self.waku.discv5_enrs),
            settings.discv5_port == self.waku.discv5_port,
    {
        let wallet_key = self.wallet_input().unwrap().clone();
        GraphcastAgentSettings {
            wallet_key,
            graph_account: self.graph_stack.graph_account.clone(),
            radio_name: self.radio_infrastructure.radio_name.clone(),
            registry_subgraph: self.graph_stack.registry_subgraph.clone(),
            network_subgraph: self.graph_stack.network_subgraph.clone(),
            id_validation: self.radio_infrastructure.id_validation,
            boot_node_addresses: clone_texts(&self.waku.boot_node_addresses),
            graphcast_network: self.radio_infrastructure.graphcast_network.to_string(),
            topics: clone_texts(&self.radio_infrastructure.topics),
            waku_node_key: clone_optional_text(&self.waku.waku_node_key),
            waku_host: clone_optional_text(&self.waku.waku_host),
            waku_port: clone_optional_text(&self.waku.waku_port),
            waku_addr: clone_optional_text(&self.waku.waku_addr),
            filter_protocol: self.waku.filter_protocol,
            discv5_enrs: clone_optional_texts(&self.waku.discv5_enrs),
            discv5_port: self.waku.discv5_port,
        }
    }
}

} // verus!
