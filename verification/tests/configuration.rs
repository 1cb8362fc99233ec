use graphcast_cli::config::{
    Commands, Config, ConfigError, GraphStack, GraphcastNetworkName, IdentityValidation,
    IndexingStatusArg, LogFormat, RadioInfrastructure, UpgradePresyncArg, Waku,
};
use graphcast_cli::operator::RadioOperator;

fn config(private_key: Option<&str>, mnemonic: Option<&str>) -> Config {
    Config {
        graph_stack: GraphStack {
            graph_account: "0xowner".to_string(),
            registry_subgraph: "https://registry.example".to_string(),
            network_subgraph: "https://network.example".to_string(),
            private_key: private_key.map(str::to_string),
            mnemonic: mnemonic.map(str::to_string),
        },
        waku: Waku {
            waku_host: Some("0.0.0.0".to_string()),
            waku_port: Some("60000".to_string()),
            waku_node_key: None,
            waku_addr: Some("/ip4/1.2.3.4".to_string()),
            boot_node_addresses: vec!["/dns4/a".to_string(), "/dns4/b".to_string()],
            waku_log_level: Some("warn".to_string()),
            discv5_enrs: Some(vec!["enr:-1".to_string()]),
            discv5_port: Some(9000),
            filter_protocol: Some(true),
        },
        radio_infrastructure: RadioInfrastructure {
            graphcast_network: GraphcastNetworkName::Mainnet,
            topics: vec!["QmOne".to_string(), "QmTwo".to_string()],
            slack_token: None,
            slack_channel: None,
            discord_webhook: None,
            telegram_token: None,
            telegram_chat_id: Some(-7),
            radio_name: "subgraph-radio".to_string(),
            id_validation: IdentityValidation::GraphNetworkAccount,
            topic_update_interval: 600,
            log_level: "info".to_string(),
            log_format: LogFormat::Json,
        },
        subcommand: Commands::IndexingStatus(IndexingStatusArg {
            subgraph_id: "0xsubgraph-1".to_string(),
            new_hash: "QmNew".to_string(),
        }),
        max_retry: 5,
        config_file: Some("config.toml".to_string()),
    }
}

#[test]
fn private_key_takes_precedence_over_mnemonic() {
    assert_eq!(config(Some("key"), Some("words")).wallet_input(), Ok(&"key".to_string()));
    assert_eq!(config(Some("key"), None).wallet_input(), Ok(&"key".to_string()));
}

#[test]
fn mnemonic_serves_where_there_is_no_private_key() {
    assert_eq!(config(None, Some("words")).wallet_input(), Ok(&"words".to_string()));
}

#[test]
fn wallet_input_asks_for_a_key_where_there_is_none() {
    assert_eq!(
        config(None, None).wallet_input(),
        Err(ConfigError::ValidateInput("Must provide either private key or mnemonic".to_string()))
    );
}

#[test]
fn agent_settings_take_every_setting_over() {
    let config = config(None, Some("words"));
    let settings = config.to_graphcast_agent_config();
    assert_eq!(settings.wallet_key, "words");
    assert_eq!(settings.graph_account, "0xowner");
    assert_eq!(settings.radio_name, "subgraph-radio");
    assert_eq!(settings.registry_subgraph, "https://registry.example");
    assert_eq!(settings.network_subgraph, "https://network.example");
    assert_eq!(settings.id_validation, IdentityValidation::GraphNetworkAccount);
    assert_eq!(settings.boot_node_addresses, vec!["/dns4/a".to_string(), "/dns4/b".to_string()]);
    assert_eq!(settings.graphcast_network, "mainnet");
    assert_eq!(settings.topics, vec!["QmOne".to_string(), "QmTwo".to_string()]);
    assert_eq!(settings.waku_node_key, None);
    assert_eq!(settings.waku_host, Some("0.0.0.0".to_string()));
    assert_eq!(settings.waku_port, Some("60000".to_string()));
    assert_eq!(settings.waku_addr, Some("/ip4/1.2.3.4".to_string()));
    assert_eq!(settings.filter_protocol, Some(true));
    assert_eq!(settings.discv5_enrs, Some(vec!["enr:-1".to_string()]));
    assert_eq!(settings.discv5_port, Some(9000));
}

#[test]
fn agent_settings_hold_the_private_key_before_the_mnemonic() {
    let both = config(Some("key"), Some("words"));
    assert_eq!(both.wallet_input(), Ok(&"key".to_string()));
    assert_eq!(both.to_graphcast_agent_config().wallet_key, "key");
    let key_only = config(Some("key"), None);
    assert_eq!(key_only.to_graphcast_agent_config().wallet_key, "key");
}

#[test]
fn configuration_without_secret_is_told_by_wallet_input() {
    let bare = config(None, None);
    assert_eq!(
        bare.wallet_input(),
        Err(ConfigError::ValidateInput("Must provide either private key or mnemonic".to_string()))
    );
    assert!(config(None, Some("words")).wallet_input().is_ok());
}

#[test]
fn network_names_are_lower_case() {
    assert_eq!(GraphcastNetworkName::Mainnet.to_string(), "mainnet");
    assert_eq!(GraphcastNetworkName::Testnet.to_string(), "testnet");
}

#[test]
fn defaults_are_those_of_the_command_line() {
    assert_eq!(GraphcastNetworkName::default(), GraphcastNetworkName::Testnet);
    assert_eq!(IdentityValidation::default(), IdentityValidation::Indexer);
    assert_eq!(LogFormat::default(), LogFormat::Pretty);
    assert_eq!(UpgradePresyncArg::default().subgraph_id, "");
}

#[test]
fn getters_hand_out_the_fields() {
    let config = config(Some("key"), Some("words"));
    assert_eq!(config.graph_stack(), &config.graph_stack);
    assert_eq!(config.waku(), &config.waku);
    assert_eq!(config.radio_infrastructure(), &config.radio_infrastructure);
    assert_eq!(config.subcommand(), &config.subcommand);
    assert_eq!(config.max_retry(), &5);
    assert_eq!(config.config_file(), &Some("config.toml".to_string()));
    assert_eq!(config.graph_stack().graph_account(), "0xowner");
    assert_eq!(config.graph_stack().registry_subgraph(), "https://registry.example");
    assert_eq!(config.graph_stack().network_subgraph(), "https://network.example");
    assert_eq!(config.graph_stack().private_key(), &Some("key".to_string()));
    assert_eq!(config.graph_stack().mnemonic(), &Some("words".to_string()));
}

#[test]
fn operator_keeps_its_configuration() {
    let config = config(Some("key"), None);
    let operator = RadioOperator::new(config.clone());
    assert_eq!(operator.config(), &config);
}
