use graphcast_cli::messages::upgrade::UpgradeIntentMessage;

#[test]
fn new_keeps_every_field() {
    let message = UpgradeIntentMessage::new(
        "subgraph".to_string(),
        "QmNewHash".to_string(),
        1_700_000_000,
        "0xaccount".to_string(),
    );
    assert_eq!(message.subgraph_id, "subgraph");
    assert_eq!(message.new_hash, "QmNewHash");
    assert_eq!(message.nonce, 1_700_000_000);
    assert_eq!(message.graph_account, "0xaccount");
}

#[test]
fn build_uses_the_timestamp_as_nonce() {
    let built = UpgradeIntentMessage::build(
        "subgraph".to_string(),
        "QmNewHash".to_string(),
        -5,
        "0xaccount".to_string(),
    );
    let made = UpgradeIntentMessage::new(
        "subgraph".to_string(),
        "QmNewHash".to_string(),
        -5,
        "0xaccount".to_string(),
    );
    assert_eq!(built, made);
    assert_eq!(built.nonce, -5);
}
