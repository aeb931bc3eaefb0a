use api_derive::blockchain_config::ParamsOfGetBlockchainConfig;
use api_derive::blockchain_config::ResultOfGetBlockchainConfig;

#[test]
fn default_params_are_empty() {
    let params = ParamsOfGetBlockchainConfig::default();
    assert_eq!(params.block_boc, "");
}

#[test]
fn default_result_is_empty() {
    let result = ResultOfGetBlockchainConfig::default();
    assert_eq!(result.config_boc, "");
}

#[test]
fn records_keep_their_text() {
    let params = ParamsOfGetBlockchainConfig { block_boc: "te6ccgEBAQEAAgAAAA==".to_string() };
    assert_eq!(params.clone().block_boc, "te6ccgEBAQEAAgAAAA==");
    let result = ResultOfGetBlockchainConfig { config_boc: params.block_boc.clone() };
    assert_eq!(result.config_boc, params.block_boc);
}
