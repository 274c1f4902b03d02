use zingo_netutils::error::transparent::{
    GetAddressUtxosError, GetAddressUtxosStreamError, GetTaddressBalanceError,
    GetTaddressBalanceStreamError, GetTaddressTransactionsError, GetTaddressTxidsError,
};
use zingo_netutils::error::grpc_error_text;
use zingo_netutils::{
    GetBlockError, GetBlockNullifiersError, GetBlockRangeError, GetBlockRangeNullifiersError,
    GetClientError, GetInfoError, GetLatestBlockError, GetLatestTreeStateError,
    GetMempoolStreamError, GetMempoolTxError, GetSubtreeRootsError, GetTransactionError,
    GetTreeStateError, PingError, RpcError, SendTransactionError,
};

fn test_status() -> tonic::Status {
    tonic::Status::internal("test error")
}

fn test_client_error() -> GetClientError {
    GetClientError::InvalidScheme
}

#[test]
fn invalid_scheme() {
    let e = GetClientError::InvalidScheme;
    assert!(matches!(e, GetClientError::InvalidScheme));
    assert_eq!(e.to_string(), "bad uri: invalid scheme");
}

#[test]
fn invalid_authority() {
    let e = GetClientError::InvalidAuthority;
    assert!(matches!(e, GetClientError::InvalidAuthority));
    assert_eq!(e.to_string(), "bad uri: invalid authority");
}

#[test]
fn transport_from_conversion() {
    // Verify the From impl exists at compile time.
    let _: fn(tonic::transport::Error) -> GetClientError = GetClientError::from;
}

#[test]
fn from_get_client_error() {
    let inner = test_client_error();
    let e = SendTransactionError::from(inner);
    assert!(matches!(e, SendTransactionError::GetClientError(_)));
}

#[test]
fn from_status() {
    let status = test_status();
    let e = SendTransactionError::from(status);
    assert!(matches!(e, SendTransactionError::SendTransactionError(_)));
}

#[test]
fn send_rejected() {
    let e = SendTransactionError::SendRejected("bad tx".into());
    assert!(matches!(e, SendTransactionError::SendRejected(_)));
    assert_eq!(e.to_string(), "send rejected: bad tx");
}

#[test]
fn send_transaction_status_message() {
    let e = SendTransactionError::from(test_status());
    let text = e.to_string();
    assert!(text.starts_with("gRPC error: "));
    assert!(text.contains("test error"));
}

#[test]
fn grpc_error_text_prefixes_the_status() {
    assert_eq!(grpc_error_text("code: 'Internal error'"), "gRPC error: code: 'Internal error'");
    assert_eq!(grpc_error_text(""), "gRPC error: ");
}

#[test]
fn transport_error_from_a_refused_endpoint() {
    let err = tonic::transport::Endpoint::from_shared("not a uri".to_string()).unwrap_err();
    let e = GetClientError::from(err);
    assert!(matches!(e, GetClientError::Transport(_)));
    assert!(!e.to_string().is_empty());
}

#[test]
fn get_info_error_from_get_client_error() {
    let e = GetInfoError::from(test_client_error());
    assert!(matches!(e, GetInfoError::GetClientError(_)));
    assert!(e.to_string().contains("invalid scheme"));
}

#[test]
fn get_info_error_from_status() {
    let e = GetInfoError::from(test_status());
    assert!(matches!(e, GetInfoError::GetLightdInfoError(_)));
    assert!(e.to_string().contains("test error"));
    assert!(e.to_string().starts_with("gRPC error: "));
}

#[test]
fn get_latest_block_error_from_get_client_error() {
    let e = GetLatestBlockError::from(test_client_error());
    assert!(matches!(e, GetLatestBlockError::GetClientError(_)));
    assert!(e.to_string().contains("invalid scheme"));
}

#[test]
fn get_latest_block_error_from_status() {
    let e = GetLatestBlockError::from(test_status());
    assert!(matches!(e, GetLatestBlockError::GetLatestBlockError(_)));
    assert!(e.to_string().contains("test error"));
    assert!(e.to_string().starts_with("gRPC error: "));
}

#[test]
fn get_tree_state_error_from_get_client_error() {
    let e = GetTreeStateError::from(test_client_error());
    assert!(matches!(e, GetTreeStateError::GetClientError(_)));
    assert!(e.to_string().contains("invalid scheme"));
}

#[test]
fn get_tree_state_error_from_status() {
    let e = GetTreeStateError::from(test_status());
    assert!(matches!(e, GetTreeStateError::GetTreeStateError(_)));
    assert!(e.to_string().contains("test error"));
    assert!(e.to_string().starts_with("gRPC error: "));
}

#[test]
fn get_block_error_from_get_client_error() {
    let e = GetBlockError::from(test_client_error());
    assert!(matches!(e, GetBlockError::GetClientError(_)));
    assert!(e.to_string().contains("invalid scheme"));
}

#[test]
fn get_block_error_from_status() {
    let e = GetBlockError::from(test_status());
    assert!(matches!(e, GetBlockError::GetBlockError(_)));
    assert!(e.to_string().contains("test error"));
    assert!(e.to_string().starts_with("gRPC error: "));
}

#[test]
fn get_block_nullifiers_error_from_get_client_error() {
    let e = GetBlockNullifiersError::from(test_client_error());
    assert!(matches!(e, GetBlockNullifiersError::GetClientError(_)));
    assert!(e.to_string().contains("invalid scheme"));
}

#[test]
fn get_block_nullifiers_error_from_status() {
    let e = GetBlockNullifiersError::from(test_status());
    assert!(matches!(e, GetBlockNullifiersError::GetBlockNullifiersError(_)));
    assert!(e.to_string().contains("test error"));
    assert!(e.to_string().starts_with("gRPC error: "));
}

#[test]
fn get_block_range_error_from_get_client_error() {
    let e = GetBlockRangeError::from(test_client_error());
    assert!(matches!(e, GetBlockRangeError::GetClientError(_)));
    assert!(e.to_string().contains("invalid scheme"));
}

#[test]
fn get_block_range_error_from_status() {
    let e = GetBlockRangeError::from(test_status());
    assert!(matches!(e, GetBlockRangeError::GetBlockRangeError(_)));
    assert!(e.to_string().contains("test error"));
    assert!(e.to_string().starts_with("gRPC error: "));
}

#[test]
fn get_block_range_nullifiers_error_from_get_client_error() {
    let e = GetBlockRangeNullifiersError::from(test_client_error());
    assert!(matches!(e, GetBlockRangeNullifiersError::GetClientError(_)));
    assert!(e.to_string().contains("invalid scheme"));
}

#[test]
fn get_block_range_nullifiers_error_from_status() {
    let e = GetBlockRangeNullifiersError::from(test_status());
    assert!(matches!(e, GetBlockRangeNullifiersError::GetBlockRangeNullifiersError(_)));
    assert!(e.to_string().contains("test error"));
    assert!(e.to_string().starts_with("gRPC error: "));
}

#[test]
fn get_transaction_error_from_get_client_error() {
    let e = GetTransactionError::from(test_client_error());
    assert!(matches!(e, GetTransactionError::GetClientError(_)));
    assert!(e.to_string().contains("invalid scheme"));
}

#[test]
fn get_transaction_error_from_status() {
    let e = GetTransactionError::from(test_status());
    assert!(matches!(e, GetTransactionError::GetTransactionError(_)));
    assert!(e.to_string().contains("test error"));
    assert!(e.to_string().starts_with("gRPC error: "));
}

#[test]
fn get_mempool_tx_error_from_get_client_error() {
    let e = GetMempoolTxError::from(test_client_error());
    assert!(matches!(e, GetMempoolTxError::GetClientError(_)));
    assert!(e.to_string().contains("invalid scheme"));
}

#[test]
fn get_mempool_tx_error_from_status() {
    let e = GetMempoolTxError::from(test_status());
    assert!(matches!(e, GetMempoolTxError::GetMempoolTxError(_)));
    assert!(e.to_string().contains("test error"));
    assert!(e.to_string().starts_with("gRPC error: "));
}

#[test]
fn get_mempool_stream_error_from_get_client_error() {
    let e = GetMempoolStreamError::from(test_client_error());
    assert!(matches!(e, GetMempoolStreamError::GetClientError(_)));
    assert!(e.to_string().contains("invalid scheme"));
}

#[test]
fn get_mempool_stream_error_from_status() {
    let e = GetMempoolStreamError::from(test_status());
    assert!(matches!(e, GetMempoolStreamError::GetMempoolStreamError(_)));
    assert!(e.to_string().contains("test error"));
    assert!(e.to_string().starts_with("gRPC error: "));
}

#[test]
fn get_latest_tree_state_error_from_get_client_error() {
    let e = GetLatestTreeStateError::from(test_client_error());
    assert!(matches!(e, GetLatestTreeStateError::GetClientError(_)));
    assert!(e.to_string().contains("invalid scheme"));
}

#[test]
fn get_latest_tree_state_error_from_status() {
    let e = GetLatestTreeStateError::from(test_status());
    assert!(matches!(e, GetLatestTreeStateError::GetLatestTreeStateError(_)));
    assert!(e.to_string().contains("test error"));
    assert!(e.to_string().starts_with("gRPC error: "));
}

#[test]
fn get_subtree_roots_error_from_get_client_error() {
    let e = GetSubtreeRootsError::from(test_client_error());
    assert!(matches!(e, GetSubtreeRootsError::GetClientError(_)));
    assert!(e.to_string().contains("invalid scheme"));
}

#[test]
fn get_subtree_roots_error_from_status() {
    let e = GetSubtreeRootsError::from(test_status());
    assert!(matches!(e, GetSubtreeRootsError::GetSubtreeRootsError(_)));
    assert!(e.to_string().contains("test error"));
    assert!(e.to_string().starts_with("gRPC error: "));
}

#[test]
fn ping_error_from_get_client_error() {
    let e = PingError::from(test_client_error());
    assert!(matches!(e, PingError::GetClientError(_)));
    assert!(e.to_string().contains("invalid scheme"));
}

#[test]
fn ping_error_from_status() {
    let e = PingError::from(test_status());
    assert!(matches!(e, PingError::PingError(_)));
    assert!(e.to_string().contains("test error"));
    assert!(e.to_string().starts_with("gRPC error: "));
}

#[test]
fn rpc_error_from_get_client_error() {
    let e = RpcError::from(test_client_error());
    assert!(matches!(e, RpcError::GetClientError(_)));
    assert!(e.to_string().contains("invalid scheme"));
}

#[test]
fn rpc_error_from_status() {
    let e = RpcError::from(test_status());
    assert!(matches!(e, RpcError::Status(_)));
    assert!(e.to_string().contains("test error"));
    assert!(e.to_string().starts_with("gRPC error: "));
}

#[test]
fn get_taddress_txids_error_from_get_client_error() {
    let e = GetTaddressTxidsError::from(test_client_error());
    assert!(matches!(e, GetTaddressTxidsError::GetClientError(_)));
    assert!(e.to_string().contains("invalid scheme"));
}

#[test]
fn get_taddress_txids_error_from_status() {
    let e = GetTaddressTxidsError::from(test_status());
    assert!(matches!(e, GetTaddressTxidsError::GetTaddressTxidsError(_)));
    assert!(e.to_string().contains("test error"));
    assert!(e.to_string().starts_with("gRPC error: "));
}

#[test]
fn get_taddress_transactions_error_from_get_client_error() {
    let e = GetTaddressTransactionsError::from(test_client_error());
    assert!(matches!(e, GetTaddressTransactionsError::GetClientError(_)));
    assert!(e.to_string().contains("invalid scheme"));
}

#[test]
fn get_taddress_transactions_error_from_status() {
    let e = GetTaddressTransactionsError::from(test_status());
    assert!(matches!(e, GetTaddressTransactionsError::GetTaddressTransactionsError(_)));
    assert!(e.to_string().contains("test error"));
    assert!(e.to_string().starts_with("gRPC error: "));
}

#[test]
fn get_taddress_balance_error_from_get_client_error() {
    let e = GetTaddressBalanceError::from(test_client_error());
    assert!(matches!(e, GetTaddressBalanceError::GetClientError(_)));
    assert!(e.to_string().contains("invalid scheme"));
}

#[test]
fn get_taddress_balance_error_from_status() {
    let e = GetTaddressBalanceError::from(test_status());
    assert!(matches!(e, GetTaddressBalanceError::GetTaddressBalanceError(_)));
    assert!(e.to_string().contains("test error"));
    assert!(e.to_string().starts_with("gRPC error: "));
}

#[test]
fn get_taddress_balance_stream_error_from_get_client_error() {
    let e = GetTaddressBalanceStreamError::from(test_client_error());
    assert!(matches!(e, GetTaddressBalanceStreamError::GetClientError(_)));
    assert!(e.to_string().contains("invalid scheme"));
}

#[test]
fn get_taddress_balance_stream_error_from_status() {
    let e = GetTaddressBalanceStreamError::from(test_status());
    assert!(matches!(e, GetTaddressBalanceStreamError::GetTaddressBalanceStreamError(_)));
    assert!(e.to_string().contains("test error"));
    assert!(e.to_string().starts_with("gRPC error: "));
}

#[test]
fn get_address_utxos_error_from_get_client_error() {
    let e = GetAddressUtxosError::from(test_client_error());
    assert!(matches!(e, GetAddressUtxosError::GetClientError(_)));
    assert!(e.to_string().contains("invalid scheme"));
}

#[test]
fn get_address_utxos_error_from_status() {
    let e = GetAddressUtxosError::from(test_status());
    assert!(matches!(e, GetAddressUtxosError::GetAddressUtxosError(_)));
    assert!(e.to_string().contains("test error"));
    assert!(e.to_string().starts_with("gRPC error: "));
}

#[test]
fn get_address_utxos_stream_error_from_get_client_error() {
    let e = GetAddressUtxosStreamError::from(test_client_error());
    assert!(matches!(e, GetAddressUtxosStreamError::GetClientError(_)));
    assert!(e.to_string().contains("invalid scheme"));
}

#[test]
fn get_address_utxos_stream_error_from_status() {
    let e = GetAddressUtxosStreamError::from(test_status());
    assert!(matches!(e, GetAddressUtxosStreamError::GetAddressUtxosStreamError(_)));
    assert!(e.to_string().contains("test error"));
    assert!(e.to_string().starts_with("gRPC error: "));
}

#[test]
fn status_message_is_prefix_and_status_text() {
    let status = test_status();
    let expected = format!("gRPC error: {}", status);
    assert_eq!(RpcError::from(status).to_string(), expected);
}

#[test]
fn transport_message_is_the_transport_text() {
    let err = tonic::transport::Endpoint::from_shared("not a uri".to_string()).unwrap_err();
    let expected = err.to_string();
    let e = GetInfoError::from(GetClientError::from(err));
    assert_eq!(e.to_string(), expected);
}
