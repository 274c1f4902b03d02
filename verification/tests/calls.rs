use zingo_netutils::{call_timeout_secs, IndexerRpc, DEFAULT_GRPC_TIMEOUT_SECS};

#[test]
fn unary_calls_are_time_boxed() {
    assert_eq!(DEFAULT_GRPC_TIMEOUT_SECS, 10);
    for rpc in [
        IndexerRpc::GetLightdInfo,
        IndexerRpc::GetLatestBlock,
        IndexerRpc::SendTransaction,
        IndexerRpc::GetTreeState,
        IndexerRpc::GetBlock,
        IndexerRpc::GetBlockNullifiers,
        IndexerRpc::GetTransaction,
        IndexerRpc::GetLatestTreeState,
        IndexerRpc::Ping,
        IndexerRpc::GetTaddressBalance,
        IndexerRpc::GetAddressUtxos,
    ] {
        assert_eq!(call_timeout_secs(rpc), Some(10), "{:?}", rpc);
    }
}

#[test]
fn streaming_calls_have_no_deadline() {
    for rpc in [
        IndexerRpc::GetBlockRange,
        IndexerRpc::GetBlockRangeNullifiers,
        IndexerRpc::GetMempoolTx,
        IndexerRpc::GetMempoolStream,
        IndexerRpc::GetSubtreeRoots,
        IndexerRpc::GetTaddressTxids,
        IndexerRpc::GetTaddressTransactions,
        IndexerRpc::GetTaddressBalanceStream,
        IndexerRpc::GetAddressUtxosStream,
    ] {
        assert_eq!(call_timeout_secs(rpc), None, "{:?}", rpc);
    }
}
