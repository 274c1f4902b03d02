//! Which calls to the indexer carry a deadline.

use vstd::prelude::*;

verus! {

/// Deadline, in seconds, of every call that sends one request and receives one reply.
pub const DEFAULT_GRPC_TIMEOUT_SECS: u64 = 10;

/// The RPCs of the `CompactTxStreamer` service that the indexer client makes.
#[derive(Clone, Copy, Debug, PartialEq, Eq, Structural)]
pub enum IndexerRpc {
    GetLightdInfo,
    GetLatestBlock,
    SendTransaction,
    GetTreeState,
    GetBlock,
    GetBlockNullifiers,
    GetBlockRange,
    GetBlockRangeNullifiers,
    GetTransaction,
    GetMempoolTx,
    GetMempoolStream,
    GetLatestTreeState,
    GetSubtreeRoots,
    Ping,
    GetTaddressTxids,
    GetTaddressTransactions,
    GetTaddressBalance,
    GetTaddressBalanceStream,
    GetAddressUtxos,
    GetAddressUtxosStream,
}

/// Whether the server answers the RPC with a stream of messages
/// (`returns (stream ...)` in `service.proto`).
pub open spec fn replies_with_stream(rpc: IndexerRpc) -> bool {
    match rpc {
        IndexerRpc::GetBlockRange | IndexerRpc::GetBlockRangeNullifiers
        | IndexerRpc::GetMempoolTx | IndexerRpc::GetMempoolStream
        | IndexerRpc::GetSubtreeRoots | IndexerRpc::GetTaddressTxids
        | IndexerRpc::GetTaddressTransactions | IndexerRpc::GetAddressUtxosStream => true,
        _ => false,
    }
}

/// Whether the client sends the RPC's request as a stream of messages
/// (`(stream ...)` in `service.proto`).
pub open spec fn sends_stream(rpc: IndexerRpc) -> bool {
    rpc == IndexerRpc::GetTaddressBalanceStream
}

/// The deadline of a call, in seconds: calls that send one request and receive one
/// reply are time-boxed; calls that stream in either direction carry no deadline.
pub fn call_timeout_secs(rpc: IndexerRpc) -> (r: Option<u64>)
    ensures
        !replies_with_stream(rpc) && !sends_stream(rpc) ==> r == Some(DEFAULT_GRPC_TIMEOUT_SECS),
        replies_with_stream(rpc) || sends_stream(rpc) ==> r is None,
{
    match rpc {
        IndexerRpc::GetBlockRange | IndexerRpc::GetBlockRangeNullifiers
        | IndexerRpc::GetMempoolTx | IndexerRpc::GetMempoolStream
        | IndexerRpc::GetSubtreeRoots | IndexerRpc::GetTaddressTxids
        | IndexerRpc::GetTaddressTransactions | IndexerRpc::GetAddressUtxosStream
        | IndexerRpc::GetTaddressBalanceStream => None,
        _ => Some(DEFAULT_GRPC_TIMEOUT_SECS),
    }
}

} // verus!
