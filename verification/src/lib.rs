//! Verified core of a client library for Zcash chain indexers
//! (`lightwalletd` / `zainod`).

pub mod calls;
pub mod error;
pub mod indexer;
pub mod protocol;
pub mod send;

pub use lightwallet_protocol;

pub use calls::{call_timeout_secs, IndexerRpc, DEFAULT_GRPC_TIMEOUT_SECS};
pub use error::{
    GetBlockError, GetBlockNullifiersError, GetBlockRangeError, GetBlockRangeNullifiersError,
    GetClientError, GetInfoError, GetLatestBlockError, GetLatestTreeStateError,
    GetMempoolStreamError, GetMempoolTxError, GetSubtreeRootsError, GetTransactionError,
    GetTreeStateError, PingError, RpcError, SendTransactionError,
};
pub use indexer::{GrpcIndexer, ServerUri};
pub use protocol::{ActivationHeights, NetworkType};
pub use send::interpret_send_response;
