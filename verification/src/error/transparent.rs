//! Errors of the transparent-address RPCs.

use vstd::prelude::*;
use vstd::std_specs::convert::FromSpecImpl;

use super::{grpc_error_prefix, status_display_text, status_error_text, GetClientError};

verus! {

/// Error from the deprecated `get_taddress_txids` (`GetTaddressTxids`) RPC.
///
/// - `GetClientError` means the connection was never established.
/// - `GetTaddressTxidsError` means the server returned a gRPC status.
#[derive(Debug)]
pub enum GetTaddressTxidsError {
    GetClientError(GetClientError),
    GetTaddressTxidsError(tonic::Status),
}

impl GetTaddressTxidsError {
    /// The error's message: that of the connection error, or `gRPC error: `
    /// followed by the server's status.
    pub open spec fn message(&self) -> Seq<char> {
        match self {
            GetTaddressTxidsError::GetClientError(e) => e.message(),
            GetTaddressTxidsError::GetTaddressTxidsError(status) => grpc_error_prefix() + status_display_text(*status),
        }
    }

    /// The error's message: that of the connection error, or `gRPC error: `
    /// followed by the server's status.
    pub fn to_string(&self) -> (r: String)
        ensures
            r@ == self.message(),
    {
        match self {
            GetTaddressTxidsError::GetClientError(e) => e.to_string(),
            GetTaddressTxidsError::GetTaddressTxidsError(status) => status_error_text(status),
        }
    }
}

impl From<GetClientError> for GetTaddressTxidsError {
    fn from(err: GetClientError) -> (r: Self) {
        GetTaddressTxidsError::GetClientError(err)
    }
}

impl FromSpecImpl<GetClientError> for GetTaddressTxidsError {
    open spec fn obeys_from_spec() -> bool {
        true
    }

    open spec fn from_spec(v: GetClientError) -> Self {
        GetTaddressTxidsError::GetClientError(v)
    }
}

impl From<tonic::Status> for GetTaddressTxidsError {
    fn from(status: tonic::Status) -> (r: Self) {
        GetTaddressTxidsError::GetTaddressTxidsError(status)
    }
}

impl FromSpecImpl<tonic::Status> for GetTaddressTxidsError {
    open spec fn obeys_from_spec() -> bool {
        true
    }

    open spec fn from_spec(v: tonic::Status) -> Self {
        GetTaddressTxidsError::GetTaddressTxidsError(v)
    }
}

/// Error from the `get_taddress_transactions` (`GetTaddressTransactions`) RPC.
///
/// - `GetClientError` means the connection was never established.
/// - `GetTaddressTransactionsError` means the server returned a gRPC status.
#[derive(Debug)]
pub enum GetTaddressTransactionsError {
    GetClientError(GetClientError),
    GetTaddressTransactionsError(tonic::Status),
}

impl GetTaddressTransactionsError {
    /// The error's message: that of the connection error, or `gRPC error: `
    /// followed by the server's status.
    pub open spec fn message(&self) -> Seq<char> {
        match self {
            GetTaddressTransactionsError::GetClientError(e) => e.message(),
            GetTaddressTransactionsError::GetTaddressTransactionsError(status) => grpc_error_prefix() + status_display_text(*status),
        }
    }

    /// The error's message: that of the connection error, or `gRPC error: `
    /// followed by the server's status.
    pub fn to_string(&self) -> (r: String)
        ensures
            r@ == self.message(),
    {
        match self {
            GetTaddressTransactionsError::GetClientError(e) => e.to_string(),
            GetTaddressTransactionsError::GetTaddressTransactionsError(status) => status_error_text(status),
        }
    }
}

impl From<GetClientError> for GetTaddressTransactionsError {
    fn from(err: GetClientError) -> (r: Self) {
        GetTaddressTransactionsError::GetClientError(err)
    }
}

impl FromSpecImpl<GetClientError> for GetTaddressTransactionsError {
    open spec fn obeys_from_spec() -> bool {
        true
    }

    open spec fn from_spec(v: GetClientError) -> Self {
        GetTaddressTransactionsError::GetClientError(v)
    }
}

impl From<tonic::Status> for GetTaddressTransactionsError {
    fn from(status: tonic::Status) -> (r: Self) {
        GetTaddressTransactionsError::GetTaddressTransactionsError(status)
    }
}

impl FromSpecImpl<tonic::Status> for GetTaddressTransactionsError {
    open spec fn obeys_from_spec() -> bool {
        true
    }

    open spec fn from_spec(v: tonic::Status) -> Self {
        GetTaddressTransactionsError::GetTaddressTransactionsError(v)
    }
}

/// Error from the `get_taddress_balance` (`GetTaddressBalance`) RPC.
///
/// - `GetClientError` means the connection was never established.
/// - `GetTaddressBalanceError` means the server returned a gRPC status.
#[derive(Debug)]
pub enum GetTaddressBalanceError {
    GetClientError(GetClientError),
    GetTaddressBalanceError(tonic::Status),
}

impl GetTaddressBalanceError {
    /// The error's message: that of the connection error, or `gRPC error: `
    /// followed by the server's status.
    pub open spec fn message(&self) -> Seq<char> {
        match self {
            GetTaddressBalanceError::GetClientError(e) => e.message(),
            GetTaddressBalanceError::GetTaddressBalanceError(status) => grpc_error_prefix() + status_display_text(*status),
        }
    }

    /// The error's message: that of the connection error, or `gRPC error: `
    /// followed by the server's status.
    pub fn to_string(&self) -> (r: String)
        ensures
            r@ == self.message(),
    {
        match self {
            GetTaddressBalanceError::GetClientError(e) => e.to_string(),
            GetTaddressBalanceError::GetTaddressBalanceError(status) => status_error_text(status),
        }
    }
}

impl From<GetClientError> for GetTaddressBalanceError {
    fn from(err: GetClientError) -> (r: Self) {
        GetTaddressBalanceError::GetClientError(err)
    }
}

impl FromSpecImpl<GetClientError> for GetTaddressBalanceError {
    open spec fn obeys_from_spec() -> bool {
        true
    }

    open spec fn from_spec(v: GetClientError) -> Self {
        GetTaddressBalanceError::GetClientError(v)
    }
}

impl From<tonic::Status> for GetTaddressBalanceError {
    fn from(status: tonic::Status) -> (r: Self) {
        GetTaddressBalanceError::GetTaddressBalanceError(status)
    }
}

impl FromSpecImpl<tonic::Status> for GetTaddressBalanceError {
    open spec fn obeys_from_spec() -> bool {
        true
    }

    open spec fn from_spec(v: tonic::Status) -> Self {
        GetTaddressBalanceError::GetTaddressBalanceError(v)
    }
}

/// Error from the `get_taddress_balance_stream` (`GetTaddressBalanceStream`) RPC.
///
/// - `GetClientError` means the connection was never established.
/// - `GetTaddressBalanceStreamError` means the server returned a gRPC status.
#[derive(Debug)]
pub enum GetTaddressBalanceStreamError {
    GetClientError(GetClientError),
    GetTaddressBalanceStreamError(tonic::Status),
}

impl GetTaddressBalanceStreamError {
    /// The error's message: that of the connection error, or `gRPC error: `
    /// followed by the server's status.
    pub open spec fn message(&self) -> Seq<char> {
        match self {
            GetTaddressBalanceStreamError::GetClientError(e) => e.message(),
            GetTaddressBalanceStreamError::GetTaddressBalanceStreamError(status) => grpc_error_prefix() + status_display_text(*status),
        }
    }

    /// The error's message: that of the connection error, or `gRPC error: `
    /// followed by the server's status.
    pub fn to_string(&self) -> (r: String)
        ensures
            r@ == self.message(),
    {
        match self {
            GetTaddressBalanceStreamError::GetClientError(e) => e.to_string(),
            GetTaddressBalanceStreamError::GetTaddressBalanceStreamError(status) => status_error_text(status),
        }
    }
}

impl From<GetClientError> for GetTaddressBalanceStreamError {
    fn from(err: GetClientError) -> (r: Self) {
        GetTaddressBalanceStreamError::GetClientError(err)
    }
}

impl FromSpecImpl<GetClientError> for GetTaddressBalanceStreamError {
    open spec fn obeys_from_spec() -> bool {
        true
    }

    open spec fn from_spec(v: GetClientError) -> Self {
        GetTaddressBalanceStreamError::GetClientError(v)
    }
}

impl From<tonic::Status> for GetTaddressBalanceStreamError {
    fn from(status: tonic::Status) -> (r: Self) {
        GetTaddressBalanceStreamError::GetTaddressBalanceStreamError(status)
    }
}

impl FromSpecImpl<tonic::Status> for GetTaddressBalanceStreamError {
    open spec fn obeys_from_spec() -> bool {
        true
    }

    open spec fn from_spec(v: tonic::Status) -> Self {
        GetTaddressBalanceStreamError::GetTaddressBalanceStreamError(v)
    }
}

/// Error from the `get_address_utxos` (`GetAddressUtxos`) RPC.
///
/// - `GetClientError` means the connection was never established.
/// - `GetAddressUtxosError` means the server returned a gRPC status.
#[derive(Debug)]
pub enum GetAddressUtxosError {
    GetClientError(GetClientError),
    GetAddressUtxosError(tonic::Status),
}

impl GetAddressUtxosError {
    /// The error's message: that of the connection error, or `gRPC error: `
    /// followed by the server's status.
    pub open spec fn message(&self) -> Seq<char> {
        match self {
            GetAddressUtxosError::GetClientError(e) => e.message(),
            GetAddressUtxosError::GetAddressUtxosError(status) => grpc_error_prefix() + status_display_text(*status),
        }
    }

    /// The error's message: that of the connection error, or `gRPC error: `
    /// followed by the server's status.
    pub fn to_string(&self) -> (r: String)
        ensures
            r@ == self.message(),
    {
        match self {
            GetAddressUtxosError::GetClientError(e) => e.to_string(),
            GetAddressUtxosError::GetAddressUtxosError(status) => status_error_text(status),
        }
    }
}

impl From<GetClientError> for GetAddressUtxosError {
    fn from(err: GetClientError) -> (r: Self) {
        GetAddressUtxosError::GetClientError(err)
    }
}

impl FromSpecImpl<GetClientError> for GetAddressUtxosError {
    open spec fn obeys_from_spec() -> bool {
        true
    }

    open spec fn from_spec(v: GetClientError) -> Self {
        GetAddressUtxosError::GetClientError(v)
    }
}

impl From<tonic::Status> for GetAddressUtxosError {
    fn from(status: tonic::Status) -> (r: Self) {
        GetAddressUtxosError::GetAddressUtxosError(status)
    }
}

impl FromSpecImpl<tonic::Status> for GetAddressUtxosError {
    open spec fn obeys_from_spec() -> bool {
        true
    }

    open spec fn from_spec(v: tonic::Status) -> Self {
        GetAddressUtxosError::GetAddressUtxosError(v)
    }
}

/// Error from the `get_address_utxos_stream` (`GetAddressUtxosStream`) RPC.
///
/// - `GetClientError` means the connection was never established.
/// - `GetAddressUtxosStreamError` means the server returned a gRPC status
///   before or instead of streaming UTXOs.
#[derive(Debug)]
pub enum GetAddressUtxosStreamError {
    GetClientError(GetClientError),
    GetAddressUtxosStreamError(tonic::Status),
}

impl GetAddressUtxosStreamError {
    /// The error's message: that of the connection error, or `gRPC error: `
    /// followed by the server's status.
    pub open spec fn message(&self) -> Seq<char> {
        match self {
            GetAddressUtxosStreamError::GetClientError(e) => e.message(),
            GetAddressUtxosStreamError::GetAddressUtxosStreamError(status) => grpc_error_prefix() + status_display_text(*status),
        }
    }

    /// The error's message: that of the connection error, or `gRPC error: `
    /// followed by the server's status.
    pub fn to_string(&self) -> (r: String)
        ensures
            r@ == self.message(),
    {
        match self {
            GetAddressUtxosStreamError::GetClientError(e) => e.to_string(),
            GetAddressUtxosStreamError::GetAddressUtxosStreamError(status) => status_error_text(status),
        }
    }
}

impl From<GetClientError> for GetAddressUtxosStreamError {
    fn from(err: GetClientError) -> (r: Self) {
        GetAddressUtxosStreamError::GetClientError(err)
    }
}

impl FromSpecImpl<GetClientError> for GetAddressUtxosStreamError {
    open spec fn obeys_from_spec() -> bool {
        true
    }

    open spec fn from_spec(v: GetClientError) -> Self {
        GetAddressUtxosStreamError::GetClientError(v)
    }
}

impl From<tonic::Status> for GetAddressUtxosStreamError {
    fn from(status: tonic::Status) -> (r: Self) {
        GetAddressUtxosStreamError::GetAddressUtxosStreamError(status)
    }
}

impl FromSpecImpl<tonic::Status> for GetAddressUtxosStreamError {
    open spec fn obeys_from_spec() -> bool {
        true
    }

    open spec fn from_spec(v: tonic::Status) -> Self {
        GetAddressUtxosStreamError::GetAddressUtxosStreamError(v)
    }
}

} // verus!
