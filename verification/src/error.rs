//! Error types of the indexer client.
//!
//! Each RPC has a dedicated error enum so callers can distinguish connection
//! failures ([`GetClientError`]) from server-side gRPC errors (`tonic::Status`).

use vstd::prelude::*;
use vstd::std_specs::convert::FromSpecImpl;

pub mod transparent;

verus! {

/// A status reported by a gRPC server.
#[verifier::external_type_specification]
#[verifier::external_body]
pub struct ExStatus(tonic::Status);

/// An error of tonic's transport layer.
#[verifier::external_type_specification]
#[verifier::external_body]
pub struct ExTransportError(tonic::transport::Error);

/// The text of `Display` for `tonic::Status`: the status code, its message and its
/// source error.
pub uninterp spec fn status_display_text(status: tonic::Status) -> Seq<char>;

/// The text of `Display` for `tonic::transport::Error`: the description of the
/// error's kind.
pub uninterp spec fn transport_error_text(err: tonic::transport::Error) -> Seq<char>;

/// Renders a gRPC status with `Display` for `tonic::Status`. The contract claims that
/// the text is the one `status_display_text` names for the status.
#[verifier::external_body]
fn status_display(status: &tonic::Status) -> (r: String)
    ensures
        r@ == status_display_text(*status),
{
    status.to_string()
}

/// Renders a transport error with `Display` for `tonic::transport::Error`. The
/// contract claims that the text is the one `transport_error_text` names for the
/// error.
#[verifier::external_body]
fn transport_error_display(err: &tonic::transport::Error) -> (r: String)
    ensures
        r@ == transport_error_text(*err),
{
    err.to_string()
}

/// The prefix of every message about a gRPC status: `gRPC error: `.
pub open spec fn grpc_error_prefix() -> Seq<char> {
    "gRPC error: "@
}

/// The message about a gRPC status whose text is `status_text`: the prefix
/// `gRPC error: ` followed by that text.
pub fn grpc_error_text(status_text: &str) -> (r: String)
    ensures
        r@ == grpc_error_prefix() + status_text@,
{
    let mut r = "gRPC error: ".to_owned();
    r.append(status_text);
    r
}

/// The message about a gRPC status: `gRPC error: ` followed by the status's text.
pub(crate) fn status_error_text(status: &tonic::Status) -> (r: String)
    ensures
        r@ == grpc_error_prefix() + status_display_text(*status),
{
    let text = status_display(status);
    grpc_error_text(text.as_str())
}

/// Connection-level error returned by `GrpcIndexer::new` and by the connection
/// phase of every RPC.
///
/// - `InvalidScheme` and `InvalidAuthority` are deterministic: retrying with the
///   same URI always fails.
/// - `Transport` wraps a `tonic::transport::Error` and may be transient
///   (e.g. DNS resolution, TCP connect timeout); retrying may succeed.
#[derive(Debug)]
pub enum GetClientError {
    InvalidScheme,
    InvalidAuthority,
    Transport(tonic::transport::Error),
}

impl GetClientError {
    /// The error's message; a transport error gives the message of the
    /// underlying `tonic::transport::Error`.
    pub open spec fn message(&self) -> Seq<char> {
        match self {
            GetClientError::InvalidScheme => "bad uri: invalid scheme"@,
            GetClientError::InvalidAuthority => "bad uri: invalid authority"@,
            GetClientError::Transport(err) => transport_error_text(*err),
        }
    }

    /// The error's message; a transport error gives the message of the
    /// underlying `tonic::transport::Error`.
    pub fn to_string(&self) -> (r: String)
        ensures
            r@ == self.message(),
    {
        match self {
            GetClientError::InvalidScheme => "bad uri: invalid scheme".to_owned(),
            GetClientError::InvalidAuthority => "bad uri: invalid authority".to_owned(),
            GetClientError::Transport(err) => transport_error_display(err),
        }
    }
}

impl From<tonic::transport::Error> for GetClientError {
    fn from(err: tonic::transport::Error) -> (r: Self) {
        GetClientError::Transport(err)
    }
}

impl FromSpecImpl<tonic::transport::Error> for GetClientError {
    open spec fn obeys_from_spec() -> bool {
        true
    }

    open spec fn from_spec(v: tonic::transport::Error) -> Self {
        GetClientError::Transport(v)
    }
}

/// Error from the `get_info` (`GetLightdInfo`) RPC.
///
/// - `GetClientError` means the connection was never established.
/// - `GetLightdInfoError` means the server received the request but
///   returned a gRPC status (e.g. `Unavailable`, `Internal`).
#[derive(Debug)]
pub enum GetInfoError {
    GetClientError(GetClientError),
    GetLightdInfoError(tonic::Status),
}

impl GetInfoError {
    /// The error's message: that of the connection error, or `gRPC error: `
    /// followed by the server's status.
    pub open spec fn message(&self) -> Seq<char> {
        match self {
            GetInfoError::GetClientError(e) => e.message(),
            GetInfoError::GetLightdInfoError(status) => grpc_error_prefix() + status_display_text(*status),
        }
    }

    /// The error's message: that of the connection error, or `gRPC error: `
    /// followed by the server's status.
    pub fn to_string(&self) -> (r: String)
        ensures
            r@ == self.message(),
    {
        match self {
            GetInfoError::GetClientError(e) => e.to_string(),
            GetInfoError::GetLightdInfoError(status) => status_error_text(status),
        }
    }
}

impl From<GetClientError> for GetInfoError {
    fn from(err: GetClientError) -> (r: Self) {
        GetInfoError::GetClientError(err)
    }
}

impl FromSpecImpl<GetClientError> for GetInfoError {
    open spec fn obeys_from_spec() -> bool {
        true
    }

    open spec fn from_spec(v: GetClientError) -> Self {
        GetInfoError::GetClientError(v)
    }
}

impl From<tonic::Status> for GetInfoError {
    fn from(status: tonic::Status) -> (r: Self) {
        GetInfoError::GetLightdInfoError(status)
    }
}

impl FromSpecImpl<tonic::Status> for GetInfoError {
    open spec fn obeys_from_spec() -> bool {
        true
    }

    open spec fn from_spec(v: tonic::Status) -> Self {
        GetInfoError::GetLightdInfoError(v)
    }
}

/// Error from the `get_latest_block` (`GetLatestBlock`) RPC.
///
/// - `GetClientError` means the connection was never established.
/// - `GetLatestBlockError` means the server returned a gRPC status.
#[derive(Debug)]
pub enum GetLatestBlockError {
    GetClientError(GetClientError),
    GetLatestBlockError(tonic::Status),
}

impl GetLatestBlockError {
    /// The error's message: that of the connection error, or `gRPC error: `
    /// followed by the server's status.
    pub open spec fn message(&self) -> Seq<char> {
        match self {
            GetLatestBlockError::GetClientError(e) => e.message(),
            GetLatestBlockError::GetLatestBlockError(status) => grpc_error_prefix() + status_display_text(*status),
        }
    }

    /// The error's message: that of the connection error, or `gRPC error: `
    /// followed by the server's status.
    pub fn to_string(&self) -> (r: String)
        ensures
            r@ == self.message(),
    {
        match self {
            GetLatestBlockError::GetClientError(e) => e.to_string(),
            GetLatestBlockError::GetLatestBlockError(status) => status_error_text(status),
        }
    }
}

impl From<GetClientError> for GetLatestBlockError {
    fn from(err: GetClientError) -> (r: Self) {
        GetLatestBlockError::GetClientError(err)
    }
}

impl FromSpecImpl<GetClientError> for GetLatestBlockError {
    open spec fn obeys_from_spec() -> bool {
        true
    }

    open spec fn from_spec(v: GetClientError) -> Self {
        GetLatestBlockError::GetClientError(v)
    }
}

impl From<tonic::Status> for GetLatestBlockError {
    fn from(status: tonic::Status) -> (r: Self) {
        GetLatestBlockError::GetLatestBlockError(status)
    }
}

impl FromSpecImpl<tonic::Status> for GetLatestBlockError {
    open spec fn obeys_from_spec() -> bool {
        true
    }

    open spec fn from_spec(v: tonic::Status) -> Self {
        GetLatestBlockError::GetLatestBlockError(v)
    }
}

/// Error from the `send_transaction` (`SendTransaction`) RPC.
///
/// - `GetClientError` means the connection was never established.
/// - `SendTransactionError` means the server returned a gRPC status before
///   evaluating the transaction.
/// - `SendRejected` means the server received and evaluated the transaction but
///   rejected it (e.g. duplicate, invalid). The string carries the server's
///   rejection reason. This is not retryable with the same transaction bytes.
#[derive(Debug)]
pub enum SendTransactionError {
    GetClientError(GetClientError),
    SendTransactionError(tonic::Status),
    SendRejected(String),
}

impl SendTransactionError {
    /// The error's message: that of the connection error, `gRPC error: ` followed
    /// by the server's status, or `send rejected: ` followed by the reason.
    pub open spec fn message(&self) -> Seq<char> {
        match self {
            SendTransactionError::GetClientError(e) => e.message(),
            SendTransactionError::SendTransactionError(status) => grpc_error_prefix()
                + status_display_text(*status),
            SendTransactionError::SendRejected(reason) => "send rejected: "@ + reason@,
        }
    }

    /// The error's message: that of the connection error, `gRPC error: ` followed
    /// by the server's status, or `send rejected: ` followed by the reason.
    pub fn to_string(&self) -> (r: String)
        ensures
            r@ == self.message(),
    {
        match self {
            SendTransactionError::GetClientError(e) => e.to_string(),
            SendTransactionError::SendTransactionError(status) => status_error_text(status),
            SendTransactionError::SendRejected(reason) => {
                let mut r = "send rejected: ".to_owned();
                r.append(reason.as_str());
                r
            },
        }
    }
}

impl From<GetClientError> for SendTransactionError {
    fn from(err: GetClientError) -> (r: Self) {
        SendTransactionError::GetClientError(err)
    }
}

impl FromSpecImpl<GetClientError> for SendTransactionError {
    open spec fn obeys_from_spec() -> bool {
        true
    }

    open spec fn from_spec(v: GetClientError) -> Self {
        SendTransactionError::GetClientError(v)
    }
}

impl From<tonic::Status> for SendTransactionError {
    fn from(status: tonic::Status) -> (r: Self) {
        SendTransactionError::SendTransactionError(status)
    }
}

impl FromSpecImpl<tonic::Status> for SendTransactionError {
    open spec fn obeys_from_spec() -> bool {
        true
    }

    open spec fn from_spec(v: tonic::Status) -> Self {
        SendTransactionError::SendTransactionError(v)
    }
}

/// Error from the `get_tree_state` (`GetTreeState`) RPC.
///
/// - `GetClientError` means the connection was never established.
/// - `GetTreeStateError` means the server returned a gRPC status
///   (e.g. the requested block does not exist).
#[derive(Debug)]
pub enum GetTreeStateError {
    GetClientError(GetClientError),
    GetTreeStateError(tonic::Status),
}

impl GetTreeStateError {
    /// The error's message: that of the connection error, or `gRPC error: `
    /// followed by the server's status.
    pub open spec fn message(&self) -> Seq<char> {
        match self {
            GetTreeStateError::GetClientError(e) => e.message(),
            GetTreeStateError::GetTreeStateError(status) => grpc_error_prefix() + status_display_text(*status),
        }
    }

    /// The error's message: that of the connection error, or `gRPC error: `
    /// followed by the server's status.
    pub fn to_string(&self) -> (r: String)
        ensures
            r@ == self.message(),
    {
        match self {
            GetTreeStateError::GetClientError(e) => e.to_string(),
            GetTreeStateError::GetTreeStateError(status) => status_error_text(status),
        }
    }
}

impl From<GetClientError> for GetTreeStateError {
    fn from(err: GetClientError) -> (r: Self) {
        GetTreeStateError::GetClientError(err)
    }
}

impl FromSpecImpl<GetClientError> for GetTreeStateError {
    open spec fn obeys_from_spec() -> bool {
        true
    }

    open spec fn from_spec(v: GetClientError) -> Self {
        GetTreeStateError::GetClientError(v)
    }
}

impl From<tonic::Status> for GetTreeStateError {
    fn from(status: tonic::Status) -> (r: Self) {
        GetTreeStateError::GetTreeStateError(status)
    }
}

impl FromSpecImpl<tonic::Status> for GetTreeStateError {
    open spec fn obeys_from_spec() -> bool {
        true
    }

    open spec fn from_spec(v: tonic::Status) -> Self {
        GetTreeStateError::GetTreeStateError(v)
    }
}

/// Error from the `get_block` (`GetBlock`) RPC.
///
/// - `GetClientError` means the connection was never established.
/// - `GetBlockError` means the server returned a gRPC status
///   (e.g. the requested block does not exist).
#[derive(Debug)]
pub enum GetBlockError {
    GetClientError(GetClientError),
    GetBlockError(tonic::Status),
}

impl GetBlockError {
    /// The error's message: that of the connection error, or `gRPC error: `
    /// followed by the server's status.
    pub open spec fn message(&self) -> Seq<char> {
        match self {
            GetBlockError::GetClientError(e) => e.message(),
            GetBlockError::GetBlockError(status) => grpc_error_prefix() + status_display_text(*status),
        }
    }

    /// The error's message: that of the connection error, or `gRPC error: `
    /// followed by the server's status.
    pub fn to_string(&self) -> (r: String)
        ensures
            r@ == self.message(),
    {
        match self {
            GetBlockError::GetClientError(e) => e.to_string(),
            GetBlockError::GetBlockError(status) => status_error_text(status),
        }
    }
}

impl From<GetClientError> for GetBlockError {
    fn from(err: GetClientError) -> (r: Self) {
        GetBlockError::GetClientError(err)
    }
}

impl FromSpecImpl<GetClientError> for GetBlockError {
    open spec fn obeys_from_spec() -> bool {
        true
    }

    open spec fn from_spec(v: GetClientError) -> Self {
        GetBlockError::GetClientError(v)
    }
}

impl From<tonic::Status> for GetBlockError {
    fn from(status: tonic::Status) -> (r: Self) {
        GetBlockError::GetBlockError(status)
    }
}

impl FromSpecImpl<tonic::Status> for GetBlockError {
    open spec fn obeys_from_spec() -> bool {
        true
    }

    open spec fn from_spec(v: tonic::Status) -> Self {
        GetBlockError::GetBlockError(v)
    }
}

/// Error from the deprecated `get_block_nullifiers` (`GetBlockNullifiers`) RPC.
///
/// - `GetClientError` means the connection was never established.
/// - `GetBlockNullifiersError` means the server returned a gRPC status.
#[derive(Debug)]
pub enum GetBlockNullifiersError {
    GetClientError(GetClientError),
    GetBlockNullifiersError(tonic::Status),
}

impl GetBlockNullifiersError {
    /// The error's message: that of the connection error, or `gRPC error: `
    /// followed by the server's status.
    pub open spec fn message(&self) -> Seq<char> {
        match self {
            GetBlockNullifiersError::GetClientError(e) => e.message(),
            GetBlockNullifiersError::GetBlockNullifiersError(status) => grpc_error_prefix() + status_display_text(*status),
        }
    }

    /// The error's message: that of the connection error, or `gRPC error: `
    /// followed by the server's status.
    pub fn to_string(&self) -> (r: String)
        ensures
            r@ == self.message(),
    {
        match self {
            GetBlockNullifiersError::GetClientError(e) => e.to_string(),
            GetBlockNullifiersError::GetBlockNullifiersError(status) => status_error_text(status),
        }
    }
}

impl From<GetClientError> for GetBlockNullifiersError {
    fn from(err: GetClientError) -> (r: Self) {
        GetBlockNullifiersError::GetClientError(err)
    }
}

impl FromSpecImpl<GetClientError> for GetBlockNullifiersError {
    open spec fn obeys_from_spec() -> bool {
        true
    }

    open spec fn from_spec(v: GetClientError) -> Self {
        GetBlockNullifiersError::GetClientError(v)
    }
}

impl From<tonic::Status> for GetBlockNullifiersError {
    fn from(status: tonic::Status) -> (r: Self) {
        GetBlockNullifiersError::GetBlockNullifiersError(status)
    }
}

impl FromSpecImpl<tonic::Status> for GetBlockNullifiersError {
    open spec fn obeys_from_spec() -> bool {
        true
    }

    open spec fn from_spec(v: tonic::Status) -> Self {
        GetBlockNullifiersError::GetBlockNullifiersError(v)
    }
}

/// Error from the `get_block_range` (`GetBlockRange`) RPC.
///
/// - `GetClientError` means the connection was never established.
/// - `GetBlockRangeError` means the server returned a gRPC status
///   before or instead of streaming blocks.
#[derive(Debug)]
pub enum GetBlockRangeError {
    GetClientError(GetClientError),
    GetBlockRangeError(tonic::Status),
}

impl GetBlockRangeError {
    /// The error's message: that of the connection error, or `gRPC error: `
    /// followed by the server's status.
    pub open spec fn message(&self) -> Seq<char> {
        match self {
            GetBlockRangeError::GetClientError(e) => e.message(),
            GetBlockRangeError::GetBlockRangeError(status) => grpc_error_prefix() + status_display_text(*status),
        }
    }

    /// The error's message: that of the connection error, or `gRPC error: `
    /// followed by the server's status.
    pub fn to_string(&self) -> (r: String)
        ensures
            r@ == self.message(),
    {
        match self {
            GetBlockRangeError::GetClientError(e) => e.to_string(),
            GetBlockRangeError::GetBlockRangeError(status) => status_error_text(status),
        }
    }
}

impl From<GetClientError> for GetBlockRangeError {
    fn from(err: GetClientError) -> (r: Self) {
        GetBlockRangeError::GetClientError(err)
    }
}

impl FromSpecImpl<GetClientError> for GetBlockRangeError {
    open spec fn obeys_from_spec() -> bool {
        true
    }

    open spec fn from_spec(v: GetClientError) -> Self {
        GetBlockRangeError::GetClientError(v)
    }
}

impl From<tonic::Status> for GetBlockRangeError {
    fn from(status: tonic::Status) -> (r: Self) {
        GetBlockRangeError::GetBlockRangeError(status)
    }
}

impl FromSpecImpl<tonic::Status> for GetBlockRangeError {
    open spec fn obeys_from_spec() -> bool {
        true
    }

    open spec fn from_spec(v: tonic::Status) -> Self {
        GetBlockRangeError::GetBlockRangeError(v)
    }
}

/// Error from the deprecated `get_block_range_nullifiers` (`GetBlockRangeNullifiers`) RPC.
///
/// - `GetClientError` means the connection was never established.
/// - `GetBlockRangeNullifiersError` means the server returned a gRPC status.
#[derive(Debug)]
pub enum GetBlockRangeNullifiersError {
    GetClientError(GetClientError),
    GetBlockRangeNullifiersError(tonic::Status),
}

impl GetBlockRangeNullifiersError {
    /// The error's message: that of the connection error, or `gRPC error: `
    /// followed by the server's status.
    pub open spec fn message(&self) -> Seq<char> {
        match self {
            GetBlockRangeNullifiersError::GetClientError(e) => e.message(),
            GetBlockRangeNullifiersError::GetBlockRangeNullifiersError(status) => grpc_error_prefix() + status_display_text(*status),
        }
    }

    /// The error's message: that of the connection error, or `gRPC error: `
    /// followed by the server's status.
    pub fn to_string(&self) -> (r: String)
        ensures
            r@ == self.message(),
    {
        match self {
            GetBlockRangeNullifiersError::GetClientError(e) => e.to_string(),
            GetBlockRangeNullifiersError::GetBlockRangeNullifiersError(status) => status_error_text(status),
        }
    }
}

impl From<GetClientError> for GetBlockRangeNullifiersError {
    fn from(err: GetClientError) -> (r: Self) {
        GetBlockRangeNullifiersError::GetClientError(err)
    }
}

impl FromSpecImpl<GetClientError> for GetBlockRangeNullifiersError {
    open spec fn obeys_from_spec() -> bool {
        true
    }

    open spec fn from_spec(v: GetClientError) -> Self {
        GetBlockRangeNullifiersError::GetClientError(v)
    }
}

impl From<tonic::Status> for GetBlockRangeNullifiersError {
    fn from(status: tonic::Status) -> (r: Self) {
        GetBlockRangeNullifiersError::GetBlockRangeNullifiersError(status)
    }
}

impl FromSpecImpl<tonic::Status> for GetBlockRangeNullifiersError {
    open spec fn obeys_from_spec() -> bool {
        true
    }

    open spec fn from_spec(v: tonic::Status) -> Self {
        GetBlockRangeNullifiersError::GetBlockRangeNullifiersError(v)
    }
}

/// Error from the `get_transaction` (`GetTransaction`) RPC.
///
/// - `GetClientError` means the connection was never established.
/// - `GetTransactionError` means the server returned a gRPC status
///   (e.g. the transaction was not found).
#[derive(Debug)]
pub enum GetTransactionError {
    GetClientError(GetClientError),
    GetTransactionError(tonic::Status),
}

impl GetTransactionError {
    /// The error's message: that of the connection error, or `gRPC error: `
    /// followed by the server's status.
    pub open spec fn message(&self) -> Seq<char> {
        match self {
            GetTransactionError::GetClientError(e) => e.message(),
            GetTransactionError::GetTransactionError(status) => grpc_error_prefix() + status_display_text(*status),
        }
    }

    /// The error's message: that of the connection error, or `gRPC error: `
    /// followed by the server's status.
    pub fn to_string(&self) -> (r: String)
        ensures
            r@ == self.message(),
    {
        match self {
            GetTransactionError::GetClientError(e) => e.to_string(),
            GetTransactionError::GetTransactionError(status) => status_error_text(status),
        }
    }
}

impl From<GetClientError> for GetTransactionError {
    fn from(err: GetClientError) -> (r: Self) {
        GetTransactionError::GetClientError(err)
    }
}

impl FromSpecImpl<GetClientError> for GetTransactionError {
    open spec fn obeys_from_spec() -> bool {
        true
    }

    open spec fn from_spec(v: GetClientError) -> Self {
        GetTransactionError::GetClientError(v)
    }
}

impl From<tonic::Status> for GetTransactionError {
    fn from(status: tonic::Status) -> (r: Self) {
        GetTransactionError::GetTransactionError(status)
    }
}

impl FromSpecImpl<tonic::Status> for GetTransactionError {
    open spec fn obeys_from_spec() -> bool {
        true
    }

    open spec fn from_spec(v: tonic::Status) -> Self {
        GetTransactionError::GetTransactionError(v)
    }
}

/// Error from the `get_mempool_tx` (`GetMempoolTx`) RPC.
///
/// - `GetClientError` means the connection was never established.
/// - `GetMempoolTxError` means the server returned a gRPC status
///   before or instead of streaming mempool transactions.
#[derive(Debug)]
pub enum GetMempoolTxError {
    GetClientError(GetClientError),
    GetMempoolTxError(tonic::Status),
}

impl GetMempoolTxError {
    /// The error's message: that of the connection error, or `gRPC error: `
    /// followed by the server's status.
    pub open spec fn message(&self) -> Seq<char> {
        match self {
            GetMempoolTxError::GetClientError(e) => e.message(),
            GetMempoolTxError::GetMempoolTxError(status) => grpc_error_prefix() + status_display_text(*status),
        }
    }

    /// The error's message: that of the connection error, or `gRPC error: `
    /// followed by the server's status.
    pub fn to_string(&self) -> (r: String)
        ensures
            r@ == self.message(),
    {
        match self {
            GetMempoolTxError::GetClientError(e) => e.to_string(),
            GetMempoolTxError::GetMempoolTxError(status) => status_error_text(status),
        }
    }
}

impl From<GetClientError> for GetMempoolTxError {
    fn from(err: GetClientError) -> (r: Self) {
        GetMempoolTxError::GetClientError(err)
    }
}

impl FromSpecImpl<GetClientError> for GetMempoolTxError {
    open spec fn obeys_from_spec() -> bool {
        true
    }

    open spec fn from_spec(v: GetClientError) -> Self {
        GetMempoolTxError::GetClientError(v)
    }
}

impl From<tonic::Status> for GetMempoolTxError {
    fn from(status: tonic::Status) -> (r: Self) {
        GetMempoolTxError::GetMempoolTxError(status)
    }
}

impl FromSpecImpl<tonic::Status> for GetMempoolTxError {
    open spec fn obeys_from_spec() -> bool {
        true
    }

    open spec fn from_spec(v: tonic::Status) -> Self {
        GetMempoolTxError::GetMempoolTxError(v)
    }
}

/// Error from the `get_mempool_stream` (`GetMempoolStream`) RPC.
///
/// - `GetClientError` means the connection was never established.
/// - `GetMempoolStreamError` means the server returned a gRPC status
///   before or instead of opening the stream.
#[derive(Debug)]
pub enum GetMempoolStreamError {
    GetClientError(GetClientError),
    GetMempoolStreamError(tonic::Status),
}

impl GetMempoolStreamError {
    /// The error's message: that of the connection error, or `gRPC error: `
    /// followed by the server's status.
    pub open spec fn message(&self) -> Seq<char> {
        match self {
            GetMempoolStreamError::GetClientError(e) => e.message(),
            GetMempoolStreamError::GetMempoolStreamError(status) => grpc_error_prefix() + status_display_text(*status),
        }
    }

    /// The error's message: that of the connection error, or `gRPC error: `
    /// followed by the server's status.
    pub fn to_string(&self) -> (r: String)
        ensures
            r@ == self.message(),
    {
        match self {
            GetMempoolStreamError::GetClientError(e) => e.to_string(),
            GetMempoolStreamError::GetMempoolStreamError(status) => status_error_text(status),
        }
    }
}

impl From<GetClientError> for GetMempoolStreamError {
    fn from(err: GetClientError) -> (r: Self) {
        GetMempoolStreamError::GetClientError(err)
    }
}

impl FromSpecImpl<GetClientError> for GetMempoolStreamError {
    open spec fn obeys_from_spec() -> bool {
        true
    }

    open spec fn from_spec(v: GetClientError) -> Self {
        GetMempoolStreamError::GetClientError(v)
    }
}

impl From<tonic::Status> for GetMempoolStreamError {
    fn from(status: tonic::Status) -> (r: Self) {
        GetMempoolStreamError::GetMempoolStreamError(status)
    }
}

impl FromSpecImpl<tonic::Status> for GetMempoolStreamError {
    open spec fn obeys_from_spec() -> bool {
        true
    }

    open spec fn from_spec(v: tonic::Status) -> Self {
        GetMempoolStreamError::GetMempoolStreamError(v)
    }
}

/// Error from the `get_latest_tree_state` (`GetLatestTreeState`) RPC.
///
/// - `GetClientError` means the connection was never established.
/// - `GetLatestTreeStateError` means the server returned a gRPC status.
#[derive(Debug)]
pub enum GetLatestTreeStateError {
    GetClientError(GetClientError),
    GetLatestTreeStateError(tonic::Status),
}

impl GetLatestTreeStateError {
    /// The error's message: that of the connection error, or `gRPC error: `
    /// followed by the server's status.
    pub open spec fn message(&self) -> Seq<char> {
        match self {
            GetLatestTreeStateError::GetClientError(e) => e.message(),
            GetLatestTreeStateError::GetLatestTreeStateError(status) => grpc_error_prefix() + status_display_text(*status),
        }
    }

    /// The error's message: that of the connection error, or `gRPC error: `
    /// followed by the server's status.
    pub fn to_string(&self) -> (r: String)
        ensures
            r@ == self.message(),
    {
        match self {
            GetLatestTreeStateError::GetClientError(e) => e.to_string(),
            GetLatestTreeStateError::GetLatestTreeStateError(status) => status_error_text(status),
        }
    }
}

impl From<GetClientError> for GetLatestTreeStateError {
    fn from(err: GetClientError) -> (r: Self) {
        GetLatestTreeStateError::GetClientError(err)
    }
}

impl FromSpecImpl<GetClientError> for GetLatestTreeStateError {
    open spec fn obeys_from_spec() -> bool {
        true
    }

    open spec fn from_spec(v: GetClientError) -> Self {
        GetLatestTreeStateError::GetClientError(v)
    }
}

impl From<tonic::Status> for GetLatestTreeStateError {
    fn from(status: tonic::Status) -> (r: Self) {
        GetLatestTreeStateError::GetLatestTreeStateError(status)
    }
}

impl FromSpecImpl<tonic::Status> for GetLatestTreeStateError {
    open spec fn obeys_from_spec() -> bool {
        true
    }

    open spec fn from_spec(v: tonic::Status) -> Self {
        GetLatestTreeStateError::GetLatestTreeStateError(v)
    }
}

/// Error from the `get_subtree_roots` (`GetSubtreeRoots`) RPC.
///
/// - `GetClientError` means the connection was never established.
/// - `GetSubtreeRootsError` means the server returned a gRPC status
///   before or instead of streaming subtree roots.
#[derive(Debug)]
pub enum GetSubtreeRootsError {
    GetClientError(GetClientError),
    GetSubtreeRootsError(tonic::Status),
}

impl GetSubtreeRootsError {
    /// The error's message: that of the connection error, or `gRPC error: `
    /// followed by the server's status.
    pub open spec fn message(&self) -> Seq<char> {
        match self {
            GetSubtreeRootsError::GetClientError(e) => e.message(),
            GetSubtreeRootsError::GetSubtreeRootsError(status) => grpc_error_prefix() + status_display_text(*status),
        }
    }

    /// The error's message: that of the connection error, or `gRPC error: `
    /// followed by the server's status.
    pub fn to_string(&self) -> (r: String)
        ensures
            r@ == self.message(),
    {
        match self {
            GetSubtreeRootsError::GetClientError(e) => e.to_string(),
            GetSubtreeRootsError::GetSubtreeRootsError(status) => status_error_text(status),
        }
    }
}

impl From<GetClientError> for GetSubtreeRootsError {
    fn from(err: GetClientError) -> (r: Self) {
        GetSubtreeRootsError::GetClientError(err)
    }
}

impl FromSpecImpl<GetClientError> for GetSubtreeRootsError {
    open spec fn obeys_from_spec() -> bool {
        true
    }

    open spec fn from_spec(v: GetClientError) -> Self {
        GetSubtreeRootsError::GetClientError(v)
    }
}

impl From<tonic::Status> for GetSubtreeRootsError {
    fn from(status: tonic::Status) -> (r: Self) {
        GetSubtreeRootsError::GetSubtreeRootsError(status)
    }
}

impl FromSpecImpl<tonic::Status> for GetSubtreeRootsError {
    open spec fn obeys_from_spec() -> bool {
        true
    }

    open spec fn from_spec(v: tonic::Status) -> Self {
        GetSubtreeRootsError::GetSubtreeRootsError(v)
    }
}

/// Error from the `ping` (`Ping`) RPC.
///
/// - `GetClientError` means the connection was never established.
/// - `PingError` means the server returned a gRPC status (e.g. the
///   server was not started with `--ping-very-insecure`).
#[derive(Debug)]
pub enum PingError {
    GetClientError(GetClientError),
    PingError(tonic::Status),
}

impl PingError {
    /// The error's message: that of the connection error, or `gRPC error: `
    /// followed by the server's status.
    pub open spec fn message(&self) -> Seq<char> {
        match self {
            PingError::GetClientError(e) => e.message(),
            PingError::PingError(status) => grpc_error_prefix() + status_display_text(*status),
        }
    }

    /// The error's message: that of the connection error, or `gRPC error: `
    /// followed by the server's status.
    pub fn to_string(&self) -> (r: String)
        ensures
            r@ == self.message(),
    {
        match self {
            PingError::GetClientError(e) => e.to_string(),
            PingError::PingError(status) => status_error_text(status),
        }
    }
}

impl From<GetClientError> for PingError {
    fn from(err: GetClientError) -> (r: Self) {
        PingError::GetClientError(err)
    }
}

impl FromSpecImpl<GetClientError> for PingError {
    open spec fn obeys_from_spec() -> bool {
        true
    }

    open spec fn from_spec(v: GetClientError) -> Self {
        PingError::GetClientError(v)
    }
}

impl From<tonic::Status> for PingError {
    fn from(status: tonic::Status) -> (r: Self) {
        PingError::PingError(status)
    }
}

impl FromSpecImpl<tonic::Status> for PingError {
    open spec fn obeys_from_spec() -> bool {
        true
    }

    open spec fn from_spec(v: tonic::Status) -> Self {
        PingError::PingError(v)
    }
}

/// Common error of gRPC calls that only fail on connection or status.
///
/// - `GetClientError` means the connection was never established.
/// - `Status` means the server returned a gRPC status.
#[derive(Debug)]
pub enum RpcError {
    GetClientError(GetClientError),
    Status(tonic::Status),
}

impl RpcError {
    /// The error's message: that of the connection error, or `gRPC error: `
    /// followed by the server's status.
    pub open spec fn message(&self) -> Seq<char> {
        match self {
            RpcError::GetClientError(e) => e.message(),
            RpcError::Status(status) => grpc_error_prefix() + status_display_text(*status),
        }
    }

    /// The error's message: that of the connection error, or `gRPC error: `
    /// followed by the server's status.
    pub fn to_string(&self) -> (r: String)
        ensures
            r@ == self.message(),
    {
        match self {
            RpcError::GetClientError(e) => e.to_string(),
            RpcError::Status(status) => status_error_text(status),
        }
    }
}

impl From<GetClientError> for RpcError {
    fn from(err: GetClientError) -> (r: Self) {
        RpcError::GetClientError(err)
    }
}

impl FromSpecImpl<GetClientError> for RpcError {
    open spec fn obeys_from_spec() -> bool {
        true
    }

    open spec fn from_spec(v: GetClientError) -> Self {
        RpcError::GetClientError(v)
    }
}

impl From<tonic::Status> for RpcError {
    fn from(status: tonic::Status) -> (r: Self) {
        RpcError::Status(status)
    }
}

impl FromSpecImpl<tonic::Status> for RpcError {
    open spec fn obeys_from_spec() -> bool {
        true
    }

    open spec fn from_spec(v: tonic::Status) -> Self {
        RpcError::Status(v)
    }
}

} // verus!
