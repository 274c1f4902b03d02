//! What the library makes of a server's reply to a submitted transaction.

use vstd::prelude::*;

use crate::error::SendTransactionError;

verus! {

/// The text of `lightwallet_protocol::SendResponse`'s `Debug` (written by prost's
/// derive) for a reply with the given code and message.
pub uninterp spec fn send_response_debug_text(error_code: i32, error_message: Seq<char>) -> Seq<char>;

/// Formats a `lightwallet_protocol::SendResponse` with the given fields with `{:?}`.
/// The contract claims that the text is the one `send_response_debug_text` names for
/// these fields.
#[verifier::external_body]
fn send_response_debug(error_code: i32, error_message: &str) -> (r: String)
    ensures
        r@ == send_response_debug_text(error_code, error_message@),
{
    let response = lightwallet_protocol::SendResponse {
        error_code,
        error_message: error_message.to_string(),
    };
    format!("{:?}", response)
}

/// Whether a text is wrapped in a pair of double quotes: it is at least two characters
/// long and starts and ends with a double quote.
pub open spec fn is_quoted(text: Seq<char>) -> bool {
    text.len() >= 2 && text[0] == '"' && text[text.len() - 1] == '"'
}

/// A text with one pair of surrounding double quotes removed, if it has them.
pub open spec fn unquoted(text: Seq<char>) -> Seq<char> {
    if is_quoted(text) {
        text.subrange(1, text.len() - 1)
    } else {
        text
    }
}

/// Turns the server's reply to a submitted transaction into its outcome.
///
/// An error code of zero means success: the message is the transaction ID, returned
/// without one pair of surrounding double quotes. Any other code means the server
/// evaluated and rejected the transaction: the error is `SendRejected`, carrying the
/// reply written out with `Debug`.
///
/// A lone double quote is not a pair of quotes: it is returned as it is.
pub fn interpret_send_response(error_code: i32, error_message: String) -> (r: Result<
    String,
    SendTransactionError,
>)
    ensures
        error_code == 0 ==> (r matches Ok(id) && id@ == unquoted(error_message@)),
        error_code == 0 && error_message@.len() >= 2 && error_message@[0] == '"'
            && error_message@[error_message@.len() - 1] == '"' ==> (r matches Ok(id) && id@
            == error_message@.subrange(1, error_message@.len() - 1)),
        error_code == 0 && !(error_message@.len() >= 2 && error_message@[0] == '"'
            && error_message@[error_message@.len() - 1] == '"') ==> (r matches Ok(id) && id@
            == error_message@),
        error_code != 0 ==> (r matches Err(SendTransactionError::SendRejected(reason)) && reason@
            == send_response_debug_text(error_code, error_message@)),
{
    if error_code == 0 {
        let text = error_message.as_str();
        let n = text.unicode_len();
        if n >= 2 && text.get_char(0) == '"' && text.get_char(n - 1) == '"' {
            Ok(text.substring_char(1, n - 1).to_owned())
        } else {
            Ok(error_message)
        }
    } else {
        Err(SendTransactionError::SendRejected(send_response_debug(error_code, error_message.as_str())))
    }
}

/// A transaction ID cut out of a quoted message, quoted again, is that message; an
/// unquoted message is taken as the ID unchanged.
pub proof fn lemma_unquoted_id_round_trip(message: Seq<char>)
    ensures
        is_quoted(message) ==> seq!['"'] + unquoted(message) + seq!['"'] == message,
        !is_quoted(message) ==> unquoted(message) == message,
{
    if is_quoted(message) {
        assert(seq!['"'] + unquoted(message) + seq!['"'] =~= message);
    }
}

/// Of a reply message of any length that starts and ends with a double quote (and
/// is at least two characters long), the transaction ID is the message without its
/// first and last character; any other message is the ID as it is.
pub proof fn lemma_transaction_id_strips_outer_quotes(message: Seq<char>)
    ensures
        message.len() >= 2 && message[0] == '"' && message[message.len() - 1] == '"' ==> unquoted(
            message,
        ) == message.subrange(1, message.len() - 1),
        !(message.len() >= 2 && message[0] == '"' && message[message.len() - 1] == '"')
            ==> unquoted(message) == message,
        unquoted(message).len() == message.len() || unquoted(message).len() + 2
            == message.len(),
{
}

} // verus!
