use vstd::prelude::*;

use crate::errors::TokenizerError;
use crate::message::bytes_result_view;
use crate::message::text_result_view;
use crate::message::tokens_result_view;
use crate::message::RequestMessage;
use crate::message::Response;
use crate::policy::SpecialTokenAction;
use crate::policy::SpecialTokenPolicy;
use crate::table::EncodingTable;
use crate::table::SupportedEncoding;
use crate::worker::approximate_count;
use crate::worker::spec_approximate_count;

verus! {

// The facade splits each caller-facing operation in two around the queue: a
// builder makes the operation's message before the enqueue, and a completer
// turns the awaited reply — or its absence — into the caller's result. The
// enqueue and the await themselves belong to the surrounding runtime.

/// The policy of the no-special-tokens operations: every marker is ordinary
/// text.
pub fn no_specials_policy() -> (p: SpecialTokenPolicy)
    ensures
        p.default_action == SpecialTokenAction::NormalText,
        p.overrides@.len() == 0,
        p.wf(),
        p.spec_uniform() == Some(SpecialTokenAction::NormalText),
{
    SpecialTokenPolicy::new(SpecialTokenAction::NormalText)
}

/// The message of a count request under a caller-supplied policy.
pub fn exact_count_request(
    text: String,
    encoding: SupportedEncoding,
    policy: SpecialTokenPolicy,
) -> (m: RequestMessage)
    ensures
        m == (RequestMessage::ExactCount { text, encoding, policy }),
{
    RequestMessage::ExactCount { text, encoding, policy }
}

/// The message of a count request that treats every marker as ordinary text.
pub fn exact_count_no_specials_request(text: String, encoding: SupportedEncoding) -> (m:
    RequestMessage)
    ensures
        m matches RequestMessage::ExactCount { text: t, encoding: e, policy: p } && t == text && e
            == encoding && p.spec_uniform() == Some(SpecialTokenAction::NormalText),
{
    RequestMessage::ExactCount { text, encoding, policy: no_specials_policy() }
}

/// The message of an encode request under a caller-supplied policy.
pub fn encode_request(
    text: String,
    encoding: SupportedEncoding,
    policy: SpecialTokenPolicy,
) -> (m: RequestMessage)
    ensures
        m == (RequestMessage::Encode { text, encoding, policy }),
{
    RequestMessage::Encode { text, encoding, policy }
}

/// The message of the fixed-selector convenience encode: the cl100k encoding,
/// every marker ordinary text.
pub fn encode_cl100k_no_specials_request(text: String) -> (m: RequestMessage)
    ensures
        m matches RequestMessage::Encode { text: t, encoding: e, policy: p } && t == text && e
            == SupportedEncoding::Cl100k && p.spec_uniform() == Some(
            SpecialTokenAction::NormalText,
        ),
{
    RequestMessage::Encode {
        text,
        encoding: SupportedEncoding::Cl100k,
        policy: no_specials_policy(),
    }
}

/// The message of a single-token lookup request.
pub fn encode_single_token_request(bytes: Vec<u8>, encoding: SupportedEncoding) -> (m:
    RequestMessage)
    ensures
        m == (RequestMessage::EncodeSingleToken { bytes, encoding }),
{
    RequestMessage::EncodeSingleToken { bytes, encoding }
}

/// The message of a decode-to-text request.
pub fn decode_request(tokens: Vec<u32>, encoding: SupportedEncoding) -> (m: RequestMessage)
    ensures
        m == (RequestMessage::DecodeTokens { tokens, encoding }),
{
    RequestMessage::DecodeTokens { tokens, encoding }
}

/// The message of a one-token decode-to-bytes request.
pub fn decode_token_bytes_request(token: u32, encoding: SupportedEncoding) -> (m: RequestMessage)
    ensures
        m == (RequestMessage::DecodeTokenBytes { token, encoding }),
{
    RequestMessage::DecodeTokenBytes { token, encoding }
}

/// The message of an approximate-count request.
pub fn approximate_count_request(
    text: String,
    encoding: SupportedEncoding,
    replace_spaces_with_lower_one_eighth_block: bool,
) -> (m: RequestMessage)
    ensures
        m == (RequestMessage::ApproximateCount {
            text,
            encoding,
            replace_spaces_with_lower_one_eighth_block,
        }),
{
    RequestMessage::ApproximateCount {
        text,
        encoding,
        replace_spaces_with_lower_one_eighth_block,
    }
}

/// Finish a count request: pass the worker's result through, and turn a
/// missing or foreign reply into the dispatch failure.
pub fn complete_count(reply: Option<Response>) -> (r: Result<i32, TokenizerError>)
    ensures
        r == (match reply {
            Some(Response::Count(c)) => c,
            _ => Err::<i32, TokenizerError>(TokenizerError::DispatchFailure),
        }),
{
    match reply {
        Some(Response::Count(c)) => c,
        _ => Err(TokenizerError::DispatchFailure),
    }
}

/// Finish an encode request.
pub fn complete_tokens(reply: Option<Response>) -> (r: Result<Vec<u32>, TokenizerError>)
    ensures
        tokens_result_view(r) == (match reply {
            Some(Response::Tokens(t)) => tokens_result_view(t),
            _ => Err::<Seq<u32>, TokenizerError>(TokenizerError::DispatchFailure),
        }),
{
    match reply {
        Some(Response::Tokens(t)) => t,
        _ => Err(TokenizerError::DispatchFailure),
    }
}

/// Finish a single-token lookup request.
pub fn complete_single_token(reply: Option<Response>) -> (r: Result<u32, TokenizerError>)
    ensures
        r == (match reply {
            Some(Response::SingleToken(t)) => t,
            _ => Err::<u32, TokenizerError>(TokenizerError::DispatchFailure),
        }),
{
    match reply {
        Some(Response::SingleToken(t)) => t,
        _ => Err(TokenizerError::DispatchFailure),
    }
}

/// Finish a decode-to-text request.
pub fn complete_text(reply: Option<Response>) -> (r: Result<String, TokenizerError>)
    ensures
        text_result_view(r) == (match reply {
            Some(Response::Text(t)) => text_result_view(t),
            _ => Err::<Seq<char>, TokenizerError>(TokenizerError::DispatchFailure),
        }),
{
    match reply {
        Some(Response::Text(t)) => t,
        _ => Err(TokenizerError::DispatchFailure),
    }
}

/// Finish a one-token decode-to-bytes request.
pub fn complete_token_bytes(reply: Option<Response>) -> (r: Result<Vec<u8>, TokenizerError>)
    ensures
        bytes_result_view(r) == (match reply {
            Some(Response::TokenBytes(b)) => bytes_result_view(b),
            _ => Err::<Seq<u8>, TokenizerError>(TokenizerError::DispatchFailure),
        }),
{
    match reply {
        Some(Response::TokenBytes(b)) => b,
        _ => Err(TokenizerError::DispatchFailure),
    }
}

/// Finish an approximate-count request.
pub fn complete_estimate(reply: Option<Response>) -> (r: Result<i32, TokenizerError>)
    ensures
        r == (match reply {
            Some(Response::Estimate(c)) => c,
            _ => Err::<i32, TokenizerError>(TokenizerError::DispatchFailure),
        }),
{
    match reply {
        Some(Response::Estimate(c)) => c,
        _ => Err(TokenizerError::DispatchFailure),
    }
}

/// The synchronous fast path for the cheap estimate: reads the shared table
/// directly, with no queueing, the space-replacement flag fixed off.
pub struct SyncTokenizer {
    pub table: EncodingTable,
}

impl SyncTokenizer {
    /// Build the fast path over a freshly looked-up table; owed to succeed,
    /// as the table's own construction is.
    pub fn new() -> (r: Result<SyncTokenizer, TokenizerError>)
        ensures
            r is Ok,
    {
        match EncodingTable::new() {
            Ok(table) => Ok(SyncTokenizer { table }),
            Err(e) => Err(e),
        }
    }

    /// The estimate, computed synchronously; it always succeeds.
    pub fn approx_num_tokens(&self, text: &str, encoding: SupportedEncoding) -> (r: Result<
        i32,
        TokenizerError,
    >)
        ensures
            r == Ok::<i32, TokenizerError>(
                spec_approximate_count(self.table.spec_get(encoding), text@, false),
            ),
    {
        Ok(approximate_count(self.table.get(encoding), text, false))
    }
}

} // verus!
