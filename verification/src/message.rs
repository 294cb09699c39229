use vstd::prelude::*;

use crate::errors::TokenizerError;
use crate::policy::SpecialTokenPolicy;
use crate::table::SupportedEncoding;

verus! {

/// The closed set of operations a caller can request. Each message carries
/// its input payload and a target encoding selector; the operations that need
/// byte-exact special-token semantics also carry a policy. The facade builds
/// one message per call and exactly one worker consumes it.
pub enum RequestMessage {
    /// Count the tokens of a text under a policy.
    ExactCount { text: String, encoding: SupportedEncoding, policy: SpecialTokenPolicy },
    /// Encode a text into its full token sequence under a policy.
    Encode { text: String, encoding: SupportedEncoding, policy: SpecialTokenPolicy },
    /// Look up the one vocabulary entry for a byte sequence; every special
    /// marker is recognized, no policy applies.
    EncodeSingleToken { bytes: Vec<u8>, encoding: SupportedEncoding },
    /// Map a token id sequence back to text, best effort.
    DecodeTokens { tokens: Vec<u32>, encoding: SupportedEncoding },
    /// Map one token id to its underlying bytes.
    DecodeTokenBytes { token: u32, encoding: SupportedEncoding },
    /// Estimate the token count, optionally after replacing each space with
    /// the visually narrow lower-one-eighth-block glyph.
    ApproximateCount {
        text: String,
        encoding: SupportedEncoding,
        replace_spaces_with_lower_one_eighth_block: bool,
    },
}

/// The reply a worker produces for one message: exactly one variant, matching
/// the request's operation, carrying that operation's domain result.
pub enum Response {
    Count(Result<i32, TokenizerError>),
    Tokens(Result<Vec<u32>, TokenizerError>),
    SingleToken(Result<u32, TokenizerError>),
    Text(Result<String, TokenizerError>),
    TokenBytes(Result<Vec<u8>, TokenizerError>),
    Estimate(Result<i32, TokenizerError>),
}

/// A token-sequence result, abstracted to its view.
pub open spec fn tokens_result_view(
    r: Result<Vec<u32>, TokenizerError>,
) -> Result<Seq<u32>, TokenizerError> {
    match r {
        Ok(v) => Ok(v@),
        Err(e) => Err(e),
    }
}

/// A text result, abstracted to its view.
pub open spec fn text_result_view(
    r: Result<String, TokenizerError>,
) -> Result<Seq<char>, TokenizerError> {
    match r {
        Ok(s) => Ok(s@),
        Err(e) => Err(e),
    }
}

/// A byte-sequence result, abstracted to its view.
pub open spec fn bytes_result_view(
    r: Result<Vec<u8>, TokenizerError>,
) -> Result<Seq<u8>, TokenizerError> {
    match r {
        Ok(v) => Ok(v@),
        Err(e) => Err(e),
    }
}

} // verus!
