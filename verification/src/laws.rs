use vstd::prelude::*;

use crate::engine::encode_plain_of;
use crate::engine::encode_special_of;
use crate::engine::utf8_decode_of;
use crate::errors::TokenizerError;
use crate::message::RequestMessage;
use crate::message::Response;
use crate::message::bytes_result_view;
use crate::message::text_result_view;
use crate::message::tokens_result_view;
use crate::policy::SpecialTokenAction;
use crate::policy::SpecialTokenPolicy;
use crate::policy::lemma_overrides_map_dom;
use crate::policy::lemma_overrides_map_value;
use crate::table::EncodingTable;
use crate::scan::match_at;
use crate::worker::apply_default_spec;
use crate::worker::first_key_at;
use crate::worker::first_match_from;
use crate::worker::key_matches_at;
use crate::worker::matches_any_at;
use crate::worker::response_matches;
use crate::worker::seg_encode;
use crate::worker::sat_count;
use crate::worker::spec_approximate_count;
use crate::worker::spec_count_outcome;
use crate::worker::spec_encode_outcome;
use crate::worker::spec_single_token_outcome;

verus! {

/// Counting and encoding agree: under every policy the exact count is the
/// clamped length of the token sequence the encode operation yields, and the
/// two operations fail on exactly the same inputs, with the same error.
pub proof fn lemma_count_matches_encode(
    enc: tiktoken::CoreBpe,
    text: Seq<char>,
    policy: SpecialTokenPolicy,
)
    ensures
        match (spec_count_outcome(enc, text, policy), spec_encode_outcome(enc, text, policy)) {
            (Ok(n), Ok(tokens)) => n == sat_count(tokens.len()),
            (Err(e1), Err(e2)) => e1 == e2,
            _ => false,
        },
{
}

/// A single-token lookup succeeds exactly when the bytes read as text that
/// the special-aware encode maps to one token, and then yields that token;
/// any byte sequence that decomposes into zero or several tokens fails with
/// the not-found error.
pub proof fn lemma_single_token_iff_one_entry(enc: tiktoken::CoreBpe, bytes: Seq<u8>)
    ensures
        (spec_single_token_outcome(enc, bytes) is Ok) <==> (utf8_decode_of(bytes) matches Some(
            text,
        ) && encode_special_of(enc, text).len() == 1),
        spec_single_token_outcome(enc, bytes) matches Ok(t) ==> (utf8_decode_of(bytes)
            matches Some(text) && t == encode_special_of(enc, text)[0]),
        (utf8_decode_of(bytes) matches Some(text) && encode_special_of(enc, text).len() != 1)
            ==> spec_single_token_outcome(enc, bytes) == Err::<u32, TokenizerError>(
            TokenizerError::TokenNotFound,
        ),
{
}

/// Under a uniformly forbidding policy, encoding fails with the domain error
/// exactly when the text holds a special marker — observed as the plain and
/// the special-aware encodings disagreeing — and otherwise yields the plain
/// encoding.
pub proof fn lemma_forbidden_rejects_markers(
    enc: tiktoken::CoreBpe,
    text: Seq<char>,
    policy: SpecialTokenPolicy,
)
    requires
        policy.spec_uniform() == Some(SpecialTokenAction::Forbidden),
    ensures
        spec_encode_outcome(enc, text, policy) == (if encode_plain_of(enc, text)
            == encode_special_of(enc, text) {
            Ok::<Seq<u32>, TokenizerError>(encode_plain_of(enc, text))
        } else {
            Err::<Seq<u32>, TokenizerError>(TokenizerError::EncodeDomain)
        }),
{
}

/// A present override key takes precedence over the default, whatever the
/// default is: a text that is exactly one marker, bound by the policy's one
/// override to ordinary text, encodes to its plain token sequence — the same
/// outcome a uniformly ordinary-text policy gives — even where the default
/// would have forbidden or specialized it.
pub proof fn lemma_override_precedence(
    enc: tiktoken::CoreBpe,
    text: Seq<char>,
    policy: SpecialTokenPolicy,
)
    requires
        policy.overrides@.len() == 1,
        policy.overrides@[0].0@ == text,
        policy.overrides@[0].1 == SpecialTokenAction::NormalText,
        text.len() > 0,
    ensures
        spec_encode_outcome(enc, text, policy) == Ok::<Seq<u32>, TokenizerError>(
            encode_plain_of(enc, text),
        ),
{
    if policy.spec_uniform() is Some {
        assert(policy.default_action == SpecialTokenAction::NormalText);
    } else {
        let ov = policy.overrides@;
        assert(text.subrange(0, text.len() as int) =~= text);
        assert(match_at(text, ov[0].0@, 0));
        assert(key_matches_at(ov, text, 0, 0));
        assert(matches_any_at(ov, text, 0));
        assert(first_match_from(ov, text, 0) == Some(0int));
        assert(first_key_at(ov, text, 0, 0) == Some(0int));
        assert(text.subrange(0, 0) =~= Seq::<char>::empty());
        assert(apply_default_spec(enc, policy.default_action, text.subrange(0, 0)) == Ok::<
            Seq<u32>,
            TokenizerError,
        >(Seq::empty()));
        assert(first_match_from(ov, text, text.len() as int) is None);
        assert(seg_encode(enc, ov, policy.default_action, text, text.len() as int) == Ok::<
            Seq<u32>,
            TokenizerError,
        >(Seq::empty()));
        assert(Seq::<u32>::empty() + encode_plain_of(enc, text) + Seq::<u32>::empty()
            =~= encode_plain_of(enc, text));
    }
}

/// Under a uniformly normal-text policy, encoding always succeeds and treats
/// every marker as ordinary bytes: it yields exactly the plain encoding.
pub proof fn lemma_normal_text_always_succeeds(
    enc: tiktoken::CoreBpe,
    text: Seq<char>,
    policy: SpecialTokenPolicy,
)
    requires
        policy.spec_uniform() == Some(SpecialTokenAction::NormalText),
    ensures
        spec_encode_outcome(enc, text, policy) == Ok::<Seq<u32>, TokenizerError>(
            encode_plain_of(enc, text),
        ),
{
}

/// The approximate count is a function of the engine, the text and the
/// space-replacement flag alone — its specification takes no policy — and it
/// is never negative.
pub proof fn lemma_approximate_count_nonnegative(
    enc: tiktoken::CoreBpe,
    text: Seq<char>,
    replace_spaces: bool,
)
    ensures
        spec_approximate_count(enc, text, replace_spaces) >= 0,
{
}

/// A present override key always takes precedence over the default action.
pub proof fn lemma_resolve_override(policy: SpecialTokenPolicy, i: int)
    requires
        policy.wf(),
        0 <= i < policy.overrides@.len(),
    ensures
        policy.spec_resolve(policy.overrides@[i].0@) == policy.overrides@[i].1,
{
    lemma_overrides_map_value(policy.overrides@, i);
}

/// A marker no override names resolves to the default action.
pub proof fn lemma_resolve_default(policy: SpecialTokenPolicy, marker: Seq<char>)
    requires
        forall|i: int| 0 <= i < policy.overrides@.len() ==> (#[trigger] policy.overrides@[i]).0@
            != marker,
    ensures
        policy.spec_resolve(marker) == policy.default_action,
{
    lemma_overrides_map_dom(policy.overrides@, marker);
}

/// Under a uniform policy every marker, named or not, resolves to the default
/// action; this is what lets the engine's all-or-nothing modes honor it.
pub proof fn lemma_uniform_resolves_default(policy: SpecialTokenPolicy, marker: Seq<char>)
    requires
        policy.wf(),
        policy.spec_uniform() is Some,
    ensures
        policy.spec_resolve(marker) == policy.default_action,
{
    lemma_overrides_map_dom(policy.overrides@, marker);
    if policy.overrides_map().dom().contains(marker) {
        let i = choose|i: int|
            0 <= i < policy.overrides@.len() && (#[trigger] policy.overrides@[i]).0@ == marker;
        lemma_overrides_map_value(policy.overrides@, i);
    }
}

/// Two replies that both answer the same message agree: the reply to a
/// message is unique up to the views of its payload. Together with the
/// worker's own contract — every message yields a matching reply — this is
/// the per-message share of the delivery guarantee: one message, one reply,
/// of the operation's own kind.
pub proof fn lemma_reply_unique(
    table: EncodingTable,
    msg: RequestMessage,
    r1: Response,
    r2: Response,
)
    requires
        response_matches(table, msg, r1),
        response_matches(table, msg, r2),
    ensures
        match (r1, r2) {
            (Response::Count(a), Response::Count(b)) => a == b,
            (Response::Tokens(a), Response::Tokens(b)) => tokens_result_view(a)
                == tokens_result_view(b),
            (Response::SingleToken(a), Response::SingleToken(b)) => a == b,
            (Response::Text(a), Response::Text(b)) => text_result_view(a) == text_result_view(b),
            (Response::TokenBytes(a), Response::TokenBytes(b)) => bytes_result_view(a)
                == bytes_result_view(b),
            (Response::Estimate(a), Response::Estimate(b)) => a == b,
            _ => false,
        },
{
}

} // verus!
