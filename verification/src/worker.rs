use vstd::prelude::*;

use crate::engine::bytes_to_string_lossy;
use crate::engine::decode_bytes_of;
use crate::engine::encode_plain_of;
use crate::engine::encode_special_of;
use crate::engine::engine_count_plain;
use crate::engine::engine_count_special;
use crate::engine::engine_decode;
use crate::engine::engine_encode_plain;
use crate::engine::engine_encode_special;
use crate::engine::lossy_text_of;
use crate::engine::push_char;
use crate::engine::utf8_decode_of;
use crate::engine::utf8_to_string;
use crate::errors::TokenizerError;
use crate::engine::tokens_all_valid;
use crate::engine::utf8_bytes_of;
use crate::scan::match_at;
use crate::scan::matches_at;
use vstd::string::StrSliceExecFns;
use crate::message::bytes_result_view;
use crate::message::text_result_view;
use crate::message::tokens_result_view;
use crate::message::RequestMessage;
use crate::message::Response;
use crate::policy::SpecialTokenAction;
use crate::policy::SpecialTokenPolicy;
use crate::table::EncodingTable;

verus! {

/// A token count clamped into the reply's integer type.
pub open spec fn sat_count(n: nat) -> i32 {
    if n > i32::MAX as nat {
        i32::MAX
    } else {
        n as i32
    }
}

/// A nonempty override key stands at position `i` of the text.
pub open spec fn key_matches_at(
    ov: Seq<(String, SpecialTokenAction)>,
    text: Seq<char>,
    i: int,
    j: int,
) -> bool {
    &&& 0 <= j < ov.len()
    &&& ov[j].0@.len() > 0
    &&& match_at(text, ov[j].0@, i)
}

/// Some nonempty override key stands at position `i`. An empty key is no
/// marker and never matches.
pub open spec fn matches_any_at(
    ov: Seq<(String, SpecialTokenAction)>,
    text: Seq<char>,
    i: int,
) -> bool {
    exists|j: int| #[trigger] key_matches_at(ov, text, i, j)
}

/// The first position at or after `from` where some override key stands.
pub open spec fn first_match_from(
    ov: Seq<(String, SpecialTokenAction)>,
    text: Seq<char>,
    from: int,
) -> Option<int>
    decreases text.len() - from,
{
    if from < 0 || from >= text.len() {
        None
    } else if matches_any_at(ov, text, from) {
        Some(from)
    } else {
        first_match_from(ov, text, from + 1)
    }
}

/// The first override, in list order at or after index `j`, whose key stands
/// at position `i`.
pub open spec fn first_key_at(
    ov: Seq<(String, SpecialTokenAction)>,
    text: Seq<char>,
    i: int,
    j: int,
) -> Option<int>
    decreases ov.len() - j,
{
    if j < 0 || j >= ov.len() {
        None
    } else if key_matches_at(ov, text, i, j) {
        Some(j)
    } else {
        first_key_at(ov, text, i, j + 1)
    }
}

/// What the default action makes of one stretch of text between override-key
/// occurrences. An empty stretch contributes nothing.
pub open spec fn apply_default_spec(
    enc: tiktoken::CoreBpe,
    default: SpecialTokenAction,
    seg: Seq<char>,
) -> Result<Seq<u32>, TokenizerError> {
    if seg.len() == 0 {
        Ok(Seq::empty())
    } else {
        match default {
            SpecialTokenAction::NormalText => Ok(encode_plain_of(enc, seg)),
            SpecialTokenAction::Special => Ok(encode_special_of(enc, seg)),
            SpecialTokenAction::Forbidden => if encode_plain_of(enc, seg) == encode_special_of(
                enc,
                seg,
            ) {
                Ok(encode_plain_of(enc, seg))
            } else {
                Err(TokenizerError::EncodeDomain)
            },
        }
    }
}

/// What an override's action makes of one occurrence of its key. Whether the
/// engine reserves the key as a marker is observed as its two encode modes
/// disagreeing on the key alone: an unreserved key is ordinary text that a
/// prohibition leaves alone, and one that special recognition rejects.
pub open spec fn apply_override_spec(
    enc: tiktoken::CoreBpe,
    action: SpecialTokenAction,
    key: Seq<char>,
) -> Result<Seq<u32>, TokenizerError> {
    match action {
        SpecialTokenAction::NormalText => Ok(encode_plain_of(enc, key)),
        SpecialTokenAction::Forbidden => if encode_plain_of(enc, key) == encode_special_of(
            enc,
            key,
        ) {
            Ok(encode_plain_of(enc, key))
        } else {
            Err(TokenizerError::EncodeDomain)
        },
        SpecialTokenAction::Special => if encode_plain_of(enc, key) == encode_special_of(
            enc,
            key,
        ) {
            Err(TokenizerError::EncodeDomain)
        } else {
            Ok(encode_special_of(enc, key))
        },
    }
}

/// Encoding from position `from` on: the stretch up to the first override-key
/// occurrence gets the default action, the occurrence gets its override's
/// action, and the rest recurses; with no occurrence left, the tail gets the
/// default. A present key thus always takes precedence over the default.
pub open spec fn seg_encode(
    enc: tiktoken::CoreBpe,
    ov: Seq<(String, SpecialTokenAction)>,
    default: SpecialTokenAction,
    text: Seq<char>,
    from: int,
) -> Result<Seq<u32>, TokenizerError>
    decreases text.len() - from,
{
    match first_match_from(ov, text, from) {
        None => apply_default_spec(enc, default, text.subrange(from, text.len() as int)),
        Some(i) => match first_key_at(ov, text, i, 0) {
            None => apply_default_spec(enc, default, text.subrange(from, text.len() as int)),
            Some(j) => {
                let key = ov[j].0@;
                if from <= i && i + key.len() <= text.len() && key.len() > 0 {
                    match apply_default_spec(enc, default, text.subrange(from, i)) {
                        Err(e) => Err(e),
                        Ok(head) => match apply_override_spec(enc, ov[j].1, key) {
                            Err(e) => Err(e),
                            Ok(occ) => match seg_encode(
                                enc,
                                ov,
                                default,
                                text,
                                i + key.len(),
                            ) {
                                Err(e) => Err(e),
                                Ok(rest) => Ok(head + occ + rest),
                            },
                        },
                    }
                } else {
                    Err(TokenizerError::EncodeDomain)
                }
            },
        },
    }
}

/// What encoding a text under a policy yields. A uniform policy is honored
/// through the engine's matching mode: every marker literal, every marker
/// recognized, or — for a forbidden default — a check that the text holds no
/// marker, observed as the two modes agreeing. A policy that mixes actions is
/// honored by segmentation: each occurrence of an override key gets that
/// override's action and the stretches between get the default, so a present
/// key always takes precedence over the default. The occurrences are found by
/// a literal left-to-right scan over the override keys, earliest position
/// first and list order at a tie, which stands in for the engine's own marker
/// scan.
pub open spec fn spec_encode_outcome(
    enc: tiktoken::CoreBpe,
    text: Seq<char>,
    policy: SpecialTokenPolicy,
) -> Result<Seq<u32>, TokenizerError> {
    match policy.spec_uniform() {
        Option::None => seg_encode(enc, policy.overrides@, policy.default_action, text, 0),
        Option::Some(SpecialTokenAction::NormalText) => Ok(encode_plain_of(enc, text)),
        Option::Some(SpecialTokenAction::Special) => Ok(encode_special_of(enc, text)),
        Option::Some(SpecialTokenAction::Forbidden) => if encode_plain_of(enc, text)
            == encode_special_of(enc, text) {
            Ok(encode_plain_of(enc, text))
        } else {
            Err(TokenizerError::EncodeDomain)
        },
    }
}

/// Counting agrees with encoding: the count is the encode outcome's length.
pub open spec fn spec_count_outcome(
    enc: tiktoken::CoreBpe,
    text: Seq<char>,
    policy: SpecialTokenPolicy,
) -> Result<i32, TokenizerError> {
    match spec_encode_outcome(enc, text, policy) {
        Ok(tokens) => Ok(sat_count(tokens.len())),
        Err(e) => Err(e),
    }
}

/// What a single-token lookup yields: the bytes must read as text that the
/// special-aware encode maps to exactly one token. The engine in use offers
/// no byte-level vocabulary lookup, so bytes that are not valid UTF-8 are
/// never recognized — a narrowing of the operation's intended meaning, which
/// owes success to every vocabulary entry, including the one-byte entries
/// that are not valid UTF-8 on their own.
pub open spec fn spec_single_token_outcome(
    enc: tiktoken::CoreBpe,
    bytes: Seq<u8>,
) -> Result<u32, TokenizerError> {
    match utf8_decode_of(bytes) {
        Option::None => Err(TokenizerError::TokenNotFound),
        Option::Some(text) => if encode_special_of(enc, text).len() == 1 {
            Ok(encode_special_of(enc, text)[0])
        } else {
            Err(TokenizerError::TokenNotFound)
        },
    }
}

/// What decoding a token sequence to text yields: the lossy reading of the
/// decoded bytes. Decoding to text never fails; malformed ids degrade to a
/// best-effort result.
pub open spec fn spec_decoded_text(enc: tiktoken::CoreBpe, tokens: Seq<u32>) -> Seq<char> {
    lossy_text_of(decode_bytes_of(enc, tokens))
}

/// What decoding one token id to bytes yields: its vocabulary bytes, or an
/// out-of-range error when the vocabulary knows nothing of the id.
pub open spec fn spec_token_bytes_outcome(
    enc: tiktoken::CoreBpe,
    token: u32,
) -> Result<Seq<u8>, TokenizerError> {
    let bytes = decode_bytes_of(enc, seq![token]);
    if bytes.len() == 0 {
        Err(TokenizerError::TokenOutOfRange)
    } else {
        Ok(bytes)
    }
}

/// A space, or any other character unchanged.
pub open spec fn narrow_char(c: char) -> char {
    if c == ' ' {
        '\u{2581}'
    } else {
        c
    }
}

/// The text with each space replaced by the lower-one-eighth-block glyph.
pub open spec fn narrowed(text: Seq<char>) -> Seq<char> {
    text.map_values(|c: char| narrow_char(c))
}

/// What the approximate count yields: the plain count of the text, after the
/// optional space replacement. It is a function of the text and the flag
/// alone; no special-token policy enters. The engine in use has no cheaper
/// heuristic estimator, so the estimate is its exact no-specials count.
pub open spec fn spec_approximate_count(
    enc: tiktoken::CoreBpe,
    text: Seq<char>,
    replace_spaces: bool,
) -> i32 {
    if replace_spaces {
        sat_count(encode_plain_of(enc, narrowed(text)).len())
    } else {
        sat_count(encode_plain_of(enc, text).len())
    }
}

/// Element-by-element comparison whose answer is the equality of the views.
fn vecs_equal(a: &Vec<u32>, b: &Vec<u32>) -> (r: bool)
    ensures
        r == (a@ == b@),
{
    if a.len() != b.len() {
        return false;
    }
    let n = a.len();
    let mut i: usize = 0;
    while i < n
        invariant
            n == a@.len(),
            n == b@.len(),
            i <= n,
            forall|j: int| 0 <= j < i ==> a@[j] == b@[j],
        decreases n - i,
    {
        if a[i] != b[i] {
            return false;
        }
        i += 1;
    }
    proof {
        assert(a@ =~= b@);
    }
    true
}

/// Clamp a count into the reply's integer type.
fn sat_count_exec(n: usize) -> (r: i32)
    ensures
        r == sat_count(n as nat),
{
    if n > i32::MAX as usize {
        i32::MAX
    } else {
        n as i32
    }
}

/// Build the text with each space replaced by the narrow block glyph.
pub fn replace_spaces(text: &str) -> (r: String)
    ensures
        r@ == narrowed(text@),
{
    let mut out = String::new();
    let n = text.unicode_len();
    let mut i: usize = 0;
    while i < n
        invariant
            n == text@.len(),
            i <= n,
            out@ == narrowed(text@.take(i as int)),
        decreases n - i,
    {
        let c = text.get_char(i);
        if c == ' ' {
            push_char(&mut out, '\u{2581}');
        } else {
            push_char(&mut out, c);
        }
        proof {
            assert(narrowed(text@.take(i + 1 as int)) =~= narrowed(text@.take(i as int)).push(
                narrow_char(text@[i as int]),
            ));
        }
        i += 1;
    }
    proof {
        assert(text@.take(n as int) =~= text@);
    }
    out
}

/// Positions before the first match do not move it.
proof fn lemma_first_match_skip(
    ov: Seq<(String, SpecialTokenAction)>,
    text: Seq<char>,
    from: int,
    upto: int,
)
    requires
        0 <= from <= upto <= text.len(),
        forall|p: int| from <= p < upto ==> !matches_any_at(ov, text, p),
    ensures
        first_match_from(ov, text, from) == first_match_from(ov, text, upto),
    decreases upto - from,
{
    if from < upto {
        assert(!matches_any_at(ov, text, from));
        lemma_first_match_skip(ov, text, from + 1, upto);
    }
}

/// Overrides before the first matching one do not move it.
proof fn lemma_first_key_skip(
    ov: Seq<(String, SpecialTokenAction)>,
    text: Seq<char>,
    i: int,
    upto: int,
)
    requires
        0 <= upto <= ov.len(),
        forall|j: int| 0 <= j < upto ==> !key_matches_at(ov, text, i, j),
    ensures
        first_key_at(ov, text, i, 0) == first_key_at(ov, text, i, upto),
    decreases upto,
{
    if upto > 0 {
        lemma_first_key_skip(ov, text, i, upto - 1);
        assert(!key_matches_at(ov, text, i, upto - 1));
    }
}

/// Find the first occurrence of any nonempty override key at or after `from`:
/// the earliest position, and there the first override in list order.
fn find_first_key(
    ov: &Vec<(String, SpecialTokenAction)>,
    text: &str,
    from: usize,
) -> (r: Option<(usize, usize)>)
    requires
        from <= text@.len(),
    ensures
        match r {
            Some(p) => from <= p.0 && (p.0 as int) < text@.len() && (p.1 as int) < ov@.len()
                && first_match_from(ov@, text@, from as int) == Some(p.0 as int)
                && first_key_at(ov@, text@, p.0 as int, 0) == Some(p.1 as int)
                && key_matches_at(ov@, text@, p.0 as int, p.1 as int),
            None => first_match_from(ov@, text@, from as int) is None,
        },
{
    let n = text.unicode_len();
    let m = ov.len();
    let mut i: usize = from;
    while i < n
        invariant
            from <= i <= n,
            n == text@.len(),
            m == ov@.len(),
            forall|p: int| from <= p < i ==> !matches_any_at(ov@, text@, p),
        decreases n - i,
    {
        let mut j: usize = 0;
        while j < m
            invariant
                from <= i < n,
                n == text@.len(),
                m == ov@.len(),
                j <= m,
                forall|j2: int| 0 <= j2 < j ==> !key_matches_at(ov@, text@, i as int, j2),
                forall|p: int| from <= p < i ==> !matches_any_at(ov@, text@, p),
            decreases m - j,
        {
            let klen = ov[j].0.as_str().unicode_len();
            if klen > 0 && klen <= n - i && matches_at(text, ov[j].0.as_str(), i) {
                proof {
                    assert(key_matches_at(ov@, text@, i as int, j as int));
                    lemma_first_key_skip(ov@, text@, i as int, j as int);
                    lemma_first_match_skip(ov@, text@, from as int, i as int);
                    assert(matches_any_at(ov@, text@, i as int));
                }
                return Some((i, j));
            }
            proof {
                if klen > n - i {
                    assert(!match_at(text@, ov@[j as int].0@, i as int));
                }
            }
            j += 1;
        }
        proof {
            assert(!matches_any_at(ov@, text@, i as int));
        }
        i += 1;
    }
    proof {
        lemma_first_match_skip(ov@, text@, from as int, n as int);
    }
    None
}

/// Apply the default action to one stretch between override-key occurrences.
fn apply_default_encode(enc: &tiktoken::CoreBpe, default: SpecialTokenAction, seg: &str) -> (r:
    Result<Vec<u32>, TokenizerError>)
    ensures
        tokens_result_view(r) == apply_default_spec(*enc, default, seg@),
        r matches Ok(v) ==> tokens_all_valid(*enc, v@),
{
    if seg.is_empty() {
        let empty: Vec<u32> = Vec::new();
        proof {
            assert(empty@ =~= Seq::<u32>::empty());
        }
        Ok(empty)
    } else {
        match default {
            SpecialTokenAction::NormalText => Ok(engine_encode_plain(enc, seg)),
            SpecialTokenAction::Special => Ok(engine_encode_special(enc, seg)),
            SpecialTokenAction::Forbidden => {
                let plain = engine_encode_plain(enc, seg);
                let special = engine_encode_special(enc, seg);
                if vecs_equal(&plain, &special) {
                    Ok(plain)
                } else {
                    Err(TokenizerError::EncodeDomain)
                }
            },
        }
    }
}

/// Apply an override's action to one occurrence of its key.
fn apply_override_encode(enc: &tiktoken::CoreBpe, action: SpecialTokenAction, key: &str) -> (r:
    Result<Vec<u32>, TokenizerError>)
    ensures
        tokens_result_view(r) == apply_override_spec(*enc, action, key@),
        r matches Ok(v) ==> tokens_all_valid(*enc, v@),
{
    match action {
        SpecialTokenAction::NormalText => Ok(engine_encode_plain(enc, key)),
        SpecialTokenAction::Forbidden => {
            let plain = engine_encode_plain(enc, key);
            let special = engine_encode_special(enc, key);
            if vecs_equal(&plain, &special) {
                Ok(plain)
            } else {
                Err(TokenizerError::EncodeDomain)
            }
        },
        SpecialTokenAction::Special => {
            let plain = engine_encode_plain(enc, key);
            let special = engine_encode_special(enc, key);
            if vecs_equal(&plain, &special) {
                Err(TokenizerError::EncodeDomain)
            } else {
                Ok(special)
            }
        },
    }
}

/// Encode from position `from` on, by segmentation: default action between
/// occurrences, the override's action at each occurrence.
fn seg_encode_exec(
    enc: &tiktoken::CoreBpe,
    ov: &Vec<(String, SpecialTokenAction)>,
    default: SpecialTokenAction,
    text: &str,
    from: usize,
) -> (r: Result<Vec<u32>, TokenizerError>)
    requires
        from <= text@.len(),
    ensures
        tokens_result_view(r) == seg_encode(*enc, ov@, default, text@, from as int),
        r matches Ok(v) ==> tokens_all_valid(*enc, v@),
    decreases text@.len() - from,
{
    let n = text.unicode_len();
    match find_first_key(ov, text, from) {
        None => {
            let seg = text.substring_char(from, n);
            apply_default_encode(enc, default, seg)
        },
        Some((i, j)) => {
            let klen = ov[j].0.as_str().unicode_len();
            proof {
                assert(key_matches_at(ov@, text@, i as int, j as int));
                assert(i + klen <= n && klen > 0);
            }
            let head_seg = text.substring_char(from, i);
            let mut acc = match apply_default_encode(enc, default, head_seg) {
                Ok(v) => v,
                Err(e) => {
                    return Err(e);
                },
            };
            let mut occ = match apply_override_encode(enc, ov[j].1, ov[j].0.as_str()) {
                Ok(v) => v,
                Err(e) => {
                    return Err(e);
                },
            };
            let mut rest = match seg_encode_exec(enc, ov, default, text, i + klen) {
                Ok(v) => v,
                Err(e) => {
                    return Err(e);
                },
            };
            let ghost (h, o, rst) = (acc@, occ@, rest@);
            acc.append(&mut occ);
            acc.append(&mut rest);
            proof {
                assert(acc@ == h + o + rst);
                assert(tokens_all_valid(*enc, acc@)) by {
                    assert forall|idx: int|
                        0 <= idx < acc@.len() implies (#[trigger] decode_bytes_of(
                        *enc,
                        seq![acc@[idx]],
                    )).len() > 0 by {
                        if idx < h.len() {
                            assert(acc@[idx] == h[idx]);
                            assert(decode_bytes_of(*enc, seq![h[idx]]).len() > 0);
                        } else if idx < h.len() + o.len() {
                            assert(acc@[idx] == o[idx - h.len()]);
                            assert(decode_bytes_of(*enc, seq![o[idx - h.len()]]).len() > 0);
                        } else {
                            assert(acc@[idx] == rst[idx - h.len() - o.len()]);
                            assert(decode_bytes_of(*enc, seq![rst[idx - h.len() - o.len()]]).len()
                                > 0);
                        }
                    }
                }
            }
            Ok(acc)
        },
    }
}

/// Encode a text under a policy, honoring the policy through the engine's
/// uniform modes and scans. Under the ordinary-text default, the result
/// round-trips: decoding it back to text reproduces the input.
pub fn encode_with_policy(
    enc: &tiktoken::CoreBpe,
    text: &str,
    policy: &SpecialTokenPolicy,
) -> (r: Result<Vec<u32>, TokenizerError>)
    ensures
        tokens_result_view(r) == spec_encode_outcome(*enc, text@, *policy),
        policy.spec_uniform() == Some(SpecialTokenAction::NormalText) ==> spec_decoded_text(
            *enc,
            encode_plain_of(*enc, text@),
        ) == text@,
        r matches Ok(v) ==> tokens_all_valid(*enc, v@),
{
    match policy.uniform_action() {
        Option::None => seg_encode_exec(enc, &policy.overrides, policy.default_action, text, 0),
        Option::Some(SpecialTokenAction::NormalText) => Ok(engine_encode_plain(enc, text)),
        Option::Some(SpecialTokenAction::Special) => Ok(engine_encode_special(enc, text)),
        Option::Some(SpecialTokenAction::Forbidden) => {
            let plain = engine_encode_plain(enc, text);
            let special = engine_encode_special(enc, text);
            if vecs_equal(&plain, &special) {
                Ok(plain)
            } else {
                Err(TokenizerError::EncodeDomain)
            }
        },
    }
}

/// Count the tokens of a text under a policy, without allocating the token
/// vector where the engine's counting path applies.
pub fn count_with_policy(
    enc: &tiktoken::CoreBpe,
    text: &str,
    policy: &SpecialTokenPolicy,
) -> (r: Result<i32, TokenizerError>)
    ensures
        r == spec_count_outcome(*enc, text@, *policy),
{
    match policy.uniform_action() {
        Option::None => {
            match seg_encode_exec(enc, &policy.overrides, policy.default_action, text, 0) {
                Ok(v) => Ok(sat_count_exec(v.len())),
                Err(e) => Err(e),
            }
        },
        Option::Some(SpecialTokenAction::NormalText) => Ok(
            sat_count_exec(engine_count_plain(enc, text)),
        ),
        Option::Some(SpecialTokenAction::Special) => Ok(
            sat_count_exec(engine_count_special(enc, text)),
        ),
        Option::Some(SpecialTokenAction::Forbidden) => {
            let plain = engine_encode_plain(enc, text);
            let special = engine_encode_special(enc, text);
            if vecs_equal(&plain, &special) {
                Ok(sat_count_exec(plain.len()))
            } else {
                Err(TokenizerError::EncodeDomain)
            }
        },
    }
}

/// Look up the one token for a byte sequence; every special marker counts as
/// fully recognized, and anything that does not map to exactly one token is
/// not a vocabulary entry. A recognized token is the inverse of the one-token
/// decode: it decodes back to exactly the input bytes, so the decode is owed
/// to succeed on it.
pub fn encode_single_token_lookup(enc: &tiktoken::CoreBpe, bytes: &Vec<u8>) -> (r: Result<
    u32,
    TokenizerError,
>)
    ensures
        r == spec_single_token_outcome(*enc, bytes@),
        r matches Ok(t) ==> decode_bytes_of(*enc, seq![t]) == bytes@ && spec_token_bytes_outcome(
            *enc,
            t,
        ) == Ok::<Seq<u8>, TokenizerError>(bytes@),
{
    match utf8_to_string(bytes) {
        Option::None => Err(TokenizerError::TokenNotFound),
        Option::Some(text) => {
            let tokens = engine_encode_special(enc, text.as_str());
            if tokens.len() == 1 {
                let token = tokens[0];
                proof {
                    assert(tokens@ =~= seq![token]);
                    assert(decode_bytes_of(*enc, seq![tokens@[0]]).len() > 0);
                }
                Ok(token)
            } else {
                Err(TokenizerError::TokenNotFound)
            }
        },
    }
}

/// Decode a token sequence to text, best effort.
pub fn decode_tokens_text(enc: &tiktoken::CoreBpe, tokens: &Vec<u32>) -> (r: String)
    ensures
        r@ == spec_decoded_text(*enc, tokens@),
{
    let bytes = engine_decode(enc, tokens);
    bytes_to_string_lossy(&bytes)
}

/// Decode one token id to its bytes, or report it out of range.
pub fn decode_token_bytes(enc: &tiktoken::CoreBpe, token: u32) -> (r: Result<
    Vec<u8>,
    TokenizerError,
>)
    ensures
        bytes_result_view(r) == spec_token_bytes_outcome(*enc, token),
{
    let mut one: Vec<u32> = Vec::new();
    one.push(token);
    proof {
        assert(one@ =~= seq![token]);
    }
    let bytes = engine_decode(enc, &one);
    if bytes.len() == 0 {
        Err(TokenizerError::TokenOutOfRange)
    } else {
        Ok(bytes)
    }
}

/// Estimate the token count of a text, optionally after space replacement.
pub fn approximate_count(enc: &tiktoken::CoreBpe, text: &str, replace: bool) -> (r: i32)
    ensures
        r == spec_approximate_count(*enc, text@, replace),
{
    if replace {
        let narrow = replace_spaces(text);
        sat_count_exec(engine_count_plain(enc, narrow.as_str()))
    } else {
        sat_count_exec(engine_count_plain(enc, text))
    }
}

/// One reply per message, of the operation's own kind, carrying exactly the
/// outcome the specification functions above assign to the request.
pub open spec fn response_matches(
    table: EncodingTable,
    msg: RequestMessage,
    r: Response,
) -> bool {
    match msg {
        RequestMessage::ExactCount { text, encoding, policy } => r matches Response::Count(c)
            && c == spec_count_outcome(table.spec_get(encoding), text@, policy),
        RequestMessage::Encode { text, encoding, policy } => r matches Response::Tokens(t)
            && tokens_result_view(t) == spec_encode_outcome(
            table.spec_get(encoding),
            text@,
            policy,
        ),
        RequestMessage::EncodeSingleToken { bytes, encoding } => r matches Response::SingleToken(t)
            && t == spec_single_token_outcome(table.spec_get(encoding), bytes@),
        RequestMessage::DecodeTokens { tokens, encoding } => r matches Response::Text(t)
            && text_result_view(t) == Ok::<Seq<char>, TokenizerError>(
            spec_decoded_text(table.spec_get(encoding), tokens@),
        ),
        RequestMessage::DecodeTokenBytes { token, encoding } => r matches Response::TokenBytes(b)
            && bytes_result_view(b) == spec_token_bytes_outcome(table.spec_get(encoding), token),
        RequestMessage::ApproximateCount {
            text,
            encoding,
            replace_spaces_with_lower_one_eighth_block,
        } => r matches Response::Estimate(c) && c == Ok::<i32, TokenizerError>(
            spec_approximate_count(
                table.spec_get(encoding),
                text@,
                replace_spaces_with_lower_one_eighth_block,
            ),
        ),
    }
}

/// The worker's dispatch step: execute one message against the table and
/// produce its one reply. Total over the closed set of operations, for every
/// payload; a domain failure is reported in the reply, never retried.
pub fn handle_message(table: &EncodingTable, msg: RequestMessage) -> (r: Response)
    ensures
        response_matches(*table, msg, r),
{
    match msg {
        RequestMessage::ExactCount { text, encoding, policy } => {
            let enc = table.get(encoding);
            Response::Count(count_with_policy(enc, text.as_str(), &policy))
        },
        RequestMessage::Encode { text, encoding, policy } => {
            let enc = table.get(encoding);
            Response::Tokens(encode_with_policy(enc, text.as_str(), &policy))
        },
        RequestMessage::EncodeSingleToken { bytes, encoding } => {
            let enc = table.get(encoding);
            Response::SingleToken(encode_single_token_lookup(enc, &bytes))
        },
        RequestMessage::DecodeTokens { tokens, encoding } => {
            let enc = table.get(encoding);
            Response::Text(Ok(decode_tokens_text(enc, &tokens)))
        },
        RequestMessage::DecodeTokenBytes { token, encoding } => {
            let enc = table.get(encoding);
            Response::TokenBytes(decode_token_bytes(enc, token))
        },
        RequestMessage::ApproximateCount {
            text,
            encoding,
            replace_spaces_with_lower_one_eighth_block,
        } => {
            let enc = table.get(encoding);
            Response::Estimate(
                Ok(
                    approximate_count(
                        enc,
                        text.as_str(),
                        replace_spaces_with_lower_one_eighth_block,
                    ),
                ),
            )
        },
    }
}

} // verus!
