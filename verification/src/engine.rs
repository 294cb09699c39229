use vstd::prelude::*;

verus! {

// The byte-pair encoding engine is an external collaborator. Verified code
// sees it through the names and wrappers below: each name stands for the
// result of one engine operation, a pure function of the engine value and the
// operation's arguments, and every wrapper's contract is stated over those
// names.

#[verifier::external_type_specification]
#[verifier::external_body]
pub struct ExCoreBpe(tiktoken::CoreBpe);

/// The token ids that the engine's plain encode yields for a text; every
/// special marker is treated as ordinary text.
pub uninterp spec fn encode_plain_of(enc: tiktoken::CoreBpe, text: Seq<char>) -> Seq<u32>;

/// The token ids that the engine's special-aware encode yields for a text;
/// every special marker is recognized as its designated token.
pub uninterp spec fn encode_special_of(enc: tiktoken::CoreBpe, text: Seq<char>) -> Seq<u32>;

/// The bytes the engine's decode yields for a token id sequence; ids unknown
/// to the vocabulary contribute nothing.
pub uninterp spec fn decode_bytes_of(enc: tiktoken::CoreBpe, tokens: Seq<u32>) -> Seq<u8>;

/// The number of regular entries in the engine's vocabulary, what its
/// vocab_size method reports; a function of the vocabulary data alone.
pub uninterp spec fn vocab_size_of(enc: tiktoken::CoreBpe) -> nat;

/// The characters of the lossy UTF-8 reading of a byte sequence.
pub uninterp spec fn lossy_text_of(bytes: Seq<u8>) -> Seq<char>;

/// The strict UTF-8 reading of a byte sequence: its characters, or nothing
/// when the bytes are not valid UTF-8.
pub uninterp spec fn utf8_decode_of(bytes: Seq<u8>) -> Option<Seq<char>>;

/// The UTF-8 encoding of a character sequence, the bytes that str::as_bytes
/// yields for a string of those characters.
pub uninterp spec fn utf8_bytes_of(text: Seq<char>) -> Seq<u8>;

/// Every token of the sequence is a valid id of the engine's vocabulary:
/// each decodes to nonempty bytes.
pub open spec fn tokens_all_valid(enc: tiktoken::CoreBpe, tokens: Seq<u32>) -> bool {
    forall|i: int|
        0 <= i < tokens.len() ==> (#[trigger] decode_bytes_of(enc, seq![tokens[i]])).len() > 0
}

/// Relies on tiktoken::CoreBpe::encode: deterministic byte-pair encoding of
/// the text, with special markers treated as ordinary text. The round-trip
/// clauses hold because the engine's pre-tokenizer tiles the whole text, each
/// emitted token decodes to exactly its piece's bytes — so every emitted id
/// is a valid vocabulary id — and the lossy reading of a string's own valid
/// UTF-8 bytes is the string again.
#[verifier::external_body]
pub(crate) fn engine_encode_plain(enc: &tiktoken::CoreBpe, text: &str) -> (r: Vec<u32>)
    ensures
        r@ == encode_plain_of(*enc, text@),
        decode_bytes_of(*enc, r@) == utf8_bytes_of(text@),
        lossy_text_of(decode_bytes_of(*enc, r@)) == text@,
        tokens_all_valid(*enc, r@),
{
    enc.encode(text)
}

/// Relies on tiktoken::CoreBpe::encode_with_special_tokens: as encode, but
/// each special marker becomes its designated token id. The round-trip
/// clauses hold as for the plain encode: a recognized marker's id decodes to
/// the marker's own bytes.
#[verifier::external_body]
pub(crate) fn engine_encode_special(enc: &tiktoken::CoreBpe, text: &str) -> (r: Vec<u32>)
    ensures
        r@ == encode_special_of(*enc, text@),
        decode_bytes_of(*enc, r@) == utf8_bytes_of(text@),
        lossy_text_of(decode_bytes_of(*enc, r@)) == text@,
        tokens_all_valid(*enc, r@),
{
    enc.encode_with_special_tokens(text)
}

/// Relies on tiktoken::CoreBpe::count, documented to equal
/// `encode(text).len()` while skipping the token vector allocation.
#[verifier::external_body]
pub(crate) fn engine_count_plain(enc: &tiktoken::CoreBpe, text: &str) -> (r: usize)
    ensures
        r == encode_plain_of(*enc, text@).len(),
{
    enc.count(text)
}

/// Relies on tiktoken::CoreBpe::count_with_special_tokens, documented as the
/// counting equivalent of `encode_with_special_tokens`.
#[verifier::external_body]
pub(crate) fn engine_count_special(enc: &tiktoken::CoreBpe, text: &str) -> (r: usize)
    ensures
        r == encode_special_of(*enc, text@).len(),
{
    enc.count_with_special_tokens(text)
}

/// Relies on tiktoken::CoreBpe::decode: maps each known token id back to its
/// bytes and silently skips unknown ids.
#[verifier::external_body]
pub(crate) fn engine_decode(enc: &tiktoken::CoreBpe, tokens: &Vec<u32>) -> (r: Vec<u8>)
    ensures
        r@ == decode_bytes_of(*enc, tokens@),
{
    enc.decode(tokens)
}

/// Relies on tiktoken::get_encoding: returns the process-wide engine built
/// for a registered encoding name, or nothing for an unknown name. The four
/// names below are registered match arms of its source, so for them the
/// lookup always succeeds, and each hands back the engine built for that
/// name, distinguishable here by its documented vocabulary size.
#[verifier::external_body]
pub(crate) fn lookup_engine(name: &str) -> (r: Option<&'static tiktoken::CoreBpe>)
    ensures
        (name@ == "cl100k_base"@ || name@ == "llama3"@ || name@ == "o200k_base"@ || name@
            == "mistral_v3"@) ==> r is Some,
        name@ == "cl100k_base"@ ==> (r matches Some(e) ==> vocab_size_of(*e) == 100256),
        name@ == "llama3"@ ==> (r matches Some(e) ==> vocab_size_of(*e) == 128000),
        name@ == "o200k_base"@ ==> (r matches Some(e) ==> vocab_size_of(*e) == 199998),
        name@ == "mistral_v3"@ ==> (r matches Some(e) ==> vocab_size_of(*e) == 131072),
{
    tiktoken::get_encoding(name)
}

/// Relies on String::from_utf8_lossy: the lossy reading of the bytes, with
/// ill-formed sequences replaced, a function of the bytes alone.
#[verifier::external_body]
pub(crate) fn bytes_to_string_lossy(bytes: &Vec<u8>) -> (r: String)
    ensures
        r@ == lossy_text_of(bytes@),
{
    String::from_utf8_lossy(bytes).into_owned()
}

/// Relies on std::str::from_utf8: succeeds exactly on valid UTF-8 and then
/// yields the bytes' characters, a function of the bytes alone; the bytes are
/// then exactly the characters' own UTF-8 encoding.
#[verifier::external_body]
pub(crate) fn utf8_to_string(bytes: &Vec<u8>) -> (r: Option<String>)
    ensures
        r is Some <==> utf8_decode_of(bytes@) is Some,
        r matches Some(s) ==> utf8_decode_of(bytes@) == Some(s@) && bytes@ == utf8_bytes_of(s@),
{
    match core::str::from_utf8(bytes) {
        Ok(s) => Some(s.to_string()),
        Err(_) => None,
    }
}

/// Relies on String::push: appends exactly the one character.
#[verifier::external_body]
pub(crate) fn push_char(s: &mut String, c: char)
    ensures
        final(s)@ == old(s)@.push(c),
{
    s.push(c);
}

} // verus!
