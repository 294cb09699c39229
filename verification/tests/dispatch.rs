use tiktoken_node::approximate_count_request;
use tiktoken_node::complete_count;
use tiktoken_node::complete_estimate;
use tiktoken_node::complete_single_token;
use tiktoken_node::complete_text;
use tiktoken_node::complete_token_bytes;
use tiktoken_node::complete_tokens;
use tiktoken_node::decode_request;
use tiktoken_node::decode_token_bytes_request;
use tiktoken_node::encode_cl100k_no_specials_request;
use tiktoken_node::encode_request;
use tiktoken_node::encode_single_token_request;
use tiktoken_node::exact_count_no_specials_request;
use tiktoken_node::exact_count_request;
use tiktoken_node::handle_message;
use tiktoken_node::no_specials_policy;
use tiktoken_node::EncodingTable;
use tiktoken_node::Response;
use tiktoken_node::SpecialTokenAction;
use tiktoken_node::SpecialTokenPolicy;
use tiktoken_node::SupportedEncoding;
use tiktoken_node::SyncTokenizer;
use tiktoken_node::TokenizerError;

fn table() -> EncodingTable {
    EncodingTable::new().expect("encoding table must build")
}

fn count_reply(r: Response) -> Result<i32, TokenizerError> {
    match r {
        Response::Count(c) => c,
        _ => panic!("expected a count reply"),
    }
}

fn tokens_reply(r: Response) -> Result<Vec<u32>, TokenizerError> {
    match r {
        Response::Tokens(t) => t,
        _ => panic!("expected a tokens reply"),
    }
}

fn text_reply(r: Response) -> Result<String, TokenizerError> {
    match r {
        Response::Text(t) => t,
        _ => panic!("expected a text reply"),
    }
}

fn single_token_reply(r: Response) -> Result<u32, TokenizerError> {
    match r {
        Response::SingleToken(t) => t,
        _ => panic!("expected a single-token reply"),
    }
}

fn token_bytes_reply(r: Response) -> Result<Vec<u8>, TokenizerError> {
    match r {
        Response::TokenBytes(b) => b,
        _ => panic!("expected a token-bytes reply"),
    }
}

fn estimate_reply(r: Response) -> Result<i32, TokenizerError> {
    match r {
        Response::Estimate(c) => c,
        _ => panic!("expected an estimate reply"),
    }
}

#[test]
fn test_num_tokens() {
    let table = table();
    let msg =
        exact_count_no_specials_request("hello, world".to_string(), SupportedEncoding::Cl100k);
    let num_tokens = count_reply(handle_message(&table, msg)).unwrap();
    assert_eq!(num_tokens, 3);
}

#[test]
fn encode_yields_three_tokens_and_decodes_back() {
    let table = table();
    let msg = encode_cl100k_no_specials_request("hello, world".to_string());
    let tokens = tokens_reply(handle_message(&table, msg)).unwrap();
    assert_eq!(tokens.len(), 3);
    let msg = decode_request(tokens, SupportedEncoding::Cl100k);
    let text = text_reply(handle_message(&table, msg)).unwrap();
    assert_eq!(text, "hello, world");
}

#[test]
fn count_equals_encode_length() {
    let table = table();
    let text = "The queue discipline is first in, first out.";
    let msg = exact_count_no_specials_request(text.to_string(), SupportedEncoding::O200k);
    let count = count_reply(handle_message(&table, msg)).unwrap();
    let msg = encode_request(
        text.to_string(),
        SupportedEncoding::O200k,
        no_specials_policy(),
    );
    let tokens = tokens_reply(handle_message(&table, msg)).unwrap();
    assert_eq!(count as usize, tokens.len());
}

#[test]
fn round_trip_every_selector() {
    let table = table();
    let selectors = [
        SupportedEncoding::Cl100k,
        SupportedEncoding::Llama3,
        SupportedEncoding::O200k,
        SupportedEncoding::Codestral,
    ];
    let text = "The quick brown fox jumps over the lazy dog.";
    for selector in selectors {
        let msg = encode_request(text.to_string(), selector, no_specials_policy());
        let tokens = tokens_reply(handle_message(&table, msg)).unwrap();
        assert!(!tokens.is_empty());
        let msg = decode_request(tokens, selector);
        let decoded = text_reply(handle_message(&table, msg)).unwrap();
        assert_eq!(decoded, text);
    }
}

#[test]
fn forbidden_default_rejects_marker_text() {
    let table = table();
    let text = "hello <|endoftext|> world";
    let policy = SpecialTokenPolicy::new(SpecialTokenAction::Forbidden);
    let msg = encode_request(text.to_string(), SupportedEncoding::Cl100k, policy);
    let reply = tokens_reply(handle_message(&table, msg));
    assert_eq!(reply, Err(TokenizerError::EncodeDomain));
    let policy = SpecialTokenPolicy::new(SpecialTokenAction::Forbidden);
    let msg = exact_count_request(text.to_string(), SupportedEncoding::Cl100k, policy);
    let reply = count_reply(handle_message(&table, msg));
    assert_eq!(reply, Err(TokenizerError::EncodeDomain));
}

#[test]
fn normal_text_default_accepts_marker_text() {
    let table = table();
    let text = "hello <|endoftext|> world";
    let policy = SpecialTokenPolicy::new(SpecialTokenAction::NormalText);
    let msg = encode_request(text.to_string(), SupportedEncoding::Cl100k, policy);
    let tokens = tokens_reply(handle_message(&table, msg)).unwrap();
    assert!(!tokens.contains(&100257));
    let msg = decode_request(tokens, SupportedEncoding::Cl100k);
    let decoded = text_reply(handle_message(&table, msg)).unwrap();
    assert_eq!(decoded, text);
}

#[test]
fn forbidden_default_accepts_plain_text() {
    let table = table();
    let policy = SpecialTokenPolicy::new(SpecialTokenAction::Forbidden);
    let msg = exact_count_request(
        "hello, world".to_string(),
        SupportedEncoding::Cl100k,
        policy,
    );
    assert_eq!(count_reply(handle_message(&table, msg)), Ok(3));
}

#[test]
fn special_default_recognizes_marker() {
    let table = table();
    let policy = SpecialTokenPolicy::new(SpecialTokenAction::Special);
    let msg = encode_request(
        "hello <|endoftext|> world".to_string(),
        SupportedEncoding::Cl100k,
        policy,
    );
    let tokens = tokens_reply(handle_message(&table, msg)).unwrap();
    assert!(tokens.contains(&100257));
}

#[test]
fn special_override_recognizes_its_marker() {
    let table = table();
    let mut policy = SpecialTokenPolicy::new(SpecialTokenAction::NormalText);
    policy.insert_override("<|endoftext|>".to_string(), SpecialTokenAction::Special);
    let msg = encode_request(
        "hello <|endoftext|> world".to_string(),
        SupportedEncoding::Cl100k,
        policy,
    );
    let tokens = tokens_reply(handle_message(&table, msg)).unwrap();
    assert!(tokens.contains(&100257));
    let mut policy = SpecialTokenPolicy::new(SpecialTokenAction::Forbidden);
    policy.insert_override("<|endoftext|>".to_string(), SpecialTokenAction::Special);
    let msg = encode_request(
        "hello <|endoftext|> world".to_string(),
        SupportedEncoding::Cl100k,
        policy,
    );
    let tokens = tokens_reply(handle_message(&table, msg)).unwrap();
    assert!(tokens.contains(&100257));
}

#[test]
fn special_override_rejects_an_unreserved_key() {
    let table = table();
    let mut policy = SpecialTokenPolicy::new(SpecialTokenAction::NormalText);
    policy.insert_override("XYZ".to_string(), SpecialTokenAction::Special);
    let msg = encode_request("aXYZb".to_string(), SupportedEncoding::Cl100k, policy);
    let reply = tokens_reply(handle_message(&table, msg));
    assert_eq!(reply, Err(TokenizerError::EncodeDomain));
}

#[test]
fn normal_override_under_special_default() {
    let table = table();
    let mut policy = SpecialTokenPolicy::new(SpecialTokenAction::Special);
    policy.insert_override("<|endoftext|>".to_string(), SpecialTokenAction::NormalText);
    let msg = encode_request(
        "hello <|endoftext|> world".to_string(),
        SupportedEncoding::Cl100k,
        policy,
    );
    let tokens = tokens_reply(handle_message(&table, msg)).unwrap();
    assert!(!tokens.contains(&100257));
}

#[test]
fn single_token_lookup_succeeds_on_one_entry() {
    let table = table();
    let msg = encode_single_token_request(b"hello".to_vec(), SupportedEncoding::Cl100k);
    let token = single_token_reply(handle_message(&table, msg)).unwrap();
    let msg = decode_token_bytes_request(token, SupportedEncoding::Cl100k);
    let bytes = token_bytes_reply(handle_message(&table, msg)).unwrap();
    assert_eq!(bytes, b"hello".to_vec());
}

#[test]
fn single_token_lookup_recognizes_special_marker() {
    let table = table();
    let msg = encode_single_token_request(b"<|endoftext|>".to_vec(), SupportedEncoding::Cl100k);
    let token = single_token_reply(handle_message(&table, msg)).unwrap();
    assert_eq!(token, 100257);
}

#[test]
fn single_token_lookup_fails_on_multi_token_bytes() {
    let table = table();
    let msg = encode_single_token_request(b"hello, world".to_vec(), SupportedEncoding::Cl100k);
    let reply = single_token_reply(handle_message(&table, msg));
    assert_eq!(reply, Err(TokenizerError::TokenNotFound));
}

#[test]
fn single_token_lookup_fails_on_invalid_utf8() {
    let table = table();
    let msg = encode_single_token_request(vec![0xff, 0xfe], SupportedEncoding::Cl100k);
    let reply = single_token_reply(handle_message(&table, msg));
    assert_eq!(reply, Err(TokenizerError::TokenNotFound));
}

#[test]
fn decode_token_bytes_rejects_out_of_range_id() {
    let table = table();
    let msg = decode_token_bytes_request(4_000_000_000, SupportedEncoding::Cl100k);
    let reply = token_bytes_reply(handle_message(&table, msg));
    assert_eq!(reply, Err(TokenizerError::TokenOutOfRange));
}

#[test]
fn decode_skips_unknown_ids() {
    let table = table();
    let msg = decode_request(vec![15339, 4_000_000_000, 1917], SupportedEncoding::Cl100k);
    let text = text_reply(handle_message(&table, msg)).unwrap();
    assert_eq!(text, "hello world");
}

#[test]
fn approximate_count_is_deterministic_and_nonnegative() {
    let table = table();
    let text = "hello,   world  and   spaces";
    for flag in [false, true] {
        let msg = approximate_count_request(text.to_string(), SupportedEncoding::Cl100k, flag);
        let first = estimate_reply(handle_message(&table, msg)).unwrap();
        let msg = approximate_count_request(text.to_string(), SupportedEncoding::Cl100k, flag);
        let second = estimate_reply(handle_message(&table, msg)).unwrap();
        assert_eq!(first, second);
        assert!(first >= 0);
    }
}

#[test]
fn approximate_count_flag_replaces_spaces() {
    let table = table();
    let text = "a b c d e f g h";
    let narrowed: String = text
        .chars()
        .map(|c| if c == ' ' { '\u{2581}' } else { c })
        .collect();
    let msg = approximate_count_request(text.to_string(), SupportedEncoding::Cl100k, true);
    let with_flag = estimate_reply(handle_message(&table, msg)).unwrap();
    let msg = approximate_count_request(narrowed, SupportedEncoding::Cl100k, false);
    let replaced_plain = estimate_reply(handle_message(&table, msg)).unwrap();
    assert_eq!(with_flag, replaced_plain);
}

#[test]
fn sync_tokenizer_matches_queued_estimate() {
    let table = table();
    let sync_tokenizer = SyncTokenizer::new().unwrap();
    let estimate = sync_tokenizer
        .approx_num_tokens("hello, world", SupportedEncoding::Cl100k)
        .unwrap();
    let msg =
        approximate_count_request("hello, world".to_string(), SupportedEncoding::Cl100k, false);
    let queued = estimate_reply(handle_message(&table, msg)).unwrap();
    assert_eq!(estimate, queued);
    assert_eq!(estimate, 3);
}

#[test]
fn completers_pass_replies_through() {
    assert_eq!(complete_count(Some(Response::Count(Ok(5)))), Ok(5));
    assert_eq!(
        complete_estimate(Some(Response::Estimate(Ok(7)))),
        Ok(7)
    );
    assert_eq!(
        complete_single_token(Some(Response::SingleToken(Ok(9)))),
        Ok(9)
    );
    assert_eq!(
        complete_tokens(Some(Response::Tokens(Ok(vec![1, 2])))),
        Ok(vec![1, 2])
    );
    assert_eq!(
        complete_text(Some(Response::Text(Ok("ok".to_string())))),
        Ok("ok".to_string())
    );
    assert_eq!(
        complete_token_bytes(Some(Response::TokenBytes(Ok(vec![3])))),
        Ok(vec![3])
    );
    assert_eq!(
        complete_count(Some(Response::Count(Err(TokenizerError::EncodeDomain)))),
        Err(TokenizerError::EncodeDomain)
    );
}

#[test]
fn completers_turn_missing_reply_into_dispatch_failure() {
    assert_eq!(complete_count(None), Err(TokenizerError::DispatchFailure));
    assert_eq!(complete_tokens(None), Err(TokenizerError::DispatchFailure));
    assert_eq!(
        complete_single_token(None),
        Err(TokenizerError::DispatchFailure)
    );
    assert_eq!(complete_text(None), Err(TokenizerError::DispatchFailure));
    assert_eq!(
        complete_token_bytes(None),
        Err(TokenizerError::DispatchFailure)
    );
    assert_eq!(complete_estimate(None), Err(TokenizerError::DispatchFailure));
    assert_eq!(
        complete_count(Some(Response::Text(Ok("stray".to_string())))),
        Err(TokenizerError::DispatchFailure)
    );
}

#[test]
fn special_default_count_matches_special_encode_length() {
    let table = table();
    let text = "hello <|endoftext|> world";
    let policy = SpecialTokenPolicy::new(SpecialTokenAction::Special);
    let msg = exact_count_request(text.to_string(), SupportedEncoding::Cl100k, policy);
    let count = count_reply(handle_message(&table, msg)).unwrap();
    let policy = SpecialTokenPolicy::new(SpecialTokenAction::Special);
    let msg = encode_request(text.to_string(), SupportedEncoding::Cl100k, policy);
    let tokens = tokens_reply(handle_message(&table, msg)).unwrap();
    assert_eq!(count as usize, tokens.len());
    let msg = exact_count_no_specials_request(text.to_string(), SupportedEncoding::Cl100k);
    let plain_count = count_reply(handle_message(&table, msg)).unwrap();
    assert!(count < plain_count);
}

#[test]
fn decode_to_text_is_lossy_on_invalid_utf8() {
    let table = table();
    let mut checked_invalid = false;
    for token in 0..1000u32 {
        let msg = decode_token_bytes_request(token, SupportedEncoding::Cl100k);
        let bytes = match token_bytes_reply(handle_message(&table, msg)) {
            Ok(b) => b,
            Err(_) => continue,
        };
        if String::from_utf8(bytes.clone()).is_err() {
            let msg = decode_request(vec![token], SupportedEncoding::Cl100k);
            let text = text_reply(handle_message(&table, msg)).unwrap();
            assert_eq!(text, String::from_utf8_lossy(&bytes));
            checked_invalid = true;
            break;
        }
    }
    assert!(checked_invalid, "expected some low token id with non-UTF-8 bytes");
}

#[test]
fn forbidden_override_rejects_only_texts_with_its_marker() {
    let table = table();
    let mut policy = SpecialTokenPolicy::new(SpecialTokenAction::NormalText);
    policy.insert_override("<|endoftext|>".to_string(), SpecialTokenAction::Forbidden);
    let msg = encode_request(
        "hello <|endoftext|> world".to_string(),
        SupportedEncoding::Cl100k,
        policy,
    );
    assert_eq!(
        tokens_reply(handle_message(&table, msg)),
        Err(TokenizerError::EncodeDomain)
    );
    let mut policy = SpecialTokenPolicy::new(SpecialTokenAction::NormalText);
    policy.insert_override("<|endoftext|>".to_string(), SpecialTokenAction::Forbidden);
    let msg = encode_request("hello, world".to_string(), SupportedEncoding::Cl100k, policy);
    let tokens = tokens_reply(handle_message(&table, msg)).unwrap();
    let msg = encode_cl100k_no_specials_request("hello, world".to_string());
    let plain = tokens_reply(handle_message(&table, msg)).unwrap();
    assert_eq!(tokens, plain);
}

#[test]
fn forbidden_override_ignores_an_unreserved_key() {
    let table = table();
    let mut policy = SpecialTokenPolicy::new(SpecialTokenAction::NormalText);
    policy.insert_override("XYZ".to_string(), SpecialTokenAction::Forbidden);
    let msg = exact_count_request("aXYZb".to_string(), SupportedEncoding::Cl100k, policy);
    assert!(count_reply(handle_message(&table, msg)).is_ok());
}

#[test]
fn normal_override_takes_precedence_over_forbidden_default() {
    let table = table();
    let text = "hello <|endoftext|> world";
    let mut policy = SpecialTokenPolicy::new(SpecialTokenAction::Forbidden);
    policy.insert_override("<|endoftext|>".to_string(), SpecialTokenAction::NormalText);
    let msg = encode_request(text.to_string(), SupportedEncoding::Cl100k, policy);
    let tokens = tokens_reply(handle_message(&table, msg)).unwrap();
    assert!(!tokens.contains(&100257));
    let msg = decode_request(tokens, SupportedEncoding::Cl100k);
    let decoded = text_reply(handle_message(&table, msg)).unwrap();
    assert_eq!(decoded, text);
}

#[test]
fn bare_overridden_marker_equals_plain_encoding() {
    let table = table();
    let text = "<|endoftext|>";
    let mut policy = SpecialTokenPolicy::new(SpecialTokenAction::Forbidden);
    policy.insert_override(text.to_string(), SpecialTokenAction::NormalText);
    let msg = encode_request(text.to_string(), SupportedEncoding::Cl100k, policy);
    let tokens = tokens_reply(handle_message(&table, msg)).unwrap();
    let msg = encode_request(
        text.to_string(),
        SupportedEncoding::Cl100k,
        SpecialTokenPolicy::new(SpecialTokenAction::NormalText),
    );
    let plain = tokens_reply(handle_message(&table, msg)).unwrap();
    assert_eq!(tokens, plain);
}

#[test]
fn deleting_an_overridden_marker_cannot_splice_a_new_one() {
    let table = table();
    let text = "<|endo<|endoftext|>ftext|>";
    let mut policy = SpecialTokenPolicy::new(SpecialTokenAction::Forbidden);
    policy.insert_override("<|endoftext|>".to_string(), SpecialTokenAction::NormalText);
    let msg = encode_request(text.to_string(), SupportedEncoding::Cl100k, policy);
    let tokens = tokens_reply(handle_message(&table, msg)).unwrap();
    let msg = decode_request(tokens, SupportedEncoding::Cl100k);
    let decoded = text_reply(handle_message(&table, msg)).unwrap();
    assert_eq!(decoded, text);
}

#[test]
fn bare_marker_with_normal_override_encodes_under_forbidden_default() {
    let table = table();
    let mut policy = SpecialTokenPolicy::new(SpecialTokenAction::Forbidden);
    policy.insert_override("<|endoftext|>".to_string(), SpecialTokenAction::NormalText);
    let msg = exact_count_request(
        "<|endoftext|>".to_string(),
        SupportedEncoding::Cl100k,
        policy,
    );
    assert!(count_reply(handle_message(&table, msg)).is_ok());
}

#[test]
fn forbidden_default_still_rejects_unoverridden_marker() {
    let table = table();
    let text = "<|fim_prefix|> and <|endoftext|>";
    let mut policy = SpecialTokenPolicy::new(SpecialTokenAction::Forbidden);
    policy.insert_override("<|endoftext|>".to_string(), SpecialTokenAction::NormalText);
    let msg = encode_request(text.to_string(), SupportedEncoding::Cl100k, policy);
    assert_eq!(
        tokens_reply(handle_message(&table, msg)),
        Err(TokenizerError::EncodeDomain)
    );
}

#[test]
fn table_and_sync_construction_succeed() {
    assert!(EncodingTable::new().is_ok());
    assert!(SyncTokenizer::new().is_ok());
}
