mod engine;
mod errors;
mod facade;
mod laws;
mod message;
mod policy;
mod scan;
mod table;
mod worker;

pub use facade::approximate_count_request;
pub use facade::complete_count;
pub use facade::complete_estimate;
pub use facade::complete_single_token;
pub use facade::complete_text;
pub use facade::complete_token_bytes;
pub use facade::complete_tokens;
pub use facade::decode_request;
pub use facade::decode_token_bytes_request;
pub use facade::encode_cl100k_no_specials_request;
pub use facade::encode_request;
pub use facade::encode_single_token_request;
pub use facade::exact_count_no_specials_request;
pub use facade::exact_count_request;
pub use facade::no_specials_policy;
pub use facade::SyncTokenizer;
pub use laws::lemma_approximate_count_nonnegative;
pub use laws::lemma_count_matches_encode;
pub use laws::lemma_forbidden_rejects_markers;
pub use laws::lemma_override_precedence;
pub use laws::lemma_normal_text_always_succeeds;
pub use laws::lemma_reply_unique;
pub use laws::lemma_resolve_default;
pub use laws::lemma_resolve_override;
pub use laws::lemma_single_token_iff_one_entry;
pub use laws::lemma_uniform_resolves_default;

pub use engine::decode_bytes_of;
pub use engine::encode_plain_of;
pub use engine::encode_special_of;
pub use engine::lossy_text_of;
pub use engine::tokens_all_valid;
pub use engine::utf8_bytes_of;
pub use engine::utf8_decode_of;
pub use engine::vocab_size_of;
pub use errors::TokenizerError;
pub use policy::SpecialTokenAction;
pub use policy::SpecialTokenPolicy;
pub use policy::overrides_map_of;
pub use scan::contains_str;
pub use scan::match_at;
pub use scan::occurs_in;
pub use policy::str_eq;
pub use policy::unique_keys;
pub use message::bytes_result_view;
pub use message::text_result_view;
pub use message::tokens_result_view;
pub use message::RequestMessage;
pub use message::Response;
pub use table::EncodingTable;
pub use table::SupportedEncoding;
pub use worker::approximate_count;
pub use worker::count_with_policy;
pub use worker::decode_token_bytes;
pub use worker::decode_tokens_text;
pub use worker::encode_single_token_lookup;
pub use worker::encode_with_policy;
pub use worker::handle_message;
pub use worker::apply_default_spec;
pub use worker::apply_override_spec;
pub use worker::first_key_at;
pub use worker::first_match_from;
pub use worker::key_matches_at;
pub use worker::matches_any_at;
pub use worker::narrow_char;
pub use worker::narrowed;
pub use worker::replace_spaces;
pub use worker::response_matches;
pub use worker::sat_count;
pub use worker::seg_encode;
pub use worker::spec_approximate_count;
pub use worker::spec_count_outcome;
pub use worker::spec_decoded_text;
pub use worker::spec_encode_outcome;
pub use worker::spec_single_token_outcome;
pub use worker::spec_token_bytes_outcome;
