use vstd::prelude::*;

use crate::engine::lookup_engine;
use crate::engine::vocab_size_of;
use crate::errors::TokenizerError;

verus! {

/// The closed set of encodings a request may select. Unknown selectors are a
/// construction-time impossibility, not a runtime error.
#[derive(Clone, Copy, PartialEq, Eq, Structural, Debug)]
pub enum SupportedEncoding {
    Cl100k,
    Llama3,
    O200k,
    Codestral,
}

/// The immutable set of engines, one per selector, shared by every worker.
/// Each field borrows the process-wide engine that the lookup in `new`
/// produced; the table is never mutated after construction.
#[derive(Clone, Copy)]
pub struct EncodingTable {
    pub cl100k: &'static tiktoken::CoreBpe,
    pub llama3: &'static tiktoken::CoreBpe,
    pub o200k: &'static tiktoken::CoreBpe,
    pub codestral: &'static tiktoken::CoreBpe,
}

impl EncodingTable {
    /// The engine a selector picks out of this table.
    pub open spec fn spec_get(&self, encoding: SupportedEncoding) -> tiktoken::CoreBpe {
        match encoding {
            SupportedEncoding::Cl100k => *self.cl100k,
            SupportedEncoding::Llama3 => *self.llama3,
            SupportedEncoding::O200k => *self.o200k,
            SupportedEncoding::Codestral => *self.codestral,
        }
    }

    /// Build the table once. Construction is owed to succeed: all four names
    /// are registered with the engine. Each field holds the engine of its own
    /// name, pinned here by the four documented, pairwise distinct vocabulary
    /// sizes. The result type still reports a failed lookup as a construction
    /// error, so a caller that caches the result replays the same outcome
    /// forever.
    pub fn new() -> (r: Result<EncodingTable, TokenizerError>)
        ensures
            r is Ok,
            r matches Ok(t) ==> vocab_size_of(*t.cl100k) == 100256 && vocab_size_of(*t.llama3)
                == 128000 && vocab_size_of(*t.o200k) == 199998 && vocab_size_of(*t.codestral)
                == 131072,
    {
        let cl100k = match lookup_engine("cl100k_base") {
            Some(e) => e,
            None => {
                return Err(TokenizerError::Construction);
            },
        };
        let llama3 = match lookup_engine("llama3") {
            Some(e) => e,
            None => {
                return Err(TokenizerError::Construction);
            },
        };
        let o200k = match lookup_engine("o200k_base") {
            Some(e) => e,
            None => {
                return Err(TokenizerError::Construction);
            },
        };
        // the codestral selector is served by the mistral v3 vocabulary
        let codestral = match lookup_engine("mistral_v3") {
            Some(e) => e,
            None => {
                return Err(TokenizerError::Construction);
            },
        };
        Ok(EncodingTable { cl100k, llama3, o200k, codestral })
    }

    /// Selection is total and panic-free for every selector value.
    pub fn get(&self, encoding: SupportedEncoding) -> (r: &'static tiktoken::CoreBpe)
        ensures
            *r == self.spec_get(encoding),
    {
        match encoding {
            SupportedEncoding::Cl100k => self.cl100k,
            SupportedEncoding::Llama3 => self.llama3,
            SupportedEncoding::O200k => self.o200k,
            SupportedEncoding::Codestral => self.codestral,
        }
    }
}

} // verus!
