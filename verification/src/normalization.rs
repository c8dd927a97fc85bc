//! Codex rollout normalization and canonical parser-version history.
use vstd::prelude::*;

use crate::encoding::{blake3_of, push_i64};
#[allow(unused_imports)]
use crate::encoding::{be_i64, blake3_digest, optional_i64_bytes};
use crate::shared::DomainError;
use crate::token_usage::NormalizedTokenUsage;
#[allow(unused_imports)]
use crate::token_usage::{opt_int, usage_fault};

verus! {

/// Parser version of the current rollout consumer.
pub const USAGE_PARSER_VERSION: i64 = 11;

pub const USAGE_CANONICAL_ALGORITHM_VERSION: i64 = 5;

pub open spec fn canonical_algorithm(parser_version: i64) -> Option<i64> {
    if 4 <= parser_version <= 5 {
        Some(4i64)
    } else if 6 <= parser_version <= 11 {
        Some(5i64)
    } else {
        None
    }
}

/// The canonical algorithm that a parser version belongs to.
pub fn canonical_algorithm_for(parser_version: i64) -> (r: Option<i64>)
    ensures
        r == canonical_algorithm(parser_version),
{
    match parser_version {
        4 | 5 => Some(4),
        6 | 7 | 8 | 9 | 10 | 11 => Some(USAGE_CANONICAL_ALGORITHM_VERSION),
        _ => None,
    }
}

/// The bytes whose digest is the fingerprint of a vector of counts.
pub open spec fn fingerprint_bytes(value: NormalizedTokenUsage) -> Seq<u8> {
    be_i64(USAGE_CANONICAL_ALGORITHM_VERSION) + be_i64(value.input_tokens) + be_i64(
        value.cached_tokens,
    ) + optional_i64_bytes(value.cache_write_tokens) + be_i64(value.output_tokens) + be_i64(
        value.reasoning_tokens,
    ) + be_i64(value.total_tokens)
}

/// The stable fingerprint of a vector of counts.
pub open spec fn fingerprint(value: NormalizedTokenUsage) -> Seq<u8> {
    blake3_digest(fingerprint_bytes(value))
}

/// Stable fingerprint used by source-state proofs.
pub fn usage_fingerprint(value: &NormalizedTokenUsage) -> (r: [u8; 32])
    ensures
        r@ == fingerprint(*value),
{
    let mut bytes: Vec<u8> = Vec::new();
    push_i64(&mut bytes, USAGE_CANONICAL_ALGORITHM_VERSION);
    push_i64(&mut bytes, value.input_tokens);
    push_i64(&mut bytes, value.cached_tokens);
    crate::encoding::push_optional_i64(&mut bytes, value.cache_write_tokens);
    push_i64(&mut bytes, value.output_tokens);
    push_i64(&mut bytes, value.reasoning_tokens);
    push_i64(&mut bytes, value.total_tokens);
    assert(bytes@ =~= fingerprint_bytes(*value));
    blake3_of(bytes.as_slice())
}

/// Token counts under the names of the rollout wire format.
#[derive(Clone, Copy, Debug, PartialEq, Eq, Structural)]
pub struct CodexRawTokenUsage {
    pub input_tokens: i64,
    pub cached_input_tokens: i64,
    pub cache_write_input_tokens: Option<i64>,
    pub output_tokens: i64,
    pub reasoning_output_tokens: i64,
    pub total_tokens: i64,
}

pub struct CodexRolloutAdapter;

impl CodexRolloutAdapter {
    pub fn normalize(raw: CodexRawTokenUsage) -> (r: Result<NormalizedTokenUsage, DomainError>)
        ensures
            match usage_fault(
                raw.input_tokens as int,
                raw.cached_input_tokens as int,
                opt_int(raw.cache_write_input_tokens),
                raw.output_tokens as int,
                raw.reasoning_output_tokens as int,
                raw.total_tokens as int,
            ) {
                Some(fault) => r matches Err(e) && e@ == fault,
                None => r matches Ok(v) && v == (NormalizedTokenUsage {
                    input_tokens: raw.input_tokens,
                    cached_tokens: raw.cached_input_tokens,
                    cache_write_tokens: raw.cache_write_input_tokens,
                    output_tokens: raw.output_tokens,
                    reasoning_tokens: raw.reasoning_output_tokens,
                    total_tokens: raw.total_tokens,
                }) && v.valid(),
            },
    {
        NormalizedTokenUsage::new(
            raw.input_tokens,
            raw.cached_input_tokens,
            raw.cache_write_input_tokens,
            raw.output_tokens,
            raw.reasoning_output_tokens,
            raw.total_tokens,
        )
    }
}

} // verus!
