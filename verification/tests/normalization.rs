use codex_usage::normalization::{
    canonical_algorithm_for, usage_fingerprint, CodexRawTokenUsage, CodexRolloutAdapter,
    USAGE_CANONICAL_ALGORITHM_VERSION, USAGE_PARSER_VERSION,
};
use codex_usage::token_usage::NormalizedTokenUsage;

fn raw(write: Option<i64>) -> CodexRawTokenUsage {
    CodexRawTokenUsage {
        input_tokens: 10_000,
        cached_input_tokens: 6_000,
        cache_write_input_tokens: write,
        output_tokens: 1_500,
        reasoning_output_tokens: 500,
        total_tokens: 11_500,
    }
}

#[test]
fn t_dc_011_to_015_maps_and_validates_raw_values() {
    let normalized = CodexRolloutAdapter::normalize(raw(Some(2_000))).unwrap();
    assert_eq!(normalized.cached_tokens, 6_000);
    assert_eq!(normalized.cache_write_tokens, Some(2_000));
    assert_eq!(normalized.reasoning_tokens, 500);
    assert_eq!(
        CodexRolloutAdapter::normalize(raw(Some(0)))
            .unwrap()
            .cache_write_tokens,
        Some(0)
    );
    assert!(CodexRolloutAdapter::normalize(raw(None)).is_ok());
    assert!(CodexRolloutAdapter::normalize(CodexRawTokenUsage {
        cached_input_tokens: 11_000,
        ..raw(None)
    })
    .is_err());
    assert!(CodexRolloutAdapter::normalize(CodexRawTokenUsage {
        reasoning_output_tokens: 1_501,
        ..raw(None)
    })
    .is_err());
    assert!(CodexRolloutAdapter::normalize(CodexRawTokenUsage {
        total_tokens: 1,
        ..raw(None)
    })
    .is_err());
    assert!(CodexRolloutAdapter::normalize(CodexRawTokenUsage {
        cache_write_input_tokens: Some(5_000),
        ..raw(None)
    })
    .is_err());
}

#[test]
fn t_dc_010_fingerprint_is_v5_and_distinguishes_states() {
    assert_eq!(USAGE_PARSER_VERSION, 11);
    assert_eq!(USAGE_CANONICAL_ALGORITHM_VERSION, 5);
    assert_eq!(canonical_algorithm_for(1), None);
    assert_eq!(canonical_algorithm_for(2), None);
    assert_eq!(canonical_algorithm_for(3), None);
    assert_eq!(canonical_algorithm_for(4), Some(4));
    assert_eq!(canonical_algorithm_for(5), Some(4));
    assert_eq!(canonical_algorithm_for(6), Some(5));
    assert_eq!(canonical_algorithm_for(8), Some(5));
    assert_eq!(canonical_algorithm_for(9), Some(5));
    assert_eq!(canonical_algorithm_for(10), Some(5));
    assert_eq!(canonical_algorithm_for(11), Some(5));
    assert_eq!(
        usage_fingerprint(&CodexRolloutAdapter::normalize(raw(Some(2_000))).unwrap()),
        usage_fingerprint(&CodexRolloutAdapter::normalize(raw(Some(2_000))).unwrap())
    );
    assert_ne!(
        usage_fingerprint(&CodexRolloutAdapter::normalize(raw(Some(2_000))).unwrap()),
        usage_fingerprint(&CodexRolloutAdapter::normalize(raw(None)).unwrap())
    );
    assert_ne!(
        usage_fingerprint(&CodexRolloutAdapter::normalize(raw(Some(2_000))).unwrap()),
        usage_fingerprint(
            &CodexRolloutAdapter::normalize(CodexRawTokenUsage {
                cache_write_input_tokens: Some(2_001),
                ..raw(None)
            })
            .unwrap()
        )
    );
}

#[test]
fn the_fingerprint_is_the_digest_of_the_counts_in_order() {
    let usage = NormalizedTokenUsage::new(10, 4, Some(2), 3, 1, 13).unwrap();
    let mut bytes: Vec<u8> = Vec::new();
    for count in [5i64, 10, 4] {
        bytes.extend_from_slice(&count.to_be_bytes());
    }
    bytes.push(1);
    for count in [2i64, 3, 1, 13] {
        bytes.extend_from_slice(&count.to_be_bytes());
    }
    assert_eq!(usage_fingerprint(&usage), *blake3::hash(&bytes).as_bytes());
}

#[test]
fn sums_and_differences_are_exact_or_refused() {
    let a = NormalizedTokenUsage::new(10, 4, Some(2), 3, 1, 13).unwrap();
    let b = NormalizedTokenUsage::new(25, 9, Some(5), 8, 2, 33).unwrap();
    assert_eq!(
        a.checked_add(&b).unwrap(),
        NormalizedTokenUsage::new(35, 13, Some(7), 11, 3, 46).unwrap()
    );
    assert_eq!(
        b.checked_sub(&a).unwrap(),
        NormalizedTokenUsage::new(15, 5, Some(3), 5, 1, 20).unwrap()
    );
    assert!(a.checked_sub(&b).is_err());
}
