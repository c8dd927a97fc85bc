//! Token counts in one shape for every source.
use vstd::prelude::*;
use vstd::string::*;

use crate::shared::{DomainError, Fault};
#[allow(unused_imports)]
use crate::shared::invalid_fault;

verus! {

/// How a usage event came to be.
#[derive(Clone, Copy, Debug, PartialEq, Eq, Structural)]
pub enum EventKind {
    Normal,
    Recovered,
    TurnCompensation,
}

/// A vector of token counts. Cached and cache-write tokens are part of the input,
/// reasoning tokens are part of the output, and the total is input plus output.
#[derive(Clone, Copy, Debug, PartialEq, Eq, Structural)]
pub struct NormalizedTokenUsage {
    pub input_tokens: i64,
    pub cached_tokens: i64,
    pub cache_write_tokens: Option<i64>,
    pub output_tokens: i64,
    pub reasoning_tokens: i64,
    pub total_tokens: i64,
}

/// The first rule that a vector of counts breaks, if it breaks any.
pub open spec fn usage_fault(
    input: int,
    cached: int,
    cache_write: Option<int>,
    output: int,
    reasoning: int,
    total: int,
) -> Option<Fault> {
    if input < 0 {
        Some(invalid_fault("input_tokens"@, "must not be negative"@))
    } else if cached < 0 {
        Some(invalid_fault("cached_tokens"@, "must not be negative"@))
    } else if output < 0 {
        Some(invalid_fault("output_tokens"@, "must not be negative"@))
    } else if reasoning < 0 {
        Some(invalid_fault("reasoning_tokens"@, "must not be negative"@))
    } else if total < 0 {
        Some(invalid_fault("total_tokens"@, "must not be negative"@))
    } else if cache_write is Some && cache_write->0 < 0 {
        Some(invalid_fault("cache_write_tokens"@, "must not be negative"@))
    } else if cached > input {
        Some(invalid_fault("cached_tokens"@, "must not exceed input"@))
    } else if reasoning > output {
        Some(invalid_fault("reasoning_tokens"@, "must not exceed output"@))
    } else if total != input + output {
        Some(invalid_fault("total_tokens"@, "must equal input plus output"@))
    } else if cache_write is Some && cached + cache_write->0 > input {
        Some(invalid_fault("cache_write_tokens"@, "must fit in input beside cached"@))
    } else {
        None
    }
}

pub open spec fn opt_int(v: Option<i64>) -> Option<int> {
    match v {
        Some(v) => Some(v as int),
        None => None,
    }
}

/// The cache-write count of a sum or difference: known only where both sides know theirs.
pub open spec fn cache_write_sum(a: Option<i64>, b: Option<i64>) -> Option<int> {
    if a is Some && b is Some {
        Some(a->0 + b->0)
    } else {
        None
    }
}

pub open spec fn cache_write_difference(a: Option<i64>, b: Option<i64>) -> Option<int> {
    if a is Some && b is Some {
        Some(a->0 - b->0)
    } else {
        None
    }
}

pub open spec fn fits(v: int) -> bool {
    i64::MIN <= v <= i64::MAX
}

/// Why `a + b` has no vector, if it has none.
pub open spec fn sum_fault(a: NormalizedTokenUsage, b: NormalizedTokenUsage) -> Option<Fault> {
    let cache_write = cache_write_sum(a.cache_write_tokens, b.cache_write_tokens);
    if !fits(a.input_tokens + b.input_tokens) || !fits(a.cached_tokens + b.cached_tokens) || !fits(
        a.output_tokens + b.output_tokens,
    ) || !fits(a.reasoning_tokens + b.reasoning_tokens) || !fits(a.total_tokens + b.total_tokens)
        || (cache_write is Some && !fits(cache_write->0)) {
        Some(invalid_fault("normalized_token_usage"@, "overflow"@))
    } else {
        usage_fault(
            a.input_tokens + b.input_tokens,
            a.cached_tokens + b.cached_tokens,
            cache_write,
            a.output_tokens + b.output_tokens,
            a.reasoning_tokens + b.reasoning_tokens,
            a.total_tokens + b.total_tokens,
        )
    }
}

/// Why `a - b` has no vector, if it has none.
pub open spec fn difference_fault(a: NormalizedTokenUsage, b: NormalizedTokenUsage) -> Option<
    Fault,
> {
    let cache_write = cache_write_difference(a.cache_write_tokens, b.cache_write_tokens);
    if !fits(a.input_tokens - b.input_tokens) || !fits(a.cached_tokens - b.cached_tokens) || !fits(
        a.output_tokens - b.output_tokens,
    ) || !fits(a.reasoning_tokens - b.reasoning_tokens) || !fits(a.total_tokens - b.total_tokens)
        || (cache_write is Some && !fits(cache_write->0)) {
        Some(invalid_fault("normalized_token_usage"@, "overflow"@))
    } else if a.input_tokens < b.input_tokens || a.cached_tokens < b.cached_tokens
        || a.output_tokens < b.output_tokens || a.reasoning_tokens < b.reasoning_tokens
        || a.total_tokens < b.total_tokens {
        Some(invalid_fault("normalized_token_usage"@, "token delta must not be negative"@))
    } else if cache_write is Some && cache_write->0 < 0 {
        Some(invalid_fault("cache_write_tokens"@, "cache-write delta must not be negative"@))
    } else {
        usage_fault(
            a.input_tokens - b.input_tokens,
            a.cached_tokens - b.cached_tokens,
            cache_write,
            a.output_tokens - b.output_tokens,
            a.reasoning_tokens - b.reasoning_tokens,
            a.total_tokens - b.total_tokens,
        )
    }
}

pub open spec fn sum_of(a: NormalizedTokenUsage, b: NormalizedTokenUsage) -> NormalizedTokenUsage {
    NormalizedTokenUsage {
        input_tokens: (a.input_tokens + b.input_tokens) as i64,
        cached_tokens: (a.cached_tokens + b.cached_tokens) as i64,
        cache_write_tokens: match cache_write_sum(a.cache_write_tokens, b.cache_write_tokens) {
            Some(v) => Some(v as i64),
            None => None,
        },
        output_tokens: (a.output_tokens + b.output_tokens) as i64,
        reasoning_tokens: (a.reasoning_tokens + b.reasoning_tokens) as i64,
        total_tokens: (a.total_tokens + b.total_tokens) as i64,
    }
}

pub open spec fn difference_of(
    a: NormalizedTokenUsage,
    b: NormalizedTokenUsage,
) -> NormalizedTokenUsage {
    NormalizedTokenUsage {
        input_tokens: (a.input_tokens - b.input_tokens) as i64,
        cached_tokens: (a.cached_tokens - b.cached_tokens) as i64,
        cache_write_tokens: match cache_write_difference(
            a.cache_write_tokens,
            b.cache_write_tokens,
        ) {
            Some(v) => Some(v as i64),
            None => None,
        },
        output_tokens: (a.output_tokens - b.output_tokens) as i64,
        reasoning_tokens: (a.reasoning_tokens - b.reasoning_tokens) as i64,
        total_tokens: (a.total_tokens - b.total_tokens) as i64,
    }
}

pub open spec fn zero_usage() -> NormalizedTokenUsage {
    NormalizedTokenUsage {
        input_tokens: 0,
        cached_tokens: 0,
        cache_write_tokens: Some(0),
        output_tokens: 0,
        reasoning_tokens: 0,
        total_tokens: 0,
    }
}

impl NormalizedTokenUsage {
    /// The vector meets every rule that [`NormalizedTokenUsage::new`] tests.
    pub open spec fn valid(self) -> bool {
        usage_fault(
            self.input_tokens as int,
            self.cached_tokens as int,
            opt_int(self.cache_write_tokens),
            self.output_tokens as int,
            self.reasoning_tokens as int,
            self.total_tokens as int,
        ) is None
    }

    pub fn new(
        input_tokens: i64,
        cached_tokens: i64,
        cache_write_tokens: Option<i64>,
        output_tokens: i64,
        reasoning_tokens: i64,
        total_tokens: i64,
    ) -> (r: Result<Self, DomainError>)
        ensures
            match usage_fault(
                input_tokens as int,
                cached_tokens as int,
                opt_int(cache_write_tokens),
                output_tokens as int,
                reasoning_tokens as int,
                total_tokens as int,
            ) {
                Some(fault) => r matches Err(e) && e@ == fault,
                None => r matches Ok(v) && v == (NormalizedTokenUsage {
                    input_tokens,
                    cached_tokens,
                    cache_write_tokens,
                    output_tokens,
                    reasoning_tokens,
                    total_tokens,
                }) && v.valid(),
            },
    {
        if input_tokens < 0 {
            return Err(DomainError::invalid("input_tokens", "must not be negative"));
        }
        if cached_tokens < 0 {
            return Err(DomainError::invalid("cached_tokens", "must not be negative"));
        }
        if output_tokens < 0 {
            return Err(DomainError::invalid("output_tokens", "must not be negative"));
        }
        if reasoning_tokens < 0 {
            return Err(DomainError::invalid("reasoning_tokens", "must not be negative"));
        }
        if total_tokens < 0 {
            return Err(DomainError::invalid("total_tokens", "must not be negative"));
        }
        if let Some(write) = cache_write_tokens {
            if write < 0 {
                return Err(DomainError::invalid("cache_write_tokens", "must not be negative"));
            }
        }
        if cached_tokens > input_tokens {
            return Err(DomainError::invalid("cached_tokens", "must not exceed input"));
        }
        if reasoning_tokens > output_tokens {
            return Err(DomainError::invalid("reasoning_tokens", "must not exceed output"));
        }
        if total_tokens < input_tokens || total_tokens - input_tokens != output_tokens {
            return Err(DomainError::invalid("total_tokens", "must equal input plus output"));
        }
        if let Some(write) = cache_write_tokens {
            if write > input_tokens - cached_tokens {
                return Err(
                    DomainError::invalid("cache_write_tokens", "must fit in input beside cached"),
                );
            }
        }
        Ok(
            NormalizedTokenUsage {
                input_tokens,
                cached_tokens,
                cache_write_tokens,
                output_tokens,
                reasoning_tokens,
                total_tokens,
            },
        )
    }

    pub fn zero() -> (r: Self)
        ensures
            r == zero_usage(),
            r.valid(),
    {
        NormalizedTokenUsage {
            input_tokens: 0,
            cached_tokens: 0,
            cache_write_tokens: Some(0),
            output_tokens: 0,
            reasoning_tokens: 0,
            total_tokens: 0,
        }
    }

    /// Component-wise sum.
    pub fn checked_add(&self, other: &Self) -> (r: Result<Self, DomainError>)
        ensures
            match sum_fault(*self, *other) {
                Some(fault) => r matches Err(e) && e@ == fault,
                None => r matches Ok(v) && v == sum_of(*self, *other) && v.valid(),
            },
    {
        let cache_write: Option<Option<i64>> = match (
            self.cache_write_tokens,
            other.cache_write_tokens,
        ) {
            (Some(a), Some(b)) => match a.checked_add(b) {
                Some(v) => Some(Some(v)),
                None => None,
            },
            _ => Some(None),
        };
        match (
            self.input_tokens.checked_add(other.input_tokens),
            self.cached_tokens.checked_add(other.cached_tokens),
            cache_write,
            self.output_tokens.checked_add(other.output_tokens),
            self.reasoning_tokens.checked_add(other.reasoning_tokens),
            self.total_tokens.checked_add(other.total_tokens),
        ) {
            (
                Some(input),
                Some(cached),
                Some(write),
                Some(output),
                Some(reasoning),
                Some(total),
            ) => NormalizedTokenUsage::new(input, cached, write, output, reasoning, total),
            _ => Err(DomainError::invalid("normalized_token_usage", "overflow")),
        }
    }

    /// Component-wise difference `self - other`.
    pub fn checked_sub(&self, other: &Self) -> (r: Result<Self, DomainError>)
        ensures
            match difference_fault(*self, *other) {
                Some(fault) => r matches Err(e) && e@ == fault,
                None => r matches Ok(v) && v == difference_of(*self, *other) && v.valid(),
            },
    {
        let cache_write: Option<Option<i64>> = match (
            self.cache_write_tokens,
            other.cache_write_tokens,
        ) {
            (Some(a), Some(b)) => match a.checked_sub(b) {
                Some(v) => Some(Some(v)),
                None => None,
            },
            _ => Some(None),
        };
        match (
            self.input_tokens.checked_sub(other.input_tokens),
            self.cached_tokens.checked_sub(other.cached_tokens),
            cache_write,
            self.output_tokens.checked_sub(other.output_tokens),
            self.reasoning_tokens.checked_sub(other.reasoning_tokens),
            self.total_tokens.checked_sub(other.total_tokens),
        ) {
            (
                Some(input),
                Some(cached),
                Some(write),
                Some(output),
                Some(reasoning),
                Some(total),
            ) => {
                if input < 0 || cached < 0 || output < 0 || reasoning < 0 || total < 0 {
                    return Err(
                        DomainError::invalid(
                            "normalized_token_usage",
                            "token delta must not be negative",
                        ),
                    );
                }
                if let Some(delta) = write {
                    if delta < 0 {
                        return Err(
                            DomainError::invalid(
                                "cache_write_tokens",
                                "cache-write delta must not be negative",
                            ),
                        );
                    }
                }
                NormalizedTokenUsage::new(input, cached, write, output, reasoning, total)
            },
            _ => Err(DomainError::invalid("normalized_token_usage", "overflow")),
        }
    }
}

/// Subtracting what was added gives the first vector back, unless the sum lost a
/// cache-write count that only the first vector knew.
pub proof fn law_difference_undoes_sum(a: NormalizedTokenUsage, b: NormalizedTokenUsage)
    requires
        a.valid(),
        b.valid(),
        sum_fault(a, b) is None,
        a.cache_write_tokens is Some ==> b.cache_write_tokens is Some,
    ensures
        difference_fault(sum_of(a, b), b) is None,
        difference_of(sum_of(a, b), b) == a,
{
}

/// The sum of two valid vectors fails only on overflow of the total.
pub proof fn law_sum_of_valid_fails_only_on_overflow(
    a: NormalizedTokenUsage,
    b: NormalizedTokenUsage,
)
    requires
        a.valid(),
        b.valid(),
    ensures
        sum_fault(a, b) is None <==> a.total_tokens + b.total_tokens <= i64::MAX,
        sum_fault(a, b) is None ==> sum_of(a, b).valid(),
{
}

/// Adding is commutative.
pub proof fn law_sum_commutes(a: NormalizedTokenUsage, b: NormalizedTokenUsage)
    ensures
        sum_fault(a, b) == sum_fault(b, a),
        sum_of(a, b) == sum_of(b, a),
{
}

} // verus!
