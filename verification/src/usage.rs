//! Usage-statistics accumulation.
//!
//! Token counts and request counts are accumulated as integers, in the
//! aggregate and per provider. Monetary cost estimation is left to the
//! caller: it is floating-point arithmetic, which this library does not
//! carry.

use vstd::prelude::*;
use crate::util::str_eq;

verus! {

/// Accumulated usage of one provider.
#[derive(Debug, PartialEq, Eq, Structural, Clone, Copy)]
pub struct ProviderUsageStats {
    pub total_tokens: u64,
    pub total_requests: u64,
}

/// Accumulated usage across all providers.
pub struct AIUsageStats {
    pub total_tokens: u64,
    pub total_requests: u64,
    pub input_tokens: u64,
    pub output_tokens: u64,
    pub cached_tokens: u64,
    pub provider_stats: Vec<(String, ProviderUsageStats)>,
    pub first_request_at: Option<i64>,
    pub last_request_at: Option<i64>,
}

/// Some entry is keyed by provider `p`.
pub open spec fn has_provider(s: Seq<(String, ProviderUsageStats)>, p: Seq<char>) -> bool {
    exists|i: int| 0 <= i < s.len() && s[i].0@ == p
}

/// The index of the entry keyed by provider `p`.
pub open spec fn provider_index(s: Seq<(String, ProviderUsageStats)>, p: Seq<char>) -> int {
    choose|i: int| 0 <= i < s.len() && s[i].0@ == p
}

/// The entry keyed by provider `p`.
pub open spec fn provider_entry(
    s: Seq<(String, ProviderUsageStats)>,
    p: Seq<char>,
) -> ProviderUsageStats {
    s[provider_index(s, p)].1
}

impl AIUsageStats {
    /// Well-formedness: provider keys are unique.
    pub open spec fn wf(&self) -> bool {
        forall|i: int, j: int|
            0 <= i < j < self.provider_stats@.len() ==> self.provider_stats@[i].0@
                != self.provider_stats@[j].0@
    }

    /// The accumulated entry for one provider, if any.
    pub fn provider_stats_for(&self, provider: &str) -> (r: Option<&ProviderUsageStats>)
        requires
            self.wf(),
        ensures
            r is Some <==> has_provider(self.provider_stats@, provider@),
            r matches Some(e) ==> *e == provider_entry(self.provider_stats@, provider@),
    {
        let mut i: usize = 0;
        while i < self.provider_stats.len()
            invariant
                self.wf(),
                0 <= i <= self.provider_stats@.len(),
                forall|k: int| 0 <= k < i ==> self.provider_stats@[k].0@ != provider@,
            decreases self.provider_stats@.len() - i,
        {
            if str_eq(self.provider_stats[i].0.as_str(), provider) {
                proof {
                    lemma_provider_index_is(self.provider_stats@, i as int);
                }
                return Some(&self.provider_stats[i].1);
            }
            i = i + 1;
        }
        None
    }
}

impl Default for AIUsageStats {
    /// Empty statistics: all counters zero, no providers, no timestamps.
    fn default() -> (r: Self)
        ensures
            r.total_tokens == 0,
            r.total_requests == 0,
            r.input_tokens == 0,
            r.output_tokens == 0,
            r.cached_tokens == 0,
            r.provider_stats@.len() == 0,
            r.first_request_at is None,
            r.last_request_at is None,
            r.wf(),
    {
        AIUsageStats {
            total_tokens: 0,
            total_requests: 0,
            input_tokens: 0,
            output_tokens: 0,
            cached_tokens: 0,
            provider_stats: Vec::new(),
            first_request_at: None,
            last_request_at: None,
        }
    }
}

/// If the entry at index `i` has the key and no two entries share a key,
/// then `i` is the index the specification functions name.
proof fn lemma_provider_index_is(s: Seq<(String, ProviderUsageStats)>, i: int)
    requires
        0 <= i < s.len(),
        forall|a: int, b: int| 0 <= a < b < s.len() ==> s[a].0@ != s[b].0@,
    ensures
        has_provider(s, s[i].0@),
        provider_index(s, s[i].0@) == i,
        provider_entry(s, s[i].0@) == s[i].1,
{
    assert(has_provider(s, s[i].0@));
    let j = provider_index(s, s[i].0@);
    if j < i {
        assert(s[j].0@ != s[i].0@);
    }
    if i < j {
        assert(s[i].0@ != s[j].0@);
    }
}

/// Record one request's usage: the aggregate counters grow by the new
/// tokens, the provider's entry grows likewise (created on first use), the
/// first-request time is set once and the last-request time always.
pub fn apply_usage_update(
    stats: &mut AIUsageStats,
    provider: &str,
    input_tokens: u64,
    output_tokens: u64,
    cached_tokens: Option<u64>,
    timestamp: i64,
)
    requires
        old(stats).wf(),
        old(stats).total_tokens + input_tokens + output_tokens <= u64::MAX,
        old(stats).total_requests < u64::MAX,
        old(stats).input_tokens + input_tokens <= u64::MAX,
        old(stats).output_tokens + output_tokens <= u64::MAX,
        (cached_tokens matches Some(c) ==> old(stats).cached_tokens + c <= u64::MAX),
        has_provider(old(stats).provider_stats@, provider@) ==> {
            &&& provider_entry(old(stats).provider_stats@, provider@).total_tokens + input_tokens
                + output_tokens <= u64::MAX
            &&& provider_entry(old(stats).provider_stats@, provider@).total_requests < u64::MAX
        },
    ensures
        final(stats).wf(),
        final(stats).total_tokens == old(stats).total_tokens + input_tokens + output_tokens,
        final(stats).total_requests == old(stats).total_requests + 1,
        final(stats).input_tokens == old(stats).input_tokens + input_tokens,
        final(stats).output_tokens == old(stats).output_tokens + output_tokens,
        final(stats).cached_tokens == old(stats).cached_tokens + (match cached_tokens {
            Some(c) => c,
            None => 0,
        }),
        final(stats).first_request_at == (match old(stats).first_request_at {
            Some(t) => Some(t),
            None => Some(timestamp),
        }),
        final(stats).last_request_at == Some(timestamp),
        has_provider(old(stats).provider_stats@, provider@) ==> {
            let i = provider_index(old(stats).provider_stats@, provider@);
            &&& final(stats).provider_stats@.len() == old(stats).provider_stats@.len()
            &&& (forall|k: int|
                0 <= k < old(stats).provider_stats@.len() && k != i
                    ==> final(stats).provider_stats@[k] == old(stats).provider_stats@[k])
            &&& final(stats).provider_stats@[i].0@ == provider@
            &&& final(stats).provider_stats@[i].1.total_tokens == provider_entry(
                old(stats).provider_stats@,
                provider@,
            ).total_tokens + input_tokens + output_tokens
            &&& final(stats).provider_stats@[i].1.total_requests == provider_entry(
                old(stats).provider_stats@,
                provider@,
            ).total_requests + 1
        },
        !has_provider(old(stats).provider_stats@, provider@) ==> {
            &&& final(stats).provider_stats@.len() == old(stats).provider_stats@.len() + 1
            &&& (forall|k: int|
                0 <= k < old(stats).provider_stats@.len() ==> final(stats).provider_stats@[k]
                    == old(stats).provider_stats@[k])
            &&& final(stats).provider_stats@.last().0@ == provider@
            &&& final(stats).provider_stats@.last().1 == (ProviderUsageStats {
                total_tokens: (input_tokens + output_tokens) as u64,
                total_requests: 1u64,
            })
        },
{
    let total_new_tokens = input_tokens + output_tokens;
    stats.total_tokens = stats.total_tokens + total_new_tokens;
    stats.total_requests = stats.total_requests + 1;
    stats.input_tokens = stats.input_tokens + input_tokens;
    stats.output_tokens = stats.output_tokens + output_tokens;
    let cached = match cached_tokens {
        Some(c) => c,
        None => 0,
    };
    stats.cached_tokens = stats.cached_tokens + cached;
    if stats.first_request_at.is_none() {
        stats.first_request_at = Some(timestamp);
    }
    stats.last_request_at = Some(timestamp);

    let ghost entries = stats.provider_stats@;
    let mut i: usize = 0;
    while i < stats.provider_stats.len()
        invariant
            stats.provider_stats@ == entries,
            entries == old(stats).provider_stats@,
            total_new_tokens == input_tokens + output_tokens,
            cached == (match cached_tokens {
                Some(c) => c,
                None => 0,
            }),
            stats.total_tokens == old(stats).total_tokens + input_tokens + output_tokens,
            stats.total_requests == old(stats).total_requests + 1,
            stats.input_tokens == old(stats).input_tokens + input_tokens,
            stats.output_tokens == old(stats).output_tokens + output_tokens,
            stats.cached_tokens == old(stats).cached_tokens + cached,
            stats.first_request_at == (match old(stats).first_request_at {
                Some(t) => Some(t),
                None => Some(timestamp),
            }),
            stats.last_request_at == Some(timestamp),
            forall|a: int, b: int| 0 <= a < b < entries.len() ==> entries[a].0@ != entries[b].0@,
            0 <= i <= entries.len(),
            forall|k: int| 0 <= k < i ==> entries[k].0@ != provider@,
            has_provider(entries, provider@) ==> {
                &&& provider_entry(entries, provider@).total_tokens + input_tokens + output_tokens
                    <= u64::MAX
                &&& provider_entry(entries, provider@).total_requests < u64::MAX
            },
        decreases entries.len() - i,
    {
        if str_eq(stats.provider_stats[i].0.as_str(), provider) {
            proof {
                lemma_provider_index_is(entries, i as int);
            }
            let key = stats.provider_stats[i].0.clone();
            let prev = stats.provider_stats[i].1;
            let entry = ProviderUsageStats {
                total_tokens: prev.total_tokens + total_new_tokens,
                total_requests: prev.total_requests + 1,
            };
            stats.provider_stats.set(i, (key, entry));
            return ;
        }
        i = i + 1;
    }
    let entry = ProviderUsageStats { total_tokens: total_new_tokens, total_requests: 1 };
    stats.provider_stats.push((provider.to_owned(), entry));
}

} // verus!
