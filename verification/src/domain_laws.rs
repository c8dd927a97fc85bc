//! What the records of storage have to keep to, rule by rule.
use vstd::prelude::*;
use vstd::utf8::encode_utf8;

use crate::domain::{
    entries_fault, fact_state, groups_fault, guard_fault, observations_fault, outcomes_fault,
    path_fault, source_commits_fault, MetadataCheckpointState, MetadataScanStateEntry,
    MetadataSourceCommit, MetadataThreadCommit, RolloutMetadataFact, SafeFactMismatchReason,
    SafeFactState, SourceFileState, SourceObservation, SourceObservationResult,
};
use crate::platform::is_absolute;
use crate::shared::{code_fault, non_negative_fault, positive_fault, text_fault, Fault};
use crate::text::{blank, has_control};
use crate::token_usage::{
    difference_fault, difference_of, sum_fault, sum_of, usage_fault, NormalizedTokenUsage,
};

verus! {

/// The fault is about this field, and says this.
pub open spec fn faults(fault: Option<Fault>, field: Seq<char>, reason: Seq<char>) -> bool {
    fault matches Some(Fault::InvalidValue { field: told, reason: why }) && told == field && why
        == reason
}

/// The fault is that this rule is broken.
pub open spec fn breaks(fault: Option<Fault>, rule: Seq<char>) -> bool {
    fault matches Some(Fault::InvariantViolation { invariant }) && invariant == rule
}

/// A text says something, and holds no control characters.
pub open spec fn speaks(text: Seq<char>) -> bool {
    !blank(text) && !has_control(text)
}

/// A text that is there says something.
pub open spec fn speaks_if_there(text: Option<String>) -> bool {
    text matches Some(told) ==> speaks(told@)
}

/// A number that is there is not negative.
pub open spec fn counts_if_there(number: Option<i64>) -> bool {
    number matches Some(told) ==> told >= 0
}

/// A code: at most sixty-four capitals, digits and underscores, the first a capital.
pub open spec fn is_code(text: Seq<char>) -> bool {
    let bytes = encode_utf8(text);
    &&& 1 <= bytes.len() <= 64
    &&& 65 <= bytes[0] <= 90
    &&& forall|i: int|
        0 <= i < bytes.len() ==> 65 <= #[trigger] bytes[i] <= 90 || 48 <= bytes[i] <= 57 || bytes[i]
            == 95
}

/// A code that is there is one.
pub open spec fn is_code_if_there(text: Option<String>) -> bool {
    text matches Some(told) ==> is_code(told@)
}

/// What each single check asks for, and what it says of the field that fails it.
pub proof fn law_checks_ask_for_what_they_say(
    text: Seq<char>,
    number: i64,
    field: Seq<char>,
    platform: crate::platform::Platform,
)
    ensures
        text_fault(text, field) is None <==> speaks(text),
        blank(text) ==> faults(text_fault(text, field), field, "must not be empty"@),
        !blank(text) && has_control(text) ==> faults(
            text_fault(text, field),
            field,
            "must not contain control characters"@,
        ),
        non_negative_fault(number, field) is None <==> number >= 0,
        number < 0 ==> faults(non_negative_fault(number, field), field, "must be non-negative"@),
        positive_fault(number, field) is None <==> number >= 1,
        number < 1 ==> faults(positive_fault(number, field), field, "must be positive"@),
        code_fault(text, field) is None <==> is_code(text),
        path_fault(platform, text, field) is None <==> speaks(text) && is_absolute(platform, text),
        speaks(text) && !is_absolute(platform, text) ==> faults(
            path_fault(platform, text, field),
            field,
            "must be an absolute path"@,
        ),
{
    let bytes = encode_utf8(text);
    if code_fault(text, field) is None {
        assert forall|i: int| 0 <= i < bytes.len() implies 65 <= #[trigger] bytes[i] <= 90 || 48
            <= bytes[i] <= 57 || bytes[i] == 95 by {
            assert(crate::shared::code_byte(bytes[i]));
        }
    }
    if is_code(text) {
        assert forall|i: int| 0 <= i < bytes.len() implies crate::shared::code_byte(
            #[trigger] bytes[i],
        ) by {
            assert(65 <= bytes[i] <= 90 || 48 <= bytes[i] <= 57 || bytes[i] == 95);
        }
    }
}

/// A source file is sound if its numbers are not negative, its own number and its generation are
/// at least one, its path is absolute, and its thread, if it has one, says something.
pub proof fn law_source_files_are_sound(source: SourceFileState)
    ensures
        source.fault() is None <==> {
            &&& source.source_file_id >= 1
            &&& speaks_if_there(source.thread_id)
            &&& speaks(source.current_path@)
            &&& is_absolute(source.platform, source.current_path@)
            &&& source.device_id >= 0
            &&& source.inode >= 0
            &&& source.file_generation >= 1
            &&& source.observed_size >= 0
            &&& source.observed_mtime_ns >= 0
            &&& source.last_seen_at_ms >= 0
        },
        source.source_file_id < 1 ==> faults(
            source.fault(),
            "source_file_id"@,
            "must be positive"@,
        ),
{
}

/// An observation is sound if its numbers are not negative and its path is absolute. What storage
/// made of one is sound if its numbers are at least one, and no consumer is to rebuild twice.
pub proof fn law_observations_are_sound(seen: SourceObservation, made: SourceObservationResult)
    ensures
        seen.fault() is None <==> {
            &&& speaks(seen.current_path@)
            &&& is_absolute(seen.platform, seen.current_path@)
            &&& seen.device_id >= 0
            &&& seen.inode >= 0
            &&& seen.observed_size >= 0
            &&& seen.observed_mtime_ns >= 0
            &&& seen.last_seen_at_ms >= 0
        },
        made.fault() is None <==> {
            &&& made.source_file_id >= 1
            &&& made.file_generation >= 1
            &&& forall|i: int, j: int|
                0 <= i < j < made.rebuild_consumers@.len() ==> #[trigger] made.rebuild_consumers@[i]
                    != #[trigger] made.rebuild_consumers@[j]
        },
{
}

/// A guard hash stands behind every checkpoint but one at the start of a file, which has none.
pub proof fn law_checkpoints_have_their_guard(committed_offset: i64, guard: Option<Vec<u8>>)
    requires
        committed_offset >= 0,
    ensures
        guard_fault(committed_offset, guard) is None <==> (committed_offset == 0 <==> guard is None)
            && (guard is Some ==> guard->0@.len() > 0),
        committed_offset == 0 && guard is Some ==> breaks(
            guard_fault(committed_offset, guard),
            "zero checkpoint offset must have a null guard hash"@,
        ),
        committed_offset > 0 && guard is None ==> breaks(
            guard_fault(committed_offset, guard),
            "non-zero checkpoint offset must have a guard hash"@,
        ),
{
}

/// A metadata checkpoint is sound if its numbers are, it has its guard, and its error, if it has
/// one, is a code. It belongs to a source if it is of that source and does not go beyond its size.
pub proof fn law_metadata_checkpoints_are_sound(
    checkpoint: MetadataCheckpointState,
    source: SourceFileState,
)
    ensures
        checkpoint.fault() is None <==> {
            &&& checkpoint.source_file_id >= 1
            &&& checkpoint.parser_version >= 0
            &&& checkpoint.committed_offset >= 0
            &&& counts_if_there(checkpoint.last_successful_scan_at_ms)
            &&& checkpoint.committed_offset == 0 <==> checkpoint.guard_hash is None
            &&& checkpoint.guard_hash is Some ==> checkpoint.guard_hash->0@.len() > 0
            &&& is_code_if_there(checkpoint.last_error_code)
        },
        checkpoint.fault_against(source) is None <==> checkpoint.fault() is None
            && checkpoint.source_file_id == source.source_file_id && checkpoint.committed_offset
            <= source.observed_size,
{
    if let Some(code) = checkpoint.last_error_code {
        law_checks_ask_for_what_they_say(code@, 0, "last_error_code"@, source.platform);
    }
}

/// A value comes with where it is from and where it stands, or with neither.
pub open spec fn comes_whole(value: bool, provenance: bool, record_offset: bool) -> bool {
    (value && provenance && record_offset) || (!value && !provenance && !record_offset)
}

/// A stored fact is sound if its numbers and texts are; if each hint comes whole; if a conflict of
/// relationships is a conflict of the fact; and if its owner is confirmed, unless it is unstable.
pub proof fn law_stored_facts_are_sound(fact: RolloutMetadataFact)
    ensures
        fact.fault() is None <==> {
            &&& fact.source_file_id >= 1
            &&& fact.file_generation >= 1
            &&& fact.metadata_parser_version >= 0
            &&& fact.resolved_through_offset >= 0
            &&& speaks(fact.owning_thread_id@)
            &&& counts_if_there(fact.cwd_record_offset)
            &&& counts_if_there(fact.created_at_ms)
            &&& counts_if_there(fact.latest_context_at_ms)
            &&& counts_if_there(fact.parent_hint_record_offset)
            &&& counts_if_there(fact.agent_role_record_offset)
            &&& counts_if_there(fact.agent_path_record_offset)
            &&& counts_if_there(fact.replay_start_offset)
            &&& counts_if_there(fact.owning_records_start_offset)
            &&& fact.updated_at_ms >= 0
            &&& comes_whole(
                fact.cwd is Some,
                fact.cwd_provenance is Some,
                fact.cwd_record_offset is Some,
            )
            &&& comes_whole(
                fact.parent_thread_id_hint is Some,
                fact.parent_hint_provenance is Some,
                fact.parent_hint_record_offset is Some,
            )
            &&& comes_whole(
                fact.agent_role_hint is Some,
                fact.agent_role_provenance is Some,
                fact.agent_role_record_offset is Some,
            )
            &&& comes_whole(
                fact.agent_path is Some,
                fact.agent_path_provenance is Some,
                fact.agent_path_record_offset is Some,
            )
            &&& speaks_if_there(fact.cwd)
            &&& speaks_if_there(fact.latest_context_model)
            &&& speaks_if_there(fact.latest_context_turn_id)
            &&& speaks_if_there(fact.parent_thread_id_hint)
            &&& speaks_if_there(fact.agent_role_hint)
            &&& speaks_if_there(fact.agent_path)
            &&& fact.relationship_conflict ==> fact.fact_quality_status is Conflict
            &&& fact.continuation_state is Unstable || fact.ownership_confidence is Confirmed
        },
{
}

/// A stored fact matches a source and its checkpoint if all three are sound and tell of the same
/// file, generation, parser, place and owner, and the checkpoint does not ask for a rebuild. A
/// fact without a checkpoint is stale for that reason, and only a fact that does not match is
/// stale.
pub proof fn law_facts_match_their_source(
    source: SourceFileState,
    checkpoint: Option<MetadataCheckpointState>,
    fact: Option<RolloutMetadataFact>,
    r: SafeFactState,
)
    requires
        r == fact_state(source, checkpoint, fact),
    ensures
        r is Absent <==> fact is None,
        fact is Some && checkpoint is None ==> r == SafeFactState::Stale(
            SafeFactMismatchReason::MissingCheckpoint,
        ),
        r is Matching ==> fact == Some(r->Matching_0),
        r is Matching <==> fact is Some && checkpoint is Some && {
            let f = fact->0;
            let c = checkpoint->0;
            &&& f.fault() is None
            &&& source.fault() is None
            &&& c.fault() is None
            &&& c.source_file_id == source.source_file_id
            &&& c.committed_offset <= source.observed_size
            &&& f.source_file_id == source.source_file_id
            &&& f.file_generation == source.file_generation
            &&& f.metadata_parser_version == c.parser_version
            &&& f.resolved_through_offset == c.committed_offset
            &&& !(c.processing_status is RebuildRequired)
            &&& source.thread_id is Some && source.thread_id->0@ == f.owning_thread_id@
        },
{
}

/// A source of a commit is sound if its numbers are; if it is of the thread of its group, which may
/// be new to it but not another than before; and if its fact is sound and tells of the same file,
/// generation and owner.
pub proof fn law_committed_sources_are_sound(commit: MetadataSourceCommit, thread_id: Seq<char>)
    ensures
        commit.fault_for(thread_id) is None ==> {
            &&& commit.source_file_id >= 1
            &&& commit.expected_file_generation >= 1
            &&& speaks(thread_id)
            &&& commit.confirmed_owning_thread_id@ == thread_id
            &&& commit.expected_previous_thread_id matches Some(previous) ==> previous@
                == commit.confirmed_owning_thread_id@
            &&& commit.safe_fact.fault() is None
            &&& commit.safe_fact.source_file_id == commit.source_file_id
            &&& commit.safe_fact.file_generation == commit.expected_file_generation
            &&& commit.safe_fact.owning_thread_id@ == thread_id
            &&& commit.metadata_checkpoint_advance.fault() is None
        },
        commit.source_file_id >= 1 && commit.expected_file_generation >= 1 && speaks(thread_id)
            && commit.confirmed_owning_thread_id@ == thread_id && (
        commit.expected_previous_thread_id is None || commit.expected_previous_thread_id->0@
            == thread_id) && commit.safe_fact.fault() is None && commit.safe_fact.source_file_id
            == commit.source_file_id && commit.safe_fact.file_generation
            == commit.expected_file_generation && commit.safe_fact.owning_thread_id@ == thread_id
            && commit.metadata_checkpoint_advance.fault() is None ==> commit.fault_for(thread_id)
            is None,
{
}

/// Lists are sound only if each of their members is and none comes twice: observations by path and
/// by file, results and states by source, sources of a thread by source, threads by their id.
pub proof fn law_lists_hold_nothing_twice(
    seen: Seq<SourceObservation>,
    made: Seq<SourceObservationResult>,
    entries: Seq<MetadataScanStateEntry>,
    thread_id: Seq<char>,
    sources: Seq<MetadataSourceCommit>,
    groups: Seq<MetadataThreadCommit>,
    i: int,
    j: int,
)
    requires
        0 <= i < j,
    ensures
        observations_fault(seen, seen.len()) is None && j < seen.len() ==> seen[i].fault() is None
            && seen[j].fault() is None && seen[i].current_path@ != seen[j].current_path@ && !(
        seen[i].device_id == seen[j].device_id && seen[i].inode == seen[j].inode),
        outcomes_fault(made, made.len()) is None && j < made.len() ==> made[i].fault() is None
            && made[j].fault() is None && made[i].source_file_id != made[j].source_file_id,
        entries_fault(entries, entries.len()) is None && j < entries.len() ==> entries[i].fault()
            is None && entries[j].fault() is None && entries[i].source.source_file_id
            != entries[j].source.source_file_id,
        source_commits_fault(thread_id, sources, sources.len()) is None && j < sources.len()
            ==> sources[i].fault_for(thread_id) is None && sources[j].fault_for(thread_id) is None
            && sources[i].source_file_id != sources[j].source_file_id,
        groups_fault(groups, groups.len()) is None && j < groups.len() ==> groups[i].fault() is None
            && groups[j].fault() is None && groups[i].thread_id@ != groups[j].thread_id@,
{
    lemma_observation_at(seen, seen.len(), i);
    lemma_observation_at(seen, seen.len(), j);
    lemma_outcome_at(made, made.len(), i);
    lemma_outcome_at(made, made.len(), j);
    lemma_entry_at(entries, entries.len(), i);
    lemma_entry_at(entries, entries.len(), j);
    lemma_source_at(thread_id, sources, sources.len(), i);
    lemma_source_at(thread_id, sources, sources.len(), j);
    lemma_group_at(groups, groups.len(), i);
    lemma_group_at(groups, groups.len(), j);
}

proof fn lemma_observation_at(seen: Seq<SourceObservation>, n: nat, i: int)
    ensures
        observations_fault(seen, n) is None && 0 <= i < n ==> crate::domain::observation_fault(
            seen,
            i,
        ) is None,
    decreases n,
{
    if n > 0 && i < n - 1 {
        lemma_observation_at(seen, (n - 1) as nat, i);
    }
}

proof fn lemma_outcome_at(made: Seq<SourceObservationResult>, n: nat, i: int)
    ensures
        outcomes_fault(made, n) is None && 0 <= i < n ==> crate::domain::outcome_fault(made, i)
            is None,
    decreases n,
{
    if n > 0 && i < n - 1 {
        lemma_outcome_at(made, (n - 1) as nat, i);
    }
}

proof fn lemma_entry_at(entries: Seq<MetadataScanStateEntry>, n: nat, i: int)
    ensures
        entries_fault(entries, n) is None && 0 <= i < n ==> crate::domain::entry_fault(entries, i)
            is None,
    decreases n,
{
    if n > 0 && i < n - 1 {
        lemma_entry_at(entries, (n - 1) as nat, i);
    }
}

proof fn lemma_source_at(thread_id: Seq<char>, sources: Seq<MetadataSourceCommit>, n: nat, i: int)
    ensures
        source_commits_fault(thread_id, sources, n) is None && 0 <= i < n
            ==> crate::domain::source_commit_fault(thread_id, sources, i) is None,
    decreases n,
{
    if n > 0 && i < n - 1 {
        lemma_source_at(thread_id, sources, (n - 1) as nat, i);
    }
}

proof fn lemma_group_at(groups: Seq<MetadataThreadCommit>, n: nat, i: int)
    ensures
        groups_fault(groups, n) is None && 0 <= i < n ==> crate::domain::group_fault(groups, i)
            is None,
    decreases n,
{
    if n > 0 && i < n - 1 {
        lemma_group_at(groups, (n - 1) as nat, i);
    }
}

/// A group of a commit is of a thread that says something, changes something, and has a patch, if
/// it has one, of the same thread at a time that is not negative.
pub proof fn law_groups_are_of_one_thread(group: MetadataThreadCommit)
    ensures
        group.fault() is None <==> {
            &&& speaks(group.thread_id@)
            &&& group.resolved_patch is Some || group.sources@.len() > 0
            &&& group.resolved_patch matches Some(patch) ==> patch.thread_id@ == group.thread_id@
                && patch.resolved_at_ms >= 0
            &&& source_commits_fault(group.thread_id@, group.sources@, group.sources@.len()) is None
        },
{
}

/// Counts of tokens are sound if none is negative, cached and written input together fit into the
/// input, reasoning fits into the output, and the total is the input with the output.
pub proof fn law_token_counts_are_sound(
    input: int,
    cached: int,
    cache_write: Option<int>,
    output: int,
    reasoning: int,
    total: int,
)
    ensures
        usage_fault(input, cached, cache_write, output, reasoning, total) is None <==> {
            &&& 0 <= cached <= input
            &&& 0 <= reasoning <= output
            &&& total == input + output
            &&& cache_write is Some ==> cache_write->0 >= 0 && cached + cache_write->0 <= input
        },
{
}

/// Sums and differences are taken count by count. Written input is known in a sum or a difference
/// only where both tell it.
pub proof fn law_token_counts_add_up_one_by_one(
    a: NormalizedTokenUsage,
    b: NormalizedTokenUsage,
    sum: NormalizedTokenUsage,
    difference: NormalizedTokenUsage,
)
    requires
        a.valid(),
        b.valid(),
        sum == sum_of(a, b),
        difference == difference_of(a, b),
    ensures
        sum_fault(a, b) is None ==> {
            &&& sum.input_tokens == a.input_tokens + b.input_tokens
            &&& sum.cached_tokens == a.cached_tokens + b.cached_tokens
            &&& sum.output_tokens == a.output_tokens + b.output_tokens
            &&& sum.reasoning_tokens == a.reasoning_tokens + b.reasoning_tokens
            &&& sum.total_tokens == a.total_tokens + b.total_tokens
            &&& sum.cache_write_tokens is Some <==> a.cache_write_tokens is Some
                && b.cache_write_tokens is Some
            &&& sum.cache_write_tokens is Some ==> sum.cache_write_tokens->0
                == a.cache_write_tokens->0 + b.cache_write_tokens->0
        },
        difference_fault(a, b) is None ==> {
            &&& difference.input_tokens == a.input_tokens - b.input_tokens >= 0
            &&& difference.cached_tokens == a.cached_tokens - b.cached_tokens >= 0
            &&& difference.output_tokens == a.output_tokens - b.output_tokens >= 0
            &&& difference.reasoning_tokens == a.reasoning_tokens - b.reasoning_tokens >= 0
            &&& difference.total_tokens == a.total_tokens - b.total_tokens >= 0
            &&& difference.cache_write_tokens is Some <==> a.cache_write_tokens is Some
                && b.cache_write_tokens is Some
            &&& difference.cache_write_tokens is Some ==> difference.cache_write_tokens->0
                == a.cache_write_tokens->0 - b.cache_write_tokens->0
        },
{
}

} // verus!
