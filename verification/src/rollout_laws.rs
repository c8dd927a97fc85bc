//! What holds of the ownership state machine over whole rollouts.
use vstd::prelude::*;

use crate::rollout::{
    AgentPathProvenance, AgentRoleProvenance, CwdProvenance, ParentHintProvenance, ThreadFacts,
};
use crate::rollout_parser::{
    content_of, extended, parent_rank, ContentFacts, LineFacts, Noted, OwnershipRange,
    RecordClassification, RolloutParseContext, Scan, SessionMetaFacts, Span, TurnContextFacts,
};
use crate::json::json_document;

verus! {

/// Parsing lines in two batches is parsing them in one.
pub proof fn law_lines_compose(scan: Scan, first: Seq<LineFacts>, second: Seq<LineFacts>)
    ensures
        scan.with_lines(first + second) == scan.with_lines(first).with_lines(second),
    decreases second.len(),
{
    if second.len() == 0 {
        assert(first + second =~= first);
    } else {
        assert((first + second).drop_last() =~= first + second.drop_last());
        assert((first + second).last() == second.last());
        law_lines_compose(scan, first, second.drop_last());
    }
}

/// Two parsers that differ at most in the details they keep.
pub open spec fn same_but_details(a: Scan, b: Scan) -> bool {
    &&& a.platform == b.platform
    &&& a.source_file_id == b.source_file_id
    &&& a.owner == b.owner
    &&& a.confirmed == b.confirmed
    &&& a.machine == b.machine
    &&& a.resumed_nonzero == b.resumed_nonzero
    &&& a.fact == b.fact
    &&& a.diagnostic_count == b.diagnostic_count
    &&& a.malformed_record_count == b.malformed_record_count
    &&& a.last_classification == b.last_classification
    &&& a.needs_rebuild == b.needs_rebuild
    &&& a.last_processed_offset == b.last_processed_offset
}

/// What is noted of a record does not depend on the remarks made before.
proof fn lemma_meta_is_noted_alike(a: Noted, b: Noted, meta: SessionMetaFacts, offset: u64)
    requires
        a.fact == b.fact,
    ensures
        a.with_session_meta(meta, offset).fact == b.with_session_meta(meta, offset).fact,
{
    reveal(Noted::with_session_meta);
    let a = a.with_created(meta.created_at_ms);
    let b = b.with_created(meta.created_at_ms);
    assert(a.fact == b.fact);
    let a = a.with_cwd(meta.cwd, CwdProvenance::SessionMeta, offset);
    let b = b.with_cwd(meta.cwd, CwdProvenance::SessionMeta, offset);
    assert(a.fact == b.fact);
    let p = ParentHintProvenance::SessionMetaParent;
    let a = a.with_parent(meta.parent_thread_id, p, offset);
    let b = b.with_parent(meta.parent_thread_id, p, offset);
    assert(a.fact == b.fact);
    let p = ParentHintProvenance::SubagentSource;
    let a = a.with_parent(meta.subagent_parent_thread_id, p, offset);
    let b = b.with_parent(meta.subagent_parent_thread_id, p, offset);
    assert(a.fact == b.fact);
    let a_forked = a.with_parent(meta.forked_from_id, ParentHintProvenance::ForkedFromId, offset);
    let b_forked = b.with_parent(meta.forked_from_id, ParentHintProvenance::ForkedFromId, offset);
    assert(a_forked.fact == b_forked.fact);
    let forked = meta.has_subagent_source || meta.agent_role == Some("subagent"@);
    let a = if forked {
        a_forked
    } else {
        a
    };
    let b = if forked {
        b_forked
    } else {
        b
    };
    let (role, p) = if meta.has_subagent_source {
        (Some("subagent"@), AgentRoleProvenance::SubagentSource)
    } else {
        (meta.agent_role, AgentRoleProvenance::SessionMetaRole)
    };
    let a = a.with_role(role, p, offset);
    let b = b.with_role(role, p, offset);
    assert(a.fact == b.fact);
    let p = AgentPathProvenance::SessionMeta;
    let a = a.with_agent_path(meta.agent_path, p, offset);
    let b = b.with_agent_path(meta.agent_path, p, offset);
    assert(a.fact == b.fact);
}

proof fn lemma_context_is_noted_alike(a: Noted, b: Noted, context: TurnContextFacts, offset: u64)
    requires
        a.fact == b.fact,
    ensures
        a.with_turn_context(context, offset).fact == b.with_turn_context(context, offset).fact,
{
    reveal(Noted::with_turn_context);
}

/// Noting a record keeps whose fact it is, and never takes a conflict back.
proof fn lemma_meta_keeps(a: Noted, meta: SessionMetaFacts, offset: u64)
    ensures
        ({
            let after = a.with_session_meta(meta, offset).fact;
            &&& after.owning_thread_id == a.fact.owning_thread_id
            &&& after.boundary == a.fact.boundary
            &&& a.fact.has_conflict ==> after.has_conflict
            &&& a.fact.relationship_conflict ==> after.relationship_conflict
        }),
{
    reveal(Noted::with_session_meta);
}

proof fn lemma_context_keeps(a: Noted, context: TurnContextFacts, offset: u64)
    ensures
        ({
            let after = a.with_turn_context(context, offset).fact;
            &&& after.owning_thread_id == a.fact.owning_thread_id
            &&& after.boundary == a.fact.boundary
            &&& a.fact.has_conflict ==> after.has_conflict
            &&& a.fact.relationship_conflict ==> after.relationship_conflict
        }),
{
    reveal(Noted::with_turn_context);
}

/// What a record does to the owner and to the fact.
proof fn lemma_record_keeps(scan: Scan, at: Span, content: ContentFacts)
    ensures
        ({
            let after = scan.with_record(at, content);
            &&& about_owner(scan) ==> about_owner(after)
            &&& scan.owner is Some ==> after.owner == scan.owner
            &&& scan.owner is Some && scan.fact is Some ==> {
                &&& after.fact is Some
                &&& scan.fact->0.has_conflict ==> after.fact->0.has_conflict
                &&& scan.fact->0.relationship_conflict ==> after.fact->0.relationship_conflict
            }
        }),
{
    assert forall|a: Noted, meta: SessionMetaFacts, offset: u64| {
        let after = #[trigger] a.with_session_meta(meta, offset).fact;
        &&& after.owning_thread_id == a.fact.owning_thread_id
        &&& a.fact.has_conflict ==> after.has_conflict
        &&& a.fact.relationship_conflict ==> after.relationship_conflict
    } by {
        lemma_meta_keeps(a, meta, offset);
    }
    assert forall|a: Noted, context: TurnContextFacts, offset: u64| {
        let after = #[trigger] a.with_turn_context(context, offset).fact;
        &&& after.owning_thread_id == a.fact.owning_thread_id
        &&& a.fact.has_conflict ==> after.has_conflict
        &&& a.fact.relationship_conflict ==> after.relationship_conflict
    } by {
        lemma_context_keeps(a, context, offset);
    }
}

proof fn lemma_meta_keeps_agreement(a: Scan, b: Scan, at: Span, meta: SessionMetaFacts)
    requires
        same_but_details(a, b),
    ensures
        same_but_details(a.with_session_meta(at, meta), b.with_session_meta(at, meta)),
{
    if meta.thread_id is Some {
        let id = meta.thread_id->0;
        let a1 = a.claimed_by(id);
        let b1 = b.claimed_by(id);
        assert(same_but_details(a1, b1));
        let a2 = a1.at_owned_meta(at);
        let b2 = b1.at_owned_meta(at);
        assert(same_but_details(a2, b2));
        lemma_meta_is_noted_alike(a2.noted(), b2.noted(), meta, at.start);
    }
}

proof fn lemma_record_keeps_agreement(a: Scan, b: Scan, at: Span, content: ContentFacts)
    requires
        same_but_details(a, b),
    ensures
        same_but_details(a.with_record(at, content), b.with_record(at, content)),
{
    let a0 = if at.start != a.last_processed_offset {
        a.with_gap(at.start)
    } else {
        a
    };
    let b0 = if at.start != b.last_processed_offset {
        b.with_gap(at.start)
    } else {
        b
    };
    assert(same_but_details(a0, b0));
    match content {
        ContentFacts::SessionMeta(meta) => {
            lemma_meta_keeps_agreement(a0, b0, at, meta);
        },
        ContentFacts::TurnContext(context) => {
            let a1 = a0.at_turn_context(at, context);
            let b1 = b0.at_turn_context(at, context);
            assert(same_but_details(a1, b1));
            lemma_context_is_noted_alike(a1.noted(), b1.noted(), context, at.start);
        },
        _ => {},
    }
}

proof fn lemma_lines_keep_agreement(a: Scan, b: Scan, lines: Seq<LineFacts>)
    requires
        same_but_details(a, b),
    ensures
        same_but_details(a.with_lines(lines), b.with_lines(lines)),
    decreases lines.len(),
{
    if lines.len() > 0 {
        lemma_lines_keep_agreement(a, b, lines.drop_last());
        lemma_record_keeps_agreement(
            a.with_lines(lines.drop_last()),
            b.with_lines(lines.drop_last()),
            lines.last().at,
            content_of(a.with_lines(lines.drop_last()).platform, json_document(lines.last().json)),
        );
    }
}

/// A parser that keeps no details comes to the same fact, counts and continuation as one
/// that keeps them.
pub proof fn law_details_do_not_matter(context: RolloutParseContext, lines: Seq<LineFacts>)
    ensures
        ({
            let lean = Scan::start(context, false).with_lines(lines).finished();
            let full = Scan::start(context, true).with_lines(lines).finished();
            &&& lean.fact == full.fact
            &&& lean.diagnostic_count == full.diagnostic_count
            &&& lean.malformed_record_count == full.malformed_record_count
            &&& lean.final_continuation == full.final_continuation
            &&& lean.needs_rebuild == full.needs_rebuild
            &&& lean.last_processed_offset == full.last_processed_offset
        }),
{
    lemma_lines_keep_agreement(Scan::start(context, false), Scan::start(context, true), lines);
}

/// Once a rebuild is needed it stays needed: no fact comes out, and no state to resume from.
pub proof fn law_rebuild_is_final(scan: Scan, lines: Seq<LineFacts>)
    requires
        scan.needs_rebuild,
    ensures
        scan.with_lines(lines).needs_rebuild,
        scan.with_lines(lines).finished().fact is None,
        scan.with_lines(lines).finished().final_continuation is Unstable,
    decreases lines.len(),
{
    if lines.len() > 0 {
        law_rebuild_is_final(scan, lines.drop_last());
    }
}

/// A line that does not begin where the last one ended calls for a rebuild.
pub proof fn law_gap_calls_for_rebuild(scan: Scan, line: LineFacts)
    requires
        line.at.start != scan.last_processed_offset,
    ensures
        scan.with_line(line).needs_rebuild,
        scan.with_line(line).diagnostic_count >= scan.diagnostic_count,
{
}

/// The fact under way is about the thread that owns the rollout.
pub open spec fn about_owner(scan: Scan) -> bool {
    scan.fact is Some ==> scan.owner is Some && scan.fact->0.owning_thread_id == scan.owner->0
}

/// The fact that a parser builds is always about the owner.
pub proof fn law_fact_is_about_the_owner(
    context: RolloutParseContext,
    retain_details: bool,
    lines: Seq<LineFacts>,
)
    ensures
        about_owner(Scan::start(context, retain_details).with_lines(lines)),
    decreases lines.len(),
{
    if lines.len() > 0 {
        law_fact_is_about_the_owner(context, retain_details, lines.drop_last());
        lemma_record_keeps(
            Scan::start(context, retain_details).with_lines(lines.drop_last()),
            lines.last().at,
            content_of(
                Scan::start(context, retain_details).with_lines(lines.drop_last()).platform,
                json_document(lines.last().json),
            ),
        );
    }
}

/// Who owns a rollout is settled once.
pub proof fn law_owner_is_settled_once(scan: Scan, lines: Seq<LineFacts>)
    requires
        scan.owner is Some,
    ensures
        scan.with_lines(lines).owner == scan.owner,
    decreases lines.len(),
{
    if lines.len() > 0 {
        law_owner_is_settled_once(scan, lines.drop_last());
    }
}

/// The fact without its boundary.
pub open spec fn unbounded(fact: Option<ThreadFacts>) -> Option<ThreadFacts> {
    match fact {
        None => None,
        Some(fact) => Some(
            ThreadFacts { boundary: crate::rollout::blank_thread(0, Seq::empty()).boundary, ..fact },
        ),
    }
}

/// A record that the owner does not own changes nothing in the fact but where the replay
/// begins. A session meta record that first names an owner is owned.
pub proof fn law_foreign_records_leave_the_fact_alone(scan: Scan, at: Span, content: ContentFacts)
    requires
        scan.owner is Some,
        scan.with_record(at, content).last_classification->0.ownership !is Owning,
    ensures
        unbounded(scan.with_record(at, content).fact) == unbounded(scan.fact),
        !(content is SessionMeta) ==> scan.with_record(at, content).fact == scan.fact,
{
}

/// A conflict that was noted stays noted.
pub proof fn law_conflicts_stay(scan: Scan, lines: Seq<LineFacts>)
    requires
        scan.owner is Some,
        scan.fact is Some,
    ensures
        scan.with_lines(lines).fact is Some,
        scan.fact->0.has_conflict ==> scan.with_lines(lines).fact->0.has_conflict,
        scan.fact->0.relationship_conflict ==> scan.with_lines(lines).fact->0.relationship_conflict,
    decreases lines.len(),
{
    if lines.len() > 0 {
        law_conflicts_stay(scan, lines.drop_last());
        law_owner_is_settled_once(scan, lines.drop_last());
        lemma_record_keeps(
            scan.with_lines(lines.drop_last()),
            lines.last().at,
            content_of(
                scan.with_lines(lines.drop_last()).platform,
                json_document(lines.last().json),
            ),
        );
    }
}

/// Two parents that differ are a conflict, whichever of them stays.
pub proof fn law_differing_parents_conflict(
    noted: Noted,
    value: Seq<char>,
    provenance: ParentHintProvenance,
    offset: u64,
)
    requires
        noted.fact.parent is Some,
        noted.fact.parent->0.value != value,
    ensures
        noted.with_parent(Some(value), provenance, offset).fact.has_conflict,
        noted.with_parent(Some(value), provenance, offset).fact.relationship_conflict,
{
}

/// A parent hint gives way only to one of higher rank.
pub proof fn law_parent_rank_never_falls(
    noted: Noted,
    value: Option<Seq<char>>,
    provenance: ParentHintProvenance,
    offset: u64,
)
    requires
        noted.fact.parent is Some,
    ensures
        ({
            let after = noted.with_parent(value, provenance, offset).fact.parent;
            &&& after is Some
            &&& after == noted.fact.parent || parent_rank(after->0.provenance) > parent_rank(
                noted.fact.parent->0.provenance,
            )
        }),
{
}

/// A working directory of a turn never displaces that of the session.
pub proof fn law_session_cwd_outranks_turn_cwd(noted: Noted, cwd: Option<Seq<char>>, offset: u64)
    requires
        noted.fact.cwd is Some,
        noted.fact.cwd->0.provenance is SessionMeta,
    ensures
        noted.with_cwd(cwd, CwdProvenance::TurnContext, offset) == noted,
{
}

/// The creation time of a thread only ever moves back.
pub proof fn law_creation_time_moves_back(noted: Noted, at: Option<i64>)
    requires
        noted.fact.created_at_ms is Some,
    ensures
        noted.with_created(at).fact.created_at_ms is Some,
        noted.with_created(at).fact.created_at_ms->0 <= noted.fact.created_at_ms->0,
{
}

/// There is a record for each line, at its place, when the details are kept.
pub proof fn law_one_record_for_each_line(
    context: RolloutParseContext,
    lines: Seq<LineFacts>,
)
    ensures
        ({
            let records = Scan::start(context, true).with_lines(lines).finished().records;
            &&& records.len() == lines.len()
            &&& forall|i: int| #![trigger records[i]]
                0 <= i < lines.len() ==> records[i].start_offset == lines[i].at.start
                    && records[i].end_offset == lines[i].at.end
        }),
    decreases lines.len(),
{
    lemma_details_kept(context, lines);
    if lines.len() > 0 {
        law_one_record_for_each_line(context, lines.drop_last());
        lemma_details_kept(context, lines.drop_last());
        let before = Scan::start(context, true).with_lines(lines.drop_last());
        lemma_one_record_more(
            before,
            lines.last().at,
            content_of(before.platform, json_document(lines.last().json)),
        );
    }
}

proof fn lemma_details_kept(context: RolloutParseContext, lines: Seq<LineFacts>)
    ensures
        Scan::start(context, true).with_lines(lines).retain_details,
    decreases lines.len(),
{
    if lines.len() > 0 {
        lemma_details_kept(context, lines.drop_last());
    }
}

proof fn lemma_one_record_more(scan: Scan, at: Span, content: ContentFacts)
    requires
        scan.retain_details,
    ensures
        ({
            let after = scan.with_record(at, content);
            &&& after.last_classification is Some
            &&& after.last_classification->0.start_offset == at.start
            &&& after.last_classification->0.end_offset == at.end
            &&& after.records == scan.records.push(after.last_classification->0)
            &&& after.ranges == extended(scan.ranges, after.last_classification->0)
        }),
{
}

pub open spec fn inside(c: RecordClassification, r: OwnershipRange) -> bool {
    r.ownership == c.ownership && r.start_offset <= c.start_offset && c.end_offset
        <= r.end_offset
}

/// The ranges are what the records come to: every record lies in a range of its ownership,
/// and two neighbouring ranges differ in ownership or do not touch.
pub open spec fn ranges_fit(records: Seq<RecordClassification>, ranges: Seq<OwnershipRange>) -> bool {
    &&& (ranges.len() == 0) == (records.len() == 0)
    &&& forall|i: int| #![trigger records[i]]
        0 <= i < records.len() ==> exists|j: int| #![trigger ranges[j]]
            0 <= j < ranges.len() && inside(records[i], ranges[j])
    &&& forall|j: int| #![trigger ranges[j]]
        0 <= j < ranges.len() ==> ranges[j].start_offset < ranges[j].end_offset
    &&& forall|j: int, k: int| #![trigger ranges[j], ranges[k]]
        0 <= j && k == j + 1 && k < ranges.len() ==> ranges[j].ownership != ranges[k].ownership
            || ranges[j].end_offset != ranges[k].start_offset
}

proof fn lemma_ranges_fit_one_more(
    records: Seq<RecordClassification>,
    ranges: Seq<OwnershipRange>,
    c: RecordClassification,
)
    requires
        ranges_fit(records, ranges),
        c.start_offset < c.end_offset,
    ensures
        ranges_fit(records.push(c), extended(ranges, c)),
{
    let after = extended(ranges, c);
    let all = records.push(c);
    assert(after.len() > 0);
    assert(inside(c, after.last()));
    assert forall|i: int| #![trigger all[i]] 0 <= i < all.len() implies exists|j: int|
        #![trigger after[j]]
        0 <= j < after.len() && inside(all[i], after[j]) by {
        if i == records.len() {
            assert(inside(all[i], after[after.len() - 1]));
        } else {
            assert(all[i] == records[i]);
            let j = choose|j: int| #![trigger ranges[j]]
                0 <= j < ranges.len() && inside(records[i], ranges[j]);
            assert(inside(all[i], after[j]));
        }
    }
}

/// The ranges that come with a result fit its records, for lines that hold something.
pub proof fn law_ranges_fit_the_records(context: RolloutParseContext, lines: Seq<LineFacts>)
    requires
        forall|i: int| #![trigger lines[i]]
            0 <= i < lines.len() ==> lines[i].at.start < lines[i].at.end,
    ensures
        ({
            let result = Scan::start(context, true).with_lines(lines).finished();
            ranges_fit(result.records, result.ownership_ranges)
        }),
    decreases lines.len(),
{
    lemma_details_kept(context, lines);
    if lines.len() > 0 {
        let before = Scan::start(context, true).with_lines(lines.drop_last());
        assert forall|i: int| #![trigger lines.drop_last()[i]]
            0 <= i < lines.drop_last().len() implies lines.drop_last()[i].at.start
            < lines.drop_last()[i].at.end by {
            assert(lines[i].at.start < lines[i].at.end);
        }
        law_ranges_fit_the_records(context, lines.drop_last());
        lemma_details_kept(context, lines.drop_last());
        lemma_one_record_more(
            before,
            lines.last().at,
            content_of(before.platform, json_document(lines.last().json)),
        );
        lemma_ranges_fit_one_more(
            before.records,
            before.ranges,
            before.with_line(lines.last()).last_classification->0,
        );
    }
}

/// Malformed records are counted among the remarks.
pub proof fn law_malformed_records_are_remarked(
    context: RolloutParseContext,
    retain_details: bool,
    lines: Seq<LineFacts>,
)
    ensures
        ({
            let result = Scan::start(context, retain_details).with_lines(lines).finished();
            result.malformed_record_count <= result.diagnostic_count
        }),
    decreases lines.len(),
{
    if lines.len() > 0 {
        law_malformed_records_are_remarked(context, retain_details, lines.drop_last());
    }
}

} // verus!
