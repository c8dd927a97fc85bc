//! What is asked of the ledger, word by word, and what the answers come to.
use vstd::prelude::*;

use crate::analytics::{
    by_use, error_clauses, error_query, kind_clauses, placeholders, project_clauses,
    skill_clauses, skill_query, strung, sum_of, text_values, AggregateError, CountFacts,
    CountedDay, FilterFacts, SkillDayUsage, SqlFacts, SqlQuery, SqlValue, UsageFilter,
};
use crate::order::{lemma_stable_place, stable_place, stably_sorted, Rank};
use crate::text::int_text;

verus! {

/// The values of a query are numbered one after another: a run of numbers is a shorter run and
/// the run that goes on from it.
pub proof fn law_numbers_go_on(first: int, a: nat, b: nat)
    requires
        a > 0,
        b > 0,
    ensures
        placeholders(first, 1) == "?"@ + int_text(first),
        placeholders(first, a + b) == placeholders(first, a) + ","@ + placeholders(first + a, b),
    decreases b,
{
    if b == 1 {
        assert(placeholders(first, a + 1) =~= placeholders(first, a) + ","@ + ("?"@ + int_text(
            first + a,
        )));
    } else {
        law_numbers_go_on(first, a, (b - 1) as nat);
        let number = "?"@ + int_text(first + a + b - 1);
        assert(placeholders(first, a + b) =~= placeholders(first, (a + b - 1) as nat) + ","@
            + number);
        assert(placeholders(first + a, b) =~= placeholders(first + a, (b - 1) as nat) + ","@
            + number);
        assert(placeholders(first, a) + ","@ + placeholders(first + a, (b - 1) as nat) + ","@
            + number =~= placeholders(first, a) + ","@ + placeholders(first + a, b));
    }
}

/// The value is this number.
pub open spec fn is_integer(value: SqlValue, number: i64) -> bool {
    value matches SqlValue::Integer(held) && held == number
}

/// The value is this text.
pub open spec fn is_text(value: SqlValue, text: String) -> bool {
    value matches SqlValue::Text(held) && held@ == text@
}

/// How a query asks for projects: by the paths that are given, which are numbered from `first`
/// on, for sessions without a project, and for sessions of which that is not known. Any one of
/// these will do; where nothing is asked for, all will.
pub open spec fn asks_for_projects(filter: UsageFilter, first: int) -> Seq<char> {
    let paths = filter.project_paths@.len();
    let projectless = filter.include_projectless;
    let unknown = filter.include_unknown_project;
    let by_path = "(root.project_kind='project' AND root.project_path IN ("@ + placeholders(
        first,
        paths,
    ) + "))"@;
    let without = "root.project_kind='projectless'"@;
    let undecided = "root.project_kind='unknown'"@;
    if paths > 0 && projectless && unknown {
        " AND "@ + "("@ + by_path + " OR "@ + without + " OR "@ + undecided + ")"@
    } else if paths > 0 && projectless {
        " AND "@ + "("@ + by_path + " OR "@ + without + ")"@
    } else if paths > 0 && unknown {
        " AND "@ + "("@ + by_path + " OR "@ + undecided + ")"@
    } else if paths > 0 {
        " AND "@ + "("@ + by_path + ")"@
    } else if projectless && unknown {
        " AND "@ + "("@ + without + " OR "@ + undecided + ")"@
    } else if projectless {
        " AND "@ + "("@ + without + ")"@
    } else if unknown {
        " AND "@ + "("@ + undecided + ")"@
    } else {
        Seq::empty()
    }
}

/// How a query asks for models.
pub open spec fn asks_for_models(filter: UsageFilter) -> Seq<char> {
    if filter.models@.len() > 0 {
        " AND "@ + "se.model IN ("@ + placeholders(4, filter.models@.len()) + ")"@
    } else {
        Seq::empty()
    }
}

proof fn lemma_strung(parts: Seq<Seq<char>>, part: Seq<char>, between: Seq<char>)
    ensures
        strung(seq![part], between) == part,
        parts.len() > 0 ==> strung(parts.push(part), between) == strung(parts, between) + between
            + part,
{
    assert(parts.push(part).drop_last() =~= parts);
}

/// The projects as one more condition.
spec fn added(projects: Seq<Seq<char>>) -> Seq<char> {
    if projects.len() > 0 {
        " AND "@ + ("("@ + strung(projects, " OR "@) + ")"@)
    } else {
        Seq::empty()
    }
}

proof fn lemma_projects(filter: UsageFilter, first: int)
    ensures
        added(project_clauses(filter.deep_view(), first)) == asks_for_projects(filter, first),
{
    let facts = filter.deep_view();
    let paths = filter.project_paths@.len();
    assert(facts.project_paths.len() == paths);
    let or = " OR "@;
    let by_path = "(root.project_kind='project' AND root.project_path IN ("@ + placeholders(
        first,
        paths,
    ) + "))"@;
    let without = "root.project_kind='projectless'"@;
    let undecided = "root.project_kind='unknown'"@;
    let projects = project_clauses(facts, first);
    if paths > 0 && facts.include_projectless && facts.include_unknown_project {
        assert(projects =~= seq![by_path].push(without).push(undecided));
        lemma_strung(seq![by_path], without, or);
        lemma_strung(seq![by_path].push(without), undecided, or);
        lemma_strung(seq![], by_path, or);
    } else if paths > 0 && facts.include_projectless {
        assert(projects =~= seq![by_path].push(without));
        lemma_strung(seq![by_path], without, or);
        lemma_strung(seq![], by_path, or);
    } else if paths > 0 && facts.include_unknown_project {
        assert(projects =~= seq![by_path].push(undecided));
        lemma_strung(seq![by_path], undecided, or);
        lemma_strung(seq![], by_path, or);
    } else if paths > 0 {
        assert(projects =~= seq![by_path]);
        lemma_strung(seq![], by_path, or);
    } else if facts.include_projectless && facts.include_unknown_project {
        assert(projects =~= seq![without].push(undecided));
        lemma_strung(seq![without], undecided, or);
        lemma_strung(seq![], without, or);
    } else if facts.include_projectless {
        assert(projects =~= seq![without]);
        lemma_strung(seq![], without, or);
    } else if facts.include_unknown_project {
        assert(projects =~= seq![undecided]);
        lemma_strung(seq![], undecided, or);
    } else {
        assert(projects.len() == 0);
    }
    assert(added(projects) =~= asks_for_projects(filter, first));
}

proof fn lemma_skill_conditions(filter: UsageFilter)
    ensures
        strung(skill_clauses(filter.deep_view()), " AND "@) == "se.ledger_epoch=?1"@ + " AND "@
            + "se.occurred_at_ms>=?2"@ + " AND "@ + "se.occurred_at_ms<?3"@ + asks_for_models(
            filter,
        ) + asks_for_projects(filter, 4int + filter.models@.len()),
{
    let facts = filter.deep_view();
    let and = " AND "@;
    let epoch_clause = "se.ledger_epoch=?1"@;
    let from_clause = "se.occurred_at_ms>=?2"@;
    let to_clause = "se.occurred_at_ms<?3"@;
    let first = 4int + filter.models@.len();
    assert(facts.models.len() == filter.models@.len());
    assert(facts.project_paths.len() == filter.project_paths@.len());
    let always = seq![epoch_clause].push(from_clause).push(to_clause);
    assert(always =~= seq![epoch_clause, from_clause, to_clause]);
    lemma_strung(seq![], epoch_clause, and);
    lemma_strung(seq![epoch_clause], from_clause, and);
    lemma_strung(seq![epoch_clause].push(from_clause), to_clause, and);
    let model_clause = "se.model IN ("@ + placeholders(4, facts.models.len()) + ")"@;
    lemma_strung(always, model_clause, and);
    let with_models = if facts.models.len() > 0 {
        always.push(model_clause)
    } else {
        always
    };
    let projects = project_clauses(facts, first);
    let project_clause = "("@ + strung(projects, " OR "@) + ")"@;
    lemma_strung(with_models, project_clause, and);
    lemma_projects(filter, first);
    let start = epoch_clause + and + from_clause + and + to_clause;
    assert(strung(always, and) =~= start);
    assert(strung(with_models, and) =~= start + asks_for_models(filter));
    assert(strung(skill_clauses(facts), and) =~= start + asks_for_models(filter)
        + asks_for_projects(filter, first));
}

proof fn lemma_skill_values(
    filter: UsageFilter,
    epoch: i64,
    start_ms: i64,
    end_ms: i64,
    q: SqlQuery,
)
    requires
        q.deep_view() == skill_query(filter.deep_view(), epoch, start_ms, end_ms),
    ensures
        q.values@.len() == 3 + filter.models@.len() + filter.project_paths@.len(),
        is_integer(q.values@[0], epoch),
        is_integer(q.values@[1], start_ms),
        is_integer(q.values@[2], end_ms),
        forall|i: int|
            #![trigger filter.models@[i]]
            0 <= i < filter.models@.len() ==> is_text(q.values@[3 + i], filter.models@[i]),
        forall|i: int|
            #![trigger filter.project_paths@[i]]
            0 <= i < filter.project_paths@.len() ==> is_text(
                q.values@[3 + filter.models@.len() + i],
                filter.project_paths@[i],
            ),
{
    let facts = filter.deep_view();
    assert(facts.models.len() == filter.models@.len());
    assert(facts.project_paths.len() == filter.project_paths@.len());
    let values = q.values.deep_view();
    assert(values.len() == q.values@.len());
    assert forall|i: int| 0 <= i < values.len() implies values[i] == (
    #[trigger] q.values@[i]).deep_view() by {}
    assert forall|i: int|
        #![trigger filter.models@[i]]
        0 <= i < filter.models@.len() implies is_text(q.values@[3 + i], filter.models@[i]) by {
        assert(facts.models[i] == filter.models@[i]@);
        assert(values[3 + i] == SqlFacts::Text(facts.models[i]));
        assert(values[3 + i] == q.values@[3 + i].deep_view());
    }
    assert forall|i: int|
        #![trigger filter.project_paths@[i]]
        0 <= i < filter.project_paths@.len() implies is_text(
        q.values@[3 + filter.models@.len() + i],
        filter.project_paths@[i],
    ) by {
        let at = 3 + filter.models@.len() + i;
        assert(facts.project_paths[i] == filter.project_paths@[i]@);
        assert(values[at] == SqlFacts::Text(facts.project_paths[i]));
        assert(values[at] == q.values@[at].deep_view());
    }
    assert(values[0] == q.values@[0].deep_view());
    assert(values[1] == q.values@[1].deep_view());
    assert(values[2] == q.values@[2].deep_view());
}

/// The query for skills counts the events of each skill, of this ledger, from the start of the
/// range to before its end, of the models and the projects that are asked for, and puts the
/// most used first, of equals by name.
pub proof fn law_skills_are_counted_by_name(
    filter: UsageFilter,
    epoch: i64,
    start_ms: i64,
    end_ms: i64,
    q: SqlQuery,
)
    requires
        q.deep_view() == skill_query(filter.deep_view(), epoch, start_ms, end_ms),
    ensures
        q.sql@ == "SELECT se.skill_name,COUNT(*)
                     FROM codex_skill_usage_events se
                     LEFT JOIN threads root ON root.thread_id=se.root_session_id
                     WHERE "@ + "se.ledger_epoch=?1"@ + " AND "@ + "se.occurred_at_ms>=?2"@
            + " AND "@ + "se.occurred_at_ms<?3"@ + asks_for_models(filter) + asks_for_projects(
            filter,
            4int + filter.models@.len(),
        ) + " GROUP BY se.skill_name
                     ORDER BY COUNT(*) DESC,se.skill_name ASC"@,
        q.values@.len() == 3 + filter.models@.len() + filter.project_paths@.len(),
        is_integer(q.values@[0], epoch),
        is_integer(q.values@[1], start_ms),
        is_integer(q.values@[2], end_ms),
        forall|i: int|
            #![trigger filter.models@[i]]
            0 <= i < filter.models@.len() ==> is_text(q.values@[3 + i], filter.models@[i]),
        forall|i: int|
            #![trigger filter.project_paths@[i]]
            0 <= i < filter.project_paths@.len() ==> is_text(
                q.values@[3 + filter.models@.len() + i],
                filter.project_paths@[i],
            ),
{
    lemma_skill_values(filter, epoch, start_ms, end_ms, q);
    lemma_skill_conditions(filter);
    assert(q.sql@ =~= "SELECT se.skill_name,COUNT(*)
                     FROM codex_skill_usage_events se
                     LEFT JOIN threads root ON root.thread_id=se.root_session_id
                     WHERE "@ + "se.ledger_epoch=?1"@ + " AND "@ + "se.occurred_at_ms>=?2"@
        + " AND "@ + "se.occurred_at_ms<?3"@ + asks_for_models(filter) + asks_for_projects(
        filter,
        4int + filter.models@.len(),
    ) + " GROUP BY se.skill_name
                     ORDER BY COUNT(*) DESC,se.skill_name ASC"@);
}

/// The query for sessions at fault reads what is shown of each: its error, when it was last
/// active, its title and project, how many threads it has besides its root, and by what name
/// its source knows it. It asks for those of this ledger that were active from the start of the
/// range to before its end.
pub proof fn law_sessions_at_fault_are_read_by_activity(
    filter: UsageFilter,
    epoch: i64,
    start_ms: i64,
    end_ms: i64,
    q: SqlQuery,
)
    requires
        q.deep_view() == error_query(filter.deep_view(), epoch, start_ms, end_ms),
    ensures
        q.sql@ == "SELECT q.root_session_id,q.primary_error_code,q.last_activity_at_ms,
                    root.title,root.project_name,root.project_path,
                    (SELECT COUNT(*) FROM threads child
                     WHERE child.root_session_id=q.root_session_id
                       AND child.thread_id<>q.root_session_id),
                    root.source,COALESCE(root.native_session_id,q.root_session_id)
             FROM codex_usage_session_quarantine q
             JOIN threads root ON root.thread_id=q.root_session_id
             WHERE "@ + "q.ledger_epoch=?1"@ + " AND "@ + "q.last_activity_at_ms>=?2"@ + " AND "@
            + "q.last_activity_at_ms<?3"@ + " AND "@ + "root.source='codex'"@ + asks_for_projects(
            filter,
            4,
        ) + " ORDER BY q.root_session_id"@,
        q.values@.len() == 3 + filter.project_paths@.len(),
        is_integer(q.values@[0], epoch),
        is_integer(q.values@[1], start_ms),
        is_integer(q.values@[2], end_ms),
        forall|i: int|
            #![trigger filter.project_paths@[i]]
            0 <= i < filter.project_paths@.len() ==> is_text(
                q.values@[3 + i],
                filter.project_paths@[i],
            ),
{
    let facts = filter.deep_view();
    let and = " AND "@;
    let epoch_clause = "q.ledger_epoch=?1"@;
    let from_clause = "q.last_activity_at_ms>=?2"@;
    let to_clause = "q.last_activity_at_ms<?3"@;
    let source_clause = "root.source='codex'"@;
    assert(facts.project_paths.len() == filter.project_paths@.len());
    let three = seq![epoch_clause].push(from_clause).push(to_clause);
    let always = three.push(source_clause);
    assert(always =~= seq![epoch_clause, from_clause, to_clause, source_clause]);
    lemma_strung(seq![], epoch_clause, and);
    lemma_strung(seq![epoch_clause], from_clause, and);
    lemma_strung(seq![epoch_clause].push(from_clause), to_clause, and);
    lemma_strung(three, source_clause, and);
    let projects = project_clauses(facts, 4);
    let project_clause = "("@ + strung(projects, " OR "@) + ")"@;
    lemma_strung(always, project_clause, and);
    lemma_projects(filter, 4);
    let start = epoch_clause + and + from_clause + and + to_clause + and + source_clause;
    assert(strung(always, and) =~= start);
    assert(strung(error_clauses(facts), and) =~= start + asks_for_projects(filter, 4));
    assert(q.sql@ =~= "SELECT q.root_session_id,q.primary_error_code,q.last_activity_at_ms,
                    root.title,root.project_name,root.project_path,
                    (SELECT COUNT(*) FROM threads child
                     WHERE child.root_session_id=q.root_session_id
                       AND child.thread_id<>q.root_session_id),
                    root.source,COALESCE(root.native_session_id,q.root_session_id)
             FROM codex_usage_session_quarantine q
             JOIN threads root ON root.thread_id=q.root_session_id
             WHERE "@ + "q.ledger_epoch=?1"@ + " AND "@ + "q.last_activity_at_ms>=?2"@ + " AND "@
        + "q.last_activity_at_ms<?3"@ + " AND "@ + "root.source='codex'"@ + asks_for_projects(
        filter,
        4,
    ) + " ORDER BY q.root_session_id"@);
    let values = q.values.deep_view();
    assert(values.len() == q.values@.len());
    assert forall|i: int|
        #![trigger filter.project_paths@[i]]
        0 <= i < filter.project_paths@.len() implies is_text(
        q.values@[3 + i],
        filter.project_paths@[i],
    ) by {
        assert(facts.project_paths[i] == filter.project_paths@[i]@);
        assert(values[3 + i] == SqlFacts::Text(facts.project_paths[i]));
        assert(values[3 + i] == q.values@[3 + i].deep_view());
    }
    assert(values[0] == q.values@[0].deep_view());
    assert(values[1] == q.values@[1].deep_view());
    assert(values[2] == q.values@[2].deep_view());
}

/// How often skills were in use, over all rows.
pub open spec fn uses(rows: Seq<CountFacts>) -> int
    decreases rows.len(),
{
    if rows.len() == 0 {
        0
    } else {
        uses(rows.drop_last()) + rows.last().count
    }
}

proof fn lemma_uses_insert(rows: Seq<CountFacts>, at: int, row: CountFacts)
    requires
        0 <= at <= rows.len(),
    ensures
        uses(rows.insert(at, row)) == uses(rows) + row.count,
    decreases rows.len(),
{
    let more = rows.insert(at, row);
    if at == rows.len() {
        assert(more.drop_last() =~= rows);
    } else {
        lemma_uses_insert(rows.drop_last(), at, row);
        assert(more.drop_last() =~= rows.drop_last().insert(at, row));
        assert(more.last() == rows.last());
    }
}

proof fn lemma_uses_sorted(rows: Seq<CountFacts>)
    ensures
        uses(stably_sorted(rows, by_use())) == uses(rows),
        stably_sorted(rows, by_use()).len() == rows.len(),
    decreases rows.len(),
{
    if rows.len() > 0 {
        let before = stably_sorted(rows.drop_last(), by_use());
        lemma_uses_sorted(rows.drop_last());
        lemma_stable_place(before, rows.last(), by_use());
        lemma_uses_insert(before, stable_place(before, rows.last(), by_use()), rows.last());
    }
}

proof fn lemma_sum_is_uses(rows: Seq<CountFacts>, n: nat)
    requires
        n <= rows.len(),
    ensures
        sum_of(rows, n) matches Ok(sum) ==> sum == uses(rows.take(n as int)) && sum >= 0,
        sum_of(rows, n) == Err::<i64, AggregateError>(AggregateError::InvariantViolation)
            ==> exists|i: int| 0 <= i < n && (#[trigger] rows[i]).count < 0,
        (forall|i: int| 0 <= i < n ==> (#[trigger] rows[i]).count >= 0) && uses(
            rows.take(n as int),
        ) <= i64::MAX ==> sum_of(rows, n) is Ok,
    decreases n,
{
    if n > 0 {
        lemma_sum_is_uses(rows, (n - 1) as nat);
        assert(rows.take(n as int).drop_last() =~= rows.take(n - 1));
        assert(rows.take(n as int).last() == rows[n - 1]);
    }
}

/// The total of a day is how often skills were in use on it, over all rows that the ledger gave,
/// in whatever order; a day whose counts are sound and fit has one.
pub proof fn law_the_total_of_a_day_is_the_sum(counted: CountedDay, day: SkillDayUsage)
    ensures
        counted.shown_as(day) ==> day.total == uses(counted.rows.deep_view()),
        (forall|i: int| 0 <= i < counted.rows@.len() ==> (#[trigger] counted.rows@[i]).count >= 0)
            && uses(counted.rows.deep_view()) <= 0x7fff_ffff_ffff_ffff ==> counted.fault() is None,
{
    let rows = counted.rows.deep_view();
    let sorted = stably_sorted(rows, by_use());
    lemma_uses_sorted(rows);
    lemma_sum_is_uses(sorted, sorted.len());
    assert(sorted.take(sorted.len() as int) =~= sorted);
    crate::order::lemma_stably_sorted_keeps(rows, by_use());
    if forall|i: int| 0 <= i < counted.rows@.len() ==> (#[trigger] counted.rows@[i]).count >= 0 {
        assert forall|i: int| 0 <= i < sorted.len() implies (#[trigger] sorted[i]).count >= 0 by {
            assert(sorted.contains(sorted[i]));
            assert(rows.contains(sorted[i]));
            let k = choose|k: int| 0 <= k < rows.len() && rows[k] == sorted[i];
            assert(rows[k] == counted.rows@[k].deep_view());
        }
    }
}

} // verus!
