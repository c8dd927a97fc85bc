//! What is asked of the ledger for sessions at fault and for skills in use, and what the
//! answers come to.
use vstd::prelude::*;
use vstd::string::*;

use crate::order::{compare_i64, compare_texts, Rank};
#[allow(unused_imports)]
use crate::order::{
    int_rank, lemma_stably_sorted_keeps, lemma_stably_sorted_orders, lemma_text_reversed,
    lemma_texts_pass_on, stable_place, stably_sorted, text_rank,
};
use crate::text::{contains_text, unsigned_decimal};
#[allow(unused_imports)]
use crate::text::{int_text, lowered, occurs};

verus! {

/// The first parser that notes skills.
pub const SKILL_USAGE_PARSER_VERSION: i64 = 11;

#[derive(Clone, Copy, Debug, PartialEq, Eq, Structural)]
pub enum DistributionCostStatus {
    Complete,
    Partial,
    Unknown,
}

impl DistributionCostStatus {
    pub open spec fn name(self) -> Seq<char> {
        match self {
            DistributionCostStatus::Complete => "complete"@,
            DistributionCostStatus::Partial => "partial"@,
            DistributionCostStatus::Unknown => "unknown"@,
        }
    }

    pub fn as_str(self) -> (r: &'static str)
        ensures
            r@ == self.name(),
    {
        match self {
            DistributionCostStatus::Complete => "complete",
            DistributionCostStatus::Partial => "partial",
            DistributionCostStatus::Unknown => "unknown",
        }
    }
}

/// Why an answer cannot be given.
#[derive(Clone, Copy, Debug, PartialEq, Eq, Structural)]
pub enum AggregateError {
    InvariantViolation,
    ArithmeticOverflow,
    QueryFailed,
}

/// What is asked for: an empty list asks for all.
#[derive(Clone, Debug, PartialEq, Eq)]
pub struct UsageFilter {
    pub sources: Vec<String>,
    pub models: Vec<String>,
    pub project_paths: Vec<String>,
    pub include_projectless: bool,
    pub include_unknown_project: bool,
}

#[verifier::ext_equal]
pub struct FilterFacts {
    pub sources: Seq<Seq<char>>,
    pub models: Seq<Seq<char>>,
    pub project_paths: Seq<Seq<char>>,
    pub include_projectless: bool,
    pub include_unknown_project: bool,
}

impl DeepView for UsageFilter {
    type V = FilterFacts;

    open spec fn deep_view(&self) -> FilterFacts {
        FilterFacts {
            sources: self.sources.deep_view(),
            models: self.models.deep_view(),
            project_paths: self.project_paths.deep_view(),
            include_projectless: self.include_projectless,
            include_unknown_project: self.include_unknown_project,
        }
    }
}

/// A value bound to a query.
#[derive(Clone, Debug, PartialEq, Eq)]
pub enum SqlValue {
    Integer(i64),
    Text(String),
}

pub enum SqlFacts {
    Integer(i64),
    Text(Seq<char>),
}

impl DeepView for SqlValue {
    type V = SqlFacts;

    open spec fn deep_view(&self) -> SqlFacts {
        match self {
            SqlValue::Integer(value) => SqlFacts::Integer(*value),
            SqlValue::Text(value) => SqlFacts::Text(value@),
        }
    }
}

/// A query with its values, in the order of their numbers.
#[derive(Clone, Debug, PartialEq, Eq)]
pub struct SqlQuery {
    pub sql: String,
    pub values: Vec<SqlValue>,
}

#[verifier::ext_equal]
pub struct QueryFacts {
    pub sql: Seq<char>,
    pub values: Seq<SqlFacts>,
}

impl DeepView for SqlQuery {
    type V = QueryFacts;

    open spec fn deep_view(&self) -> QueryFacts {
        QueryFacts { sql: self.sql@, values: self.values.deep_view() }
    }
}

/// Whether Codex is among the sources that are asked for.
pub open spec fn codex_included(sources: Seq<Seq<char>>) -> bool {
    sources.len() == 0 || sources.contains("codex"@)
}

pub fn includes_codex(filter: &UsageFilter) -> (r: bool)
    ensures
        r == codex_included(filter.deep_view().sources),
{
    let ghost all = filter.deep_view().sources;
    if filter.sources.len() == 0 {
        return true;
    }
    let codex: String = "codex".to_owned();
    let mut i: usize = 0;
    while i < filter.sources.len()
        invariant
            i <= filter.sources.len(),
            all == filter.deep_view().sources,
            all.len() == filter.sources.len(),
            codex@ == "codex"@,
            forall|j: int| 0 <= j < i ==> #[trigger] all[j] != "codex"@,
        decreases filter.sources.len() - i,
    {
        if filter.sources[i] == codex {
            assert(all[i as int] == "codex"@);
            return true;
        }
        i = i + 1;
    }
    false
}

/// The numbers of `n` values from `first` on: `?4,?5`.
pub open spec fn placeholders(first: int, n: nat) -> Seq<char>
    decreases n,
{
    if n == 0 {
        Seq::empty()
    } else if n == 1 {
        "?"@ + int_text(first)
    } else {
        placeholders(first, (n - 1) as nat) + ","@ + "?"@ + int_text(first + n - 1)
    }
}

fn numbered(first: u64, n: usize) -> (r: String)
    requires
        first + n <= u64::MAX,
    ensures
        r@ == placeholders(first as int, n as nat),
{
    let mut out: String = String::new();
    let mut i: usize = 0;
    assert(out@ =~= placeholders(first as int, 0));
    while i < n
        invariant
            i <= n,
            first + n <= u64::MAX,
            out@ == placeholders(first as int, i as nat),
        decreases n - i,
    {
        let ghost before = out@;
        if i > 0 {
            out.append(",");
        }
        out.append("?");
        let number: String = unsigned_decimal(first + i as u64);
        out.append(number.as_str());
        proof {
            if i == 0 {
                assert(out@ =~= "?"@ + int_text(first as int));
            } else {
                assert(out@ =~= before + ","@ + "?"@ + int_text(first + i));
            }
        }
        i = i + 1;
    }
    out
}

/// The texts one after another, with `between` between them.
pub open spec fn strung(parts: Seq<Seq<char>>, between: Seq<char>) -> Seq<char>
    decreases parts.len(),
{
    if parts.len() == 0 {
        Seq::empty()
    } else if parts.len() == 1 {
        parts[0]
    } else {
        strung(parts.drop_last(), between) + between + parts.last()
    }
}

fn string_together(parts: &Vec<String>, between: &str) -> (r: String)
    ensures
        r@ == strung(parts.deep_view(), between@),
{
    let ghost all = parts.deep_view();
    let mut out: String = String::new();
    let mut i: usize = 0;
    assert(out@ =~= strung(all.take(0), between@));
    while i < parts.len()
        invariant
            i <= parts.len(),
            all == parts.deep_view(),
            out@ == strung(all.take(i as int), between@),
        decreases parts.len() - i,
    {
        let ghost before = out@;
        if i > 0 {
            out.append(between);
        }
        out.append(parts[i].as_str());
        proof {
            assert(all.take(i + 1).drop_last() =~= all.take(i as int));
            assert(all.take(i + 1).last() == parts@[i as int]@);
            if i == 0 {
                assert(out@ =~= parts@[0]@);
            } else {
                assert(out@ =~= before + between@ + parts@[i as int]@);
            }
        }
        i = i + 1;
    }
    assert(all.take(i as int) =~= all);
    out
}

pub open spec fn text_values(texts: Seq<Seq<char>>) -> Seq<SqlFacts> {
    Seq::new(texts.len(), |i: int| SqlFacts::Text(texts[i]))
}

fn push_text_values(values: &mut Vec<SqlValue>, texts: &Vec<String>)
    ensures
        final(values).deep_view() == old(values).deep_view() + text_values(texts.deep_view()),
{
    let ghost before = values.deep_view();
    let ghost all = texts.deep_view();
    let mut i: usize = 0;
    assert(values.deep_view() =~= before + text_values(all.take(0)));
    while i < texts.len()
        invariant
            i <= texts.len(),
            all == texts.deep_view(),
            values.deep_view() == before + text_values(all.take(i as int)),
        decreases texts.len() - i,
    {
        let ghost so_far = values.deep_view();
        values.push(SqlValue::Text(texts[i].clone()));
        assert(values.deep_view() =~= so_far.push(SqlFacts::Text(all[i as int])));
        assert(values.deep_view() =~= before + text_values(all.take(i + 1)));
        i = i + 1;
    }
    assert(all.take(i as int) =~= all);
}

fn bracketed(before: &str, inner: &str, after: &str) -> (r: String)
    ensures
        r@ == before@ + inner@ + after@,
{
    let mut out: String = before.to_owned();
    out.append(inner);
    out.append(after);
    out
}

fn push_clause(clauses: &mut Vec<String>, clause: String)
    ensures
        final(clauses).deep_view() == old(clauses).deep_view().push(clause@),
{
    let ghost before = clauses.deep_view();
    clauses.push(clause);
    assert(clauses.deep_view() =~= before.push(clause@));
}

/// The projects that are asked for by path.
pub open spec fn path_clause(first: int, paths: Seq<Seq<char>>) -> Seq<char> {
    "(root.project_kind='project' AND root.project_path IN ("@ + placeholders(first, paths.len())
        + "))"@
}

/// The sessions without a project that are asked for.
pub open spec fn kind_clauses(filter: FilterFacts) -> Seq<Seq<char>> {
    let projectless = if filter.include_projectless {
        seq!["root.project_kind='projectless'"@]
    } else {
        Seq::empty()
    };
    if filter.include_unknown_project {
        projectless.push("root.project_kind='unknown'"@)
    } else {
        projectless
    }
}

fn push_kind_clauses(clauses: &mut Vec<String>, filter: &UsageFilter)
    ensures
        final(clauses).deep_view() == old(clauses).deep_view() + kind_clauses(filter.deep_view()),
{
    let ghost before = clauses.deep_view();
    if filter.include_projectless {
        push_clause(clauses, "root.project_kind='projectless'".to_owned());
    }
    if filter.include_unknown_project {
        push_clause(clauses, "root.project_kind='unknown'".to_owned());
    }
    assert(clauses.deep_view() =~= before + kind_clauses(filter.deep_view()));
}

/// The projects that are asked for, by path or for want of one.
pub open spec fn project_clauses(filter: FilterFacts, first: int) -> Seq<Seq<char>> {
    if filter.project_paths.len() > 0 {
        seq![path_clause(first, filter.project_paths)] + kind_clauses(filter)
    } else {
        kind_clauses(filter)
    }
}

fn projects_of(filter: &UsageFilter, first: u64) -> (projects: Vec<String>)
    requires
        first + filter.project_paths@.len() <= u64::MAX,
    ensures
        projects.deep_view() == project_clauses(filter.deep_view(), first as int),
{
    let mut projects: Vec<String> = Vec::new();
    assert(projects.deep_view() =~= Seq::<Seq<char>>::empty());
    if filter.project_paths.len() > 0 {
        let numbers: String = numbered(first, filter.project_paths.len());
        push_clause(
            &mut projects,
            bracketed(
                "(root.project_kind='project' AND root.project_path IN (",
                numbers.as_str(),
                "))",
            ),
        );
    }
    push_kind_clauses(&mut projects, filter);
    assert(projects.deep_view() =~= project_clauses(filter.deep_view(), first as int));
    projects
}

pub open spec fn error_clauses(filter: FilterFacts) -> Seq<Seq<char>> {
    let always = seq![
        "q.ledger_epoch=?1"@,
        "q.last_activity_at_ms>=?2"@,
        "q.last_activity_at_ms<?3"@,
        "root.source='codex'"@,
    ];
    let projects = project_clauses(filter, 4);
    if projects.len() > 0 {
        always.push("("@ + strung(projects, " OR "@) + ")"@)
    } else {
        always
    }
}

/// What is read of a session at fault.
pub open spec fn error_query(filter: FilterFacts, epoch: i64, start_ms: i64, end_ms: i64) -> QueryFacts {
    QueryFacts {
        sql: "SELECT q.root_session_id,q.primary_error_code,q.last_activity_at_ms,
                    root.title,root.project_name,root.project_path,
                    (SELECT COUNT(*) FROM threads child
                     WHERE child.root_session_id=q.root_session_id
                       AND child.thread_id<>q.root_session_id),
                    root.source,COALESCE(root.native_session_id,q.root_session_id)
             FROM codex_usage_session_quarantine q
             JOIN threads root ON root.thread_id=q.root_session_id
             WHERE "@ + strung(error_clauses(filter), " AND "@) + " ORDER BY q.root_session_id"@,
        values: seq![
            SqlFacts::Integer(epoch),
            SqlFacts::Integer(start_ms),
            SqlFacts::Integer(end_ms),
        ] + text_values(filter.project_paths),
    }
}

/// Sessions at fault have no model, so a filter by model finds none; nor does one that leaves
/// Codex out.
pub open spec fn may_have_errors(filter: FilterFacts) -> bool {
    filter.models.len() == 0 && codex_included(filter.sources)
}

/// Whether sessions at fault are worth asking for.
pub fn may_have_error_roots(filter: &UsageFilter) -> (r: bool)
    ensures
        r == may_have_errors(filter.deep_view()),
{
    filter.models.len() == 0 && includes_codex(filter)
}

/// The query for the sessions at fault: none before there is a ledger.
pub fn error_roots_query(filter: &UsageFilter, epoch: i64, start_ms: i64, end_ms: i64) -> (r: Option<
    SqlQuery,
>)
    requires
        filter.project_paths@.len() + 4 <= u64::MAX,
    ensures
        r is Some <==> may_have_errors(filter.deep_view()) && epoch > 0,
        r matches Some(query) ==> query.deep_view() == error_query(
            filter.deep_view(),
            epoch,
            start_ms,
            end_ms,
        ),
{
    if !may_have_error_roots(filter) || epoch <= 0 {
        return None;
    }
    let ghost facts = filter.deep_view();
    let mut clauses: Vec<String> = Vec::new();
    push_clause(&mut clauses, "q.ledger_epoch=?1".to_owned());
    push_clause(&mut clauses, "q.last_activity_at_ms>=?2".to_owned());
    push_clause(&mut clauses, "q.last_activity_at_ms<?3".to_owned());
    push_clause(&mut clauses, "root.source='codex'".to_owned());
    assert(clauses.deep_view() =~= seq![
        "q.ledger_epoch=?1"@,
        "q.last_activity_at_ms>=?2"@,
        "q.last_activity_at_ms<?3"@,
        "root.source='codex'"@,
    ]);
    let mut values: Vec<SqlValue> = Vec::new();
    values.push(SqlValue::Integer(epoch));
    values.push(SqlValue::Integer(start_ms));
    values.push(SqlValue::Integer(end_ms));
    assert(values.deep_view() =~= seq![
        SqlFacts::Integer(epoch),
        SqlFacts::Integer(start_ms),
        SqlFacts::Integer(end_ms),
    ]);
    push_text_values(&mut values, &filter.project_paths);
    let projects: Vec<String> = projects_of(filter, 4);
    if projects.len() > 0 {
        let either: String = string_together(&projects, " OR ");
        push_clause(&mut clauses, bracketed("(", either.as_str(), ")"));
    }
    assert(clauses.deep_view() =~= error_clauses(facts));
    let conditions: String = string_together(&clauses, " AND ");
    let sql: String = bracketed(
        "SELECT q.root_session_id,q.primary_error_code,q.last_activity_at_ms,
                    root.title,root.project_name,root.project_path,
                    (SELECT COUNT(*) FROM threads child
                     WHERE child.root_session_id=q.root_session_id
                       AND child.thread_id<>q.root_session_id),
                    root.source,COALESCE(root.native_session_id,q.root_session_id)
             FROM codex_usage_session_quarantine q
             JOIN threads root ON root.thread_id=q.root_session_id
             WHERE ",
        conditions.as_str(),
        " ORDER BY q.root_session_id",
    );
    Some(SqlQuery { sql, values })
}

pub open spec fn skill_clauses(filter: FilterFacts) -> Seq<Seq<char>> {
    let always = seq![
        "se.ledger_epoch=?1"@,
        "se.occurred_at_ms>=?2"@,
        "se.occurred_at_ms<?3"@,
    ];
    let with_models = if filter.models.len() > 0 {
        always.push("se.model IN ("@ + placeholders(4, filter.models.len()) + ")"@)
    } else {
        always
    };
    let projects = project_clauses(filter, 4int + filter.models.len());
    if projects.len() > 0 {
        with_models.push("("@ + strung(projects, " OR "@) + ")"@)
    } else {
        with_models
    }
}

/// How often each skill was in use.
pub open spec fn skill_query(filter: FilterFacts, epoch: i64, start_ms: i64, end_ms: i64) -> QueryFacts {
    QueryFacts {
        sql: "SELECT se.skill_name,COUNT(*)
                     FROM codex_skill_usage_events se
                     LEFT JOIN threads root ON root.thread_id=se.root_session_id
                     WHERE "@ + strung(skill_clauses(filter), " AND "@) + " GROUP BY se.skill_name
                     ORDER BY COUNT(*) DESC,se.skill_name ASC"@,
        values: seq![
            SqlFacts::Integer(epoch),
            SqlFacts::Integer(start_ms),
            SqlFacts::Integer(end_ms),
        ] + text_values(filter.models) + text_values(filter.project_paths),
    }
}

/// The query for the skills in use on one day: none unless Codex is asked for and its ledger
/// notes skills.
pub fn skills_query(filter: &UsageFilter, ready: bool, epoch: i64, start_ms: i64, end_ms: i64) -> (r:
    Option<SqlQuery>)
    requires
        filter.models@.len() + filter.project_paths@.len() + 4 <= u64::MAX,
    ensures
        r is Some <==> ready && codex_included(filter.deep_view().sources),
        r matches Some(query) ==> query.deep_view() == skill_query(
            filter.deep_view(),
            epoch,
            start_ms,
            end_ms,
        ),
{
    if !ready || !includes_codex(filter) {
        return None;
    }
    let ghost facts = filter.deep_view();
    let mut clauses: Vec<String> = Vec::new();
    push_clause(&mut clauses, "se.ledger_epoch=?1".to_owned());
    push_clause(&mut clauses, "se.occurred_at_ms>=?2".to_owned());
    push_clause(&mut clauses, "se.occurred_at_ms<?3".to_owned());
    assert(clauses.deep_view() =~= seq![
        "se.ledger_epoch=?1"@,
        "se.occurred_at_ms>=?2"@,
        "se.occurred_at_ms<?3"@,
    ]);
    let mut values: Vec<SqlValue> = Vec::new();
    values.push(SqlValue::Integer(epoch));
    values.push(SqlValue::Integer(start_ms));
    values.push(SqlValue::Integer(end_ms));
    assert(values.deep_view() =~= seq![
        SqlFacts::Integer(epoch),
        SqlFacts::Integer(start_ms),
        SqlFacts::Integer(end_ms),
    ]);
    if filter.models.len() > 0 {
        let numbers: String = numbered(4, filter.models.len());
        push_clause(&mut clauses, bracketed("se.model IN (", numbers.as_str(), ")"));
    }
    push_text_values(&mut values, &filter.models);
    push_text_values(&mut values, &filter.project_paths);
    let projects: Vec<String> = projects_of(filter, 4 + filter.models.len() as u64);
    if projects.len() > 0 {
        let either: String = string_together(&projects, " OR ");
        push_clause(&mut clauses, bracketed("(", either.as_str(), ")"));
    }
    assert(clauses.deep_view() =~= skill_clauses(facts));
    let conditions: String = string_together(&clauses, " AND ");
    let sql: String = bracketed(
        "SELECT se.skill_name,COUNT(*)
                     FROM codex_skill_usage_events se
                     LEFT JOIN threads root ON root.thread_id=se.root_session_id
                     WHERE ",
        conditions.as_str(),
        " GROUP BY se.skill_name
                     ORDER BY COUNT(*) DESC,se.skill_name ASC",
    );
    Some(SqlQuery { sql, values })
}

/// Whether the ledger notes skills, by its revision, its epoch and the parser that wrote it.
pub fn skills_ready(data_revision: i64, active_epoch: i64, active_parser: i64) -> (r: Result<
    bool,
    &'static str,
>)
    ensures
        r is Err <==> data_revision < 0 || active_epoch < 0 || active_parser < 0,
        r matches Ok(ready) ==> ready == (active_epoch > 0 && active_parser
            >= SKILL_USAGE_PARSER_VERSION),
        r matches Err(error) ==> error@ == "invalid analytics snapshot metadata"@,
{
    if data_revision < 0 || active_epoch < 0 || active_parser < 0 {
        return Err("invalid analytics snapshot metadata");
    }
    Ok(active_epoch > 0 && active_parser >= SKILL_USAGE_PARSER_VERSION)
}

#[derive(Clone, Debug, PartialEq, Eq)]
pub struct SkillCount {
    pub skill_name: String,
    pub count: i64,
}

#[verifier::ext_equal]
pub struct CountFacts {
    pub skill_name: Seq<char>,
    pub count: i64,
}

impl DeepView for SkillCount {
    type V = CountFacts;

    open spec fn deep_view(&self) -> CountFacts {
        CountFacts { skill_name: self.skill_name@, count: self.count }
    }
}

/// The skills of one day.
#[derive(Clone, Debug, PartialEq, Eq)]
pub struct SkillDayUsage {
    pub date: String,
    pub start_ms: i64,
    pub end_ms: i64,
    pub total: i64,
    pub skills: Vec<SkillCount>,
}

#[derive(Clone, Debug, PartialEq, Eq)]
pub struct SkillsUsage {
    pub ready: bool,
    pub days: Vec<SkillDayUsage>,
}

/// The most used skill first; of equals, by name.
pub open spec fn skill_rank(a: CountFacts, b: CountFacts) -> Rank {
    int_rank(b.count as int, a.count as int).or(text_rank(a.skill_name, b.skill_name))
}

pub open spec fn by_use() -> spec_fn(CountFacts, CountFacts) -> Rank {
    |a: CountFacts, b: CountFacts| skill_rank(a, b)
}

fn compare_skills(a: &SkillCount, b: &SkillCount) -> (r: Rank)
    ensures
        r == skill_rank(a.deep_view(), b.deep_view()),
{
    compare_i64(b.count, a.count).or_else(
        compare_texts(a.skill_name.as_str(), b.skill_name.as_str()),
    )
}

fn backwards(rows: Vec<SkillCount>) -> (r: Vec<SkillCount>)
    ensures
        r@ == rows@.reverse(),
{
    let ghost all = rows@;
    let mut rows: Vec<SkillCount> = rows;
    let mut r: Vec<SkillCount> = Vec::new();
    while rows.len() > 0
        invariant
            rows@.len() + r@.len() == all.len(),
            rows@ == all.take(rows@.len() as int),
            forall|i: int| 0 <= i < r@.len() ==> #[trigger] r@[i] == all[all.len() - 1 - i],
        decreases rows.len(),
    {
        let ghost n = rows@.len();
        if let Some(row) = rows.pop() {
            assert(row == all[n - 1]);
            r.push(row);
            assert(rows@ =~= all.take(n - 1));
        }
    }
    assert(r@ =~= all.reverse());
    r
}

fn sort_skills(rows: Vec<SkillCount>) -> (r: Vec<SkillCount>)
    ensures
        r.deep_view() == stably_sorted(rows.deep_view(), by_use()),
{
    let ghost all = rows.deep_view();
    let ghost n = all.len();
    let mut rest: Vec<SkillCount> = backwards(rows);
    let mut sorted: Vec<SkillCount> = Vec::new();
    assert(all.take(0) =~= Seq::<CountFacts>::empty());
    assert(sorted.deep_view() =~= stably_sorted(all.take(0), by_use()));
    while rest.len() > 0
        invariant
            n == all.len(),
            rest@.len() + sorted@.len() == n,
            forall|k: int|
                0 <= k < rest@.len() ==> (#[trigger] rest@[k]).deep_view() == all[n - 1 - k],
            sorted.deep_view() == stably_sorted(all.take(sorted@.len() as int), by_use()),
        decreases rest.len(),
    {
        let ghost i = sorted@.len() as int;
        let ghost before = sorted.deep_view();
        if let Some(row) = rest.pop() {
            let ghost facts = row.deep_view();
            proof {
                assert(facts == all[i]);
                assert(all.take(i + 1).drop_last() =~= all.take(i));
                assert(all.take(i + 1).last() == facts);
            }
            let mut at: usize = sorted.len();
            assert(before.take(at as int) =~= before);
            while at > 0 && compare_skills(&sorted[at - 1], &row) == Rank::After
                invariant
                    at <= sorted.len(),
                    before == sorted.deep_view(),
                    facts == row.deep_view(),
                    stable_place(before, facts, by_use()) == stable_place(
                        before.take(at as int),
                        facts,
                        by_use(),
                    ),
                decreases at,
            {
                assert(before.take(at as int).last() == before[at - 1]);
                assert(before.take(at as int).drop_last() =~= before.take(at - 1));
                at = at - 1;
            }
            proof {
                if at > 0 {
                    assert(before.take(at as int).last() == before[at - 1]);
                }
            }
            sorted.insert(at, row);
            assert(sorted.deep_view() =~= before.insert(at as int, facts));
        }
    }
    assert(all.take(n as int) =~= all);
    sorted
}

/// The sum of the first `n` counts, or the first reason for which there is none.
pub open spec fn sum_of(rows: Seq<CountFacts>, n: nat) -> Result<i64, AggregateError>
    decreases n,
{
    if n == 0 {
        Ok(0)
    } else {
        match sum_of(rows, (n - 1) as nat) {
            Err(error) => Err(error),
            Ok(sum) => if rows[n - 1].count < 0 {
                Err(AggregateError::InvariantViolation)
            } else if sum + rows[n - 1].count > i64::MAX {
                Err(AggregateError::ArithmeticOverflow)
            } else {
                Ok((sum + rows[n - 1].count) as i64)
            },
        }
    }
}

proof fn lemma_sum_error_stays(rows: Seq<CountFacts>, k: nat, n: nat)
    requires
        k <= n,
        sum_of(rows, k) is Err,
    ensures
        sum_of(rows, n) == sum_of(rows, k),
    decreases n,
{
    if k < n {
        lemma_sum_error_stays(rows, k, (n - 1) as nat);
    }
}

fn total_of(rows: &Vec<SkillCount>) -> (r: Result<i64, AggregateError>)
    ensures
        r == sum_of(rows.deep_view(), rows@.len()),
{
    let ghost all = rows.deep_view();
    let mut sum: i64 = 0;
    let mut i: usize = 0;
    while i < rows.len()
        invariant
            i <= rows.len(),
            all == rows.deep_view(),
            sum_of(all, i as nat) == Ok::<i64, AggregateError>(sum),
            0 <= sum,
        decreases rows.len() - i,
    {
        assert(all[i as int].count == rows@[i as int].count);
        if rows[i].count < 0 {
            proof {
                lemma_sum_error_stays(all, (i + 1) as nat, all.len());
            }
            return Err(AggregateError::InvariantViolation);
        }
        match sum.checked_add(rows[i].count) {
            Some(next) => {
                sum = next;
            },
            None => {
                proof {
                    lemma_sum_error_stays(all, (i + 1) as nat, all.len());
                }
                return Err(AggregateError::ArithmeticOverflow);
            },
        }
        i = i + 1;
    }
    Ok(sum)
}

/// The skills of a day in order, with their sum.
pub fn skill_day(date: String, start_ms: i64, end_ms: i64, rows: Vec<SkillCount>) -> (r: Result<
    SkillDayUsage,
    AggregateError,
>)
    ensures
        ({
            let sorted = stably_sorted(rows.deep_view(), by_use());
            match sum_of(sorted, sorted.len()) {
                Err(error) => r == Err::<SkillDayUsage, AggregateError>(error),
                Ok(sum) => r matches Ok(day) && day.date == date && day.start_ms == start_ms
                    && day.end_ms == end_ms && day.total == sum && day.skills.deep_view() == sorted,
            }
        }),
{
    let skills: Vec<SkillCount> = sort_skills(rows);
    let total: i64 = total_of(&skills)?;
    Ok(SkillDayUsage { date, start_ms, end_ms, total, skills })
}

/// A day, with what the ledger counted of it.
#[derive(Clone, Debug, PartialEq, Eq)]
pub struct CountedDay {
    pub date: String,
    pub start_ms: i64,
    pub end_ms: i64,
    pub rows: Vec<SkillCount>,
}

impl CountedDay {
    /// Why there is no total of the day.
    pub open spec fn fault(self) -> Option<AggregateError> {
        let sorted = stably_sorted(self.rows.deep_view(), by_use());
        match sum_of(sorted, sorted.len()) {
            Err(error) => Some(error),
            Ok(_) => None,
        }
    }

    /// The day as it is shown.
    pub open spec fn shown_as(self, day: SkillDayUsage) -> bool {
        let sorted = stably_sorted(self.rows.deep_view(), by_use());
        &&& day.date == self.date
        &&& day.start_ms == self.start_ms
        &&& day.end_ms == self.end_ms
        &&& sum_of(sorted, sorted.len()) == Ok::<i64, AggregateError>(day.total)
        &&& day.skills.deep_view() == sorted
    }
}

/// The first reason for which one of the days cannot be shown.
pub open spec fn days_fault(days: Seq<CountedDay>) -> Option<AggregateError>
    decreases days.len(),
{
    if days.len() == 0 {
        None
    } else {
        match days_fault(days.drop_last()) {
            Some(error) => Some(error),
            None => days.last().fault(),
        }
    }
}

proof fn lemma_days_fault_stays(days: Seq<CountedDay>, n: int)
    requires
        0 <= n <= days.len(),
        days_fault(days.take(n)) is Some,
    ensures
        days_fault(days) == days_fault(days.take(n)),
    decreases days.len() - n,
{
    if n < days.len() {
        assert(days.take(n + 1).drop_last() =~= days.take(n));
        lemma_days_fault_stays(days, n + 1);
    } else {
        assert(days.take(n) =~= days);
    }
}

/// The skills in use over some days: all of them, or the first fault.
pub fn skills_usage(ready: bool, days: Vec<CountedDay>) -> (r: Result<SkillsUsage, AggregateError>)
    ensures
        match days_fault(days@) {
            Some(error) => r == Err::<SkillsUsage, AggregateError>(error),
            None => r matches Ok(usage) && usage.ready == ready && usage.days@.len()
                == days@.len() && forall|i: int|
                0 <= i < days@.len() ==> days@[i].shown_as(#[trigger] usage.days@[i]),
        },
{
    let ghost all = days@;
    let mut shown: Vec<SkillDayUsage> = Vec::new();
    let mut i: usize = 0;
    assert(all.take(0) =~= Seq::<CountedDay>::empty());
    while i < days.len()
        invariant
            i <= days.len(),
            all == days@,
            days_fault(all.take(i as int)) is None,
            shown@.len() == i,
            forall|k: int| 0 <= k < i ==> all[k].shown_as(#[trigger] shown@[k]),
        decreases days.len() - i,
    {
        let day: &CountedDay = &days[i];
        let mut rows: Vec<SkillCount> = Vec::new();
        let mut j: usize = 0;
        while j < day.rows.len()
            invariant
                j <= day.rows.len(),
                rows.deep_view() == day.rows.deep_view().take(j as int),
            decreases day.rows.len() - j,
        {
            let ghost before = rows.deep_view();
            let row: &SkillCount = &day.rows[j];
            rows.push(SkillCount { skill_name: row.skill_name.clone(), count: row.count });
            assert(rows.deep_view() =~= before.push(row.deep_view()));
            assert(rows.deep_view() =~= day.rows.deep_view().take(j + 1));
            j = j + 1;
        }
        assert(rows.deep_view() =~= day.rows.deep_view());
        proof {
            assert(all.take(i + 1).drop_last() =~= all.take(i as int));
            assert(all.take(i + 1).last() == all[i as int]);
        }
        match skill_day(day.date.clone(), day.start_ms, day.end_ms, rows) {
            Ok(usage) => {
                shown.push(usage);
            },
            Err(error) => {
                proof {
                    lemma_days_fault_stays(all, i + 1);
                }
                return Err(error);
            },
        }
        i = i + 1;
    }
    assert(all.take(all.len() as int) =~= all);
    Ok(SkillsUsage { ready, days: shown })
}

/// What a failed query comes to, by what the database says.
pub fn sql_failure(message: &Option<String>) -> (r: AggregateError)
    ensures
        r == match message {
            Some(message) => if occurs(lowered(message@), "integer overflow"@) {
                AggregateError::ArithmeticOverflow
            } else {
                AggregateError::QueryFailed
            },
            None => AggregateError::QueryFailed,
        },
{
    match message {
        Some(message) => {
            let lower: String = message.as_str().to_ascii_lowercase();
            if contains_text(lower.as_str(), "integer overflow") {
                AggregateError::ArithmeticOverflow
            } else {
                AggregateError::QueryFailed
            }
        },
        None => AggregateError::QueryFailed,
    }
}

/// The values of a query stand in the order of their numbers: the ledger and the range, the
/// models, the projects.
pub proof fn law_values_stand_in_order(filter: FilterFacts, epoch: i64, start_ms: i64, end_ms: i64)
    ensures
        error_query(filter, epoch, start_ms, end_ms).values.len() == 3
            + filter.project_paths.len(),
        skill_query(filter, epoch, start_ms, end_ms).values.len() == 3 + filter.models.len()
            + filter.project_paths.len(),
        forall|i: int|
            0 <= i < filter.project_paths.len() ==> error_query(
                filter,
                epoch,
                start_ms,
                end_ms,
            ).values[3 + i] == SqlFacts::Text(#[trigger] filter.project_paths[i]),
        forall|i: int|
            0 <= i < filter.models.len() ==> skill_query(filter, epoch, start_ms, end_ms).values[3
                + i] == SqlFacts::Text(#[trigger] filter.models[i]),
        forall|i: int|
            0 <= i < filter.project_paths.len() ==> skill_query(
                filter,
                epoch,
                start_ms,
                end_ms,
            ).values[3 + filter.models.len() + i] == SqlFacts::Text(
                #[trigger] filter.project_paths[i],
            ),
{
}

/// A day has a total only if no count is negative, and then no count exceeds it.
pub proof fn law_totals_cover_the_counts(rows: Seq<CountFacts>, n: nat, i: int)
    requires
        n <= rows.len(),
        sum_of(rows, n) is Ok,
        0 <= i < n,
    ensures
        0 <= rows[i].count <= sum_of(rows, n)->Ok_0,
    decreases n,
{
    lemma_sum_not_negative(rows, (n - 1) as nat);
    if i < n - 1 {
        law_totals_cover_the_counts(rows, (n - 1) as nat, i);
    }
}

proof fn lemma_sum_not_negative(rows: Seq<CountFacts>, n: nat)
    ensures
        sum_of(rows, n) matches Ok(sum) ==> sum >= 0,
    decreases n,
{
    if n > 0 {
        lemma_sum_not_negative(rows, (n - 1) as nat);
    }
}

/// Ordering the skills of a day neither loses nor adds one.
pub proof fn law_ordering_keeps_the_skills(rows: Seq<CountFacts>, row: CountFacts)
    ensures
        stably_sorted(rows, by_use()).len() == rows.len(),
        stably_sorted(rows, by_use()).contains(row) <==> rows.contains(row),
{
    lemma_stably_sorted_keeps(rows, by_use());
}

/// The skills of a day are in order: the most used first, and of equals by name.
pub proof fn law_skills_are_in_order(rows: Seq<CountFacts>, i: int, j: int)
    requires
        0 <= i < j < stably_sorted(rows, by_use()).len(),
    ensures
        ({
            let sorted = stably_sorted(rows, by_use());
            sorted[i].count > sorted[j].count || (sorted[i].count == sorted[j].count && !(text_rank(
                sorted[i].skill_name,
                sorted[j].skill_name,
            ) is After))
        }),
{
    let rank = by_use();
    assert forall|a: CountFacts, b: CountFacts| #[trigger] rank(a, b) is After implies !(rank(b, a)
        is After) by {
        lemma_text_reversed(a.skill_name, b.skill_name);
    }
    assert forall|a: CountFacts, b: CountFacts, c: CountFacts|
        #![trigger rank(a, b), rank(b, c)]
        !(rank(a, b) is After) && !(rank(b, c) is After) implies !(rank(a, c) is After) by {
        if a.count == b.count && b.count == c.count {
            lemma_texts_pass_on(a.skill_name, b.skill_name, c.skill_name);
        }
    }
    lemma_stably_sorted_orders(rows, rank);
    let sorted = stably_sorted(rows, rank);
    assert(!(rank(sorted[i], sorted[j]) is After));
}

} // verus!
