use rusqlite::types::Value;
use rusqlite::{params_from_iter, Connection};

use codex_usage::analytics::{
    error_roots_query, may_have_error_roots, skill_day, skills_query, skills_ready, skills_usage,
    sql_failure, AggregateError, CountedDay, DistributionCostStatus, SkillCount, SqlValue,
    UsageFilter, SKILL_USAGE_PARSER_VERSION,
};

fn everything() -> UsageFilter {
    UsageFilter {
        sources: Vec::new(),
        models: Vec::new(),
        project_paths: Vec::new(),
        include_projectless: false,
        include_unknown_project: false,
    }
}

fn of_sources(sources: &[&str]) -> UsageFilter {
    UsageFilter {
        sources: sources.iter().map(|source| (*source).to_owned()).collect(),
        ..everything()
    }
}

fn count(skill_name: &str, count: i64) -> SkillCount {
    SkillCount { skill_name: skill_name.to_owned(), count }
}

/// A ledger with the tables that the query for sessions at fault reads.
fn ledger() -> Connection {
    let connection = Connection::open_in_memory().unwrap();
    connection
        .execute_batch(
            "CREATE TABLE threads(thread_id TEXT PRIMARY KEY, source TEXT NOT NULL,
                 native_session_id TEXT, parent_thread_id TEXT, root_session_id TEXT,
                 agent_role TEXT NOT NULL, title TEXT, project_name TEXT, project_path TEXT,
                 project_kind TEXT NOT NULL, archived INTEGER NOT NULL,
                 metadata_quality_status TEXT NOT NULL, metadata_resolved_at_ms INTEGER);
             CREATE TABLE codex_usage_session_quarantine(ledger_epoch INTEGER NOT NULL,
                 root_session_id TEXT NOT NULL, primary_error_code TEXT NOT NULL,
                 last_activity_at_ms INTEGER NOT NULL, first_seen_at_ms INTEGER NOT NULL,
                 updated_at_ms INTEGER NOT NULL);",
        )
        .unwrap();
    connection
}

fn add_root(connection: &Connection, id: &str, kind: &str, path: Option<&str>) {
    connection
        .execute(
            "INSERT INTO threads(thread_id, source, native_session_id, parent_thread_id, root_session_id, agent_role, project_kind, project_path, archived, metadata_quality_status, metadata_resolved_at_ms)
             VALUES (?1, 'codex', 'native-1', NULL, ?1, 'main', ?2, ?3, 0, 'complete', 100)",
            (id, kind, path),
        )
        .unwrap();
    connection
        .execute(
            "INSERT INTO codex_usage_session_quarantine(ledger_epoch, root_session_id, primary_error_code, last_activity_at_ms, first_seen_at_ms, updated_at_ms)
             VALUES (1, ?1, 'TEST_ERROR', 100, 100, 100)",
            (id,),
        )
        .unwrap();
}

/// The sessions at fault that the ledger holds from 0 to 1000 under a filter.
fn error_roots(connection: &Connection, filter: &UsageFilter) -> Vec<String> {
    let Some(query) = error_roots_query(filter, 1, 0, 1000) else {
        return Vec::new();
    };
    let values = query.values.into_iter().map(|value| match value {
        SqlValue::Integer(number) => Value::Integer(number),
        SqlValue::Text(text) => Value::Text(text),
    });
    let mut statement = connection.prepare(&query.sql).unwrap();
    let rows = statement.query_map(params_from_iter(values), |row| row.get(0)).unwrap();
    rows.map(|row| row.unwrap()).collect()
}

#[test]
fn td_p4_sidecar_or_01_filter_table_driven() {
    let connection = ledger();
    add_root(&connection, "root-codex-1", "project", None);

    let roots_empty = error_roots(&connection, &everything());
    assert_eq!(roots_empty.len(), 1);
    assert_eq!(roots_empty[0], "root-codex-1");

    let roots_codex = error_roots(&connection, &of_sources(&["codex"]));
    assert_eq!(roots_codex, roots_empty);

    let roots_ag = error_roots(&connection, &of_sources(&["antigravity"]));
    assert!(
        roots_ag.is_empty(),
        "[antigravity] filter must not return Codex error roots"
    );

    let roots_both = error_roots(&connection, &of_sources(&["codex", "antigravity"]));
    assert_eq!(roots_both, roots_empty);
}

#[test]
fn projects_and_sessions_without_one_are_found_together() {
    let connection = ledger();
    add_root(&connection, "a", "project", Some("/a"));
    add_root(&connection, "b", "project", Some("/b"));
    add_root(&connection, "c", "projectless", None);
    add_root(&connection, "d", "unknown", None);
    let mut filter = UsageFilter { project_paths: vec!["/a".to_owned()], ..everything() };
    assert_eq!(error_roots(&connection, &filter), ["a"]);
    filter.include_projectless = true;
    assert_eq!(error_roots(&connection, &filter), ["a", "c"]);
    filter.include_unknown_project = true;
    assert_eq!(error_roots(&connection, &filter), ["a", "c", "d"]);
    filter.project_paths = Vec::new();
    assert_eq!(error_roots(&connection, &filter), ["c", "d"]);
    assert_eq!(error_roots(&connection, &everything()), ["a", "b", "c", "d"]);
}

#[test]
fn the_error_query_spells_out_its_filter() {
    let plain = error_roots_query(&everything(), 7, 1, 2).unwrap();
    assert!(plain.sql.starts_with("SELECT q.root_session_id,q.primary_error_code,"));
    assert!(plain.sql.ends_with(
        "WHERE q.ledger_epoch=?1 AND q.last_activity_at_ms>=?2 AND q.last_activity_at_ms<?3 \
         AND root.source='codex' ORDER BY q.root_session_id"
    ));
    let filter = UsageFilter {
        project_paths: vec!["/a".to_owned(), "/b".to_owned()],
        include_projectless: true,
        include_unknown_project: true,
        ..everything()
    };
    let query = error_roots_query(&filter, 7, 1, 2).unwrap();
    assert!(query.sql.contains(
        "AND ((root.project_kind='project' AND root.project_path IN (?4,?5)) \
         OR root.project_kind='projectless' OR root.project_kind='unknown') ORDER BY"
    ));
    assert_eq!(query.values.len(), 5);
    assert_eq!(query.values[3], SqlValue::Text("/a".to_owned()));
    assert_eq!(query.values[4], SqlValue::Text("/b".to_owned()));
}

#[test]
fn sessions_at_fault_have_no_model_and_need_a_ledger() {
    let by_model = UsageFilter { models: vec!["m".to_owned()], ..everything() };
    assert!(!may_have_error_roots(&by_model));
    assert!(error_roots_query(&by_model, 1, 0, 1).is_none());
    assert!(may_have_error_roots(&everything()));
    assert!(error_roots_query(&everything(), 0, 0, 1).is_none());
}

#[test]
fn the_skills_query_numbers_models_before_paths() {
    let filter = UsageFilter {
        models: vec!["m".to_owned(), "n".to_owned()],
        project_paths: vec!["/p".to_owned()],
        include_unknown_project: true,
        ..everything()
    };
    let query = skills_query(&filter, true, 3, 10, 20).unwrap();
    assert!(query.sql.contains(
        "WHERE se.ledger_epoch=?1 AND se.occurred_at_ms>=?2 AND se.occurred_at_ms<?3 \
         AND se.model IN (?4,?5) \
         AND ((root.project_kind='project' AND root.project_path IN (?6)) \
         OR root.project_kind='unknown') GROUP BY se.skill_name"
    ));
    assert_eq!(
        query.values[3..],
        [
            SqlValue::Text("m".to_owned()),
            SqlValue::Text("n".to_owned()),
            SqlValue::Text("/p".to_owned())
        ]
    );
    assert!(skills_query(&filter, false, 3, 10, 20).is_none());
    assert!(skills_query(&of_sources(&["other"]), true, 3, 10, 20).is_none());
}

#[test]
fn skills_are_ready_from_the_first_parser_that_notes_them() {
    assert_eq!(skills_ready(0, 1, SKILL_USAGE_PARSER_VERSION), Ok(true));
    assert_eq!(skills_ready(0, 1, SKILL_USAGE_PARSER_VERSION - 1), Ok(false));
    assert_eq!(skills_ready(0, 0, SKILL_USAGE_PARSER_VERSION), Ok(false));
    assert!(skills_ready(-1, 1, 11).is_err());
    assert!(skills_ready(0, -1, 11).is_err());
    assert!(skills_ready(0, 1, -1).is_err());
}

#[test]
fn a_day_is_in_order_and_has_a_total() {
    let day = skill_day(
        "2026-01-01".to_owned(),
        5,
        6,
        vec![count("b", 2), count("c", 9), count("a", 2)],
    )
    .unwrap();
    assert_eq!(day.total, 13);
    assert_eq!(day.skills, vec![count("c", 9), count("a", 2), count("b", 2)]);
    assert_eq!((day.start_ms, day.end_ms), (5, 6));
    assert_eq!(
        skill_day("d".to_owned(), 0, 1, vec![count("a", -1)]),
        Err(AggregateError::InvariantViolation)
    );
    assert_eq!(
        skill_day("d".to_owned(), 0, 1, vec![count("a", i64::MAX), count("b", 1)]),
        Err(AggregateError::ArithmeticOverflow)
    );
}

#[test]
fn the_first_day_at_fault_decides() {
    let day = |date: &str, rows: Vec<SkillCount>| CountedDay {
        date: date.to_owned(),
        start_ms: 0,
        end_ms: 1,
        rows,
    };
    let usage = skills_usage(
        true,
        vec![day("one", vec![count("a", 1)]), day("two", Vec::new())],
    )
    .unwrap();
    assert!(usage.ready);
    assert_eq!(usage.days.len(), 2);
    assert_eq!(usage.days[0].total, 1);
    assert_eq!(usage.days[1].total, 0);
    assert_eq!(usage.days[1].date, "two");
    assert_eq!(
        skills_usage(
            true,
            vec![
                day("one", vec![count("a", i64::MAX), count("b", i64::MAX)]),
                day("two", vec![count("a", -1)])
            ]
        ),
        Err(AggregateError::ArithmeticOverflow)
    );
}

#[test]
fn a_failed_query_may_be_an_overflow() {
    assert_eq!(
        sql_failure(&Some("Integer Overflow in sum".to_owned())),
        AggregateError::ArithmeticOverflow
    );
    assert_eq!(sql_failure(&Some("locked".to_owned())), AggregateError::QueryFailed);
    assert_eq!(sql_failure(&None), AggregateError::QueryFailed);
    assert_eq!(DistributionCostStatus::Partial.as_str(), "partial");
}
