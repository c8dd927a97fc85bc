//! The global state file of the desktop application, as far as it tells threads that have no
//! project.
use vstd::prelude::*;
use vstd::string::*;

use crate::diagnostics::DiagnosticSeverity;
use crate::order::insert_text;
#[allow(unused_imports)]
use crate::order::{ascending, lemma_sorted_texts, sorted_texts};
use crate::text::{contains_control, trimmed};
#[allow(unused_imports)]
use crate::text::{has_control, trim};

verus! {

/// How reading the file went. A file that is malformed is not an empty one, and one that
/// cannot be read is not a missing one.
#[derive(Clone, Copy, Debug, PartialEq, Eq, Structural)]
pub enum GlobalStateStatus {
    Complete,
    NotPresent,
    Malformed,
    Unreadable,
}

impl GlobalStateStatus {
    pub open spec fn name(self) -> Seq<char> {
        match self {
            GlobalStateStatus::Complete => "complete"@,
            GlobalStateStatus::NotPresent => "not_present"@,
            GlobalStateStatus::Malformed => "malformed"@,
            GlobalStateStatus::Unreadable => "unreadable"@,
        }
    }

    pub fn as_str(self) -> (r: &'static str)
        ensures
            r@ == self.name(),
    {
        match self {
            GlobalStateStatus::Complete => "complete",
            GlobalStateStatus::NotPresent => "not_present",
            GlobalStateStatus::Malformed => "malformed",
            GlobalStateStatus::Unreadable => "unreadable",
        }
    }

    pub fn is_complete(self) -> (r: bool)
        ensures
            r == (self is Complete),
    {
        match self {
            GlobalStateStatus::Complete => true,
            _ => false,
        }
    }
}

/// A remark on the file. It holds fixed codes and field names alone.
#[derive(Clone, Debug, PartialEq, Eq)]
pub struct GlobalStateDiagnostic {
    pub code: String,
    pub severity: DiagnosticSeverity,
    pub field: Option<String>,
    pub source_kind: &'static str,
}

pub struct Remark {
    pub code: Seq<char>,
    pub severity: DiagnosticSeverity,
    pub field: Option<Seq<char>>,
    pub source_kind: Seq<char>,
}

impl DeepView for GlobalStateDiagnostic {
    type V = Remark;

    open spec fn deep_view(&self) -> Remark {
        Remark {
            code: self.code@,
            severity: self.severity,
            field: self.field.deep_view(),
            source_kind: self.source_kind@,
        }
    }
}

pub open spec fn remark(code: Seq<char>, severity: DiagnosticSeverity, field: Option<Seq<char>>) -> Remark {
    Remark { code, severity, field, source_kind: "codex_global_state_json"@ }
}

impl GlobalStateDiagnostic {
    fn new(code: &'static str, severity: DiagnosticSeverity) -> (r: Self)
        ensures
            r.deep_view() == remark(code@, severity, None),
    {
        GlobalStateDiagnostic {
            code: code.to_owned(),
            severity,
            field: None,
            source_kind: "codex_global_state_json",
        }
    }

    fn at_field(self, field: &'static str) -> (r: Self)
        ensures
            r.deep_view() == (Remark { field: Some(field@), ..self.deep_view() }),
    {
        GlobalStateDiagnostic {
            code: self.code,
            severity: self.severity,
            field: Some(field.to_owned()),
            source_kind: self.source_kind,
        }
    }
}

/// The threads without a project, and those with one assigned. Both are in order, each
/// thread once.
#[derive(Clone, Debug, PartialEq, Eq)]
pub struct GlobalStateSnapshot {
    pub status: GlobalStateStatus,
    pub projectless_thread_ids: Vec<String>,
    pub thread_project_assignments: Vec<String>,
    pub diagnostics: Vec<GlobalStateDiagnostic>,
}

#[verifier::ext_equal]
pub struct GlobalFacts {
    pub status: GlobalStateStatus,
    pub projectless: Seq<Seq<char>>,
    pub assigned: Seq<Seq<char>>,
    pub diagnostics: Seq<Remark>,
}

impl DeepView for GlobalStateSnapshot {
    type V = GlobalFacts;

    open spec fn deep_view(&self) -> GlobalFacts {
        GlobalFacts {
            status: self.status,
            projectless: self.projectless_thread_ids.deep_view(),
            assigned: self.thread_project_assignments.deep_view(),
            diagnostics: self.diagnostics.deep_view(),
        }
    }
}

pub open spec fn unavailable_facts(status: GlobalStateStatus, diagnostics: Seq<Remark>) -> GlobalFacts {
    GlobalFacts { status, projectless: Seq::empty(), assigned: Seq::empty(), diagnostics }
}

fn contains_id(ids: &Vec<String>, thread_id: &str) -> (r: bool)
    ensures
        r == ids.deep_view().contains(thread_id@),
{
    let mut i: usize = 0;
    while i < ids.len()
        invariant
            i <= ids.len(),
            forall|j: int| 0 <= j < i ==> (#[trigger] ids@[j])@ != thread_id@,
        decreases ids.len() - i,
    {
        if crate::text::same_text(ids[i].as_str(), thread_id) {
            assert(ids.deep_view()[i as int] == thread_id@);
            return true;
        }
        i = i + 1;
    }
    assert forall|j: int| 0 <= j < ids.deep_view().len() implies ids.deep_view()[j]
        != thread_id@ by {
        assert(ids@[j]@ != thread_id@);
    }
    false
}

impl GlobalStateSnapshot {
    /// The view when there is nothing to go by.
    pub fn unavailable(status: GlobalStateStatus, diagnostics: Vec<GlobalStateDiagnostic>) -> (r: Self)
        requires
            !(status is Complete),
        ensures
            r.deep_view() == unavailable_facts(status, diagnostics.deep_view()),
    {
        let r: GlobalStateSnapshot = GlobalStateSnapshot {
            status,
            projectless_thread_ids: Vec::new(),
            thread_project_assignments: Vec::new(),
            diagnostics,
        };
        assert(r.deep_view() =~= unavailable_facts(status, diagnostics.deep_view()));
        r
    }

    pub fn is_complete(&self) -> (r: bool)
        ensures
            r == (self.status is Complete),
    {
        self.status.is_complete()
    }

    pub fn is_projectless(&self, thread_id: &str) -> (r: bool)
        ensures
            r == self.deep_view().projectless.contains(thread_id@),
    {
        contains_id(&self.projectless_thread_ids, thread_id)
    }

    pub fn has_assignment(&self, thread_id: &str) -> (r: bool)
        ensures
            r == self.deep_view().assigned.contains(thread_id@),
    {
        contains_id(&self.thread_project_assignments, thread_id)
    }
}

/// The two fields of the file: the threads without a project, and the keys of the assignments
/// in the order of the document.
#[derive(Clone, Debug, PartialEq, Eq)]
pub struct RawGlobalState {
    pub projectless_thread_ids: Option<Vec<String>>,
    pub assignment_keys: Option<Vec<String>>,
}

/// How reading the file went.
#[derive(Clone, Debug, PartialEq, Eq)]
pub enum GlobalStateRead {
    NotPresent,
    Unreadable,
    /// It is no document with two fields of the right types, where they are there.
    NotADocument,
    Document(RawGlobalState),
}

pub open spec fn valid_id(id: Seq<char>) -> bool {
    id.len() > 0 && !has_control(id)
}

pub open spec fn trims(texts: Seq<Seq<char>>) -> Seq<Seq<char>> {
    Seq::new(texts.len(), |i: int| trim(texts[i]))
}

/// The remarks on the ids of a field, in their order: on those that are none, and on those
/// that came before.
pub open spec fn id_remarks(ids: Seq<Seq<char>>, field: Seq<char>) -> Seq<Remark>
    decreases ids.len(),
{
    if ids.len() == 0 {
        Seq::empty()
    } else {
        let before = id_remarks(ids.drop_last(), field);
        if !valid_id(ids.last()) {
            before.push(remark("invalid_thread_id"@, DiagnosticSeverity::Warning, Some(field)))
        } else if ids.drop_last().contains(ids.last()) {
            before.push(remark("duplicate_thread_id"@, DiagnosticSeverity::Info, Some(field)))
        } else {
            before
        }
    }
}

pub open spec fn all_valid(ids: Seq<Seq<char>>) -> bool {
    forall|i: int| 0 <= i < ids.len() ==> valid_id(#[trigger] ids[i])
}

/// One remark for each id that is none.
pub open spec fn invalid_remarks(ids: Seq<Seq<char>>, field: Seq<char>) -> Seq<Remark>
    decreases ids.len(),
{
    if ids.len() == 0 {
        Seq::empty()
    } else if !valid_id(ids.last()) {
        invalid_remarks(ids.drop_last(), field).push(
            remark("invalid_thread_id"@, DiagnosticSeverity::Warning, Some(field)),
        )
    } else {
        invalid_remarks(ids.drop_last(), field)
    }
}

/// What a document says. Either list in which some id is none makes the file malformed.
pub open spec fn state_of(projectless: Option<Seq<Seq<char>>>, keys: Option<Seq<Seq<char>>>) -> GlobalFacts {
    let projectless_field = "projectless-thread-ids"@;
    let assignments_field = "thread-project-assignments"@;
    match (projectless, keys) {
        (None, _) => unavailable_facts(
            GlobalStateStatus::Malformed,
            seq![remark("missing_field"@, DiagnosticSeverity::Warning, Some(projectless_field))],
        ),
        (Some(_), None) => unavailable_facts(
            GlobalStateStatus::Malformed,
            seq![remark("missing_field"@, DiagnosticSeverity::Warning, Some(assignments_field))],
        ),
        (Some(projectless), Some(keys)) => {
            let assigned = sorted_texts(trims(keys));
            let ids = trims(projectless);
            if !all_valid(assigned) {
                unavailable_facts(
                    GlobalStateStatus::Malformed,
                    invalid_remarks(assigned, assignments_field),
                )
            } else if !all_valid(ids) {
                unavailable_facts(
                    GlobalStateStatus::Malformed,
                    id_remarks(ids, projectless_field),
                )
            } else {
                GlobalFacts {
                    status: GlobalStateStatus::Complete,
                    projectless: sorted_texts(ids),
                    assigned,
                    diagnostics: id_remarks(ids, projectless_field) + id_remarks(
                        trims(keys),
                        assignments_field,
                    ),
                }
            }
        },
    }
}

fn valid_identifier(value: &str) -> (r: bool)
    ensures
        r == valid_id(value@),
{
    !value.is_empty() && !contains_control(value)
}

/// The ids of a field in order, the remarks on them, and whether all of them are ids.
fn normalize_ids(values: &Vec<String>, field: &'static str) -> (r: (
    Vec<String>,
    Vec<GlobalStateDiagnostic>,
    bool,
))
    ensures
        r.0.deep_view() == sorted_texts(trims(values.deep_view())),
        r.1.deep_view() == id_remarks(trims(values.deep_view()), field@),
        r.2 == all_valid(trims(values.deep_view())),
{
    let ghost ids = trims(values.deep_view());
    let mut sorted: Vec<String> = Vec::new();
    let mut diagnostics: Vec<GlobalStateDiagnostic> = Vec::new();
    let mut valid: bool = true;
    let mut i: usize = 0;
    proof {
        assert(ids.take(0) =~= Seq::<Seq<char>>::empty());
        assert(sorted.deep_view() =~= Seq::<Seq<char>>::empty());
        assert(diagnostics.deep_view() =~= Seq::<Remark>::empty());
    }
    while i < values.len()
        invariant
            i <= values.len(),
            ids == trims(values.deep_view()),
            sorted.deep_view() == sorted_texts(ids.take(i as int)),
            diagnostics.deep_view() == id_remarks(ids.take(i as int), field@),
            valid == all_valid(ids.take(i as int)),
        decreases values.len() - i,
    {
        let id: String = trimmed(values[i].as_str());
        let ghost earlier = ids.take(i as int);
        let ghost remarks = diagnostics.deep_view();
        proof {
            assert(ids.take(i + 1).drop_last() =~= earlier);
            assert(ids.take(i + 1).last() == id@);
            lemma_sorted_texts(earlier);
            assert(all_valid(ids.take(i + 1)) <==> all_valid(earlier) && valid_id(id@)) by {
                assert forall|j: int| 0 <= j < earlier.len() implies earlier[j] == #[trigger] ids.take(
                    i + 1,
                )[j] by {}
                if all_valid(ids.take(i + 1)) {
                    assert(valid_id(ids.take(i + 1)[i as int]));
                    assert forall|j: int| 0 <= j < earlier.len() implies valid_id(
                        #[trigger] earlier[j],
                    ) by {
                        assert(valid_id(ids.take(i + 1)[j]));
                    }
                }
                if all_valid(earlier) && valid_id(id@) {
                    assert forall|j: int| 0 <= j < ids.take(i + 1).len() implies valid_id(
                        #[trigger] ids.take(i + 1)[j],
                    ) by {
                        if j < i {
                            assert(valid_id(earlier[j]));
                        }
                    }
                }
            }
        }
        if !valid_identifier(id.as_str()) {
            valid = false;
            diagnostics.push(
                GlobalStateDiagnostic::new(
                    "invalid_thread_id",
                    DiagnosticSeverity::Warning,
                ).at_field(field),
            );
            assert(diagnostics.deep_view() =~= remarks.push(
                remark("invalid_thread_id"@, DiagnosticSeverity::Warning, Some(field@)),
            ));
        } else if contains_id(&sorted, id.as_str()) {
            diagnostics.push(
                GlobalStateDiagnostic::new(
                    "duplicate_thread_id",
                    DiagnosticSeverity::Info,
                ).at_field(field),
            );
            assert(diagnostics.deep_view() =~= remarks.push(
                remark("duplicate_thread_id"@, DiagnosticSeverity::Info, Some(field@)),
            ));
        }
        insert_text(&mut sorted, &id);
        i = i + 1;
    }
    assert(ids.take(ids.len() as int) =~= ids);
    (sorted, diagnostics, valid)
}

/// The remarks on the assigned ids that are none.
fn validate_assignment_ids(ids: &Vec<String>) -> (r: Vec<GlobalStateDiagnostic>)
    ensures
        r.deep_view() == invalid_remarks(ids.deep_view(), "thread-project-assignments"@),
        r@.len() == 0 <==> all_valid(ids.deep_view()),
{
    let ghost all = ids.deep_view();
    let ghost field = "thread-project-assignments"@;
    let mut diagnostics: Vec<GlobalStateDiagnostic> = Vec::new();
    let mut i: usize = 0;
    proof {
        assert(all.take(0) =~= Seq::<Seq<char>>::empty());
        assert(diagnostics.deep_view() =~= Seq::<Remark>::empty());
    }
    while i < ids.len()
        invariant
            i <= ids.len(),
            all == ids.deep_view(),
            field == "thread-project-assignments"@,
            diagnostics.deep_view() == invalid_remarks(all.take(i as int), field),
            diagnostics@.len() == 0 <==> forall|j: int| 0 <= j < i ==> valid_id(#[trigger] all[j]),
        decreases ids.len() - i,
    {
        let ghost remarks = diagnostics.deep_view();
        proof {
            assert(all.take(i + 1).drop_last() =~= all.take(i as int));
            assert(all.take(i + 1).last() == ids@[i as int]@);
        }
        if !valid_identifier(ids[i].as_str()) {
            diagnostics.push(
                GlobalStateDiagnostic::new(
                    "invalid_thread_id",
                    DiagnosticSeverity::Warning,
                ).at_field("thread-project-assignments"),
            );
            assert(diagnostics.deep_view() =~= remarks.push(
                remark("invalid_thread_id"@, DiagnosticSeverity::Warning, Some(field)),
            ));
            assert(!valid_id(all[i as int]));
        }
        i = i + 1;
    }
    assert(all.take(all.len() as int) =~= all);
    diagnostics
}

fn missing_field(field: &'static str) -> (r: GlobalStateSnapshot)
    ensures
        r.deep_view() == unavailable_facts(
            GlobalStateStatus::Malformed,
            seq![remark("missing_field"@, DiagnosticSeverity::Warning, Some(field@))],
        ),
{
    let mut diagnostics: Vec<GlobalStateDiagnostic> = Vec::new();
    diagnostics.push(
        GlobalStateDiagnostic::new("missing_field", DiagnosticSeverity::Warning).at_field(field),
    );
    assert(diagnostics.deep_view() =~= seq![
        remark("missing_field"@, DiagnosticSeverity::Warning, Some(field@)),
    ]);
    GlobalStateSnapshot::unavailable(GlobalStateStatus::Malformed, diagnostics)
}

/// What a document says.
pub fn parse_state(parsed: RawGlobalState) -> (r: GlobalStateSnapshot)
    ensures
        r.deep_view() == state_of(
            parsed.projectless_thread_ids.deep_view(),
            parsed.assignment_keys.deep_view(),
        ),
{
    let projectless: &Vec<String> = match &parsed.projectless_thread_ids {
        Some(ids) => ids,
        None => {
            return missing_field("projectless-thread-ids");
        },
    };
    let keys: &Vec<String> = match &parsed.assignment_keys {
        Some(keys) => keys,
        None => {
            return missing_field("thread-project-assignments");
        },
    };
    let (assigned, key_remarks, _): (Vec<String>, Vec<GlobalStateDiagnostic>, bool) =
        normalize_ids(keys, "thread-project-assignments");
    let invalid: Vec<GlobalStateDiagnostic> = validate_assignment_ids(&assigned);
    if invalid.len() > 0 {
        return GlobalStateSnapshot::unavailable(GlobalStateStatus::Malformed, invalid);
    }
    let (ids, mut diagnostics, valid): (Vec<String>, Vec<GlobalStateDiagnostic>, bool) =
        normalize_ids(projectless, "projectless-thread-ids");
    if !valid {
        return GlobalStateSnapshot::unavailable(GlobalStateStatus::Malformed, diagnostics);
    }
    let mut key_remarks: Vec<GlobalStateDiagnostic> = key_remarks;
    let ghost first = diagnostics.deep_view();
    let ghost second = key_remarks.deep_view();
    diagnostics.append(&mut key_remarks);
    assert(diagnostics.deep_view() =~= first + second);
    GlobalStateSnapshot {
        status: GlobalStateStatus::Complete,
        projectless_thread_ids: ids,
        thread_project_assignments: assigned,
        diagnostics,
    }
}

/// What reading the file came to.
pub open spec fn read_state(read: GlobalStateRead) -> GlobalFacts {
    match read {
        GlobalStateRead::NotPresent => unavailable_facts(
            GlobalStateStatus::NotPresent,
            seq![remark("file_not_present"@, DiagnosticSeverity::Info, None)],
        ),
        GlobalStateRead::Unreadable => unavailable_facts(
            GlobalStateStatus::Unreadable,
            seq![remark("file_unreadable"@, DiagnosticSeverity::Warning, None)],
        ),
        GlobalStateRead::NotADocument => unavailable_facts(
            GlobalStateStatus::Malformed,
            seq![remark("invalid_json"@, DiagnosticSeverity::Warning, None)],
        ),
        GlobalStateRead::Document(parsed) => state_of(
            parsed.projectless_thread_ids.deep_view(),
            parsed.assignment_keys.deep_view(),
        ),
    }
}

fn one_remark(code: &'static str, severity: DiagnosticSeverity) -> (r: Vec<GlobalStateDiagnostic>)
    ensures
        r.deep_view() == seq![remark(code@, severity, None)],
{
    let mut diagnostics: Vec<GlobalStateDiagnostic> = Vec::new();
    diagnostics.push(GlobalStateDiagnostic::new(code, severity));
    assert(diagnostics.deep_view() =~= seq![remark(code@, severity, None)]);
    diagnostics
}

/// Reads the global state.
#[derive(Clone, Copy, Debug)]
pub struct GlobalStateReader;

impl GlobalStateReader {
    pub fn new() -> (r: Self)
        ensures
            r == GlobalStateReader,
    {
        GlobalStateReader
    }

    /// The snapshot that reading the file came to.
    pub fn snapshot(&self, read: GlobalStateRead) -> (r: GlobalStateSnapshot)
        ensures
            r.deep_view() == read_state(read),
    {
        match read {
            GlobalStateRead::NotPresent => GlobalStateSnapshot::unavailable(
                GlobalStateStatus::NotPresent,
                one_remark("file_not_present", DiagnosticSeverity::Info),
            ),
            GlobalStateRead::Unreadable => GlobalStateSnapshot::unavailable(
                GlobalStateStatus::Unreadable,
                one_remark("file_unreadable", DiagnosticSeverity::Warning),
            ),
            GlobalStateRead::NotADocument => GlobalStateSnapshot::unavailable(
                GlobalStateStatus::Malformed,
                one_remark("invalid_json", DiagnosticSeverity::Warning),
            ),
            GlobalStateRead::Document(parsed) => parse_state(parsed),
        }
    }
}

/// A snapshot holds its ids in order and each once, and none unless it is complete.
pub proof fn law_snapshot_ids_are_in_order(read: GlobalStateRead)
    ensures
        ascending(read_state(read).projectless),
        ascending(read_state(read).assigned),
        !(read_state(read).status is Complete) ==> read_state(read).projectless.len() == 0
            && read_state(read).assigned.len() == 0,
{
    if let GlobalStateRead::Document(parsed) = read {
        if parsed.projectless_thread_ids is Some && parsed.assignment_keys is Some {
            lemma_sorted_texts(trims(parsed.projectless_thread_ids.deep_view()->0));
            lemma_sorted_texts(trims(parsed.assignment_keys.deep_view()->0));
        }
    }
}

/// A thread is without a project exactly when a complete file lists it.
pub proof fn law_projectless_iff_listed(read: GlobalStateRead, id: Seq<char>)
    ensures
        read_state(read).projectless.contains(id) <==> read_state(read).status is Complete && (
        read matches GlobalStateRead::Document(parsed) && trims(
            parsed.projectless_thread_ids.deep_view()->0,
        ).contains(id)),
{
    if let GlobalStateRead::Document(parsed) = read {
        if parsed.projectless_thread_ids is Some {
            lemma_sorted_texts(trims(parsed.projectless_thread_ids.deep_view()->0));
        }
    }
}

} // verus!
