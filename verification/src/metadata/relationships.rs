//! Parents, cycles, roles and roots.
use vstd::prelude::*;
use vstd::string::*;

use crate::order::{compare_optional_i64, compare_texts, Rank};
#[allow(unused_imports)]
use crate::order::{as_int, int_rank, optional_int_rank, stable_place, stably_sorted, text_rank};
use crate::rollout::{AgentRoleProvenance, ParentHintProvenance, RolloutThreadFact};
#[allow(unused_imports)]
use crate::rollout::ThreadFacts;
use crate::session_index::SessionNameFact;
use crate::shared::{quoted_text, AgentRole};
#[allow(unused_imports)]
use crate::shared::quoted;
use crate::state_index::{SpawnEdgeFact, StateThreadFact};
#[allow(unused_imports)]
use crate::state_index::{Edge, IndexedThread};
use crate::text::{chars_of, decimal};
#[allow(unused_imports)]
use crate::text::int_text;
use super::input::{
    note, ExistingThread, MetadataDiagnostic, MetadataDiagnosticCode, MetadataDiagnosticSeverity,
    MetadataSourceKind, ResolutionInput,
};
#[allow(unused_imports)]
use super::input::{finding, Finding, InputFacts};

verus! {

/// Parents are followed no further than this.
pub const MAX_PARENT_DEPTH: usize = 256;

pub open spec fn by_source(a: ThreadFacts, b: ThreadFacts) -> Rank {
    int_rank(a.source_file_id as int, b.source_file_id as int)
}

/// The rollout facts that a thread owns, in their order.
pub open spec fn owned_by(rollouts: Seq<ThreadFacts>, id: Seq<char>) -> Seq<ThreadFacts>
    decreases rollouts.len(),
{
    if rollouts.len() == 0 {
        Seq::empty()
    } else if rollouts.last().owning_thread_id == id {
        owned_by(rollouts.drop_last(), id).push(rollouts.last())
    } else {
        owned_by(rollouts.drop_last(), id)
    }
}

/// The rollout facts that a thread owns, by file.
pub open spec fn rollouts_of(rollouts: Seq<ThreadFacts>, id: Seq<char>) -> Seq<ThreadFacts> {
    stably_sorted(owned_by(rollouts, id), |a: ThreadFacts, b: ThreadFacts| by_source(a, b))
}

/// The rollout facts that a thread owns, by file.
pub fn owned_rollouts(rollouts: &Vec<RolloutThreadFact>, id: &String) -> (r: Vec<RolloutThreadFact>)
    ensures
        r.deep_view() == rollouts_of(rollouts.deep_view(), id@),
{
    let ghost all = rollouts.deep_view();
    let ghost rank = |a: ThreadFacts, b: ThreadFacts| by_source(a, b);
    let mut sorted: Vec<RolloutThreadFact> = Vec::new();
    let mut i: usize = 0;
    proof {
        assert(all.take(0) =~= Seq::<ThreadFacts>::empty());
        assert(sorted.deep_view() =~= Seq::<ThreadFacts>::empty());
    }
    while i < rollouts.len()
        invariant
            i <= rollouts.len(),
            all == rollouts.deep_view(),
            rank == (|a: ThreadFacts, b: ThreadFacts| by_source(a, b)),
            sorted.deep_view() == stably_sorted(owned_by(all.take(i as int), id@), rank),
        decreases rollouts.len() - i,
    {
        let ghost before = owned_by(all.take(i as int), id@);
        proof {
            assert(all.take(i + 1).drop_last() =~= all.take(i as int));
            assert(all.take(i + 1).last() == all[i as int]);
        }
        if rollouts[i].owning_thread_id == *id {
            let fact: RolloutThreadFact = rollouts[i].clone();
            proof {
                assert(before.push(fact.deep_view()).drop_last() =~= before);
                assert(before.push(fact.deep_view()).last() == fact.deep_view());
            }
            insert_by_source(&mut sorted, fact);
        }
        i = i + 1;
    }
    assert(all.take(all.len() as int) =~= all);
    sorted
}

fn insert_by_source(sorted: &mut Vec<RolloutThreadFact>, fact: RolloutThreadFact)
    ensures
        final(sorted).deep_view() == old(sorted).deep_view().insert(
            stable_place(
                old(sorted).deep_view(),
                fact.deep_view(),
                |a: ThreadFacts, b: ThreadFacts| by_source(a, b),
            ),
            fact.deep_view(),
        ),
{
    let ghost all = sorted.deep_view();
    let ghost rank = |a: ThreadFacts, b: ThreadFacts| by_source(a, b);
    let mut at: usize = sorted.len();
    assert(all.take(at as int) =~= all);
    while at > 0 && sorted[at - 1].source_file_id > fact.source_file_id
        invariant
            at <= sorted.len(),
            all == sorted.deep_view(),
            rank == (|a: ThreadFacts, b: ThreadFacts| by_source(a, b)),
            stable_place(all, fact.deep_view(), rank) == stable_place(
                all.take(at as int),
                fact.deep_view(),
                rank,
            ),
        decreases at,
    {
        assert(all.take(at as int).last() == all[at - 1]);
        assert(all.take(at as int).drop_last() =~= all.take(at - 1));
        at = at - 1;
    }
    proof {
        if at > 0 {
            assert(all.take(at as int).last() == all[at - 1]);
        }
        assert(stable_place(all, fact.deep_view(), rank) == at);
    }
    let ghost made = fact.deep_view();
    sorted.insert(at, fact);
    assert(sorted.deep_view() =~= all.insert(at as int, made));
}

/// How an optional text stands in the key of a fact.
pub open spec fn text_key(text: Option<Seq<char>>) -> Seq<char> {
    match text {
        Some(text) => "Some("@ + quoted(text) + ")"@,
        None => "None"@,
    }
}

pub open spec fn flag_key(flag: Option<bool>) -> Seq<char> {
    match flag {
        Some(true) => "Some(true)"@,
        Some(false) => "Some(false)"@,
        None => "None"@,
    }
}

pub open spec fn number_key(number: Option<i64>) -> Seq<char> {
    match number {
        Some(number) => "Some("@ + int_text(number as int) + ")"@,
        None => "None"@,
    }
}

/// The key by which facts of the same time are told apart and ordered.
pub open spec fn fact_key(fact: IndexedThread) -> Seq<char> {
    text_key(fact.name) + "|"@ + text_key(fact.title) + "|"@ + text_key(fact.cwd) + "|"@
        + text_key(fact.rollout_path) + "|"@ + flag_key(fact.archived) + "|"@ + text_key(
        fact.metadata_model,
    ) + "|"@ + number_key(fact.created_at_ms) + "|"@ + text_key(fact.agent_role_hint)
}

fn push_text_key(out: &mut String, text: &Option<String>)
    ensures
        final(out)@ == old(out)@ + text_key(text.deep_view()),
{
    let ghost before = out@;
    match text {
        Some(text) => {
            out.append("Some(");
            out.append(quoted_text(text.as_str()).as_str());
            out.append(")");
            assert(out@ =~= before + ("Some("@ + quoted(text@) + ")"@));
        },
        None => {
            out.append("None");
        },
    }
}

fn push_number_key(out: &mut String, number: Option<i64>)
    ensures
        final(out)@ == old(out)@ + number_key(number),
{
    let ghost before = out@;
    match number {
        Some(number) => {
            out.append("Some(");
            out.append(decimal(number).as_str());
            out.append(")");
            assert(out@ =~= before + ("Some("@ + int_text(number as int) + ")"@));
        },
        None => {
            out.append("None");
        },
    }
}

/// The key by which facts of the same time are told apart and ordered.
pub fn state_fact_value_key(fact: &StateThreadFact) -> (r: String)
    ensures
        r@ == fact_key(fact.deep_view()),
{
    let ghost f = fact.deep_view();
    let mut out: String = String::new();
    push_text_key(&mut out, &fact.name);
    out.append("|");
    push_text_key(&mut out, &fact.title);
    out.append("|");
    push_text_key(&mut out, &fact.cwd);
    out.append("|");
    push_text_key(&mut out, &fact.rollout_path);
    out.append("|");
    match fact.archived {
        Some(true) => out.append("Some(true)"),
        Some(false) => out.append("Some(false)"),
        None => out.append("None"),
    }
    out.append("|");
    push_text_key(&mut out, &fact.metadata_model);
    out.append("|");
    push_number_key(&mut out, fact.created_at_ms);
    out.append("|");
    push_text_key(&mut out, &fact.agent_role_hint);
    assert(out@ =~= fact_key(f));
    out
}

/// The newer fact first; then by key.
pub open spec fn fact_rank(a: IndexedThread, b: IndexedThread) -> Rank {
    optional_int_rank(as_int(b.updated_at_ms), as_int(a.updated_at_ms)).or(
        text_rank(fact_key(a), fact_key(b)),
    )
}

pub fn compare_state_fact(left: &StateThreadFact, right: &StateThreadFact) -> (r: Rank)
    ensures
        r == fact_rank(left.deep_view(), right.deep_view()),
{
    compare_optional_i64(right.updated_at_ms, left.updated_at_ms).or_else(
        compare_texts(
            state_fact_value_key(left).as_str(),
            state_fact_value_key(right).as_str(),
        ),
    )
}

/// What the state index says of a thread: of several facts the newest, then the first by key.
pub open spec fn state_fact(threads: Seq<IndexedThread>, id: Seq<char>) -> Option<IndexedThread>
    decreases threads.len(),
{
    if threads.len() == 0 {
        None
    } else {
        let current = state_fact(threads.drop_last(), id);
        let last = threads.last();
        if last.thread_id == id && (current is None || fact_rank(last, current->0) is Before) {
            Some(last)
        } else {
            current
        }
    }
}

/// The fact of a thread among the first `n`.
pub fn find_state_fact<'a>(threads: &'a Vec<StateThreadFact>, n: usize, id: &String) -> (r: Option<
    &'a StateThreadFact,
>)
    requires
        n <= threads@.len(),
    ensures
        match r {
            Some(fact) => state_fact(threads.deep_view().take(n as int), id@) == Some(
                fact.deep_view(),
            ),
            None => state_fact(threads.deep_view().take(n as int), id@) is None,
        },
{
    let ghost all = threads.deep_view();
    let mut current: Option<&StateThreadFact> = None;
    let mut i: usize = 0;
    assert(all.take(0) =~= Seq::<IndexedThread>::empty());
    while i < n
        invariant
            i <= n <= threads@.len(),
            all == threads.deep_view(),
            match current {
                Some(fact) => state_fact(all.take(i as int), id@) == Some(fact.deep_view()),
                None => state_fact(all.take(i as int), id@) is None,
            },
        decreases n - i,
    {
        let fact: &StateThreadFact = &threads[i];
        proof {
            assert(all.take(i + 1).drop_last() =~= all.take(i as int));
            assert(all.take(i + 1).last() == fact.deep_view());
        }
        if fact.thread_id == *id {
            let replaces: bool = match current {
                None => true,
                Some(current) => compare_state_fact(fact, current) == Rank::Before,
            };
            if replaces {
                current = Some(fact);
            }
        }
        i = i + 1;
    }
    current
}

/// A letter in lower case, if it is an ASCII letter.
pub open spec fn lower(c: char) -> char {
    if 'A' <= c && c <= 'Z' {
        ((c as u32) + 32) as char
    } else {
        c
    }
}

/// Whether the texts are the same but for the case of ASCII letters.
pub open spec fn same_word(text: Seq<char>, word: Seq<char>) -> bool {
    text.len() == word.len() && forall|i: int|
        0 <= i < text.len() ==> lower(#[trigger] text[i]) == lower(word[i])
}

fn lower_char(c: char) -> (r: char)
    ensures
        r == lower(c),
{
    match c {
        'A' => 'a',
        'B' => 'b',
        'C' => 'c',
        'D' => 'd',
        'E' => 'e',
        'F' => 'f',
        'G' => 'g',
        'H' => 'h',
        'I' => 'i',
        'J' => 'j',
        'K' => 'k',
        'L' => 'l',
        'M' => 'm',
        'N' => 'n',
        'O' => 'o',
        'P' => 'p',
        'Q' => 'q',
        'R' => 'r',
        'S' => 's',
        'T' => 't',
        'U' => 'u',
        'V' => 'v',
        'W' => 'w',
        'X' => 'x',
        'Y' => 'y',
        'Z' => 'z',
        _ => c,
    }
}

pub fn is_word(text: &str, word: &str) -> (r: bool)
    ensures
        r == same_word(text@, word@),
{
    let a: Vec<char> = chars_of(text);
    let b: Vec<char> = chars_of(word);
    if a.len() != b.len() {
        return false;
    }
    let mut i: usize = 0;
    while i < a.len()
        invariant
            i <= a.len(),
            a@ == text@,
            b@ == word@,
            a.len() == b.len(),
            forall|j: int| 0 <= j < i ==> lower(#[trigger] text@[j]) == lower(word@[j]),
        decreases a.len() - i,
    {
        if lower_char(a[i]) != lower_char(b[i]) {
            assert(lower(text@[i as int]) != lower(word@[i as int]));
            return false;
        }
        i = i + 1;
    }
    true
}

/// The parent hints of one kind, in order.
pub open spec fn hinted_parents(facts: Seq<ThreadFacts>, kind: ParentHintProvenance) -> Seq<Seq<char>>
    decreases facts.len(),
{
    if facts.len() == 0 {
        Seq::empty()
    } else {
        let before = hinted_parents(facts.drop_last(), kind);
        match facts.last().parent {
            Some(hint) => if hint.provenance == kind {
                before.push(hint.value)
            } else {
                before
            },
            None => before,
        }
    }
}

/// The parents that the state index gives a thread, in order.
pub open spec fn edge_parents(edges: Seq<Edge>, id: Seq<char>) -> Seq<Seq<char>>
    decreases edges.len(),
{
    if edges.len() == 0 {
        Seq::empty()
    } else if edges.last().child == id {
        edge_parents(edges.drop_last(), id).push(edges.last().parent)
    } else {
        edge_parents(edges.drop_last(), id)
    }
}

/// Whether some of the texts is another one.
pub open spec fn differs(texts: Seq<Seq<char>>, text: Seq<char>) -> bool {
    exists|i: int| 0 <= i < texts.len() && #[trigger] texts[i] != text
}

fn any_differs(texts: &Vec<String>, text: &String) -> (r: bool)
    ensures
        r == differs(texts.deep_view(), text@),
{
    let mut i: usize = 0;
    while i < texts.len()
        invariant
            i <= texts.len(),
            forall|j: int| 0 <= j < i ==> #[trigger] texts.deep_view()[j] == text@,
        decreases texts.len() - i,
    {
        if texts[i] != *text {
            assert(texts.deep_view()[i as int] != text@);
            return true;
        }
        i = i + 1;
    }
    false
}

/// Which parent a thread has.
pub enum ParentChoice {
    Confirmed(String),
    NoneConfirmed,
    Unresolved,
}

pub enum Choice {
    Confirmed(Seq<char>),
    NoneConfirmed,
    Unresolved,
}

impl DeepView for ParentChoice {
    type V = Choice;

    open spec fn deep_view(&self) -> Choice {
        match self {
            ParentChoice::Confirmed(parent) => Choice::Confirmed(parent@),
            ParentChoice::NoneConfirmed => Choice::NoneConfirmed,
            ParentChoice::Unresolved => Choice::Unresolved,
        }
    }
}

/// The parent of a thread, and whether there is a conflict about it. The state index comes
/// first, then what the session says, then where it was spawned, then what it was forked
/// from. Two parents of the same standing decide nothing; a parent of lower standing that
/// differs is a conflict.
pub open spec fn chosen_parent(
    edges: Seq<Seq<char>>,
    direct: Seq<Seq<char>>,
    nested: Seq<Seq<char>>,
    forked: Seq<Seq<char>>,
) -> (Choice, bool) {
    if edges.len() > 0 {
        if differs(edges, edges[0]) {
            (Choice::Unresolved, true)
        } else {
            (
                Choice::Confirmed(edges[0]),
                differs(direct, edges[0]) || differs(nested, edges[0]) || differs(forked, edges[0]),
            )
        }
    } else if direct.len() > 0 {
        if differs(direct, direct[0]) {
            (Choice::Unresolved, true)
        } else {
            (
                Choice::Confirmed(direct[0]),
                differs(nested, direct[0]) || differs(forked, direct[0]),
            )
        }
    } else if nested.len() > 0 {
        if differs(nested, nested[0]) {
            (Choice::Unresolved, true)
        } else {
            (Choice::Confirmed(nested[0]), differs(forked, nested[0]))
        }
    } else if forked.len() > 0 {
        if differs(forked, forked[0]) {
            (Choice::Unresolved, true)
        } else {
            (Choice::Confirmed(forked[0]), false)
        }
    } else {
        (Choice::NoneConfirmed, false)
    }
}

pub fn choose_parent(
    edges: &Vec<String>,
    direct: &Vec<String>,
    nested: &Vec<String>,
    forked: &Vec<String>,
) -> (r: (ParentChoice, bool))
    ensures
        (r.0.deep_view(), r.1) == chosen_parent(
            edges.deep_view(),
            direct.deep_view(),
            nested.deep_view(),
            forked.deep_view(),
        ),
{
    if edges.len() > 0 {
        let parent: String = edges[0].clone();
        if any_differs(edges, &parent) {
            (ParentChoice::Unresolved, true)
        } else {
            let conflict: bool = any_differs(direct, &parent) || any_differs(nested, &parent)
                || any_differs(forked, &parent);
            (ParentChoice::Confirmed(parent), conflict)
        }
    } else if direct.len() > 0 {
        let parent: String = direct[0].clone();
        if any_differs(direct, &parent) {
            (ParentChoice::Unresolved, true)
        } else {
            let conflict: bool = any_differs(nested, &parent) || any_differs(forked, &parent);
            (ParentChoice::Confirmed(parent), conflict)
        }
    } else if nested.len() > 0 {
        let parent: String = nested[0].clone();
        if any_differs(nested, &parent) {
            (ParentChoice::Unresolved, true)
        } else {
            let conflict: bool = any_differs(forked, &parent);
            (ParentChoice::Confirmed(parent), conflict)
        }
    } else if forked.len() > 0 {
        let parent: String = forked[0].clone();
        if any_differs(forked, &parent) {
            (ParentChoice::Unresolved, true)
        } else {
            (ParentChoice::Confirmed(parent), false)
        }
    } else {
        (ParentChoice::NoneConfirmed, false)
    }
}

/// How a thread stands to others.
pub struct Relationship {
    pub parent: ParentChoice,
    pub explicit_main: bool,
    pub explicit_subagent: bool,
    pub conflict: bool,
}

pub struct Relation {
    pub parent: Choice,
    pub explicit_main: bool,
    pub explicit_subagent: bool,
    pub conflict: bool,
}

impl DeepView for Relationship {
    type V = Relation;

    open spec fn deep_view(&self) -> Relation {
        Relation {
            parent: self.parent.deep_view(),
            explicit_main: self.explicit_main,
            explicit_subagent: self.explicit_subagent,
            conflict: self.conflict,
        }
    }
}

pub open spec fn says(fact: ThreadFacts, word: Seq<char>) -> bool {
    fact.role is Some && same_word(fact.role->0.value, word)
}

pub open spec fn some_says(facts: Seq<ThreadFacts>, word: Seq<char>) -> bool {
    exists|i: int| 0 <= i < facts.len() && says(#[trigger] facts[i], word)
}

pub open spec fn says_main(fact: ThreadFacts) -> bool {
    says(fact, "main"@) && fact.role->0.provenance is SessionMetaRole
}

pub open spec fn some_says_main(facts: Seq<ThreadFacts>) -> bool {
    exists|i: int| 0 <= i < facts.len() && says_main(#[trigger] facts[i])
}

pub open spec fn says_subagent(fact: ThreadFacts) -> bool {
    fact.role is Some && (fact.role->0.provenance is SubagentSource || says(fact, "subagent"@))
}

pub open spec fn some_says_subagent(facts: Seq<ThreadFacts>) -> bool {
    exists|i: int| 0 <= i < facts.len() && says_subagent(#[trigger] facts[i])
}

pub open spec fn some_conflicts(facts: Seq<ThreadFacts>) -> bool {
    exists|i: int| 0 <= i < facts.len() && (#[trigger] facts[i]).relationship_conflict
}

pub open spec fn indexed_role(input: InputFacts, id: Seq<char>, word: Seq<char>) -> bool {
    match state_fact(input.threads, id) {
        Some(fact) => fact.agent_role_hint is Some && same_word(fact.agent_role_hint->0, word),
        None => false,
    }
}

/// The parent of a thread, and whether there is a conflict about it.
pub open spec fn parent_choice(input: InputFacts, id: Seq<char>) -> (Choice, bool) {
    let facts = rollouts_of(input.rollouts, id);
    chosen_parent(
        edge_parents(input.edges, id),
        hinted_parents(facts, ParentHintProvenance::SessionMetaParent),
        hinted_parents(facts, ParentHintProvenance::SubagentSource),
        hinted_parents(facts, ParentHintProvenance::ForkedFromId),
    )
}

pub open spec fn declared_main(input: InputFacts, id: Seq<char>) -> bool {
    some_says_main(rollouts_of(input.rollouts, id)) || (!indexed_role(input, id, "subagent"@)
        && indexed_role(input, id, "main"@))
}

pub open spec fn contradictory_roles(input: InputFacts, id: Seq<char>) -> bool {
    let facts = rollouts_of(input.rollouts, id);
    some_says(facts, "main"@) && some_says(facts, "subagent"@)
}

/// How a thread stands to others, cycles aside.
#[verifier::opaque]
pub open spec fn relation(input: InputFacts, id: Seq<char>) -> Relation {
    let facts = rollouts_of(input.rollouts, id);
    let (parent, contested) = parent_choice(input, id);
    Relation {
        parent,
        explicit_main: declared_main(input, id),
        explicit_subagent: some_says_subagent(facts) || indexed_role(input, id, "subagent"@)
            || hinted_parents(facts, ParentHintProvenance::SessionMetaParent).len() > 0
            || hinted_parents(facts, ParentHintProvenance::SubagentSource).len() > 0
            || hinted_parents(facts, ParentHintProvenance::ForkedFromId).len() > 0,
        conflict: some_conflicts(facts) || contradictory_roles(input, id) || contested || (parent
            is Confirmed && declared_main(input, id)),
    }
}

/// One remark for each rollout of a thread that is in conflict with itself.
pub open spec fn conflict_findings(facts: Seq<ThreadFacts>, id: Seq<char>) -> Seq<Finding>
    decreases facts.len(),
{
    if facts.len() == 0 {
        Seq::empty()
    } else if facts.last().has_conflict {
        conflict_findings(facts.drop_last(), id).push(
            finding(
                MetadataDiagnosticCode::FieldConflict,
                MetadataDiagnosticSeverity::Conflict,
                Some(id),
                Some(facts.last().source_file_id),
                None,
                MetadataSourceKind::Rollout,
            ),
        )
    } else {
        conflict_findings(facts.drop_last(), id)
    }
}

pub open spec fn noted_if(condition: bool, made: Finding) -> Seq<Finding> {
    if condition {
        seq![made]
    } else {
        Seq::empty()
    }
}

/// The remarks on how a thread stands to others.
#[verifier::opaque]
pub open spec fn relation_findings(input: InputFacts, id: Seq<char>) -> Seq<Finding> {
    let (parent, contested) = parent_choice(input, id);
    conflict_findings(rollouts_of(input.rollouts, id), id) + noted_if(
        contradictory_roles(input, id),
        finding(
            MetadataDiagnosticCode::RoleConflict,
            MetadataDiagnosticSeverity::Conflict,
            Some(id),
            None,
            Some("agent_role"@),
            MetadataSourceKind::Rollout,
        ),
    ) + noted_if(
        contested,
        finding(
            MetadataDiagnosticCode::ParentConflict,
            MetadataDiagnosticSeverity::Conflict,
            Some(id),
            None,
            Some("parent_thread_id"@),
            MetadataSourceKind::RelationshipGraph,
        ),
    ) + noted_if(
        parent is Confirmed && declared_main(input, id),
        finding(
            MetadataDiagnosticCode::RoleConflict,
            MetadataDiagnosticSeverity::Conflict,
            Some(id),
            None,
            Some("agent_role"@),
            MetadataSourceKind::RelationshipGraph,
        ),
    )
}

/// What the rollouts of a thread say of its standing.
struct RolloutWords {
    direct: Vec<String>,
    nested: Vec<String>,
    forked: Vec<String>,
    main: bool,
    subagent: bool,
    says_main: bool,
    says_subagent: bool,
    conflict: bool,
}

fn push_parent(parents: &mut Vec<String>, value: &String)
    ensures
        final(parents).deep_view() == old(parents).deep_view().push(value@),
{
    parents.push(value.clone());
    assert(parents.deep_view() =~= old(parents).deep_view().push(value@));
}

fn rollout_words(facts: &Vec<RolloutThreadFact>) -> (r: RolloutWords)
    ensures
        r.direct.deep_view() == hinted_parents(
            facts.deep_view(),
            ParentHintProvenance::SessionMetaParent,
        ),
        r.nested.deep_view() == hinted_parents(
            facts.deep_view(),
            ParentHintProvenance::SubagentSource,
        ),
        r.forked.deep_view() == hinted_parents(
            facts.deep_view(),
            ParentHintProvenance::ForkedFromId,
        ),
        r.main == some_says_main(facts.deep_view()),
        r.subagent == some_says_subagent(facts.deep_view()),
        r.says_main == some_says(facts.deep_view(), "main"@),
        r.says_subagent == some_says(facts.deep_view(), "subagent"@),
        r.conflict == some_conflicts(facts.deep_view()),
{
    let ghost all = facts.deep_view();
    let mut words: RolloutWords = RolloutWords {
        direct: Vec::new(),
        nested: Vec::new(),
        forked: Vec::new(),
        main: false,
        subagent: false,
        says_main: false,
        says_subagent: false,
        conflict: false,
    };
    let mut i: usize = 0;
    proof {
        assert(all.take(0) =~= Seq::<ThreadFacts>::empty());
        assert(words.direct.deep_view() =~= Seq::<Seq<char>>::empty());
        assert(words.nested.deep_view() =~= Seq::<Seq<char>>::empty());
        assert(words.forked.deep_view() =~= Seq::<Seq<char>>::empty());
    }
    while i < facts.len()
        invariant
            i <= facts.len(),
            all == facts.deep_view(),
            words.direct.deep_view() == hinted_parents(
                all.take(i as int),
                ParentHintProvenance::SessionMetaParent,
            ),
            words.nested.deep_view() == hinted_parents(
                all.take(i as int),
                ParentHintProvenance::SubagentSource,
            ),
            words.forked.deep_view() == hinted_parents(
                all.take(i as int),
                ParentHintProvenance::ForkedFromId,
            ),
            words.main <==> exists|j: int| 0 <= j < i && says_main(#[trigger] all[j]),
            words.subagent <==> exists|j: int| 0 <= j < i && says_subagent(#[trigger] all[j]),
            words.says_main <==> exists|j: int| 0 <= j < i && says(#[trigger] all[j], "main"@),
            words.says_subagent <==> exists|j: int|
                0 <= j < i && says(#[trigger] all[j], "subagent"@),
            words.conflict <==> exists|j: int|
                0 <= j < i && (#[trigger] all[j]).relationship_conflict,
        decreases facts.len() - i,
    {
        let fact: &RolloutThreadFact = &facts[i];
        proof {
            assert(all.take(i + 1).drop_last() =~= all.take(i as int));
            assert(all.take(i + 1).last() == all[i as int]);
        }
        if fact.relationship_conflict {
            words.conflict = true;
            assert(all[i as int].relationship_conflict);
        }
        if let Some(parent) = &fact.parent_thread_id_hint {
            match parent.provenance {
                ParentHintProvenance::SessionMetaParent => {
                    push_parent(&mut words.direct, &parent.value);
                },
                ParentHintProvenance::SubagentSource => {
                    push_parent(&mut words.nested, &parent.value);
                },
                ParentHintProvenance::ForkedFromId => {
                    push_parent(&mut words.forked, &parent.value);
                },
            }
        }
        if let Some(role) = &fact.agent_role_hint {
            let main: bool = is_word(role.value.as_str(), "main");
            let subagent: bool = is_word(role.value.as_str(), "subagent");
            if main {
                words.says_main = true;
                assert(says(all[i as int], "main"@));
                if role.provenance == AgentRoleProvenance::SessionMetaRole {
                    words.main = true;
                    assert(says_main(all[i as int]));
                }
            }
            if subagent {
                words.says_subagent = true;
                assert(says(all[i as int], "subagent"@));
            }
            if subagent || role.provenance == AgentRoleProvenance::SubagentSource {
                words.subagent = true;
                assert(says_subagent(all[i as int]));
            }
        }
        i = i + 1;
    }
    assert(all.take(all.len() as int) =~= all);
    words
}

fn spawn_parents(edges: &Vec<SpawnEdgeFact>, id: &String) -> (r: Vec<String>)
    ensures
        r.deep_view() == edge_parents(edges.deep_view(), id@),
{
    let ghost all = edges.deep_view();
    let mut parents: Vec<String> = Vec::new();
    let mut i: usize = 0;
    proof {
        assert(all.take(0) =~= Seq::<Edge>::empty());
        assert(parents.deep_view() =~= Seq::<Seq<char>>::empty());
    }
    while i < edges.len()
        invariant
            i <= edges.len(),
            all == edges.deep_view(),
            parents.deep_view() == edge_parents(all.take(i as int), id@),
        decreases edges.len() - i,
    {
        proof {
            assert(all.take(i + 1).drop_last() =~= all.take(i as int));
            assert(all.take(i + 1).last() == all[i as int]);
        }
        if edges[i].child_thread_id == *id {
            push_parent(&mut parents, &edges[i].parent_thread_id);
        }
        i = i + 1;
    }
    assert(all.take(all.len() as int) =~= all);
    parents
}

fn note_conflicts(diagnostics: &mut Vec<MetadataDiagnostic>, facts: &Vec<RolloutThreadFact>, id: &String)
    ensures
        final(diagnostics).deep_view() == old(diagnostics).deep_view() + conflict_findings(
            facts.deep_view(),
            id@,
        ),
{
    let ghost all = facts.deep_view();
    let ghost before = diagnostics.deep_view();
    let mut i: usize = 0;
    proof {
        assert(all.take(0) =~= Seq::<ThreadFacts>::empty());
        assert(before + Seq::<Finding>::empty() =~= before);
    }
    while i < facts.len()
        invariant
            i <= facts.len(),
            all == facts.deep_view(),
            diagnostics.deep_view() == before + conflict_findings(all.take(i as int), id@),
        decreases facts.len() - i,
    {
        let ghost earlier = conflict_findings(all.take(i as int), id@);
        proof {
            assert(all.take(i + 1).drop_last() =~= all.take(i as int));
            assert(all.take(i + 1).last() == all[i as int]);
        }
        if facts[i].has_conflict {
            note(
                diagnostics,
                MetadataDiagnosticCode::FieldConflict,
                MetadataDiagnosticSeverity::Conflict,
                Some(id.clone()),
                Some(facts[i].source_file_id),
                None,
                MetadataSourceKind::Rollout,
            );
            proof {
                let made = conflict_findings(all.take(i + 1), id@).last();
                assert(before + earlier.push(made) =~= (before + earlier).push(made));
            }
        }
        i = i + 1;
    }
    assert(all.take(all.len() as int) =~= all);
}

fn note_if(
    diagnostics: &mut Vec<MetadataDiagnostic>,
    condition: bool,
    code: MetadataDiagnosticCode,
    id: &String,
    field: &'static str,
    source_kind: MetadataSourceKind,
)
    ensures
        final(diagnostics).deep_view() == old(diagnostics).deep_view() + noted_if(
            condition,
            finding(
                code,
                MetadataDiagnosticSeverity::Conflict,
                Some(id@),
                None,
                Some(field@),
                source_kind,
            ),
        ),
{
    let ghost before = diagnostics.deep_view();
    if condition {
        note(
            diagnostics,
            code,
            MetadataDiagnosticSeverity::Conflict,
            Some(id.clone()),
            None,
            Some(field),
            source_kind,
        );
        proof {
            let made = diagnostics.deep_view().last();
            assert(before + seq![made] =~= before.push(made));
        }
    } else {
        assert(before + Seq::<Finding>::empty() =~= before);
    }
}

/// How a thread stands to others, with the remarks on it.
pub fn relate(input: &ResolutionInput, id: &String, diagnostics: &mut Vec<MetadataDiagnostic>) -> (r:
    Relationship)
    ensures
        r.deep_view() == relation(input.deep_view(), id@),
        final(diagnostics).deep_view() == old(diagnostics).deep_view() + relation_findings(
            input.deep_view(),
            id@,
        ),
{
    proof {
        reveal(relation);
        reveal(relation_findings);
    }
    let ghost before = diagnostics.deep_view();
    let ghost facts_view = input.deep_view();
    let facts: Vec<RolloutThreadFact> = owned_rollouts(&input.rollout_facts, id);
    let words: RolloutWords = rollout_words(&facts);
    let edges: Vec<String> = spawn_parents(&input.state_snapshot.spawn_edges, id);
    let threads: &Vec<StateThreadFact> = &input.state_snapshot.threads;
    assert(threads.deep_view().take(threads@.len() as int) =~= threads.deep_view());
    let (indexed_subagent, indexed_main): (bool, bool) = match find_state_fact(
        threads,
        threads.len(),
        id,
    ) {
        Some(fact) => match &fact.agent_role_hint {
            Some(role) => (is_word(role.as_str(), "subagent"), is_word(role.as_str(), "main")),
            None => (false, false),
        },
        None => (false, false),
    };
    let explicit_main: bool = words.main || (!indexed_subagent && indexed_main);
    let contradictory: bool = words.says_main && words.says_subagent;
    let (parent, contested): (ParentChoice, bool) = choose_parent(
        &edges,
        &words.direct,
        &words.nested,
        &words.forked,
    );
    let confirmed: bool = match &parent {
        ParentChoice::Confirmed(_) => true,
        _ => false,
    };
    note_conflicts(diagnostics, &facts, id);
    note_if(
        diagnostics,
        contradictory,
        MetadataDiagnosticCode::RoleConflict,
        id,
        "agent_role",
        MetadataSourceKind::Rollout,
    );
    note_if(
        diagnostics,
        contested,
        MetadataDiagnosticCode::ParentConflict,
        id,
        "parent_thread_id",
        MetadataSourceKind::RelationshipGraph,
    );
    note_if(
        diagnostics,
        confirmed && explicit_main,
        MetadataDiagnosticCode::RoleConflict,
        id,
        "agent_role",
        MetadataSourceKind::RelationshipGraph,
    );
    assert(diagnostics.deep_view() =~= before + relation_findings(facts_view, id@));
    Relationship {
        parent,
        explicit_main,
        explicit_subagent: words.subagent || indexed_subagent || words.direct.len() > 0
            || words.nested.len() > 0 || words.forked.len() > 0,
        conflict: words.conflict || contradictory || contested || (confirmed && explicit_main),
    }
}

/// The parent of a thread that resolution looks at.
pub open spec fn parent_of(input: InputFacts, ids: Seq<Seq<char>>, id: Seq<char>) -> Option<Seq<char>> {
    if ids.contains(id) {
        match relation(input, id).parent {
            Choice::Confirmed(parent) => Some(parent),
            _ => None,
        }
    } else {
        None
    }
}

/// The `k`-th ancestor of a thread.
pub open spec fn ancestor(input: InputFacts, ids: Seq<Seq<char>>, id: Seq<char>, k: nat) -> Option<
    Seq<char>,
>
    decreases k,
{
    if k == 0 {
        Some(id)
    } else {
        match ancestor(input, ids, id, (k - 1) as nat) {
            Some(above) => parent_of(input, ids, above),
            None => None,
        }
    }
}

/// Whether a thread is an ancestor of itself.
pub open spec fn on_cycle(input: InputFacts, ids: Seq<Seq<char>>, id: Seq<char>) -> bool {
    exists|k: nat|
        1 <= k <= MAX_PARENT_DEPTH && #[trigger] ancestor(input, ids, id, k) == Some(id)
}

proof fn lemma_no_ancestor_stays(input: InputFacts, ids: Seq<Seq<char>>, id: Seq<char>, k: nat, n: nat)
    requires
        ancestor(input, ids, id, k) is None,
        k <= n,
    ensures
        ancestor(input, ids, id, n) is None,
    decreases n,
{
    if k < n {
        lemma_no_ancestor_stays(input, ids, id, k, (n - 1) as nat);
    }
}

/// Where a thread stands among the ids.
pub fn position(ids: &Vec<String>, id: &String) -> (r: Option<usize>)
    ensures
        match r {
            Some(i) => i < ids@.len() && ids@[i as int]@ == id@ && ids.deep_view().contains(id@),
            None => !ids.deep_view().contains(id@),
        },
{
    let mut i: usize = 0;
    while i < ids.len()
        invariant
            i <= ids.len(),
            forall|j: int| 0 <= j < i ==> #[trigger] ids.deep_view()[j] != id@,
        decreases ids.len() - i,
    {
        if ids[i] == *id {
            assert(ids.deep_view()[i as int] == id@);
            return Some(i);
        }
        i = i + 1;
    }
    None
}

/// The relations are those of the ids.
pub open spec fn relations_fit(input: InputFacts, ids: Seq<Seq<char>>, relations: Seq<Relation>) -> bool {
    relations.len() == ids.len() && forall|i: int|
        0 <= i < ids.len() ==> #[trigger] relations[i] == relation(input, ids[i])
}

fn parent_at<'a>(ids: &Vec<String>, relations: &'a Vec<Relationship>, id: &String, input: Ghost<InputFacts>) -> (r:
    Option<&'a String>)
    requires
        relations_fit(input@, ids.deep_view(), relations.deep_view()),
    ensures
        match r {
            Some(parent) => parent_of(input@, ids.deep_view(), id@) == Some(parent@),
            None => parent_of(input@, ids.deep_view(), id@) is None,
        },
{
    match position(ids, id) {
        Some(i) => {
            assert(relations.deep_view()[i as int] == relation(
                input@,
                ids.deep_view()[i as int],
            ));
            match &relations[i].parent {
                ParentChoice::Confirmed(parent) => Some(parent),
                _ => None,
            }
        },
        None => None,
    }
}

/// Whether a thread is an ancestor of itself.
pub(crate) fn cyclic(
    ids: &Vec<String>,
    relations: &Vec<Relationship>,
    id: &String,
    input: Ghost<InputFacts>,
) -> (r: bool)
    requires
        relations_fit(input@, ids.deep_view(), relations.deep_view()),
    ensures
        r == on_cycle(input@, ids.deep_view(), id@),
{
    let ghost names = ids.deep_view();
    let mut current: String = id.clone();
    let mut k: usize = 0;
    while k < MAX_PARENT_DEPTH
        invariant
            k <= MAX_PARENT_DEPTH,
            names == ids.deep_view(),
            relations_fit(input@, names, relations.deep_view()),
            ancestor(input@, names, id@, k as nat) == Some(current@),
            forall|j: nat| 1 <= j <= k ==> #[trigger] ancestor(input@, names, id@, j) != Some(id@),
        decreases MAX_PARENT_DEPTH - k,
    {
        match parent_at(ids, relations, &current, input) {
            None => {
                proof {
                    assert(ancestor(input@, names, id@, (k + 1) as nat) is None);
                    assert forall|j: nat| 1 <= j <= MAX_PARENT_DEPTH implies #[trigger] ancestor(
                        input@,
                        names,
                        id@,
                        j,
                    ) != Some(id@) by {
                        if j > k {
                            lemma_no_ancestor_stays(input@, names, id@, (k + 1) as nat, j);
                        }
                    }
                }
                return false;
            },
            Some(parent) => {
                assert(ancestor(input@, names, id@, (k + 1) as nat) == Some(parent@));
                if *parent == *id {
                    return true;
                }
                current = parent.clone();
            },
        }
        k = k + 1;
    }
    false
}

pub open spec fn owns_rollout(input: InputFacts, id: Seq<char>) -> bool {
    exists|i: int|
        0 <= i < input.rollouts.len() && (#[trigger] input.rollouts[i]).owning_thread_id == id
}

/// Some source that names threads of its own knows the thread.
pub open spec fn trusted_identity(input: InputFacts, id: Seq<char>) -> bool {
    (exists|i: int| 0 <= i < input.threads.len() && (#[trigger] input.threads[i]).thread_id == id)
        || owns_rollout(input, id)
}

/// The part that a thread plays. `None` where nothing tells.
pub open spec fn role_of(input: InputFacts, ids: Seq<Seq<char>>, id: Seq<char>) -> Option<AgentRole> {
    let relation = relation(input, id);
    if !ids.contains(id) {
        None
    } else if relation.conflict || on_cycle(input, ids, id) {
        Some(AgentRole::Unknown)
    } else if relation.parent is Confirmed {
        Some(AgentRole::Subagent)
    } else if relation.explicit_subagent {
        Some(AgentRole::Unknown)
    } else if relation.explicit_main || (input.state_complete && input.edges_complete
        && trusted_identity(input, id)) {
        Some(AgentRole::Main)
    } else {
        None
    }
}

/// Some source but a hint knows the thread.
pub open spec fn trusted(input: InputFacts, id: Seq<char>) -> bool {
    ||| trusted_identity(input, id)
    ||| exists|i: int|
        0 <= i < input.existing.len() && (#[trigger] input.existing[i]).thread_id == id
    ||| exists|i: int|
        0 <= i < input.sessions.len() && (#[trigger] input.sessions[i]).thread_id == id
}

#[derive(Clone, Copy, Debug, PartialEq, Eq, Structural)]
pub enum RootState {
    Resolved,
    MissingParent,
    Conflict,
    Unknown,
}

/// The root of a session tree, found by following parents from `current` at most `steps`
/// times.
pub open spec fn root_from(
    input: InputFacts,
    ids: Seq<Seq<char>>,
    current: Seq<char>,
    steps: nat,
) -> (Option<Seq<char>>, RootState)
    decreases steps,
{
    if steps == 0 || on_cycle(input, ids, current) {
        (None, RootState::Conflict)
    } else {
        match role_of(input, ids, current) {
            None => (None, RootState::Unknown),
            Some(AgentRole::Main) => (Some(current), RootState::Resolved),
            Some(AgentRole::Unknown) => (
                None,
                if relation(input, current).conflict {
                    RootState::Conflict
                } else {
                    RootState::Unknown
                },
            ),
            Some(AgentRole::Subagent) => match relation(input, current).parent {
                Choice::Confirmed(parent) => if trusted(input, parent) {
                    root_from(input, ids, parent, (steps - 1) as nat)
                } else {
                    (None, RootState::MissingParent)
                },
                Choice::Unresolved => (None, RootState::Conflict),
                Choice::NoneConfirmed => (None, RootState::Unknown),
            },
        }
    }
}

/// The root of the session tree of a thread.
pub open spec fn root_of(input: InputFacts, ids: Seq<Seq<char>>, id: Seq<char>) -> (
    Option<Seq<char>>,
    RootState,
) {
    root_from(input, ids, id, (MAX_PARENT_DEPTH + 1) as nat)
}

fn has_thread(threads: &Vec<StateThreadFact>, id: &String) -> (r: bool)
    ensures
        r <==> exists|i: int|
            0 <= i < threads.deep_view().len() && (#[trigger] threads.deep_view()[i]).thread_id
                == id@,
{
    let mut i: usize = 0;
    while i < threads.len()
        invariant
            i <= threads.len(),
            forall|j: int| 0 <= j < i ==> (#[trigger] threads.deep_view()[j]).thread_id != id@,
        decreases threads.len() - i,
    {
        if threads[i].thread_id == *id {
            assert(threads.deep_view()[i as int].thread_id == id@);
            return true;
        }
        i = i + 1;
    }
    false
}

fn has_rollout(rollouts: &Vec<RolloutThreadFact>, id: &String) -> (r: bool)
    ensures
        r <==> exists|i: int|
            0 <= i < rollouts.deep_view().len() && (
            #[trigger] rollouts.deep_view()[i]).owning_thread_id == id@,
{
    let mut i: usize = 0;
    while i < rollouts.len()
        invariant
            i <= rollouts.len(),
            forall|j: int|
                0 <= j < i ==> (#[trigger] rollouts.deep_view()[j]).owning_thread_id != id@,
        decreases rollouts.len() - i,
    {
        if rollouts[i].owning_thread_id == *id {
            assert(rollouts.deep_view()[i as int].owning_thread_id == id@);
            return true;
        }
        i = i + 1;
    }
    false
}

fn has_existing(existing: &Vec<ExistingThread>, id: &String) -> (r: bool)
    ensures
        r <==> exists|i: int|
            0 <= i < existing.deep_view().len() && (#[trigger] existing.deep_view()[i]).thread_id
                == id@,
{
    let mut i: usize = 0;
    while i < existing.len()
        invariant
            i <= existing.len(),
            forall|j: int| 0 <= j < i ==> (#[trigger] existing.deep_view()[j]).thread_id != id@,
        decreases existing.len() - i,
    {
        if existing[i].thread_id == *id {
            assert(existing.deep_view()[i as int].thread_id == id@);
            return true;
        }
        i = i + 1;
    }
    false
}

fn has_session(sessions: &Vec<SessionNameFact>, id: &String) -> (r: bool)
    ensures
        r <==> exists|i: int|
            0 <= i < sessions.deep_view().len() && (#[trigger] sessions.deep_view()[i]).thread_id
                == id@,
{
    let mut i: usize = 0;
    while i < sessions.len()
        invariant
            i <= sessions.len(),
            forall|j: int| 0 <= j < i ==> (#[trigger] sessions.deep_view()[j]).thread_id != id@,
        decreases sessions.len() - i,
    {
        if sessions[i].thread_id == *id {
            assert(sessions.deep_view()[i as int].thread_id == id@);
            return true;
        }
        i = i + 1;
    }
    false
}

pub fn is_trusted_identity(input: &ResolutionInput, id: &String) -> (r: bool)
    ensures
        r == trusted_identity(input.deep_view(), id@),
{
    has_thread(&input.state_snapshot.threads, id) || has_rollout(&input.rollout_facts, id)
}

pub fn is_trusted(input: &ResolutionInput, id: &String) -> (r: bool)
    ensures
        r == trusted(input.deep_view(), id@),
{
    is_trusted_identity(input, id) || has_existing(&input.existing_threads, id) || has_session(
        &input.session_name_snapshot.facts,
        id,
    )
}

/// The threads of a resolution, with how they stand to each other.
pub struct Graph {
    pub ids: Vec<String>,
    pub relations: Vec<Relationship>,
    pub cyclic: Vec<bool>,
    pub roles: Vec<Option<AgentRole>>,
}

impl Graph {
    /// The graph is that of the ids.
    pub open spec fn fits(self, input: InputFacts) -> bool {
        let ids = self.ids.deep_view();
        &&& relations_fit(input, ids, self.relations.deep_view())
        &&& self.cyclic@.len() == ids.len()
        &&& self.roles@.len() == ids.len()
        &&& forall|i: int|
            0 <= i < ids.len() ==> #[trigger] self.cyclic@[i] == on_cycle(input, ids, ids[i])
        &&& forall|i: int|
            0 <= i < ids.len() ==> #[trigger] self.roles@[i] == role_of(input, ids, ids[i])
    }
}

/// The part that a thread plays.
pub(crate) fn resolve_role(
    input: &ResolutionInput,
    ids: &Vec<String>,
    relation: &Relationship,
    cyclic: bool,
    id: &String,
) -> (r: Option<AgentRole>)
    requires
        ids.deep_view().contains(id@),
        relation.deep_view() == self::relation(input.deep_view(), id@),
        cyclic == on_cycle(input.deep_view(), ids.deep_view(), id@),
    ensures
        r == role_of(input.deep_view(), ids.deep_view(), id@),
{
    let confirmed: bool = match &relation.parent {
        ParentChoice::Confirmed(_) => true,
        _ => false,
    };
    if relation.conflict || cyclic {
        Some(AgentRole::Unknown)
    } else if confirmed {
        Some(AgentRole::Subagent)
    } else if relation.explicit_subagent {
        Some(AgentRole::Unknown)
    } else if relation.explicit_main || (input.state_snapshot.status.is_complete()
        && input.state_snapshot.spawn_edges_status.is_complete() && is_trusted_identity(
        input,
        id,
    )) {
        Some(AgentRole::Main)
    } else {
        None
    }
}

pub open spec fn root_view(root: (Option<String>, RootState)) -> (Option<Seq<char>>, RootState) {
    (root.0.deep_view(), root.1)
}

/// The root of the session tree of a thread.
pub(crate) fn walk_root(input: &ResolutionInput, graph: &Graph, start: &String) -> (r: (
    Option<String>,
    RootState,
))
    requires
        graph.fits(input.deep_view()),
    ensures
        root_view(r) == root_of(input.deep_view(), graph.ids.deep_view(), start@),
{
    let ghost facts = input.deep_view();
    let ghost ids = graph.ids.deep_view();
    let mut current: String = start.clone();
    let mut steps: usize = MAX_PARENT_DEPTH + 1;
    while steps > 0
        invariant
            graph.fits(facts),
            facts == input.deep_view(),
            ids == graph.ids.deep_view(),
            root_of(facts, ids, start@) == root_from(facts, ids, current@, steps as nat),
        decreases steps,
    {
        let i: usize = match position(&graph.ids, &current) {
            None => {
                proof {
                    lemma_stranger_is_alone(facts, ids, current@);
                }
                return (None, RootState::Unknown);
            },
            Some(i) => i,
        };
        proof {
            assert(ids[i as int] == current@);
            assert(graph.cyclic@[i as int] == on_cycle(facts, ids, current@));
            assert(graph.roles@[i as int] == role_of(facts, ids, current@));
            assert(graph.relations.deep_view()[i as int] == relation(facts, current@));
        }
        if graph.cyclic[i] {
            return (None, RootState::Conflict);
        }
        match graph.roles[i] {
            None => {
                return (None, RootState::Unknown);
            },
            Some(AgentRole::Main) => {
                return (Some(current), RootState::Resolved);
            },
            Some(AgentRole::Unknown) => {
                return (
                    None,
                    if graph.relations[i].conflict {
                        RootState::Conflict
                    } else {
                        RootState::Unknown
                    },
                );
            },
            Some(AgentRole::Subagent) => {},
        }
        match &graph.relations[i].parent {
            ParentChoice::Confirmed(parent) => {
                if !is_trusted(input, parent) {
                    return (None, RootState::MissingParent);
                }
                current = parent.clone();
            },
            ParentChoice::Unresolved => {
                return (None, RootState::Conflict);
            },
            ParentChoice::NoneConfirmed => {
                return (None, RootState::Unknown);
            },
        }
        steps = steps - 1;
    }
    (None, RootState::Conflict)
}

/// A thread that resolution does not look at has no parent.
proof fn lemma_stranger_is_alone(input: InputFacts, ids: Seq<Seq<char>>, id: Seq<char>)
    requires
        !ids.contains(id),
    ensures
        !on_cycle(input, ids, id),
{
    assert(ancestor(input, ids, id, 0) == Some(id));
    assert(ancestor(input, ids, id, 1) is None);
    assert forall|k: nat| 1 <= k <= MAX_PARENT_DEPTH implies #[trigger] ancestor(input, ids, id, k)
        != Some(id) by {
        lemma_no_ancestor_stays(input, ids, id, 1, k);
    }
}

} // verus!
