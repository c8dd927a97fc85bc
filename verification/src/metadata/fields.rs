//! The fields of one thread: title, project, model, times and file.
use vstd::prelude::*;
use vstd::string::*;

use crate::domain::{FileStatus, SourceArea, SourceFileState};
use crate::identifiers::latest_context_order_ms;
#[allow(unused_imports)]
use crate::identifiers::context_order;
use crate::order::{
    compare_i64, compare_optional_i64, compare_optional_u64, compare_texts, compare_u64, Rank,
};
#[allow(unused_imports)]
use crate::order::{as_int, int_rank, optional_int_rank, text_rank, unsigned_as_int};
use crate::paths::normalize_agent_path;
#[allow(unused_imports)]
use crate::paths::agent_path;
use crate::rollout::{CwdProvenance, RolloutThreadFact};
#[allow(unused_imports)]
use crate::rollout::ThreadFacts;
#[allow(unused_imports)]
use crate::rollout_parser::cwd_rank;
use crate::session_index::SessionNameFact;
#[allow(unused_imports)]
use crate::session_index::NamedThread;
use crate::shared::AgentRole;
use crate::platform::{file_name_on_windows, starts_at_root, Platform};
#[allow(unused_imports)]
use crate::platform::{is_absolute, windows_file_name};
use crate::state_index::StateThreadFact;
#[allow(unused_imports)]
use crate::state_index::IndexedThread;
use crate::text::{chars_of, same_optional_text, text_of, trimmed};
#[allow(unused_imports)]
use crate::text::trim;

verus! {

/// A character in upper case.
pub uninterp spec fn uppercase(c: char) -> Seq<char>;

/// `char::to_uppercase`: the upper case of a character is one or more characters, a function
/// of the character alone.
#[verifier::external_body]
fn uppercase_text(c: char) -> (r: String)
    ensures
        r@ == uppercase(c),
{
    c.to_uppercase().to_string()
}

/// The text after the last `/`.
pub open spec fn after_last_slash(s: Seq<char>) -> Seq<char>
    decreases s.len(),
{
    if s.len() == 0 || s.last() == '/' {
        Seq::empty()
    } else {
        after_last_slash(s.drop_last()).push(s.last())
    }
}

/// The text with `_` as a blank, and one blank for a run of them.
pub open spec fn spaced(s: Seq<char>) -> Seq<char>
    decreases s.len(),
{
    if s.len() == 0 {
        Seq::empty()
    } else {
        let before = spaced(s.drop_last());
        let c = if s.last() == '_' {
            ' '
        } else {
            s.last()
        };
        if c == ' ' && before.len() > 0 && before.last() == ' ' {
            before
        } else {
            before.push(c)
        }
    }
}

/// The last component of an agent path in words, if there are any.
pub open spec fn path_words(platform: Platform, raw: Seq<char>) -> Option<Seq<char>> {
    match agent_path(platform, raw) {
        None => None,
        Some(normalized) => {
            let words = trim(spaced(after_last_slash(normalized)));
            if words.len() == 0 {
                None
            } else {
                Some(words)
            }
        },
    }
}

/// The title that an agent path gives: its last component in words, capitalized.
pub open spec fn path_title(platform: Platform, raw: Seq<char>) -> Option<Seq<char>> {
    match path_words(platform, raw) {
        Some(words) => Some(uppercase(words[0]) + words.drop_first()),
        None => None,
    }
}

proof fn lemma_after_last_slash(s: Seq<char>, n: int)
    requires
        0 <= n <= s.len(),
        forall|i: int| n <= i < s.len() ==> #[trigger] s[i] != '/',
        n > 0 ==> s[n - 1] == '/',
    ensures
        after_last_slash(s) == s.skip(n),
    decreases s.len(),
{
    if s.len() > n {
        assert forall|i: int| n <= i < s.drop_last().len() implies #[trigger] s.drop_last()[i]
            != '/' by {
            assert(s[i] != '/');
        }
        assert(s[s.len() - 1] != '/');
        lemma_after_last_slash(s.drop_last(), n);
        assert(s.drop_last().skip(n).push(s.last()) =~= s.skip(n));
    } else {
        assert(s.skip(n) =~= Seq::<char>::empty());
    }
}

/// The last component of an agent path in words.
pub fn agent_path_words(platform: Platform, raw: &str) -> (r: Option<String>)
    ensures
        r.deep_view() == path_words(platform, raw@),
{
    let normalized: String = match normalize_agent_path(platform, raw) {
        Some(path) => path,
        None => {
            return None;
        },
    };
    let chars: Vec<char> = chars_of(normalized.as_str());
    let mut from: usize = chars.len();
    while from > 0 && chars[from - 1] != '/'
        invariant
            from <= chars.len(),
            forall|i: int| from <= i < chars@.len() ==> #[trigger] chars@[i] != '/',
        decreases from,
    {
        from = from - 1;
    }
    let ghost component = normalized@.skip(from as int);
    proof {
        lemma_after_last_slash(normalized@, from as int);
    }
    let mut words: Vec<char> = Vec::new();
    let mut i: usize = from;
    assert(component.take(0) =~= Seq::<char>::empty());
    while i < chars.len()
        invariant
            from <= i <= chars.len(),
            chars@ == normalized@,
            component == normalized@.skip(from as int),
            words@ == spaced(component.take(i - from)),
        decreases chars.len() - i,
    {
        let c: char = if chars[i] == '_' {
            ' '
        } else {
            chars[i]
        };
        proof {
            assert(component.take(i + 1 - from).drop_last() =~= component.take(i - from));
            assert(component.take(i + 1 - from).last() == chars@[i as int]);
        }
        if c != ' ' || words.len() == 0 || words[words.len() - 1] != ' ' {
            words.push(c);
        }
        i = i + 1;
    }
    assert(component.take(component.len() as int) =~= component);
    let collapsed: String = text_of(&words);
    let collapsed: String = trimmed(collapsed.as_str());
    if collapsed.as_str().is_empty() {
        None
    } else {
        Some(collapsed)
    }
}

/// The title that an agent path gives.
pub fn subagent_title_from_agent_path(platform: Platform, raw: &str) -> (r: Option<String>)
    ensures
        r.deep_view() == path_title(platform, raw@),
{
    match agent_path_words(platform, raw) {
        Some(words) => {
            let words: &str = words.as_str();
            let mut title: String = uppercase_text(words.get_char(0));
            title.append(words.substring_char(1, words.unicode_len()));
            assert(words@.subrange(1, words@.len() as int) =~= words@.drop_first());
            Some(title)
        },
        None => None,
    }
}

/// The first title that an agent path of a rollout gives.
pub open spec fn rollout_title(platform: Platform, facts: Seq<ThreadFacts>) -> Option<Seq<char>>
    decreases facts.len(),
{
    if facts.len() == 0 {
        None
    } else {
        let first = match facts.first().agent_path {
            Some(hint) => path_title(platform, hint.value),
            None => None,
        };
        if first is Some {
            first
        } else {
            rollout_title(platform, facts.drop_first())
        }
    }
}

pub open spec fn state_name(state: Option<IndexedThread>) -> Option<Seq<char>> {
    match state {
        Some(fact) => if fact.name is Some {
            fact.name
        } else {
            fact.title
        },
        None => None,
    }
}

/// The title of a thread: its name in a complete state index, its name in the session index,
/// and for a subagent without a title one that its path gives.
pub open spec fn thread_title(
    platform: Platform,
    state_complete: bool,
    role: Option<AgentRole>,
    state: Option<IndexedThread>,
    session: Option<NamedThread>,
    rollouts: Seq<ThreadFacts>,
    titled: bool,
) -> Option<Seq<char>> {
    if state_complete && state_name(state) is Some {
        state_name(state)
    } else if state_complete && session is Some {
        Some(session->0.thread_name)
    } else if role != Some(AgentRole::Subagent) || titled {
        None
    } else {
        let by_state = if state_complete && state is Some && state->0.agent_path is Some {
            path_title(platform, state->0.agent_path->0)
        } else {
            None
        };
        if by_state is Some {
            by_state
        } else {
            rollout_title(platform, rollouts)
        }
    }
}

pub open spec fn state_view(state: Option<&StateThreadFact>) -> Option<IndexedThread> {
    match state {
        Some(fact) => Some(fact.deep_view()),
        None => None,
    }
}

pub open spec fn session_view(session: Option<&SessionNameFact>) -> Option<NamedThread> {
    match session {
        Some(fact) => Some(fact.deep_view()),
        None => None,
    }
}

pub fn resolve_thread_title(
    platform: Platform,
    state_complete: bool,
    role: Option<AgentRole>,
    state: Option<&StateThreadFact>,
    session_name: Option<&SessionNameFact>,
    rollouts: &Vec<RolloutThreadFact>,
    titled: bool,
) -> (r: Option<String>)
    ensures
        r.deep_view() == thread_title(
            platform,
            state_complete,
            role,
            state_view(state),
            session_view(session_name),
            rollouts.deep_view(),
            titled,
        ),
{
    if state_complete {
        if let Some(fact) = state {
            if let Some(name) = &fact.name {
                return Some(name.clone());
            }
            if let Some(title) = &fact.title {
                return Some(title.clone());
            }
        }
        if let Some(fact) = session_name {
            return Some(fact.thread_name.clone());
        }
    }
    let subagent: bool = match role {
        Some(AgentRole::Subagent) => true,
        _ => false,
    };
    if !subagent || titled {
        return None;
    }
    if state_complete {
        if let Some(fact) = state {
            if let Some(path) = &fact.agent_path {
                if let Some(title) = subagent_title_from_agent_path(platform, path.as_str()) {
                    return Some(title);
                }
            }
        }
    }
    title_of_rollouts(platform, rollouts)
}

fn title_of_rollouts(platform: Platform, rollouts: &Vec<RolloutThreadFact>) -> (r: Option<String>)
    ensures
        r.deep_view() == rollout_title(platform, rollouts.deep_view()),
{
    let ghost all = rollouts.deep_view();
    let mut i: usize = 0;
    assert(all.skip(0) =~= all);
    while i < rollouts.len()
        invariant
            i <= rollouts.len(),
            all == rollouts.deep_view(),
            rollout_title(platform, all) == rollout_title(platform, all.skip(i as int)),
        decreases rollouts.len() - i,
    {
        proof {
            assert(all.skip(i as int).first() == all[i as int]);
            assert(all.skip(i as int).drop_first() =~= all.skip(i + 1));
        }
        if let Some(candidate) = &rollouts[i].agent_path {
            if let Some(title) = subagent_title_from_agent_path(platform, candidate.value.as_str()) {
                return Some(title);
            }
        }
        i = i + 1;
    }
    None
}

/// A working directory with what decides between several.
pub struct CwdChoice {
    pub rank: int,
    pub offset: u64,
    pub source_file_id: i64,
    pub value: Seq<char>,
}

pub open spec fn cwd_choice(fact: ThreadFacts) -> Option<CwdChoice> {
    match fact.cwd {
        Some(hint) => Some(
            CwdChoice {
                rank: cwd_rank(hint.provenance),
                offset: hint.record_offset,
                source_file_id: fact.source_file_id,
                value: hint.value,
            },
        ),
        None => None,
    }
}

/// The higher rank first; then the earlier record, the lower file, the lesser text.
pub open spec fn cwd_order(a: CwdChoice, b: CwdChoice) -> Rank {
    int_rank(b.rank, a.rank).or(
        int_rank(a.offset as int, b.offset as int).or(
            int_rank(a.source_file_id as int, b.source_file_id as int).or(
                text_rank(a.value, b.value),
            ),
        ),
    )
}

pub open spec fn best_cwd(facts: Seq<ThreadFacts>) -> Option<CwdChoice>
    decreases facts.len(),
{
    if facts.len() == 0 {
        None
    } else {
        let best = best_cwd(facts.drop_last());
        match (cwd_choice(facts.last()), best) {
            (None, _) => best,
            (Some(c), None) => Some(c),
            (Some(c), Some(b)) => if cwd_order(c, b) is Before {
                Some(c)
            } else {
                best
            },
        }
    }
}

pub open spec fn cwd_of(facts: Seq<ThreadFacts>) -> Option<Seq<char>> {
    match best_cwd(facts) {
        Some(best) => Some(best.value),
        None => None,
    }
}

/// Whether another directory of the same rank says otherwise.
pub open spec fn contradicts_cwd(fact: ThreadFacts, best: CwdChoice) -> bool {
    cwd_choice(fact) is Some && cwd_choice(fact)->0.rank == best.rank && cwd_choice(fact)->0.value
        != best.value
}

pub open spec fn cwd_conflict(facts: Seq<ThreadFacts>) -> bool {
    best_cwd(facts) is Some && exists|i: int|
        0 <= i < facts.len() && contradicts_cwd(#[trigger] facts[i], best_cwd(facts)->0)
}

fn cwd_priority(provenance: CwdProvenance) -> (r: u8)
    ensures
        r == cwd_rank(provenance),
{
    match provenance {
        CwdProvenance::SessionMeta => 2,
        CwdProvenance::TurnContext => 1,
    }
}

/// The working directory that the rollouts give, and whether they contradict each other.
pub fn select_rollout_cwd(facts: &Vec<RolloutThreadFact>) -> (r: (Option<String>, bool))
    ensures
        r.0.deep_view() == cwd_of(facts.deep_view()),
        r.1 == cwd_conflict(facts.deep_view()),
{
    let ghost all = facts.deep_view();
    let mut best: Option<usize> = None;
    let mut i: usize = 0;
    assert(all.take(0) =~= Seq::<ThreadFacts>::empty());
    while i < facts.len()
        invariant
            i <= facts.len(),
            all == facts.deep_view(),
            match best {
                Some(b) => b < i && facts@[b as int].cwd is Some && best_cwd(all.take(i as int))
                    == cwd_choice(all[b as int]),
                None => best_cwd(all.take(i as int)) is None,
            },
        decreases facts.len() - i,
    {
        proof {
            assert(all.take(i + 1).drop_last() =~= all.take(i as int));
            assert(all.take(i + 1).last() == all[i as int]);
        }
        if let Some(cwd) = &facts[i].cwd {
            let replaces: bool = match best {
                None => true,
                Some(b) => match &facts[b].cwd {
                    None => true,
                    Some(current) => compare_u64(
                        cwd_priority(current.provenance) as u64,
                        cwd_priority(cwd.provenance) as u64,
                    ).or_else(
                        compare_u64(cwd.record_offset, current.record_offset).or_else(
                            compare_i64(facts[i].source_file_id, facts[b].source_file_id).or_else(
                                compare_texts(cwd.value.as_str(), current.value.as_str()),
                            ),
                        ),
                    ) == Rank::Before,
                },
            };
            if replaces {
                best = Some(i);
            }
        }
        i = i + 1;
    }
    assert(all.take(all.len() as int) =~= all);
    match best {
        None => (None, false),
        Some(b) => match &facts[b].cwd {
            None => (None, false),
            Some(selected) => {
                let priority: u8 = cwd_priority(selected.provenance);
                let mut conflict: bool = false;
                let mut k: usize = 0;
                while k < facts.len()
                    invariant
                        k <= facts.len(),
                        b < facts.len(),
                        all == facts.deep_view(),
                        facts@[b as int].cwd == Some(*selected),
                        best_cwd(all) == cwd_choice(all[b as int]),
                        priority == cwd_rank(selected.provenance),
                        conflict <==> exists|j: int|
                            0 <= j < k && contradicts_cwd(#[trigger] all[j], best_cwd(all)->0),
                    decreases facts.len() - k,
                {
                    if let Some(cwd) = &facts[k].cwd {
                        if cwd_priority(cwd.provenance) == priority && cwd.value
                            != selected.value {
                            conflict = true;
                            assert(contradicts_cwd(all[k as int], best_cwd(all)->0));
                        }
                    }
                    k = k + 1;
                }
                (Some(selected.value.clone()), conflict)
            },
        },
    }
}

/// A model with what decides between several.
pub struct ModelChoice {
    pub turn_id: Option<Seq<char>>,
    pub order_ms: Option<i64>,
    pub offset: Option<u64>,
    pub source_file_id: i64,
    pub model: Seq<char>,
}

pub open spec fn model_choice(fact: ThreadFacts) -> Option<ModelChoice> {
    match fact.latest_context_model {
        Some(model) => Some(
            ModelChoice {
                turn_id: fact.latest_context_turn_id,
                order_ms: context_order(fact.latest_context_turn_id, fact.latest_context_at_ms),
                offset: fact.latest_context_record_offset,
                source_file_id: fact.source_file_id,
                model,
            },
        ),
        None => None,
    }
}

/// The later observation first; then the later record, the lower file, the lesser text.
pub open spec fn model_order(a: ModelChoice, b: ModelChoice) -> Rank {
    optional_int_rank(as_int(b.order_ms), as_int(a.order_ms)).or(
        optional_int_rank(unsigned_as_int(b.offset), unsigned_as_int(a.offset)).or(
            int_rank(a.source_file_id as int, b.source_file_id as int).or(
                text_rank(a.model, b.model),
            ),
        ),
    )
}

pub open spec fn best_model(facts: Seq<ThreadFacts>) -> Option<ModelChoice>
    decreases facts.len(),
{
    if facts.len() == 0 {
        None
    } else {
        let best = best_model(facts.drop_last());
        match (model_choice(facts.last()), best) {
            (None, _) => best,
            (Some(c), None) => Some(c),
            (Some(c), Some(b)) => if model_order(c, b) is Before {
                Some(c)
            } else {
                best
            },
        }
    }
}

pub open spec fn model_of(facts: Seq<ThreadFacts>) -> Option<Seq<char>> {
    match best_model(facts) {
        Some(best) => Some(best.model),
        None => None,
    }
}

/// Whether another observation of the same turn, or without turns of the same time, says
/// otherwise.
pub open spec fn contradicts_model(fact: ThreadFacts, best: ModelChoice) -> bool {
    &&& model_choice(fact) is Some
    &&& model_choice(fact)->0.turn_id == best.turn_id
    &&& best.turn_id is Some || model_choice(fact)->0.order_ms == best.order_ms
    &&& model_choice(fact)->0.model != best.model
}

pub open spec fn model_conflict(facts: Seq<ThreadFacts>) -> bool {
    best_model(facts) is Some && exists|i: int|
        0 <= i < facts.len() && contradicts_model(#[trigger] facts[i], best_model(facts)->0)
}

fn compare_models(a: &RolloutThreadFact, b: &RolloutThreadFact) -> (r: Rank)
    requires
        a.latest_context_model is Some,
        b.latest_context_model is Some,
    ensures
        r == model_order(model_choice(a.deep_view())->0, model_choice(b.deep_view())->0),
{
    let models: Rank = match (&a.latest_context_model, &b.latest_context_model) {
        (Some(a), Some(b)) => compare_texts(a.as_str(), b.as_str()),
        _ => Rank::Same,
    };
    compare_optional_i64(
        latest_context_order_ms(&b.latest_context_turn_id, b.latest_context_at_ms),
        latest_context_order_ms(&a.latest_context_turn_id, a.latest_context_at_ms),
    ).or_else(
        compare_optional_u64(
            b.latest_context_record_offset,
            a.latest_context_record_offset,
        ).or_else(compare_i64(a.source_file_id, b.source_file_id).or_else(models)),
    )
}

fn same_moment(a: Option<i64>, b: Option<i64>) -> (r: bool)
    ensures
        r == (a == b),
{
    match (a, b) {
        (Some(a), Some(b)) => a == b,
        (None, None) => true,
        _ => false,
    }
}

/// The model that the rollouts give, and whether they contradict each other.
pub fn select_rollout_model(facts: &Vec<RolloutThreadFact>) -> (r: (Option<String>, bool))
    ensures
        r.0.deep_view() == model_of(facts.deep_view()),
        r.1 == model_conflict(facts.deep_view()),
{
    let ghost all = facts.deep_view();
    let mut best: Option<usize> = None;
    let mut i: usize = 0;
    assert(all.take(0) =~= Seq::<ThreadFacts>::empty());
    while i < facts.len()
        invariant
            i <= facts.len(),
            all == facts.deep_view(),
            match best {
                Some(b) => b < i && facts@[b as int].latest_context_model is Some && best_model(
                    all.take(i as int),
                ) == model_choice(all[b as int]),
                None => best_model(all.take(i as int)) is None,
            },
        decreases facts.len() - i,
    {
        proof {
            assert(all.take(i + 1).drop_last() =~= all.take(i as int));
            assert(all.take(i + 1).last() == all[i as int]);
        }
        if facts[i].latest_context_model.is_some() {
            let replaces: bool = match best {
                None => true,
                Some(b) => compare_models(&facts[i], &facts[b]) == Rank::Before,
            };
            if replaces {
                best = Some(i);
            }
        }
        i = i + 1;
    }
    assert(all.take(all.len() as int) =~= all);
    let b: usize = match best {
        None => {
            return (None, false);
        },
        Some(b) => b,
    };
    let selected: &RolloutThreadFact = &facts[b];
    let order_ms: Option<i64> = latest_context_order_ms(
        &selected.latest_context_turn_id,
        selected.latest_context_at_ms,
    );
    let mut conflict: bool = false;
    let mut k: usize = 0;
    while k < facts.len()
        invariant
            k <= facts.len(),
            b < facts.len(),
            all == facts.deep_view(),
            *selected == facts@[b as int],
            selected.latest_context_model is Some,
            best_model(all) == model_choice(all[b as int]),
            order_ms == context_order(
                selected.deep_view().latest_context_turn_id,
                selected.latest_context_at_ms,
            ),
            conflict <==> exists|j: int|
                0 <= j < k && contradicts_model(#[trigger] all[j], best_model(all)->0),
        decreases facts.len() - k,
    {
        let fact: &RolloutThreadFact = &facts[k];
        if fact.latest_context_model.is_some() && same_optional_text(
            &fact.latest_context_turn_id,
            &selected.latest_context_turn_id,
        ) && (selected.latest_context_turn_id.is_some() || same_moment(
            latest_context_order_ms(&fact.latest_context_turn_id, fact.latest_context_at_ms),
            order_ms,
        )) && !same_optional_text(&fact.latest_context_model, &selected.latest_context_model) {
            conflict = true;
            assert(contradicts_model(all[k as int], best_model(all)->0));
        }
        k = k + 1;
    }
    (selected.latest_context_model.clone(), conflict)
}

/// The earliest creation time that the rollouts give.
pub open spec fn earliest_creation(facts: Seq<ThreadFacts>) -> Option<i64>
    decreases facts.len(),
{
    if facts.len() == 0 {
        None
    } else {
        lesser(earliest_creation(facts.drop_last()), facts.last().created_at_ms)
    }
}

/// The lesser of the times that are there.
pub open spec fn lesser(a: Option<i64>, b: Option<i64>) -> Option<i64> {
    match (a, b) {
        (Some(x), Some(y)) => if y < x {
            b
        } else {
            a
        },
        (Some(_), None) => a,
        (None, _) => b,
    }
}

/// The greater of the times that are there.
pub open spec fn greater(a: Option<i64>, b: Option<i64>) -> Option<i64> {
    match (a, b) {
        (Some(x), Some(y)) => if y > x {
            b
        } else {
            a
        },
        (Some(_), None) => a,
        (None, _) => b,
    }
}

/// The latest model observation of the rollouts.
pub open spec fn latest_context(facts: Seq<ThreadFacts>) -> Option<i64>
    decreases facts.len(),
{
    if facts.len() == 0 {
        None
    } else {
        greater(latest_context(facts.drop_last()), facts.last().latest_context_at_ms)
    }
}

pub fn greater_time(a: Option<i64>, b: Option<i64>) -> (r: Option<i64>)
    ensures
        r == greater(a, b),
{
    match (a, b) {
        (Some(x), Some(y)) => if y > x {
            b
        } else {
            a
        },
        (Some(_), None) => a,
        (None, _) => b,
    }
}

/// The earliest creation time and the latest model observation of the rollouts.
pub fn rollout_times(facts: &Vec<RolloutThreadFact>) -> (r: (Option<i64>, Option<i64>))
    ensures
        r.0 == earliest_creation(facts.deep_view()),
        r.1 == latest_context(facts.deep_view()),
{
    let ghost all = facts.deep_view();
    let mut created: Option<i64> = None;
    let mut latest: Option<i64> = None;
    let mut i: usize = 0;
    assert(all.take(0) =~= Seq::<ThreadFacts>::empty());
    while i < facts.len()
        invariant
            i <= facts.len(),
            all == facts.deep_view(),
            created == earliest_creation(all.take(i as int)),
            latest == latest_context(all.take(i as int)),
        decreases facts.len() - i,
    {
        proof {
            assert(all.take(i + 1).drop_last() =~= all.take(i as int));
            assert(all.take(i + 1).last() == all[i as int]);
        }
        created =
        match (created, facts[i].created_at_ms) {
            (Some(x), Some(y)) => if y < x {
                Some(y)
            } else {
                Some(x)
            },
            (Some(x), None) => Some(x),
            (None, y) => y,
        };
        latest = greater_time(latest, facts[i].latest_context_at_ms);
        i = i + 1;
    }
    assert(all.take(all.len() as int) =~= all);
    (created, latest)
}

/// A rollout file as far as the resolver looks at it.
pub struct SourceFacts {
    pub source_file_id: i64,
    pub thread_id: Option<Seq<char>>,
    pub current_path: Seq<char>,
    pub area: SourceArea,
    pub status: FileStatus,
}

impl DeepView for SourceFileState {
    type V = SourceFacts;

    open spec fn deep_view(&self) -> SourceFacts {
        SourceFacts {
            source_file_id: self.source_file_id,
            thread_id: self.thread_id.deep_view(),
            current_path: self.current_path@,
            area: self.source_area,
            status: self.file_status,
        }
    }
}

pub open spec fn area_rank(area: SourceArea) -> int {
    match area {
        SourceArea::Sessions => 0,
        SourceArea::ArchivedSessions => 1,
    }
}

/// Live files before archived ones; then by path.
pub open spec fn source_order(a: SourceFacts, b: SourceFacts) -> Rank {
    int_rank(area_rank(a.area), area_rank(b.area)).or(text_rank(a.current_path, b.current_path))
}

/// The file of a thread: the first one that is present.
pub open spec fn physical_source(sources: Seq<SourceFacts>) -> Option<SourceFacts>
    decreases sources.len(),
{
    if sources.len() == 0 {
        None
    } else {
        let best = physical_source(sources.drop_last());
        let last = sources.last();
        if last.status is Present && (best is None || source_order(last, best->0) is Before) {
            Some(last)
        } else {
            best
        }
    }
}

fn area_priority(area: SourceArea) -> (r: u64)
    ensures
        r == area_rank(area),
{
    match area {
        SourceArea::Sessions => 0,
        SourceArea::ArchivedSessions => 1,
    }
}

/// The sources at the given places, in that order.
pub open spec fn sources_at(sources: Seq<SourceFacts>, places: Seq<usize>) -> Seq<SourceFacts> {
    Seq::new(places.len(), |i: int| sources[places[i] as int])
}

/// The file of a thread among the sources at the given places.
pub fn select_physical_source<'a>(sources: &'a Vec<SourceFileState>, places: &Vec<usize>) -> (r:
    Option<&'a SourceFileState>)
    requires
        forall|i: int| 0 <= i < places@.len() ==> (#[trigger] places@[i]) < sources@.len(),
    ensures
        match r {
            Some(source) => physical_source(sources_at(sources.deep_view(), places@)) == Some(
                source.deep_view(),
            ),
            None => physical_source(sources_at(sources.deep_view(), places@)) is None,
        },
{
    let ghost all = sources_at(sources.deep_view(), places@);
    let mut best: Option<&SourceFileState> = None;
    let mut i: usize = 0;
    assert(all.take(0) =~= Seq::<SourceFacts>::empty());
    while i < places.len()
        invariant
            i <= places.len(),
            all == sources_at(sources.deep_view(), places@),
            forall|i: int| 0 <= i < places@.len() ==> (#[trigger] places@[i]) < sources@.len(),
            match best {
                Some(source) => physical_source(all.take(i as int)) == Some(source.deep_view()),
                None => physical_source(all.take(i as int)) is None,
            },
        decreases places.len() - i,
    {
        let source: &SourceFileState = &sources[places[i]];
        proof {
            assert(all.take(i + 1).drop_last() =~= all.take(i as int));
            assert(all.take(i + 1).last() == source.deep_view());
        }
        if source.file_status == FileStatus::Present {
            let replaces: bool = match best {
                None => true,
                Some(current) => compare_u64(
                    area_priority(source.source_area),
                    area_priority(current.source_area),
                ).or_else(
                    compare_texts(source.current_path.as_str(), current.current_path.as_str()),
                ) == Rank::Before,
            };
            if replaces {
                best = Some(source);
            }
        }
        i = i + 1;
    }
    assert(all.take(all.len() as int) =~= all);
    best
}

/// The last component that is not empty or `.`, reading `rest` after `current`.
pub open spec fn last_component(best: Option<Seq<char>>, current: Seq<char>, rest: Seq<char>) -> Option<
    Seq<char>,
>
    decreases rest.len(),
{
    let entered = if current.len() == 0 || current == seq!['.'] {
        best
    } else {
        Some(current)
    };
    if rest.len() == 0 {
        entered
    } else if rest[0] == '/' {
        last_component(entered, Seq::empty(), rest.drop_first())
    } else {
        last_component(best, current.push(rest[0]), rest.drop_first())
    }
}

/// The name of a project: the last component of its path, if that is a name.
pub open spec fn project_name(platform: Platform, path: Seq<char>) -> Option<Seq<char>> {
    if platform.windows() {
        match windows_file_name(path) {
            Some(name) => if name.len() > 0 {
                Some(name)
            } else {
                None
            },
            None => None,
        }
    } else if last_component(None, Seq::empty(), path) == Some(seq!['.', '.']) {
        None
    } else {
        last_component(None, Seq::empty(), path)
    }
}

/// The bounds of the last component that is not empty or `.`.
fn component_bounds(chars: &Vec<char>) -> (r: Option<(usize, usize)>)
    ensures
        match r {
            Some((from, to)) => from < to <= chars@.len() && last_component(
                None,
                Seq::empty(),
                chars@,
            ) == Some(chars@.subrange(from as int, to as int)),
            None => last_component(None, Seq::empty(), chars@) is None,
        },
{
    let mut best: Option<(usize, usize)> = None;
    let mut from: usize = 0;
    let mut i: usize = 0;
    proof {
        assert(chars@.subrange(0, 0) =~= Seq::<char>::empty());
        assert(chars@.skip(0) =~= chars@);
    }
    while i < chars.len()
        invariant
            from <= i <= chars.len(),
            best matches Some((a, b)) ==> a < b <= chars@.len(),
            last_component(None, Seq::empty(), chars@) == last_component(
                bounds_view(chars@, best),
                chars@.subrange(from as int, i as int),
                chars@.skip(i as int),
            ),
        decreases chars.len() - i,
    {
        proof {
            assert(chars@.skip(i as int)[0] == chars@[i as int]);
            assert(chars@.skip(i as int).drop_first() =~= chars@.skip(i + 1));
        }
        if chars[i] == '/' {
            if !is_skipped(chars, from, i) {
                best = Some((from, i));
            }
            from = i + 1;
            assert(chars@.subrange(from as int, i + 1) =~= Seq::<char>::empty());
        } else {
            assert(chars@.subrange(from as int, i as int).push(chars@[i as int])
                =~= chars@.subrange(from as int, i + 1));
        }
        i = i + 1;
    }
    assert(chars@.skip(i as int) =~= Seq::<char>::empty());
    if !is_skipped(chars, from, i) {
        best = Some((from, i));
    }
    best
}

pub open spec fn bounds_view(chars: Seq<char>, bounds: Option<(usize, usize)>) -> Option<Seq<char>> {
    match bounds {
        Some((from, to)) => Some(chars.subrange(from as int, to as int)),
        None => None,
    }
}

fn is_skipped(chars: &Vec<char>, from: usize, to: usize) -> (r: bool)
    requires
        from <= to <= chars.len(),
    ensures
        ({
            let c = chars@.subrange(from as int, to as int);
            r == (c.len() == 0 || c == seq!['.'])
        }),
{
    let len: usize = to - from;
    proof {
        let c = chars@.subrange(from as int, to as int);
        if len == 1 && chars@[from as int] == '.' {
            assert(c =~= seq!['.']);
        }
        if len > 0 {
            assert(c[0] == chars@[from as int]);
        }
    }
    len == 0 || (len == 1 && chars[from] == '.')
}

pub fn project_name_from_path(platform: Platform, path: &str) -> (r: Option<String>)
    ensures
        r.deep_view() == project_name(platform, path@),
{
    if platform.is_windows() {
        return match file_name_on_windows(platform, path) {
            Some(name) => if name.as_str().is_empty() {
                None
            } else {
                Some(name)
            },
            None => None,
        };
    }
    let chars: Vec<char> = chars_of(path);
    match component_bounds(&chars) {
        None => None,
        Some((from, to)) => {
            let up: bool = to - from == 2 && chars[from] == '.' && chars[from + 1] == '.';
            proof {
                let c = chars@.subrange(from as int, to as int);
                if up {
                    assert(c =~= seq!['.', '.']);
                } else if c == seq!['.', '.'] {
                    assert(c.len() == 2);
                    assert(c[0] == chars@[from as int]);
                    assert(c[1] == chars@[from + 1]);
                }
            }
            if up {
                None
            } else {
                Some(path.substring_char(from, to).to_owned())
            }
        },
    }
}

/// An absolute path.
pub open spec fn valid_project_path(platform: Platform, path: Option<Seq<char>>) -> bool {
    path is Some && path->0.len() > 0 && is_absolute(platform, path->0)
}

pub fn has_valid_project_path(platform: Platform, path: &Option<String>) -> (r: bool)
    ensures
        r == valid_project_path(platform, path.deep_view()),
{
    match path {
        Some(path) => !path.as_str().is_empty() && starts_at_root(platform, path.as_str()),
        None => false,
    }
}

} // verus!
