//! Thread names from the session index.
use vstd::prelude::*;

use crate::diagnostics::{DiagnosticSeverity, SourceAvailability};

verus! {

/// Whether the session index could be read.
pub type SessionSourceStatus = SourceAvailability;

#[derive(Clone, Debug, PartialEq, Eq)]
pub struct SessionIndexDiagnostic {
    pub code: String,
    pub severity: DiagnosticSeverity,
}

#[derive(Clone, Debug, PartialEq, Eq)]
pub struct SessionNameFact {
    pub thread_id: String,
    pub thread_name: String,
    pub updated_at_ms: Option<i64>,
}

pub struct NamedThread {
    pub thread_id: Seq<char>,
    pub thread_name: Seq<char>,
    pub updated_at_ms: Option<i64>,
}

impl DeepView for SessionNameFact {
    type V = NamedThread;

    open spec fn deep_view(&self) -> NamedThread {
        NamedThread {
            thread_id: self.thread_id@,
            thread_name: self.thread_name@,
            updated_at_ms: self.updated_at_ms,
        }
    }
}

/// One view of the session index. Of several names of a thread the last one counts.
#[derive(Clone, Debug, PartialEq, Eq)]
pub struct SessionNameSnapshot {
    pub names: Vec<SessionNameFact>,
    pub facts: Vec<SessionNameFact>,
    pub diagnostics: Vec<SessionIndexDiagnostic>,
    pub status: SessionSourceStatus,
}

/// The name of a thread: the last one given.
pub open spec fn name_of(names: Seq<NamedThread>, thread_id: Seq<char>) -> Option<NamedThread>
    decreases names.len(),
{
    if names.len() == 0 {
        None
    } else if names.last().thread_id == thread_id {
        Some(names.last())
    } else {
        name_of(names.drop_last(), thread_id)
    }
}

impl SessionNameSnapshot {
    pub fn get(&self, thread_id: &String) -> (r: Option<&SessionNameFact>)
        ensures
            match r {
                Some(fact) => name_of(self.names.deep_view(), thread_id@) == Some(
                    fact.deep_view(),
                ),
                None => name_of(self.names.deep_view(), thread_id@) is None,
            },
    {
        let ghost all = self.names.deep_view();
        let mut i: usize = self.names.len();
        assert(all.take(i as int) =~= all);
        while i > 0
            invariant
                i <= self.names.len(),
                all == self.names.deep_view(),
                name_of(all, thread_id@) == name_of(all.take(i as int), thread_id@),
            decreases i,
        {
            assert(all.take(i as int).last() == all[i - 1]);
            assert(all.take(i as int).drop_last() =~= all.take(i - 1));
            i = i - 1;
            if self.names[i].thread_id == *thread_id {
                return Some(&self.names[i]);
            }
        }
        None
    }
}

} // verus!
