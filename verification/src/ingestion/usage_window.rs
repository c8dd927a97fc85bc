//! Which of the lines that are read make up one batch.
//!
//! Lines are offered in order, each with who owns it. What comes before the owner is found
//! is passed over and counted; what the owner owns is kept as far as a batch may go.
use vstd::prelude::*;

use crate::rollout::{EnvelopeKind, RecordOwnership};
use crate::rollout_parser::RecordClassification;
use super::chunks::ReadControl;
use super::usage_pipeline::{
    ClassifiedUsageItem, MAX_BATCH_BYTES, MAX_BATCH_CANDIDATES, MAX_BATCH_LINES,
    MAX_LEGAL_LINE_BYTES,
};
#[allow(unused_imports)]
use super::usage_pipeline::{items_forward, read_views, saturated, ItemFacts};

verus! {

/// What holds of every line that is offered.
#[derive(Clone, Copy, Debug, PartialEq, Eq, Structural)]
pub struct WindowRules {
    /// The source has no state yet: its owner has to be found.
    pub establishing: bool,
    /// The source may end while replaying an ancestor.
    pub allow_replay_tail: bool,
    /// Where the metadata found the first record of the owner.
    pub owning_boundary_offset: Option<u64>,
}

pub struct Window {
    pub rules: WindowRules,
    pub replayed_prefix_bytes: u64,
    pub replayed_prefix_lines: u64,
    pub ownership_established: bool,
    pub retained: Vec<ClassifiedUsageItem>,
    pub adapter_bytes: u64,
    pub adapter_lines: u64,
    pub potential_candidates: u64,
    pub replay_window_bytes: u64,
    pub replay_window_lines: u64,
    pub unknown_ownership: bool,
    pub invalid_session_data: bool,
    pub token_records_seen: u64,
}

#[verifier::ext_equal]
pub struct WindowFacts {
    pub rules: WindowRules,
    /// Over all reads: what was passed over before the owner was found.
    pub replayed_prefix_bytes: u64,
    pub replayed_prefix_lines: u64,
    pub ownership_established: bool,
    /// Of this read: what was kept, and how much of it counts.
    pub retained: Seq<ItemFacts>,
    pub adapter_bytes: u64,
    pub adapter_lines: u64,
    pub potential_candidates: u64,
    pub replay_window_bytes: u64,
    pub replay_window_lines: u64,
    pub unknown_ownership: bool,
    pub invalid_session_data: bool,
    pub token_records_seen: u64,
}

impl DeepView for Window {
    type V = WindowFacts;

    open spec fn deep_view(&self) -> WindowFacts {
        WindowFacts {
            rules: self.rules,
            replayed_prefix_bytes: self.replayed_prefix_bytes,
            replayed_prefix_lines: self.replayed_prefix_lines,
            ownership_established: self.ownership_established,
            retained: read_views(self.retained@),
            adapter_bytes: self.adapter_bytes,
            adapter_lines: self.adapter_lines,
            potential_candidates: self.potential_candidates,
            replay_window_bytes: self.replay_window_bytes,
            replay_window_lines: self.replay_window_lines,
            unknown_ownership: self.unknown_ownership,
            invalid_session_data: self.invalid_session_data,
            token_records_seen: self.token_records_seen,
        }
    }
}

/// How many bytes a line has.
pub open spec fn length(item: ItemFacts) -> u64 {
    saturated(item.at.end - item.at.start)
}

pub open spec fn is_candidate(class: RecordClassification) -> bool {
    class.envelope is TokenCount || class.envelope is Lifecycle
}

/// What comes of an offer.
pub struct Offer {
    pub window: WindowFacts,
    pub control: ReadControl,
}

impl WindowFacts {
    /// The window at the start of a read.
    pub open spec fn opened(
        rules: WindowRules,
        replayed_prefix_bytes: u64,
        replayed_prefix_lines: u64,
        ownership_established: bool,
    ) -> WindowFacts {
        WindowFacts {
            rules,
            replayed_prefix_bytes,
            replayed_prefix_lines,
            ownership_established,
            retained: Seq::empty(),
            adapter_bytes: 0,
            adapter_lines: 0,
            potential_candidates: 0,
            replay_window_bytes: 0,
            replay_window_lines: 0,
            unknown_ownership: false,
            invalid_session_data: false,
            token_records_seen: 0,
        }
    }

    /// The window at the start of the next read.
    pub open spec fn reopened(self) -> WindowFacts {
        WindowFacts::opened(
            self.rules,
            self.replayed_prefix_bytes,
            self.replayed_prefix_lines,
            self.ownership_established,
        )
    }

    pub open spec fn stop(self) -> Offer {
        Offer { window: self, control: ReadControl::StopAfter }
    }

    /// Nobody knows who owns the line.
    pub open spec fn lost(self) -> WindowFacts {
        WindowFacts { unknown_ownership: true, ..self }
    }

    /// The line contradicts what the metadata found.
    pub open spec fn contradicted(self) -> WindowFacts {
        WindowFacts { unknown_ownership: true, invalid_session_data: true, ..self }
    }

    pub open spec fn with_token_count(self, item: ItemFacts) -> WindowFacts {
        if item.class.envelope is TokenCount {
            WindowFacts { token_records_seen: saturated(self.token_records_seen + 1), ..self }
        } else {
            self
        }
    }

    /// A replayed line fills the replay window.
    pub open spec fn replaying(self, item: ItemFacts) -> WindowFacts {
        WindowFacts {
            replay_window_bytes: saturated(self.replay_window_bytes + length(item)),
            replay_window_lines: saturated(self.replay_window_lines + 1),
            ..self
        }
    }

    pub open spec fn replay_control(self, item: ItemFacts) -> ReadControl {
        if length(item) > MAX_BATCH_BYTES || self.replay_window_bytes >= MAX_BATCH_BYTES
            || self.replay_window_lines >= MAX_BATCH_LINES {
            ReadControl::StopAfter
        } else {
            ReadControl::Continue
        }
    }

    /// A line before the owner is passed over.
    pub open spec fn passed_over(self, item: ItemFacts) -> Offer {
        let after = WindowFacts {
            replayed_prefix_bytes: saturated(self.replayed_prefix_bytes + length(item)),
            replayed_prefix_lines: saturated(self.replayed_prefix_lines + 1),
            ..self.replaying(item)
        };
        Offer { window: after, control: after.replay_control(item) }
    }

    pub open spec fn kept(self, item: ItemFacts) -> WindowFacts {
        WindowFacts { retained: self.retained.push(item), ..self }
    }

    /// A replayed line after the owner is kept where the source may end in a replay.
    pub open spec fn replayed_tail(self, item: ItemFacts) -> Offer {
        let after = self.replaying(item).kept(item);
        Offer { window: after, control: after.replay_control(item) }
    }

    pub open spec fn candidates_with(self, item: ItemFacts) -> u64 {
        saturated(
            self.potential_candidates + if is_candidate(item.class) {
                1int
            } else {
                0int
            },
        )
    }

    /// The first line of a batch may be as long as a line may be; the others have to fit.
    pub open spec fn fits(self, item: ItemFacts) -> bool {
        if self.adapter_lines == 0 {
            (item.oversized || length(item) <= MAX_LEGAL_LINE_BYTES) && self.candidates_with(item)
                <= MAX_BATCH_CANDIDATES
        } else {
            !item.oversized && self.adapter_bytes + length(item) <= MAX_BATCH_BYTES
                && self.adapter_lines < MAX_BATCH_LINES && self.candidates_with(item)
                <= MAX_BATCH_CANDIDATES
        }
    }

    /// A line of the owner is kept as long as the batch has room.
    pub open spec fn owned(self, item: ItemFacts) -> Offer {
        if !self.fits(item) {
            Offer { window: self, control: ReadControl::StopBefore }
        } else {
            let after = WindowFacts {
                adapter_bytes: saturated(self.adapter_bytes + length(item)),
                adapter_lines: (self.adapter_lines + 1) as u64,
                potential_candidates: self.candidates_with(item),
                ..self.kept(item)
            };
            Offer {
                window: after,
                control: if item.oversized || length(item) > MAX_BATCH_BYTES || after.adapter_bytes
                    >= MAX_BATCH_BYTES || after.adapter_lines >= MAX_BATCH_LINES
                    || after.potential_candidates >= MAX_BATCH_CANDIDATES || (
                self.rules.establishing && self.ownership_established
                    && !self.rules.allow_replay_tail) {
                    ReadControl::StopAfter
                } else {
                    ReadControl::Continue
                },
            }
        }
    }

    /// The owner is found.
    pub open spec fn established(self) -> WindowFacts {
        WindowFacts { ownership_established: true, ..self }
    }

    /// A line while the owner is still looked for. Where the metadata told the place of the
    /// first record of the owner, that place has to hold one; else only session meta tells.
    pub open spec fn seeking(self, item: ItemFacts) -> Offer {
        match self.rules.owning_boundary_offset {
            Some(boundary) => if item.at.start < boundary {
                self.passed_over(item)
            } else if item.at.start > boundary || !(item.class.ownership is Owning) {
                self.contradicted().stop()
            } else {
                self.established().owned(item)
            },
            None => match item.class.ownership {
                RecordOwnership::ReplayedAncestor => self.passed_over(item),
                RecordOwnership::UnknownOwnership => self.lost().stop(),
                RecordOwnership::Owning => if item.class.envelope is SessionMeta {
                    self.established().owned(item)
                } else {
                    self.lost().stop()
                },
            },
        }
    }

    /// What comes of offering a line.
    pub open spec fn offered(self, item: ItemFacts) -> Offer {
        let counted = self.with_token_count(item);
        if !self.ownership_established {
            counted.seeking(item)
        } else if item.class.ownership is Owning {
            counted.owned(item)
        } else if item.class.ownership is ReplayedAncestor && self.rules.allow_replay_tail {
            counted.replayed_tail(item)
        } else {
            counted.kept(item).stop()
        }
    }

    /// What was kept fits into one batch.
    pub open spec fn within_batch(self) -> bool {
        &&& self.adapter_lines <= MAX_BATCH_LINES
        &&& self.potential_candidates <= MAX_BATCH_CANDIDATES
        &&& self.potential_candidates <= self.adapter_lines
        &&& self.adapter_lines <= self.retained.len()
        &&& self.adapter_lines > 1 ==> self.adapter_bytes <= MAX_BATCH_BYTES
    }
}

impl Window {
    pub fn open(
        rules: WindowRules,
        replayed_prefix_bytes: u64,
        replayed_prefix_lines: u64,
        ownership_established: bool,
    ) -> (r: Self)
        ensures
            r.deep_view() == WindowFacts::opened(
                rules,
                replayed_prefix_bytes,
                replayed_prefix_lines,
                ownership_established,
            ),
    {
        let window: Window = Window {
            rules,
            replayed_prefix_bytes,
            replayed_prefix_lines,
            ownership_established,
            retained: Vec::new(),
            adapter_bytes: 0,
            adapter_lines: 0,
            potential_candidates: 0,
            replay_window_bytes: 0,
            replay_window_lines: 0,
            unknown_ownership: false,
            invalid_session_data: false,
            token_records_seen: 0,
        };
        assert(read_views(window.retained@) =~= Seq::<ItemFacts>::empty());
        window
    }

    /// A line whose classification failed.
    pub fn reject(&mut self) -> (r: ReadControl)
        ensures
            r == old(self).deep_view().lost().stop().control,
            final(self).deep_view() == old(self).deep_view().lost(),
    {
        self.unknown_ownership = true;
        ReadControl::StopAfter
    }

    fn keep(&mut self, item: ClassifiedUsageItem)
        ensures
            final(self).deep_view() == old(self).deep_view().kept(item.read_facts()),
    {
        let ghost before = read_views(self.retained@);
        self.retained.push(item);
        assert(read_views(self.retained@) =~= before.push(item.read_facts()));
    }

    fn pass_over(&mut self, bytes: u64, Ghost(item): Ghost<ItemFacts>) -> (r: ReadControl)
        requires
            bytes == length(item),
        ensures
            final(self).deep_view() == old(self).deep_view().passed_over(item).window,
            r == old(self).deep_view().passed_over(item).control,
    {
        self.replayed_prefix_bytes = self.replayed_prefix_bytes.saturating_add(bytes);
        self.replayed_prefix_lines = self.replayed_prefix_lines.saturating_add(1);
        self.replay_window_bytes = self.replay_window_bytes.saturating_add(bytes);
        self.replay_window_lines = self.replay_window_lines.saturating_add(1);
        if bytes > MAX_BATCH_BYTES || self.replay_window_bytes >= MAX_BATCH_BYTES
            || self.replay_window_lines >= MAX_BATCH_LINES {
            ReadControl::StopAfter
        } else {
            ReadControl::Continue
        }
    }

    fn keep_replayed(&mut self, item: ClassifiedUsageItem, bytes: u64) -> (r: ReadControl)
        requires
            bytes == length(item.read_facts()),
        ensures
            final(self).deep_view() == old(self).deep_view().replayed_tail(
                item.read_facts(),
            ).window,
            r == old(self).deep_view().replayed_tail(item.read_facts()).control,
    {
        self.replay_window_bytes = self.replay_window_bytes.saturating_add(bytes);
        self.replay_window_lines = self.replay_window_lines.saturating_add(1);
        self.keep(item);
        if bytes > MAX_BATCH_BYTES || self.replay_window_bytes >= MAX_BATCH_BYTES
            || self.replay_window_lines >= MAX_BATCH_LINES {
            ReadControl::StopAfter
        } else {
            ReadControl::Continue
        }
    }

    fn keep_owned(&mut self, item: ClassifiedUsageItem, bytes: u64) -> (r: ReadControl)
        requires
            bytes == length(item.read_facts()),
        ensures
            final(self).deep_view() == old(self).deep_view().owned(item.read_facts()).window,
            r == old(self).deep_view().owned(item.read_facts()).control,
    {
        let candidate: bool = match item.classification().envelope {
            EnvelopeKind::TokenCount | EnvelopeKind::Lifecycle => true,
            _ => false,
        };
        let oversized: bool = match &item {
            ClassifiedUsageItem::Line(_) => false,
            ClassifiedUsageItem::Oversized(_) => true,
        };
        let would_candidates: u64 = self.potential_candidates.saturating_add(
            if candidate {
                1
            } else {
                0
            },
        );
        let fits: bool = if self.adapter_lines == 0 {
            (oversized || bytes <= MAX_LEGAL_LINE_BYTES) && would_candidates
                <= MAX_BATCH_CANDIDATES
        } else {
            !oversized && self.adapter_bytes.saturating_add(bytes) <= MAX_BATCH_BYTES
                && self.adapter_lines < MAX_BATCH_LINES && would_candidates <= MAX_BATCH_CANDIDATES
        };
        if !fits {
            return ReadControl::StopBefore;
        }
        self.adapter_bytes = self.adapter_bytes.saturating_add(bytes);
        self.adapter_lines = self.adapter_lines + 1;
        self.potential_candidates = would_candidates;
        self.keep(item);
        if oversized || bytes > MAX_BATCH_BYTES || self.adapter_bytes >= MAX_BATCH_BYTES
            || self.adapter_lines >= MAX_BATCH_LINES || self.potential_candidates
            >= MAX_BATCH_CANDIDATES || (self.rules.establishing && self.ownership_established
            && !self.rules.allow_replay_tail) {
            ReadControl::StopAfter
        } else {
            ReadControl::Continue
        }
    }

    /// Offers a line, and says whether to read on.
    pub fn offer(&mut self, item: ClassifiedUsageItem) -> (r: ReadControl)
        ensures
            final(self).deep_view() == old(self).deep_view().offered(item.read_facts()).window,
            r == old(self).deep_view().offered(item.read_facts()).control,
    {
        let ghost facts = item.read_facts();
        let start: u64 = item.start_offset();
        let bytes: u64 = item.end_offset().saturating_sub(start);
        let classification: RecordClassification = *item.classification();
        if classification.envelope == EnvelopeKind::TokenCount {
            self.token_records_seen = self.token_records_seen.saturating_add(1);
        }
        let ghost counted = self.deep_view();
        assert(counted == old(self).deep_view().with_token_count(facts));
        if !self.ownership_established {
            match self.rules.owning_boundary_offset {
                Some(boundary) => {
                    if start < boundary {
                        return self.pass_over(bytes, Ghost(facts));
                    }
                    if start > boundary || classification.ownership != RecordOwnership::Owning {
                        self.unknown_ownership = true;
                        self.invalid_session_data = true;
                        return ReadControl::StopAfter;
                    }
                },
                None => match classification.ownership {
                    RecordOwnership::ReplayedAncestor => {
                        return self.pass_over(bytes, Ghost(facts));
                    },
                    RecordOwnership::UnknownOwnership => {
                        self.unknown_ownership = true;
                        return ReadControl::StopAfter;
                    },
                    RecordOwnership::Owning => {
                        if classification.envelope != EnvelopeKind::SessionMeta {
                            self.unknown_ownership = true;
                            return ReadControl::StopAfter;
                        }
                    },
                },
            }
            self.ownership_established = true;
            assert(self.deep_view() == counted.established());
            return self.keep_owned(item, bytes);
        }
        match classification.ownership {
            RecordOwnership::Owning => self.keep_owned(item, bytes),
            RecordOwnership::ReplayedAncestor => if self.rules.allow_replay_tail {
                self.keep_replayed(item, bytes)
            } else {
                self.keep(item);
                ReadControl::StopAfter
            },
            RecordOwnership::UnknownOwnership => {
                self.keep(item);
                ReadControl::StopAfter
            },
        }
    }
}

/// Whatever is offered, what is kept of it fits into one batch.
pub proof fn law_window_stays_within_a_batch(window: WindowFacts, item: ItemFacts)
    requires
        window.within_batch(),
    ensures
        window.offered(item).window.within_batch(),
{
}

/// Where every line ends no earlier than it begins, so does all that is kept.
pub proof fn law_forward_lines_are_kept_forward(window: WindowFacts, item: ItemFacts)
    requires
        items_forward(window.retained),
        item.at.start <= item.at.end,
    ensures
        items_forward(window.offered(item).window.retained),
{
    let after = window.offered(item).window.retained;
    if after.len() > window.retained.len() {
        assert forall|i: int| 0 <= i < after.len() implies (#[trigger] after[i]).at.start
            <= after[i].at.end by {
            if i < window.retained.len() {
                assert(after[i] == window.retained[i]);
            }
        }
    }
}

/// Nothing is kept before the owner is found.
pub proof fn law_nothing_is_kept_before_the_owner(window: WindowFacts, item: ItemFacts)
    requires
        !window.ownership_established,
        window.retained.len() == 0,
    ensures
        ({
            let after = window.offered(item).window;
            after.ownership_established || after.retained.len() == 0
        }),
{
}

/// Once found the owner stays found, and no further line counts as passed over.
pub proof fn law_owner_stays_found(window: WindowFacts, item: ItemFacts)
    requires
        window.ownership_established,
    ensures
        window.offered(item).window.ownership_established,
        window.offered(item).window.replayed_prefix_bytes == window.replayed_prefix_bytes,
        window.offered(item).window.replayed_prefix_lines == window.replayed_prefix_lines,
{
}

/// A line that is left for the next time leaves no trace but that it was seen.
pub proof fn law_a_line_left_over_is_not_kept(window: WindowFacts, item: ItemFacts)
    requires
        window.offered(item).control is StopBefore,
    ensures
        window.offered(item).window.retained == window.retained,
        window.offered(item).window.adapter_lines == window.adapter_lines,
        window.offered(item).window.adapter_bytes == window.adapter_bytes,
        window.offered(item).window.potential_candidates == window.potential_candidates,
{
}

/// An owner is accepted only where the metadata found its first record, if it found one.
pub proof fn law_owner_is_found_at_the_boundary(window: WindowFacts, item: ItemFacts, boundary: u64)
    requires
        !window.ownership_established,
        window.rules.owning_boundary_offset == Some(boundary),
        window.offered(item).window.ownership_established,
    ensures
        item.at.start == boundary,
        item.class.ownership is Owning,
{
}

} // verus!
