//! Which lines of a stretch are kept, and where reading stops.
use vstd::prelude::*;

use super::chunks::ReadControl;
use super::usage_pipeline::ItemFacts;
use super::usage_window::{Offer, WindowFacts};

verus! {

/// The length of a line, which ends no earlier than it begins.
pub open spec fn size(item: ItemFacts) -> int {
    item.at.end - item.at.start
}

/// The counts of the window are far from the largest number.
pub open spec fn roomy(window: WindowFacts, item: ItemFacts) -> bool {
    &&& window.replayed_prefix_bytes + size(item) <= u64::MAX
    &&& window.replayed_prefix_lines < u64::MAX
    &&& window.replay_window_bytes + size(item) <= u64::MAX
    &&& window.replay_window_lines < u64::MAX
    &&& window.adapter_bytes + size(item) <= u64::MAX
    &&& window.potential_candidates < u64::MAX
    &&& window.token_records_seen < u64::MAX
    &&& size(item) >= 0
}

/// A line that may become an event: a token count, or the start or end of a turn.
pub open spec fn may_count(item: ItemFacts) -> int {
    if item.class.envelope is TokenCount || item.class.envelope is Lifecycle {
        1
    } else {
        0
    }
}

/// There is room for a line of the owner: the first line of a batch may be of any legal length, or
/// too long; every other has to fit into what is left of four mebibytes and of four thousand and
/// ninety-six lines. Of lines that may become events there is room for as many as a batch takes.
pub open spec fn has_room(window: WindowFacts, item: ItemFacts) -> bool {
    &&& window.potential_candidates + may_count(item) <= 2048
    &&& window.adapter_lines == 0 ==> item.oversized || size(item) <= 8388608
    &&& window.adapter_lines > 0 ==> !item.oversized && window.adapter_bytes + size(item) <= 4194304
        && window.adapter_lines < 4096
}

/// The window took the line as one of the owner's.
pub open spec fn takes(before: WindowFacts, item: ItemFacts, after: WindowFacts) -> bool {
    &&& after.retained == before.retained.push(item)
    &&& after.adapter_bytes == before.adapter_bytes + size(item)
    &&& after.adapter_lines == before.adapter_lines + 1
    &&& after.potential_candidates == before.potential_candidates + may_count(item)
    &&& after.replayed_prefix_bytes == before.replayed_prefix_bytes
    &&& after.replayed_prefix_lines == before.replayed_prefix_lines
    &&& after.replay_window_bytes == before.replay_window_bytes
    &&& after.replay_window_lines == before.replay_window_lines
    &&& after.unknown_ownership == before.unknown_ownership
    &&& after.invalid_session_data == before.invalid_session_data
}

/// The window did not take the line, and nothing about what is kept has changed.
pub open spec fn leaves(before: WindowFacts, after: WindowFacts) -> bool {
    &&& after.retained == before.retained
    &&& after.adapter_bytes == before.adapter_bytes
    &&& after.adapter_lines == before.adapter_lines
    &&& after.potential_candidates == before.potential_candidates
}

/// The batch is full once this line was taken.
pub open spec fn filled(after: WindowFacts, item: ItemFacts) -> bool {
    ||| item.oversized
    ||| size(item) > 4194304
    ||| after.adapter_bytes >= 4194304
    ||| after.adapter_lines >= 4096
    ||| after.potential_candidates >= 2048
}

/// Replayed lines have filled one read once this line was passed over.
pub open spec fn replayed_enough(after: WindowFacts, item: ItemFacts) -> bool {
    ||| size(item) > 4194304
    ||| after.replay_window_bytes >= 4194304
    ||| after.replay_window_lines >= 4096
}

/// Token counts are counted, whoever owns them, and the rules never change.
pub proof fn law_token_counts_are_counted(window: WindowFacts, item: ItemFacts, offer: Offer)
    requires
        offer == window.offered(item),
        roomy(window, item),
    ensures
        item.class.envelope is TokenCount ==> offer.window.token_records_seen
            == window.token_records_seen + 1,
        !(item.class.envelope is TokenCount) ==> offer.window.token_records_seen
            == window.token_records_seen,
        offer.window.rules == window.rules,
{
}

/// Once the owner is found, the owner's lines are taken while there is room, and reading stops
/// before the first that has none. It stops after a line that fills the batch, and after every
/// line of a source whose owner was to be found, if it may not end within a replay.
pub proof fn law_own_lines_are_taken_while_there_is_room(
    window: WindowFacts,
    item: ItemFacts,
    offer: Offer,
)
    requires
        offer == window.offered(item),
        roomy(window, item),
        window.ownership_established,
        item.class.ownership is Owning,
    ensures
        offer.window.ownership_established,
        !has_room(window, item) ==> leaves(window, offer.window) && offer.control
            == ReadControl::StopBefore,
        has_room(window, item) ==> takes(window, item, offer.window),
        has_room(window, item) ==> (offer.control == ReadControl::StopAfter <==> filled(
            offer.window,
            item,
        ) || (window.rules.establishing && !window.rules.allow_replay_tail)),
        has_room(window, item) ==> offer.control != ReadControl::StopBefore,
{
}

/// Once the owner is found, a replayed line is kept where the source may end in a replay, without
/// counting towards the batch; else it is kept as the last one, as a line without an owner is.
pub proof fn law_other_lines_end_the_stretch(window: WindowFacts, item: ItemFacts, offer: Offer)
    requires
        offer == window.offered(item),
        roomy(window, item),
        window.ownership_established,
        !(item.class.ownership is Owning),
    ensures
        offer.window.retained == window.retained.push(item),
        offer.window.adapter_bytes == window.adapter_bytes,
        offer.window.adapter_lines == window.adapter_lines,
        offer.window.potential_candidates == window.potential_candidates,
        offer.window.unknown_ownership == window.unknown_ownership,
        offer.window.invalid_session_data == window.invalid_session_data,
        offer.window.replayed_prefix_bytes == window.replayed_prefix_bytes,
        offer.window.replayed_prefix_lines == window.replayed_prefix_lines,
        item.class.ownership is ReplayedAncestor && window.rules.allow_replay_tail ==> {
            &&& offer.window.replay_window_bytes == window.replay_window_bytes + size(item)
            &&& offer.window.replay_window_lines == window.replay_window_lines + 1
            &&& offer.control == ReadControl::StopAfter <==> replayed_enough(offer.window, item)
            &&& offer.control != ReadControl::StopBefore
        },
        !(item.class.ownership is ReplayedAncestor && window.rules.allow_replay_tail)
            ==> offer.control == ReadControl::StopAfter && offer.window.replay_window_bytes
            == window.replay_window_bytes,
{
}

/// A line before the owner is passed over, and counted as passed over.
pub open spec fn passes_over(window: WindowFacts, item: ItemFacts, offer: Offer) -> bool {
    &&& leaves(window, offer.window)
    &&& offer.window.replayed_prefix_bytes == window.replayed_prefix_bytes + size(item)
    &&& offer.window.replayed_prefix_lines == window.replayed_prefix_lines + 1
    &&& offer.window.replay_window_bytes == window.replay_window_bytes + size(item)
    &&& offer.window.replay_window_lines == window.replay_window_lines + 1
    &&& !offer.window.ownership_established
    &&& offer.window.unknown_ownership == window.unknown_ownership
    &&& offer.control == ReadControl::StopAfter <==> replayed_enough(offer.window, item)
    &&& offer.control != ReadControl::StopBefore
}

/// The owner is found with this line, which is taken as any line of the owner is.
pub open spec fn finds_owner(window: WindowFacts, item: ItemFacts, offer: Offer) -> bool {
    &&& offer.window.ownership_established
    &&& has_room(window, item) ==> takes(window, item, offer.window)
    &&& !has_room(window, item) ==> leaves(window, offer.window) && offer.control
        == ReadControl::StopBefore
}

/// Before the owner is found: where the metadata told the place of the owner's first record, lines
/// before it are passed over, the line at it has to be the owner's, and anything else contradicts
/// the metadata. Where it told none, ancestors are passed over, session meta of the owner finds
/// the owner, and after anything else nobody knows who owns the lines.
pub proof fn law_owners_are_looked_for(window: WindowFacts, item: ItemFacts, offer: Offer)
    requires
        offer == window.offered(item),
        roomy(window, item),
        !window.ownership_established,
    ensures
        window.rules.owning_boundary_offset matches Some(boundary) ==> {
            &&& item.at.start < boundary ==> passes_over(window, item, offer)
            &&& item.at.start == boundary && item.class.ownership is Owning ==> finds_owner(
                window,
                item,
                offer,
            )
            &&& item.at.start > boundary || (item.at.start == boundary && !(item.class.ownership
                is Owning)) ==> {
                &&& leaves(window, offer.window)
                &&& offer.window.unknown_ownership
                &&& offer.window.invalid_session_data
                &&& !offer.window.ownership_established
                &&& offer.control == ReadControl::StopAfter
            }
        },
        window.rules.owning_boundary_offset is None ==> {
            &&& item.class.ownership is ReplayedAncestor ==> passes_over(window, item, offer)
            &&& item.class.ownership is Owning && item.class.envelope is SessionMeta
                ==> finds_owner(window, item, offer)
            &&& item.class.ownership is UnknownOwnership || (item.class.ownership is Owning && !(
            item.class.envelope is SessionMeta)) ==> {
                &&& leaves(window, offer.window)
                &&& offer.window.unknown_ownership
                &&& offer.window.invalid_session_data == window.invalid_session_data
                &&& !offer.window.ownership_established
                &&& offer.control == ReadControl::StopAfter
            }
        },
{
}

} // verus!
