//! What normalizing a path settles.
use vstd::prelude::*;

use crate::paths::{absolute_path, agent_path, enter, lexical_parts, rooted, slashed, walk};
use crate::platform::Platform;
use crate::text::{has_control, is_control_char, is_whitespace_char, leading_blanks, trailing_blanks, trim};

verus! {

/// No separator is among the characters.
pub open spec fn unbroken(text: Seq<char>) -> bool {
    forall|i: int| 0 <= i < text.len() ==> #[trigger] text[i] != '/'
}

/// A component that stands for itself.
pub open spec fn plain(component: Seq<char>) -> bool {
    component.len() > 0 && component != seq!['.'] && component != seq!['.', '.'] && unbroken(
        component,
    )
}

pub open spec fn all_plain(parts: Seq<Seq<char>>) -> bool {
    forall|i: int| 0 <= i < parts.len() ==> plain(#[trigger] parts[i])
}

/// No character of a component is a control character.
pub open spec fn printable(parts: Seq<Seq<char>>) -> bool {
    forall|i: int| 0 <= i < parts.len() ==> !has_control(#[trigger] parts[i])
}

proof fn lemma_enter_plain(parts: Seq<Seq<char>>, component: Seq<char>)
    requires
        all_plain(parts),
        unbroken(component),
    ensures
        enter(parts, component) matches Some(entered) ==> all_plain(entered),
{
    if let Some(entered) = enter(parts, component) {
        assert forall|i: int| 0 <= i < entered.len() implies plain(#[trigger] entered[i]) by {
            if i < parts.len() {
                assert(entered[i] == parts[i]);
            }
        }
    }
}

proof fn lemma_walk_plain(parts: Seq<Seq<char>>, current: Seq<char>, rest: Seq<char>)
    requires
        all_plain(parts),
        unbroken(current),
    ensures
        walk(parts, current, rest) matches Some(walked) ==> all_plain(walked),
    decreases rest.len(),
{
    lemma_enter_plain(parts, current);
    if rest.len() > 0 {
        if rest[0] == '/' {
            if let Some(entered) = enter(parts, current) {
                lemma_walk_plain(entered, Seq::empty(), rest.drop_first());
            }
        } else {
            let longer = current.push(rest[0]);
            assert forall|i: int| 0 <= i < longer.len() implies #[trigger] longer[i] != '/' by {
                if i < current.len() {
                    assert(longer[i] == current[i]);
                }
            }
            lemma_walk_plain(parts, longer, rest.drop_first());
        }
    }
}

/// Reading characters without a separator makes the component under way longer.
proof fn lemma_walk_through(parts: Seq<Seq<char>>, current: Seq<char>, text: Seq<char>, rest: Seq<char>)
    requires
        unbroken(text),
    ensures
        walk(parts, current, text + rest) == walk(parts, current + text, rest),
    decreases text.len(),
{
    if text.len() == 0 {
        assert(text + rest =~= rest);
        assert(current + text =~= current);
    } else {
        let all = text + rest;
        assert(all[0] == text[0]);
        assert(all.drop_first() =~= text.drop_first() + rest);
        assert forall|i: int| 0 <= i < text.drop_first().len() implies #[trigger] text.drop_first()[i]
            != '/' by {
            assert(text.drop_first()[i] == text[i + 1]);
        }
        lemma_walk_through(parts, current.push(text[0]), text.drop_first(), rest);
        assert(current.push(text[0]) + text.drop_first() =~= current + text);
    }
}

/// Reading a separator and a component.
proof fn lemma_walk_component(
    parts: Seq<Seq<char>>,
    current: Seq<char>,
    component: Seq<char>,
    rest: Seq<char>,
)
    requires
        unbroken(component),
        enter(parts, current) is Some,
    ensures
        walk(parts, current, seq!['/'] + component + rest) == walk(
            enter(parts, current)->0,
            component,
            rest,
        ),
{
    let all = seq!['/'] + component + rest;
    assert(all[0] == '/');
    assert(all.drop_first() =~= component + rest);
    lemma_walk_through(enter(parts, current)->0, Seq::empty(), component, rest);
    assert(Seq::<char>::empty() + component =~= component);
}

proof fn lemma_walk_slashed(parts: Seq<Seq<char>>, rest: Seq<char>)
    requires
        parts.len() > 0,
        all_plain(parts),
    ensures
        walk(Seq::empty(), Seq::empty(), slashed(parts) + rest) == walk(
            parts.drop_last(),
            parts.last(),
            rest,
        ),
    decreases parts.len(),
{
    let init = parts.drop_last();
    let tail = seq!['/'] + parts.last() + rest;
    assert(plain(parts[parts.len() - 1]));
    assert(slashed(parts) + rest =~= slashed(init) + tail);
    if init.len() == 0 {
        assert(slashed(init) + tail =~= tail);
        lemma_walk_component(Seq::empty(), Seq::empty(), parts.last(), rest);
        assert(init =~= Seq::<Seq<char>>::empty());
    } else {
        assert forall|i: int| 0 <= i < init.len() implies plain(#[trigger] init[i]) by {
            assert(init[i] == parts[i]);
        }
        lemma_walk_slashed(init, tail);
        assert(plain(init[init.len() - 1]));
        assert(init.drop_last().push(init.last()) =~= init);
        lemma_walk_component(init.drop_last(), init.last(), parts.last(), rest);
    }
}

proof fn lemma_rooted_parts(parts: Seq<Seq<char>>)
    requires
        all_plain(parts),
    ensures
        lexical_parts(rooted(parts)) == Some(parts),
{
    if parts.len() == 0 {
        let root = seq!['/'];
        assert(root.drop_first() =~= Seq::<char>::empty());
        assert(parts =~= Seq::<Seq<char>>::empty());
        reveal_with_fuel(walk, 2);
    } else {
        lemma_walk_slashed(parts, Seq::empty());
        assert(slashed(parts) + Seq::<char>::empty() =~= slashed(parts));
        assert(plain(parts[parts.len() - 1]));
        assert(parts.drop_last().push(parts.last()) =~= parts);
    }
}

proof fn lemma_rooted_starts(parts: Seq<Seq<char>>)
    ensures
        rooted(parts).len() > 0,
        rooted(parts)[0] == '/',
    decreases parts.len(),
{
    if parts.len() > 1 {
        lemma_rooted_starts(parts.drop_last());
    } else if parts.len() == 1 {
        assert(slashed(parts.drop_last()) =~= Seq::<char>::empty());
        assert(slashed(parts)[0] == '/');
    }
}

/// A Unix path that was normalized is normal.
pub proof fn law_absolute_paths_settle(platform: Platform, path: Seq<char>)
    requires
        !platform.windows(),
    ensures
        absolute_path(platform, path) matches Some(normal) ==> absolute_path(platform, normal)
            == Some(normal),
{
    if let Some(parts) = lexical_parts(path) {
        lemma_walk_plain(Seq::empty(), Seq::empty(), path);
        lemma_rooted_parts(parts);
        lemma_rooted_starts(parts);
    }
}

proof fn lemma_walk_printable(parts: Seq<Seq<char>>, current: Seq<char>, rest: Seq<char>)
    requires
        printable(parts),
        !has_control(current),
        !has_control(rest),
    ensures
        walk(parts, current, rest) matches Some(walked) ==> printable(walked),
    decreases rest.len(),
{
    if let Some(entered) = enter(parts, current) {
        assert forall|i: int| 0 <= i < entered.len() implies !has_control(#[trigger] entered[i]) by {
            if i < parts.len() {
                assert(entered[i] == parts[i]);
            }
        }
    }
    if rest.len() > 0 {
        let tail = rest.drop_first();
        assert(!has_control(tail)) by {
            if has_control(tail) {
                let i = choose|i: int| 0 <= i < tail.len() && is_control_char(#[trigger] tail[i]);
                assert(is_control_char(rest[i + 1]));
            }
        }
        if rest[0] == '/' {
            if let Some(entered) = enter(parts, current) {
                lemma_walk_printable(entered, Seq::empty(), tail);
            }
        } else {
            let longer = current.push(rest[0]);
            assert(!has_control(longer)) by {
                if has_control(longer) {
                    let i = choose|i: int|
                        0 <= i < longer.len() && is_control_char(#[trigger] longer[i]);
                    if i < current.len() {
                        assert(is_control_char(current[i]));
                    } else {
                        assert(is_control_char(rest[0]));
                    }
                }
            }
            lemma_walk_printable(parts, longer, tail);
        }
    }
}

proof fn lemma_slashed_printable(parts: Seq<Seq<char>>)
    requires
        printable(parts),
    ensures
        !has_control(slashed(parts)),
    decreases parts.len(),
{
    if parts.len() > 0 {
        let init = parts.drop_last();
        assert forall|i: int| 0 <= i < init.len() implies !has_control(#[trigger] init[i]) by {
            assert(init[i] == parts[i]);
        }
        lemma_slashed_printable(init);
        let all = slashed(parts);
        let before = slashed(init);
        let last = parts.last();
        assert(!has_control(parts[parts.len() - 1]));
        if has_control(all) {
            let i = choose|i: int| 0 <= i < all.len() && is_control_char(#[trigger] all[i]);
            if i < before.len() {
                assert(is_control_char(before[i]));
            } else if i == before.len() {
                assert(all[i] == '/');
            } else {
                assert(is_control_char(last[i - before.len() - 1]));
            }
        }
    }
}

proof fn lemma_slashed_second(parts: Seq<Seq<char>>)
    requires
        parts.len() > 0,
        parts[0].len() > 0,
    ensures
        slashed(parts).len() > 1,
        slashed(parts)[1] == parts[0][0],
    decreases parts.len(),
{
    if parts.len() == 1 {
        assert(slashed(parts.drop_last()) =~= Seq::<char>::empty());
        assert(slashed(parts) =~= seq!['/'] + parts[0]);
    } else {
        lemma_slashed_second(parts.drop_last());
    }
}

/// An agent path that was normalized is normal, unless dropping what came last uncovered a
/// component that ends in white space.
pub proof fn law_agent_paths_settle(platform: Platform, raw: Seq<char>)
    requires
        agent_path(platform, raw) matches Some(normal) ==> !is_whitespace_char(normal.last()),
    ensures
        agent_path(platform, raw) matches Some(normal) ==> agent_path(platform, normal) == Some(
            normal,
        ),
{
    if agent_path(platform, raw) is Some {
        let path = trim(raw);
        let parts = lexical_parts(path)->0;
        let normal = rooted(parts);
        lemma_walk_plain(Seq::empty(), Seq::empty(), path);
        lemma_walk_printable(Seq::empty(), Seq::empty(), path);
        lemma_rooted_parts(parts);
        lemma_rooted_starts(parts);
        lemma_slashed_printable(parts);
        assert(plain(parts[0]));
        lemma_slashed_second(parts);
        assert(!is_whitespace_char('/'));
        assert(leading_blanks(normal) == 0);
        assert(trailing_blanks(normal) == 0);
        assert(trim(normal) =~= normal);
    }
}

/// An agent path has at least two components, and the first is the root of all agents.
pub proof fn law_agent_paths_start_at_the_root(platform: Platform, raw: Seq<char>)
    ensures
        agent_path(platform, raw) matches Some(normal) ==> lexical_parts(normal) matches Some(parts)
            && parts.len() >= 2 && parts[0] == "root"@,
{
    if agent_path(platform, raw) is Some {
        let path = trim(raw);
        lemma_walk_plain(Seq::empty(), Seq::empty(), path);
        lemma_rooted_parts(lexical_parts(path)->0);
    }
}

} // verus!
