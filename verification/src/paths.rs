//! Lexical path normalization.
use vstd::prelude::*;
use vstd::string::*;

use crate::platform::{
    file_name_on_windows, parent_on_windows, pushed_on_windows, starts_at_root, steps_on_windows,
    PathStep, Platform,
};
#[allow(unused_imports)]
use crate::platform::{
    is_absolute, windows_file_name, windows_parent, windows_pushed, windows_steps, StepFacts,
};
use crate::text::{chars_of, contains_control, trimmed};
#[allow(unused_imports)]
use crate::text::{has_control, trim};

verus! {

/// What one component does to the components before it. `None` where `..` has nothing to
/// take back.
pub open spec fn enter(parts: Seq<Seq<char>>, component: Seq<char>) -> Option<Seq<Seq<char>>> {
    if component.len() == 0 || component == seq!['.'] {
        Some(parts)
    } else if component == seq!['.', '.'] {
        if parts.len() == 0 {
            None
        } else {
            Some(parts.drop_last())
        }
    } else {
        Some(parts.push(component))
    }
}

/// The components left once `rest` has been read, `current` being the component under way.
pub open spec fn walk(parts: Seq<Seq<char>>, current: Seq<char>, rest: Seq<char>) -> Option<
    Seq<Seq<char>>,
>
    decreases rest.len(),
{
    if rest.len() == 0 {
        enter(parts, current)
    } else if rest[0] == '/' {
        match enter(parts, current) {
            Some(entered) => walk(entered, Seq::empty(), rest.drop_first()),
            None => None,
        }
    } else {
        walk(parts, current.push(rest[0]), rest.drop_first())
    }
}

/// The components of a path, with `.` and empty ones left out and `..` taken back.
pub open spec fn lexical_parts(path: Seq<char>) -> Option<Seq<Seq<char>>> {
    walk(Seq::empty(), Seq::empty(), path)
}

/// The components after a `/` each.
pub open spec fn slashed(parts: Seq<Seq<char>>) -> Seq<char>
    decreases parts.len(),
{
    if parts.len() == 0 {
        Seq::empty()
    } else {
        slashed(parts.drop_last()) + seq!['/'] + parts.last()
    }
}

/// The path from the root through `parts`.
pub open spec fn rooted(parts: Seq<Seq<char>>) -> Seq<char> {
    if parts.len() == 0 {
        seq!['/']
    } else {
        slashed(parts)
    }
}

pub open spec fn views(parts: Seq<String>) -> Seq<Seq<char>> {
    Seq::new(parts.len(), |i: int| parts[i]@)
}

fn component_kind(chars: &Vec<char>, from: usize, to: usize) -> (r: (bool, bool))
    requires
        from <= to <= chars.len(),
    ensures
        ({
            let c = chars@.subrange(from as int, to as int);
            &&& r.0 == (c.len() == 0 || c == seq!['.'])
            &&& r.1 == (c == seq!['.', '.'])
        }),
{
    let len: usize = to - from;
    proof {
        let c = chars@.subrange(from as int, to as int);
        if len == 1 && chars@[from as int] == '.' {
            assert(c =~= seq!['.']);
        }
        if len == 2 && chars@[from as int] == '.' && chars@[from + 1] == '.' {
            assert(c =~= seq!['.', '.']);
        }
        if len > 0 {
            assert(c[0] == chars@[from as int]);
        }
        if len > 1 {
            assert(c[1] == chars@[from + 1]);
        }
    }
    let skip: bool = len == 0 || (len == 1 && chars[from] == '.');
    let up: bool = len == 2 && chars[from] == '.' && chars[from + 1] == '.';
    (skip, up)
}

/// Reads one component into `parts`. `false` where `..` has nothing to take back.
fn enter_component(parts: &mut Vec<String>, path: &str, chars: &Vec<char>, from: usize, to: usize) -> (r:
    bool)
    requires
        chars@ == path@,
        from <= to <= chars.len(),
    ensures
        match enter(views(old(parts)@), path@.subrange(from as int, to as int)) {
            Some(entered) => r && views(final(parts)@) == entered,
            None => !r,
        },
{
    let (skip, up): (bool, bool) = component_kind(chars, from, to);
    if skip {
        return true;
    }
    if up {
        match parts.pop() {
            Some(_) => {
                assert(views(parts@) =~= views(old(parts)@).drop_last());
                return true;
            },
            None => {
                return false;
            },
        }
    }
    parts.push(path.substring_char(from, to).to_owned());
    assert(views(parts@) =~= views(old(parts)@).push(path@.subrange(from as int, to as int)));
    true
}

fn parts_of(path: &str) -> (r: Option<Vec<String>>)
    ensures
        match r {
            Some(parts) => lexical_parts(path@) == Some(views(parts@)),
            None => lexical_parts(path@) is None,
        },
{
    let chars: Vec<char> = chars_of(path);
    let mut parts: Vec<String> = Vec::new();
    let mut from: usize = 0;
    let mut i: usize = 0;
    proof {
        assert(views(parts@) =~= Seq::<Seq<char>>::empty());
        assert(path@.subrange(0, 0) =~= Seq::<char>::empty());
        assert(path@.skip(0) =~= path@);
    }
    while i < chars.len()
        invariant
            chars@ == path@,
            from <= i <= chars.len(),
            lexical_parts(path@) == walk(
                views(parts@),
                path@.subrange(from as int, i as int),
                path@.skip(i as int),
            ),
        decreases chars.len() - i,
    {
        assert(path@.skip(i as int)[0] == chars@[i as int]);
        assert(path@.skip(i as int).drop_first() =~= path@.skip(i + 1));
        if chars[i] == '/' {
            if !enter_component(&mut parts, path, &chars, from, i) {
                return None;
            }
            from = i + 1;
            assert(path@.subrange(from as int, i + 1) =~= Seq::<char>::empty());
        } else {
            assert(path@.subrange(from as int, i as int).push(chars@[i as int])
                =~= path@.subrange(from as int, i + 1));
        }
        i = i + 1;
    }
    assert(path@.skip(i as int) =~= Seq::<char>::empty());
    if !enter_component(&mut parts, path, &chars, from, i) {
        return None;
    }
    Some(parts)
}

fn rooted_text(parts: &Vec<String>) -> (r: String)
    ensures
        r@ == rooted(views(parts@)),
{
    let mut out: String = String::new();
    let mut i: usize = 0;
    assert(views(parts@).take(0) =~= Seq::<Seq<char>>::empty());
    while i < parts.len()
        invariant
            i <= parts.len(),
            out@ == slashed(views(parts@).take(i as int)),
        decreases parts.len() - i,
    {
        let ghost before = out@;
        out.append("/");
        out.append(parts[i].as_str());
        proof {
            reveal_strlit("/");
            let all = views(parts@);
            assert(all.take(i + 1).drop_last() =~= all.take(i as int));
            assert(all.take(i + 1).last() == parts@[i as int]@);
            assert("/"@ =~= seq!['/']);
            assert(out@ =~= before + seq!['/'] + parts@[i as int]@);
        }
        i = i + 1;
    }
    assert(views(parts@).take(parts@.len() as int) =~= views(parts@));
    if parts.len() == 0 {
        out.append("/");
        proof {
            reveal_strlit("/");
            assert(out@ =~= seq!['/']);
        }
    }
    out
}

/// Where the components of a Windows path lead from `at`. `None` where they leave the root.
pub open spec fn windows_walk(at: Seq<char>, steps: Seq<StepFacts>) -> Option<Seq<char>>
    decreases steps.len(),
{
    if steps.len() == 0 {
        Some(at)
    } else {
        match steps.first() {
            StepFacts::Stay => windows_walk(at, steps.drop_first()),
            StepFacts::Up => match windows_parent(at) {
                Some(parent) => windows_walk(parent, steps.drop_first()),
                None => None,
            },
            StepFacts::Into(name) => windows_walk(
                windows_pushed(at, name),
                steps.drop_first(),
            ),
        }
    }
}

/// An absolute path without `.`, `..` and empty components. `None` for a relative path and
/// for one that leaves the root.
pub open spec fn absolute_path(platform: Platform, path: Seq<char>) -> Option<Seq<char>> {
    if !is_absolute(platform, path) {
        None
    } else if platform.windows() {
        windows_walk(Seq::empty(), windows_steps(path))
    } else {
        match lexical_parts(path) {
            Some(parts) => Some(rooted(parts)),
            None => None,
        }
    }
}

fn walk_windows(platform: Platform, steps: &Vec<PathStep>) -> (r: Option<String>)
    requires
        platform.windows(),
    ensures
        r.deep_view() == windows_walk(Seq::empty(), steps.deep_view()),
{
    let ghost all = steps.deep_view();
    let mut at: String = String::new();
    let mut i: usize = 0;
    assert(all.skip(0) =~= all);
    while i < steps.len()
        invariant
            platform.windows(),
            i <= steps.len(),
            all == steps.deep_view(),
            windows_walk(Seq::empty(), all) == windows_walk(at@, all.skip(i as int)),
        decreases steps.len() - i,
    {
        proof {
            assert(all.skip(i as int).first() == steps@[i as int].deep_view());
            assert(all.skip(i as int).drop_first() =~= all.skip(i + 1));
        }
        match &steps[i] {
            PathStep::Stay => {},
            PathStep::Up => match parent_on_windows(platform, at.as_str()) {
                Some(parent) => {
                    at = parent;
                },
                None => {
                    return None;
                },
            },
            PathStep::Into(name) => {
                at = pushed_on_windows(platform, at.as_str(), name.as_str());
            },
        }
        i = i + 1;
    }
    assert(all.skip(i as int) =~= Seq::<StepFacts>::empty());
    Some(at)
}

pub fn normalize_absolute_path(platform: Platform, value: &str) -> (r: Option<String>)
    ensures
        r.deep_view() == absolute_path(platform, value@),
{
    if !starts_at_root(platform, value) {
        return None;
    }
    if platform.is_windows() {
        let steps: Vec<PathStep> = steps_on_windows(platform, value);
        return walk_windows(platform, &steps);
    }
    match parts_of(value) {
        Some(parts) => Some(rooted_text(&parts)),
        None => None,
    }
}

/// The last component of the path is a name to whoever reads it as a path of Windows; on Unix
/// a path without `.`, `..` and empty components ends in a name anyway.
pub open spec fn ends_in_a_name(platform: Platform, path: Seq<char>) -> bool {
    platform.windows() ==> (windows_file_name(path) matches Some(name) && name.len() > 0)
}

fn has_file_name(platform: Platform, path: &str) -> (r: bool)
    ensures
        r == ends_in_a_name(platform, path@),
{
    if platform.is_windows() {
        match file_name_on_windows(platform, path) {
            Some(name) => !name.as_str().is_empty(),
            None => false,
        }
    } else {
        true
    }
}

/// An agent task path: absolute, with components, the first of them `root`, and no control
/// characters. It is written with `/` everywhere.
pub open spec fn agent_path(platform: Platform, raw: Seq<char>) -> Option<Seq<char>> {
    let path = trim(raw);
    if path.len() == 0 || has_control(path) || path[0] != '/' || (path.len() > 1 && path[1] == '/') {
        None
    } else {
        match lexical_parts(path) {
            Some(parts) => if parts.len() >= 2 && parts[0] == "root"@ && ends_in_a_name(
                platform,
                rooted(parts),
            ) {
                Some(rooted(parts))
            } else {
                None
            },
            None => None,
        }
    }
}

/// Normalizes an agent task path lexically. The value is metadata, not a reference to a
/// file.
pub fn normalize_agent_path(platform: Platform, raw: &str) -> (r: Option<String>)
    ensures
        r.deep_view() == agent_path(platform, raw@),
{
    let path: String = trimmed(raw);
    let path: &str = path.as_str();
    if path.is_empty() || contains_control(path) {
        return None;
    }
    if path.get_char(0) != '/' {
        return None;
    }
    if path.unicode_len() > 1 && path.get_char(1) == '/' {
        return None;
    }
    match parts_of(path) {
        Some(parts) => {
            if parts.len() >= 2 && parts[0] == "root".to_owned() {
                let normalized: String = rooted_text(&parts);
                if has_file_name(platform, normalized.as_str()) {
                    Some(normalized)
                } else {
                    None
                }
            } else {
                None
            }
        },
        None => None,
    }
}

} // verus!
