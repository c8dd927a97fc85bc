//! Orders on texts, numbers and optional values, and stable sorting by them.
use vstd::prelude::*;
use vstd::string::*;

use crate::text::chars_of;

verus! {

/// How one value stands to another.
#[derive(Clone, Copy, Debug, PartialEq, Eq, Structural)]
pub enum Rank {
    Before,
    Same,
    After,
}

impl Rank {
    /// The first difference decides.
    pub open spec fn or(self, next: Rank) -> Rank {
        if self is Same {
            next
        } else {
            self
        }
    }

    pub open spec fn reversed(self) -> Rank {
        match self {
            Rank::Before => Rank::After,
            Rank::Same => Rank::Same,
            Rank::After => Rank::Before,
        }
    }

    pub fn or_else(self, next: Rank) -> (r: Rank)
        ensures
            r == self.or(next),
    {
        match self {
            Rank::Same => next,
            _ => self,
        }
    }

    pub fn reverse(self) -> (r: Rank)
        ensures
            r == self.reversed(),
    {
        match self {
            Rank::Before => Rank::After,
            Rank::Same => Rank::Same,
            Rank::After => Rank::Before,
        }
    }
}

pub open spec fn int_rank(a: int, b: int) -> Rank {
    if a < b {
        Rank::Before
    } else if a == b {
        Rank::Same
    } else {
        Rank::After
    }
}

/// An absent number comes before any number.
pub open spec fn optional_int_rank(a: Option<int>, b: Option<int>) -> Rank {
    match (a, b) {
        (None, None) => Rank::Same,
        (None, Some(_)) => Rank::Before,
        (Some(_), None) => Rank::After,
        (Some(a), Some(b)) => int_rank(a, b),
    }
}

/// The order of texts: by the first character that differs, a prefix before the longer text.
pub open spec fn text_rank(a: Seq<char>, b: Seq<char>) -> Rank
    decreases a.len(),
{
    if a.len() == 0 && b.len() == 0 {
        Rank::Same
    } else if a.len() == 0 {
        Rank::Before
    } else if b.len() == 0 {
        Rank::After
    } else if a[0] != b[0] {
        int_rank(a[0] as int, b[0] as int)
    } else {
        text_rank(a.drop_first(), b.drop_first())
    }
}

/// An absent text comes before any text.
pub open spec fn optional_text_rank(a: Option<Seq<char>>, b: Option<Seq<char>>) -> Rank {
    match (a, b) {
        (None, None) => Rank::Same,
        (None, Some(_)) => Rank::Before,
        (Some(_), None) => Rank::After,
        (Some(a), Some(b)) => text_rank(a, b),
    }
}

pub proof fn lemma_text_same(a: Seq<char>, b: Seq<char>)
    ensures
        text_rank(a, b) is Same <==> a == b,
    decreases a.len(),
{
    if a.len() > 0 && b.len() > 0 {
        if a[0] == b[0] {
            lemma_text_same(a.drop_first(), b.drop_first());
            if a.drop_first() == b.drop_first() {
                assert(a =~= seq![a[0]] + a.drop_first());
                assert(b =~= seq![b[0]] + b.drop_first());
            }
        }
    } else if a.len() == 0 && b.len() == 0 {
        assert(a =~= b);
    }
}

pub proof fn lemma_text_reversed(a: Seq<char>, b: Seq<char>)
    ensures
        text_rank(b, a) == text_rank(a, b).reversed(),
    decreases a.len(),
{
    if a.len() > 0 && b.len() > 0 && a[0] == b[0] {
        lemma_text_reversed(a.drop_first(), b.drop_first());
    }
}

pub proof fn lemma_text_transitive(a: Seq<char>, b: Seq<char>, c: Seq<char>)
    requires
        text_rank(a, b) is Before,
        text_rank(b, c) is Before,
    ensures
        text_rank(a, c) is Before,
    decreases a.len(),
{
    if a.len() > 0 && b.len() > 0 && c.len() > 0 && a[0] == b[0] && b[0] == c[0] {
        lemma_text_transitive(a.drop_first(), b.drop_first(), c.drop_first());
    }
}

pub fn compare_i64(a: i64, b: i64) -> (r: Rank)
    ensures
        r == int_rank(a as int, b as int),
{
    if a < b {
        Rank::Before
    } else if a == b {
        Rank::Same
    } else {
        Rank::After
    }
}

pub fn compare_u64(a: u64, b: u64) -> (r: Rank)
    ensures
        r == int_rank(a as int, b as int),
{
    if a < b {
        Rank::Before
    } else if a == b {
        Rank::Same
    } else {
        Rank::After
    }
}

pub open spec fn as_int(value: Option<i64>) -> Option<int> {
    match value {
        Some(value) => Some(value as int),
        None => None,
    }
}

pub open spec fn unsigned_as_int(value: Option<u64>) -> Option<int> {
    match value {
        Some(value) => Some(value as int),
        None => None,
    }
}

pub fn compare_optional_i64(a: Option<i64>, b: Option<i64>) -> (r: Rank)
    ensures
        r == optional_int_rank(as_int(a), as_int(b)),
{
    match (a, b) {
        (None, None) => Rank::Same,
        (None, Some(_)) => Rank::Before,
        (Some(_), None) => Rank::After,
        (Some(a), Some(b)) => compare_i64(a, b),
    }
}

pub fn compare_optional_u64(a: Option<u64>, b: Option<u64>) -> (r: Rank)
    ensures
        r == optional_int_rank(unsigned_as_int(a), unsigned_as_int(b)),
{
    match (a, b) {
        (None, None) => Rank::Same,
        (None, Some(_)) => Rank::Before,
        (Some(_), None) => Rank::After,
        (Some(a), Some(b)) => compare_u64(a, b),
    }
}

pub fn compare_texts(a: &str, b: &str) -> (r: Rank)
    ensures
        r == text_rank(a@, b@),
{
    let left: Vec<char> = chars_of(a);
    let right: Vec<char> = chars_of(b);
    let mut i: usize = 0;
    assert(a@.skip(0) =~= a@);
    assert(b@.skip(0) =~= b@);
    while i < left.len() && i < right.len()
        invariant
            left@ == a@,
            right@ == b@,
            i <= left.len(),
            i <= right.len(),
            text_rank(a@, b@) == text_rank(a@.skip(i as int), b@.skip(i as int)),
        decreases left.len() - i,
    {
        let x: char = left[i];
        let y: char = right[i];
        proof {
            assert(a@.skip(i as int)[0] == left@[i as int]);
            assert(b@.skip(i as int)[0] == right@[i as int]);
            assert(a@.skip(i as int).drop_first() =~= a@.skip(i + 1));
            assert(b@.skip(i as int).drop_first() =~= b@.skip(i + 1));
        }
        if x < y {
            return Rank::Before;
        }
        if x > y {
            return Rank::After;
        }
        i = i + 1;
    }
    if i < right.len() {
        Rank::Before
    } else if i < left.len() {
        Rank::After
    } else {
        Rank::Same
    }
}

pub fn compare_optional_texts(a: &Option<String>, b: &Option<String>) -> (r: Rank)
    ensures
        r == optional_text_rank(a.deep_view(), b.deep_view()),
{
    match (a, b) {
        (None, None) => Rank::Same,
        (None, Some(_)) => Rank::Before,
        (Some(_), None) => Rank::After,
        (Some(a), Some(b)) => compare_texts(a.as_str(), b.as_str()),
    }
}

/// The texts in order, each once.
pub open spec fn ascending(texts: Seq<Seq<char>>) -> bool {
    forall|i: int, j: int|
        #![trigger texts[i], texts[j]]
        0 <= i < j < texts.len() ==> text_rank(texts[i], texts[j]) is Before
}

/// How many texts of an ascending run come before `text`.
pub open spec fn place(texts: Seq<Seq<char>>, text: Seq<char>) -> int
    decreases texts.len(),
{
    if texts.len() == 0 {
        0
    } else if text_rank(texts.first(), text) is Before {
        1 + place(texts.drop_first(), text)
    } else {
        0
    }
}

/// An ascending run with one more text.
pub open spec fn with_text(texts: Seq<Seq<char>>, text: Seq<char>) -> Seq<Seq<char>> {
    let at: int = place(texts, text);
    if at < texts.len() && texts[at] == text {
        texts
    } else {
        texts.insert(at, text)
    }
}

/// The texts in order, each once.
pub open spec fn sorted_texts(texts: Seq<Seq<char>>) -> Seq<Seq<char>>
    decreases texts.len(),
{
    if texts.len() == 0 {
        Seq::empty()
    } else {
        with_text(sorted_texts(texts.drop_last()), texts.last())
    }
}

proof fn lemma_place(texts: Seq<Seq<char>>, text: Seq<char>)
    ensures
        0 <= place(texts, text) <= texts.len(),
        forall|i: int|
            0 <= i < place(texts, text) ==> text_rank(#[trigger] texts[i], text) is Before,
        place(texts, text) < texts.len() ==> !(text_rank(texts[place(texts, text)], text)
            is Before),
    decreases texts.len(),
{
    if texts.len() > 0 && text_rank(texts.first(), text) is Before {
        let rest = texts.drop_first();
        lemma_place(rest, text);
        assert forall|i: int| 0 <= i < place(texts, text) implies text_rank(
            #[trigger] texts[i],
            text,
        ) is Before by {
            if i > 0 {
                assert(rest[i - 1] == texts[i]);
            }
        }
        if place(texts, text) < texts.len() {
            assert(rest[place(rest, text)] == texts[place(texts, text)]);
        }
    }
}

/// Adding a text keeps the run ascending and adds that text alone.
pub proof fn lemma_with_text(texts: Seq<Seq<char>>, text: Seq<char>)
    requires
        ascending(texts),
    ensures
        ascending(with_text(texts, text)),
        forall|t: Seq<char>|
            #[trigger] with_text(texts, text).contains(t) <==> texts.contains(t) || t == text,
{
    lemma_place(texts, text);
    let at = place(texts, text);
    let after = with_text(texts, text);
    if at < texts.len() && texts[at] == text {
        assert(texts.contains(text));
    } else {
        if at < texts.len() {
            lemma_text_same(texts[at], text);
            lemma_text_reversed(texts[at], text);
            assert(text_rank(text, texts[at]) is Before);
        }
        assert forall|i: int, j: int|
            #![trigger after[i], after[j]]
            0 <= i < j < after.len() implies text_rank(after[i], after[j]) is Before by {
            if j < at {
                assert(after[i] == texts[i] && after[j] == texts[j]);
            } else if j == at {
                assert(after[i] == texts[i] && after[j] == text);
            } else if i < at {
                assert(after[i] == texts[i] && after[j] == texts[j - 1]);
            } else if i == at {
                assert(after[i] == text && after[j] == texts[j - 1]);
                if j - 1 > at {
                    lemma_text_transitive(text, texts[at], texts[j - 1]);
                }
            } else {
                assert(after[i] == texts[i - 1] && after[j] == texts[j - 1]);
            }
        }
        assert forall|t: Seq<char>| #[trigger] after.contains(t) <==> texts.contains(t) || t
            == text by {
            if after.contains(t) {
                let k = choose|k: int| 0 <= k < after.len() && after[k] == t;
                if k < at {
                    assert(texts[k] == t);
                } else if k > at {
                    assert(texts[k - 1] == t);
                }
            }
            if texts.contains(t) {
                let k = choose|k: int| 0 <= k < texts.len() && texts[k] == t;
                if k < at {
                    assert(after[k] == t);
                } else {
                    assert(after[k + 1] == t);
                }
            }
            assert(after[at] == text);
        }
    }
}

/// Sorting keeps what there is, in order and each once.
pub proof fn lemma_sorted_texts(texts: Seq<Seq<char>>)
    ensures
        ascending(sorted_texts(texts)),
        forall|t: Seq<char>| #[trigger] sorted_texts(texts).contains(t) <==> texts.contains(t),
    decreases texts.len(),
{
    if texts.len() > 0 {
        let before = texts.drop_last();
        lemma_sorted_texts(before);
        lemma_with_text(sorted_texts(before), texts.last());
        assert forall|t: Seq<char>| #[trigger] sorted_texts(texts).contains(t)
            <==> texts.contains(t) by {
            if texts.contains(t) {
                let k = choose|k: int| 0 <= k < texts.len() && texts[k] == t;
                if k < before.len() {
                    assert(before[k] == t);
                    assert(before.contains(t));
                }
            }
            if before.contains(t) {
                let k = choose|k: int| 0 <= k < before.len() && before[k] == t;
                assert(texts[k] == t);
            }
            assert(texts[texts.len() - 1] == texts.last());
        }
    }
}

/// Adds a text to an ascending run.
pub fn insert_text(texts: &mut Vec<String>, text: &String)
    ensures
        final(texts).deep_view() == with_text(old(texts).deep_view(), text@),
{
    let ghost all = texts.deep_view();
    let mut at: usize = 0;
    assert(all.skip(0) =~= all);
    while at < texts.len() && compare_texts(texts[at].as_str(), text.as_str()) == Rank::Before
        invariant
            at <= texts.len(),
            all == texts.deep_view(),
            place(all, text@) == at + place(all.skip(at as int), text@),
        decreases texts.len() - at,
    {
        assert(all.skip(at as int).first() == all[at as int]);
        assert(all.skip(at as int).drop_first() =~= all.skip(at + 1));
        at = at + 1;
    }
    proof {
        if at < all.len() {
            assert(all.skip(at as int).first() == all[at as int]);
        }
    }
    if at < texts.len() && texts[at] == *text {
        return ;
    }
    texts.insert(at, text.clone());
    assert(texts.deep_view() =~= all.insert(at as int, text@));
}

/// Sorts by `rank`, keeping equal items in their order: where an item goes.
pub open spec fn stable_place<T>(items: Seq<T>, item: T, rank: spec_fn(T, T) -> Rank) -> int
    decreases items.len(),
{
    if items.len() == 0 {
        0
    } else if rank(items.last(), item) is After {
        stable_place(items.drop_last(), item, rank)
    } else {
        items.len() as int
    }
}

/// The items sorted by `rank`, equal ones in their order.
pub open spec fn stably_sorted<T>(items: Seq<T>, rank: spec_fn(T, T) -> Rank) -> Seq<T>
    decreases items.len(),
{
    if items.len() == 0 {
        Seq::empty()
    } else {
        let before = stably_sorted(items.drop_last(), rank);
        before.insert(stable_place(before, items.last(), rank), items.last())
    }
}

pub proof fn lemma_stable_place<T>(items: Seq<T>, item: T, rank: spec_fn(T, T) -> Rank)
    ensures
        0 <= stable_place(items, item, rank) <= items.len(),
    decreases items.len(),
{
    if items.len() > 0 {
        lemma_stable_place(items.drop_last(), item, rank);
    }
}

/// Sorting neither loses nor adds an item.
pub proof fn lemma_stably_sorted_keeps<T>(items: Seq<T>, rank: spec_fn(T, T) -> Rank)
    ensures
        stably_sorted(items, rank).len() == items.len(),
        forall|t: T| #[trigger] stably_sorted(items, rank).contains(t) <==> items.contains(t),
    decreases items.len(),
{
    if items.len() > 0 {
        let rest = items.drop_last();
        let before = stably_sorted(rest, rank);
        let after = stably_sorted(items, rank);
        let at = stable_place(before, items.last(), rank);
        lemma_stably_sorted_keeps(rest, rank);
        lemma_stable_place(before, items.last(), rank);
        assert forall|t: T| #[trigger] after.contains(t) <==> items.contains(t) by {
            if after.contains(t) {
                let k = choose|k: int| 0 <= k < after.len() && after[k] == t;
                if k < at {
                    assert(before[k] == t);
                    assert(before.contains(t));
                } else if k > at {
                    assert(before[k - 1] == t);
                    assert(before.contains(t));
                } else {
                    assert(items[items.len() - 1] == t);
                }
                if before.contains(t) {
                    assert(rest.contains(t));
                    let m = choose|m: int| 0 <= m < rest.len() && rest[m] == t;
                    assert(items[m] == t);
                }
            }
            if items.contains(t) {
                let k = choose|k: int| 0 <= k < items.len() && items[k] == t;
                if k < rest.len() {
                    assert(rest[k] == t);
                    assert(before.contains(t));
                    let m = choose|m: int| 0 <= m < before.len() && before[m] == t;
                    if m < at {
                        assert(after[m] == t);
                    } else {
                        assert(after[m + 1] == t);
                    }
                } else {
                    assert(after[at] == t);
                }
            }
        }
    }
}

/// `sorted` holds the numbers of `ids`, in order and each once.
pub open spec fn sorted_ids(ids: Seq<i64>, sorted: Seq<i64>) -> bool {
    &&& forall|i: int, j: int|
        0 <= i < j < sorted.len() ==> #[trigger] sorted[i] < #[trigger] sorted[j]
    &&& forall|id: i64| #[trigger] sorted.contains(id) <==> ids.contains(id)
}

/// There is but one way to put numbers in order, each once.
pub proof fn law_sorting_is_unique(ids: Seq<i64>, a: Seq<i64>, b: Seq<i64>)
    requires
        sorted_ids(ids, a),
        sorted_ids(ids, b),
    ensures
        a == b,
    decreases a.len(),
{
    if a.len() == 0 {
        if b.len() > 0 {
            assert(b.contains(b[0]));
            assert(a.contains(b[0]));
        }
        assert(a =~= b);
    } else {
        assert(a.contains(a.last()));
        assert(b.contains(a.last()));
        let k = choose|k: int| 0 <= k < b.len() && b[k] == a.last();
        assert(b.contains(b.last()));
        assert(a.contains(b.last()));
        let m = choose|m: int| 0 <= m < a.len() && a[m] == b.last();
        assert(a.last() == b.last());
        let rest = a.drop_last();
        let other = b.drop_last();
        assert forall|id: i64| #[trigger] other.contains(id) <==> rest.contains(id) by {
            if other.contains(id) {
                let i = choose|i: int| 0 <= i < other.len() && other[i] == id;
                assert(b[i] == id);
                assert(b.contains(id));
                assert(a.contains(id));
                let j = choose|j: int| 0 <= j < a.len() && a[j] == id;
                assert(rest[j] == id);
            }
            if rest.contains(id) {
                let i = choose|i: int| 0 <= i < rest.len() && rest[i] == id;
                assert(a[i] == id);
                assert(a.contains(id));
                assert(b.contains(id));
                let j = choose|j: int| 0 <= j < b.len() && b[j] == id;
                assert(other[j] == id);
            }
        }
        law_sorting_is_unique(rest, rest, other);
        assert(a =~= rest.push(a.last()));
        assert(b =~= other.push(b.last()));
    }
}

/// The numbers in order, each once.
pub fn sort_ids(ids: &Vec<i64>) -> (r: Vec<i64>)
    ensures
        sorted_ids(ids@, r@),
{
    let mut sorted: Vec<i64> = Vec::new();
    let mut i: usize = 0;
    assert(ids@.take(0) =~= Seq::<i64>::empty());
    while i < ids.len()
        invariant
            i <= ids.len(),
            sorted_ids(ids@.take(i as int), sorted@),
        decreases ids.len() - i,
    {
        let ghost seen = ids@.take(i as int);
        let ghost next = ids@.take(i + 1);
        let ghost before = sorted@;
        let id: i64 = ids[i];
        proof {
            assert(next =~= seen.push(id));
            assert(next[i as int] == id);
            assert forall|x: i64| next.contains(x) <==> seen.contains(x) || x == id by {
                if seen.contains(x) {
                    let k = choose|k: int| 0 <= k < seen.len() && seen[k] == x;
                    assert(next[k] == x);
                }
            }
        }
        let mut at: usize = 0;
        while at < sorted.len() && sorted[at] < id
            invariant
                at <= sorted.len(),
                forall|k: int| 0 <= k < at ==> #[trigger] sorted@[k] < id,
            decreases sorted.len() - at,
        {
            at = at + 1;
        }
        if at < sorted.len() && sorted[at] == id {
            assert(before[at as int] == id);
        } else {
            sorted.insert(at, id);
            let ghost after = sorted@;
            proof {
                assert(after =~= before.insert(at as int, id));
                assert(after[at as int] == id);
                assert forall|x: i64| #[trigger] after.contains(x) <==> before.contains(x) || x
                    == id by {
                    if before.contains(x) {
                        let k = choose|k: int| 0 <= k < before.len() && before[k] == x;
                        if k < at {
                            assert(after[k] == x);
                        } else {
                            assert(after[k + 1] == x);
                        }
                    }
                    if after.contains(x) {
                        let k = choose|k: int| 0 <= k < after.len() && after[k] == x;
                        if k < at {
                            assert(before[k] == x);
                        } else if k > at {
                            assert(before[k - 1] == x);
                        }
                    }
                }
                assert forall|x: i64| #[trigger] after.contains(x) <==> next.contains(x) by {
                    assert(before.contains(x) <==> seen.contains(x));
                }
                assert forall|j: int, k: int| 0 <= j < k < after.len() implies #[trigger] after[j]
                    < #[trigger] after[k] by {
                    if k < at {
                        assert(after[j] == before[j] && after[k] == before[k]);
                    } else if k == at {
                        assert(after[j] == before[j]);
                    } else if j < at {
                        assert(after[j] == before[j] && after[k] == before[k - 1]);
                    } else if j == at {
                        assert(after[k] == before[k - 1]);
                        assert(before[at as int] <= before[k - 1]);
                    } else {
                        assert(after[j] == before[j - 1] && after[k] == before[k - 1]);
                    }
                }
            }
        }
        i = i + 1;
    }
    assert(ids@.take(i as int) =~= ids@);
    sorted
}

/// The order of texts, for sorting.
pub open spec fn by_text() -> spec_fn(Seq<char>, Seq<char>) -> Rank {
    |a: Seq<char>, b: Seq<char>| text_rank(a, b)
}

pub open spec fn code_views(codes: Seq<&'static str>) -> Seq<Seq<char>> {
    Seq::new(codes.len(), |i: int| codes[i]@)
}

/// The codes in order.
pub fn sort_codes(codes: &Vec<&'static str>) -> (r: Vec<&'static str>)
    ensures
        code_views(r@) == stably_sorted(code_views(codes@), by_text()),
{
    let ghost all = code_views(codes@);
    let mut sorted: Vec<&'static str> = Vec::new();
    let mut i: usize = 0;
    assert(all.take(0) =~= Seq::<Seq<char>>::empty());
    assert(code_views(sorted@) =~= Seq::<Seq<char>>::empty());
    while i < codes.len()
        invariant
            i <= codes.len(),
            all == code_views(codes@),
            code_views(sorted@) == stably_sorted(all.take(i as int), by_text()),
        decreases codes.len() - i,
    {
        let code: &'static str = codes[i];
        let ghost before = code_views(sorted@);
        assert(all.take(i + 1).drop_last() =~= all.take(i as int));
        assert(all.take(i + 1).last() == code@);
        let mut at: usize = sorted.len();
        assert(before.take(at as int) =~= before);
        while at > 0 && compare_texts(sorted[at - 1], code) == Rank::After
            invariant
                at <= sorted.len(),
                before == code_views(sorted@),
                stable_place(before, code@, by_text()) == stable_place(
                    before.take(at as int),
                    code@,
                    by_text(),
                ),
            decreases at,
        {
            assert(before.take(at as int).last() == before[at - 1]);
            assert(before.take(at as int).drop_last() =~= before.take(at - 1));
            at = at - 1;
        }
        proof {
            if at > 0 {
                assert(before.take(at as int).last() == before[at - 1]);
            }
        }
        sorted.insert(at, code);
        assert(code_views(sorted@) =~= before.insert(at as int, code@));
        i = i + 1;
    }
    assert(all.take(i as int) =~= all);
    sorted
}

/// The relation orders any two items, and does so consistently.
pub open spec fn orders<T>(rank: spec_fn(T, T) -> Rank) -> bool {
    &&& forall|a: T, b: T| #[trigger] rank(a, b) is After ==> !(rank(b, a) is After)
    &&& forall|a: T, b: T, c: T|
        #![trigger rank(a, b), rank(b, c)]
        !(rank(a, b) is After) && !(rank(b, c) is After) ==> !(rank(a, c) is After)
}

pub open spec fn in_order<T>(items: Seq<T>, rank: spec_fn(T, T) -> Rank) -> bool {
    forall|i: int, j: int|
        #![trigger items[i], items[j]]
        0 <= i < j < items.len() ==> !(rank(items[i], items[j]) is After)
}

proof fn lemma_stable_place_splits<T>(items: Seq<T>, item: T, rank: spec_fn(T, T) -> Rank)
    ensures
        ({
            let at = stable_place(items, item, rank);
            &&& 0 <= at <= items.len()
            &&& at > 0 ==> !(rank(items[at - 1], item) is After)
            &&& forall|i: int| at <= i < items.len() ==> rank(#[trigger] items[i], item) is After
        }),
    decreases items.len(),
{
    if items.len() > 0 && rank(items.last(), item) is After {
        let rest = items.drop_last();
        lemma_stable_place_splits(rest, item, rank);
        let at = stable_place(rest, item, rank);
        assert forall|i: int| at <= i < items.len() implies rank(#[trigger] items[i], item)
            is After by {
            if i < rest.len() {
                assert(rest[i] == items[i]);
            }
        }
        if at > 0 {
            assert(rest[at - 1] == items[at - 1]);
        }
    }
}

/// Sorting puts the items in order.
pub proof fn lemma_stably_sorted_orders<T>(items: Seq<T>, rank: spec_fn(T, T) -> Rank)
    requires
        orders(rank),
    ensures
        in_order(stably_sorted(items, rank), rank),
    decreases items.len(),
{
    if items.len() > 0 {
        let before = stably_sorted(items.drop_last(), rank);
        let item = items.last();
        let at = stable_place(before, item, rank);
        let after = stably_sorted(items, rank);
        lemma_stably_sorted_orders(items.drop_last(), rank);
        lemma_stable_place_splits(before, item, rank);
        assert forall|i: int, j: int|
            #![trigger after[i], after[j]]
            0 <= i < j < after.len() implies !(rank(after[i], after[j]) is After) by {
            if j < at {
                assert(after[i] == before[i] && after[j] == before[j]);
            } else if j == at {
                assert(after[i] == before[i] && after[j] == item);
                if i < at - 1 {
                    assert(!(rank(before[i], before[at - 1]) is After));
                }
            } else if i < at {
                assert(after[i] == before[i] && after[j] == before[j - 1]);
            } else if i == at {
                assert(after[i] == item && after[j] == before[j - 1]);
                assert(rank(before[j - 1], item) is After);
            } else {
                assert(after[i] == before[i - 1] && after[j] == before[j - 1]);
            }
        }
    }
}

/// Texts are ordered.
pub proof fn lemma_by_text_orders()
    ensures
        orders(by_text()),
{
    let rank = by_text();
    assert forall|a: Seq<char>, b: Seq<char>| #[trigger] rank(a, b) is After implies !(rank(b, a)
        is After) by {
        lemma_text_reversed(a, b);
    }
    assert forall|a: Seq<char>, b: Seq<char>, c: Seq<char>|
        #![trigger rank(a, b), rank(b, c)]
        !(rank(a, b) is After) && !(rank(b, c) is After) implies !(rank(a, c) is After) by {
        lemma_texts_pass_on(a, b, c);
    }
}

/// What is not after what is not after a text is not after it.
pub proof fn lemma_texts_pass_on(a: Seq<char>, b: Seq<char>, c: Seq<char>)
    requires
        !(text_rank(a, b) is After),
        !(text_rank(b, c) is After),
    ensures
        !(text_rank(a, c) is After),
{
    lemma_text_same(a, b);
    lemma_text_same(b, c);
    if a != b && b != c {
        lemma_text_transitive(a, b, c);
    }
}

} // verus!
