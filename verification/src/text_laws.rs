//! What trimming leaves, and what numbers look like as text.
use vstd::prelude::*;

use crate::text::{
    blank, digit_char, has_control, int_text, is_control_char, is_whitespace_char, leading_blanks,
    lowered, nat_text, non_empty_text, trailing_blanks, trim,
};

verus! {

proof fn lemma_leading(s: Seq<char>)
    ensures
        leading_blanks(s) <= s.len(),
        forall|i: int| 0 <= i < leading_blanks(s) ==> is_whitespace_char(#[trigger] s[i]),
        leading_blanks(s) < s.len() ==> !is_whitespace_char(s[leading_blanks(s) as int]),
    decreases s.len(),
{
    if s.len() > 0 && is_whitespace_char(s[0]) {
        let rest = s.drop_first();
        lemma_leading(rest);
        assert forall|i: int| 0 <= i < leading_blanks(s) implies is_whitespace_char(
            #[trigger] s[i],
        ) by {
            if i > 0 {
                assert(rest[i - 1] == s[i]);
            }
        }
        if leading_blanks(s) < s.len() {
            assert(rest[leading_blanks(rest) as int] == s[leading_blanks(s) as int]);
        }
    }
}

proof fn lemma_trailing(s: Seq<char>)
    ensures
        trailing_blanks(s) <= s.len(),
        forall|i: int|
            s.len() - trailing_blanks(s) <= i < s.len() ==> is_whitespace_char(#[trigger] s[i]),
        trailing_blanks(s) < s.len() ==> !is_whitespace_char(s[s.len() - trailing_blanks(s) - 1]),
    decreases s.len(),
{
    if s.len() > 0 && is_whitespace_char(s.last()) {
        let rest = s.drop_last();
        lemma_trailing(rest);
        assert forall|i: int|
            s.len() - trailing_blanks(s) <= i < s.len() implies is_whitespace_char(
            #[trigger] s[i],
        ) by {
            if i < s.len() - 1 {
                assert(rest[i] == s[i]);
            }
        }
    }
}

/// A trimmed text is the text without white space at its start and its end, and with all that
/// stands between. It neither begins nor ends with white space; of a blank text nothing is left.
pub proof fn law_trimming_takes_white_space_off_both_ends(s: Seq<char>, r: Seq<char>)
    requires
        r == trim(s),
    ensures
        exists|a: int, b: int|
            0 <= a <= b <= s.len() && r == #[trigger] s.subrange(a, b) && blank(
                s.subrange(0, a),
            ) && blank(s.subrange(b, s.len() as int)),
        r.len() > 0 ==> !is_whitespace_char(r[0]) && !is_whitespace_char(r.last()),
        r.len() == 0 <==> blank(s),
{
    lemma_leading(s);
    let a = leading_blanks(s) as int;
    let rest = s.skip(a);
    lemma_trailing(rest);
    let b = s.len() - trailing_blanks(rest);
    assert(r =~= s.subrange(a, b));
    assert forall|i: int| b <= i < s.len() implies is_whitespace_char(#[trigger] s[i]) by {
        assert(rest[i - a] == s[i]);
    }
    assert(blank(s.subrange(0, a)));
    assert(blank(s.subrange(b, s.len() as int))) by {
        assert forall|i: int| 0 <= i < s.len() - b implies is_whitespace_char(
            #[trigger] s.subrange(b, s.len() as int)[i],
        ) by {
            assert(is_whitespace_char(s[b + i]));
        }
    }
    if r.len() > 0 {
        assert(r[0] == s[a]);
        assert(r.last() == rest[rest.len() - trailing_blanks(rest) - 1]);
        assert(s[a] == s[a]);
    } else {
        assert forall|i: int| 0 <= i < s.len() implies is_whitespace_char(#[trigger] s[i]) by {
            if i < a {
            } else {
                assert(b <= i);
            }
        }
    }
}

/// A text is kept trimmed if anything is left of it.
pub proof fn law_blank_texts_are_none(s: Seq<char>, r: Option<Seq<char>>)
    requires
        r == non_empty_text(s),
    ensures
        r is None <==> blank(s),
        r matches Some(t) ==> t == trim(s) && t.len() > 0,
{
    law_trimming_takes_white_space_off_both_ends(s, trim(s));
}

/// Spaces, tabs and line ends are white space, and letters, digits and signs are not. Line ends
/// and all below a space are control characters, and nothing that is printed in ASCII is.
pub proof fn law_white_space_and_control_characters(c: char)
    ensures
        is_whitespace_char(' ') && is_whitespace_char('\t') && is_whitespace_char('\n')
            && is_whitespace_char('\r'),
        '!' <= c <= '~' ==> !is_whitespace_char(c) && !is_control_char(c),
        c < ' ' ==> is_control_char(c),
        !is_control_char(' '),
        is_whitespace_char(c) && c < ' ' ==> '\t' <= c <= '\r',
{
}

/// Lower case changes the letters from A to Z, to those thirty-two places on, and no other
/// character.
pub proof fn law_lower_case_changes_capitals_only(s: Seq<char>, i: int)
    requires
        0 <= i < s.len(),
    ensures
        lowered(s).len() == s.len(),
        !('A' <= s[i] <= 'Z') ==> lowered(s)[i] == s[i],
        'A' <= s[i] <= 'Z' ==> lowered(s)[i] as int == s[i] as int + 32 && 'a' <= lowered(s)[i]
            <= 'z',
{
}

/// The number that decimal digits stand for.
pub open spec fn value_of(digits: Seq<char>) -> int
    decreases digits.len(),
{
    if digits.len() == 0 {
        0
    } else {
        value_of(digits.drop_last()) * 10 + (digits.last() as int - '0' as int)
    }
}

/// A number is written in decimal digits that stand for it, without a zero in front; a negative
/// number has a minus in front.
pub proof fn law_numbers_are_written_in_decimal(n: int)
    ensures
        n >= 0 ==> value_of(int_text(n)) == n,
        n < 0 ==> int_text(n).len() > 1 && int_text(n)[0] == '-' && value_of(
            int_text(n).drop_first(),
        ) == -n,
        n > 0 ==> int_text(n)[0] != '0',
        n == 0 ==> int_text(n) == "0"@,
        n >= 0 ==> forall|i: int| 0 <= i < int_text(n).len() ==> '0' <= #[trigger] int_text(n)[i]
            <= '9',
{
    reveal_strlit("0");
    if n < 0 {
        lemma_digits((-n) as nat);
        assert(int_text(n).drop_first() =~= nat_text((-n) as nat));
    } else {
        lemma_digits(n as nat);
        if n == 0 {
            assert(int_text(n) =~= "0"@);
        }
    }
}

proof fn lemma_digits(n: nat)
    ensures
        value_of(nat_text(n)) == n,
        nat_text(n).len() > 0,
        n > 0 ==> nat_text(n)[0] != '0',
        forall|i: int| 0 <= i < nat_text(n).len() ==> '0' <= #[trigger] nat_text(n)[i] <= '9',
    decreases n,
{
    if n < 10 {
        let text = seq![digit_char(n)];
        assert(text.drop_last() =~= Seq::<char>::empty());
        assert(value_of(text.drop_last()) == 0);
        assert(text.last() as int == '0' as int + n);
        assert(nat_text(n) == text);
    } else {
        lemma_digits(n / 10);
        let text = nat_text(n / 10).push(digit_char(n % 10));
        assert(text.drop_last() =~= nat_text(n / 10));
        assert(text.last() as int == '0' as int + n % 10);
        assert(nat_text(n) == text);
        assert(text[0] == nat_text(n / 10)[0]);
    }
}

/// A text has a control character if and only if some character of it is one.
pub proof fn law_control_characters_are_found(s: Seq<char>, t: Seq<char>)
    ensures
        has_control(s + t) <==> has_control(s) || has_control(t),
        blank(s + t) <==> blank(s) && blank(t),
{
    let all = s + t;
    if has_control(s) {
        let i = choose|i: int| 0 <= i < s.len() && is_control_char(#[trigger] s[i]);
        assert(all[i] == s[i]);
    }
    if has_control(t) {
        let i = choose|i: int| 0 <= i < t.len() && is_control_char(#[trigger] t[i]);
        assert(all[s.len() + i] == t[i]);
    }
    if has_control(all) {
        let i = choose|i: int| 0 <= i < all.len() && is_control_char(#[trigger] all[i]);
        if i < s.len() {
            assert(is_control_char(s[i]));
        } else {
            assert(is_control_char(t[i - s.len()]));
        }
    }
    if blank(all) {
        assert forall|i: int| 0 <= i < s.len() implies is_whitespace_char(#[trigger] s[i]) by {
            assert(all[i] == s[i]);
        }
        assert forall|i: int| 0 <= i < t.len() implies is_whitespace_char(#[trigger] t[i]) by {
            assert(all[s.len() + i] == t[i]);
        }
    }
}

} // verus!
