//! What numerals, prefixes, joins, and sorted lists are to a reader.

use crate::order::{at_most, dictionary, lemma_dictionary, sorted_texts};
use crate::text::{
    decimal, find_from, has_prefix, has_suffix, hexadecimal, joined, lemma_numeral, signed_decimal,
    split_at_first, stripped, two_digits,
};
use vstd::prelude::*;

verus! {

/// Number that a decimal numeral says.
pub open spec fn read_decimal(text: Seq<char>) -> int
    decreases text.len(),
{
    if text.len() == 0 {
        0
    } else {
        10 * read_decimal(text.drop_last()) + (text.last() as int - '0' as int)
    }
}

/// A numeral says its number, in digits alone and without a leading zero.
pub proof fn law_numerals_say_their_number(n: nat)
    ensures
        read_decimal(decimal(n)) == n,
        decimal(n).len() > 0,
        n > 0 ==> decimal(n)[0] != '0',
        n == 0 ==> decimal(n) == seq!['0'],
        forall|i: int|
            0 <= i < decimal(n).len() ==> '0' as int <= #[trigger] decimal(n)[i] as int <= '9' as int,
    decreases n,
{
    lemma_numeral(n);
    reveal_with_fuel(read_decimal, 2);
    if n < 10 {
        assert(decimal(n).drop_last() =~= Seq::empty());
    } else {
        law_numerals_say_their_number(n / 10);
        assert(decimal(n).drop_last() =~= decimal(n / 10));
    }
}

/// A signed numeral is a minus sign before the numeral of the opposite where the number is
/// negative, and the plain numeral elsewhere.
pub proof fn law_signed_numerals_say_their_number(n: int)
    ensures
        n < 0 ==> signed_decimal(n)[0] == '-' && read_decimal(
            signed_decimal(n).subrange(1, signed_decimal(n).len() as int),
        ) == -n,
        n >= 0 ==> read_decimal(signed_decimal(n)) == n,
{
    reveal_strlit("-");
    if n < 0 {
        law_numerals_say_their_number((-n) as nat);
        assert(signed_decimal(n).subrange(1, signed_decimal(n).len() as int) =~= decimal(
            (-n) as nat,
        ));
    } else {
        law_numerals_say_their_number(n as nat);
    }
}

/// A padded numeral says its number in at least two digits, with no more padding than that.
pub proof fn law_padded_numerals_say_their_number(n: nat)
    ensures
        read_decimal(two_digits(n)) == n,
        two_digits(n).len() >= 2,
        n < 100 ==> two_digits(n).len() == 2,
{
    reveal_strlit("0");
    law_numerals_say_their_number(n);
    if n < 10 {
        reveal_with_fuel(read_decimal, 3);
        assert(two_digits(n) =~= seq!['0', decimal(n)[0]]);
        assert(two_digits(n).drop_last() =~= seq!['0']);
        assert(seq!['0'].drop_last() =~= Seq::empty());
        assert(decimal(n).drop_last() =~= Seq::empty());
    } else {
        lemma_numeral(n / 10);
        if n < 100 {
            assert(decimal(n / 10).len() == 1);
        }
    }
}

/// Value of a lower-case hexadecimal digit.
pub open spec fn read_hex_digit(digit: char) -> int {
    if digit as int <= '9' as int {
        digit as int - '0' as int
    } else {
        digit as int - 'a' as int + 10
    }
}

/// Number that a hexadecimal numeral says.
pub open spec fn read_hexadecimal(text: Seq<char>) -> int
    decreases text.len(),
{
    if text.len() == 0 {
        0
    } else {
        16 * read_hexadecimal(text.drop_last()) + read_hex_digit(text.last())
    }
}

/// Whether `n` fits `digits` hexadecimal digits.
pub open spec fn fits_hexadecimal(n: nat, digits: nat) -> bool
    decreases digits,
{
    if digits == 0 {
        n == 0
    } else {
        fits_hexadecimal(n / 16, (digits - 1) as nat)
    }
}

/// A hexadecimal numeral has exactly its digits, and says its number where it fits them.
pub proof fn law_hexadecimal_numerals_say_their_number(n: nat, digits: nat)
    ensures
        hexadecimal(n, digits).len() == digits,
        fits_hexadecimal(n, digits) ==> read_hexadecimal(hexadecimal(n, digits)) == n,
    decreases digits,
{
    if digits > 0 {
        let head = hexadecimal(n / 16, (digits - 1) as nat);
        law_hexadecimal_numerals_say_their_number(n / 16, (digits - 1) as nat);
        assert(hexadecimal(n, digits).drop_last() =~= head);
    }
}

/// A text opens with a prefix exactly where it is that prefix and some rest, and stripping the
/// prefix gives the rest.
pub proof fn law_prefixes_open_their_texts(prefix: Seq<char>, rest: Seq<char>, text: Seq<char>)
    ensures
        has_prefix(prefix + rest, prefix),
        stripped(prefix + rest, prefix) == Some(rest),
        has_prefix(text, prefix) ==> exists|rest: Seq<char>| text == #[trigger] (prefix + rest),
        !has_prefix(text, prefix) ==> stripped(text, prefix) is None,
{
    let whole = prefix + rest;
    assert(whole.subrange(0, prefix.len() as int) =~= prefix);
    assert(whole.subrange(prefix.len() as int, whole.len() as int) =~= rest);
    if has_prefix(text, prefix) {
        let left = text.subrange(prefix.len() as int, text.len() as int);
        assert(text =~= prefix + left);
    }
}

/// A text ends with a suffix exactly where it is some start and that suffix.
pub proof fn law_suffixes_close_their_texts(start: Seq<char>, suffix: Seq<char>, text: Seq<char>)
    ensures
        has_suffix(start + suffix, suffix),
        has_suffix(text, suffix) ==> exists|start: Seq<char>| text == #[trigger] (start + suffix),
{
    let whole = start + suffix;
    assert(whole.subrange(whole.len() - suffix.len(), whole.len() as int) =~= suffix);
    if has_suffix(text, suffix) {
        let left = text.subrange(0, text.len() - suffix.len());
        assert(text =~= left + suffix);
    }
}

proof fn lemma_found(head: Seq<char>, mark: char, tail: Seq<char>, from: int)
    requires
        0 <= from <= head.len(),
        forall|i: int| 0 <= i < head.len() ==> #[trigger] head[i] != mark,
    ensures
        find_from(head + seq![mark] + tail, mark, from) == Some(head.len() as int),
    decreases head.len() - from,
{
    let whole = head + seq![mark] + tail;
    if from < head.len() {
        assert(whole[from] == head[from]);
        lemma_found(head, mark, tail, from + 1);
    } else {
        assert(whole[from] == mark);
    }
}

proof fn lemma_not_found(text: Seq<char>, mark: char, from: int)
    requires
        0 <= from <= text.len(),
        forall|i: int| 0 <= i < text.len() ==> #[trigger] text[i] != mark,
    ensures
        find_from(text, mark, from) is None,
    decreases text.len() - from,
{
    if from < text.len() {
        lemma_not_found(text, mark, from + 1);
    }
}

/// Splitting gives what stands before and after the first mark, and nothing where there is none.
pub proof fn law_splits_are_around_the_first_mark(head: Seq<char>, mark: char, tail: Seq<char>)
    requires
        forall|i: int| 0 <= i < head.len() ==> #[trigger] head[i] != mark,
    ensures
        split_at_first(head + seq![mark] + tail, mark) == Some((head, tail)),
        split_at_first(head, mark) is None,
{
    let whole = head + seq![mark] + tail;
    lemma_found(head, mark, tail, 0);
    lemma_not_found(head, mark, 0);
    assert(whole.subrange(0, head.len() as int) =~= head);
    assert(whole.subrange(head.len() as int + 1, whole.len() as int) =~= tail);
}

/// Joining puts the separator between neighbours alone, and keeps the order.
pub proof fn law_joins_separate_neighbours(
    parts: Seq<Seq<char>>,
    last: Seq<char>,
    separator: Seq<char>,
)
    ensures
        joined(Seq::empty(), separator) == Seq::<char>::empty(),
        joined(seq![last], separator) == last,
        parts.len() > 0 ==> joined(parts.push(last), separator) == joined(parts, separator)
            + separator + last,
{
    assert(parts.push(last).drop_last() =~= parts);
}

proof fn lemma_common(common: Seq<char>, left: Seq<char>, right: Seq<char>)
    ensures
        at_most(common + left, common + right) == at_most(left, right),
    decreases common.len(),
{
    if common.len() == 0 {
        assert(common + left =~= left);
        assert(common + right =~= right);
    } else {
        lemma_common(common.drop_first(), left, right);
        assert((common + left).drop_first() =~= common.drop_first() + left);
        assert((common + right).drop_first() =~= common.drop_first() + right);
    }
}

/// Texts are ordered by the first character in which they differ, and a text before those that
/// it opens.
pub proof fn law_texts_are_ordered_by_their_first_difference(
    common: Seq<char>,
    left: char,
    left_rest: Seq<char>,
    right: char,
    right_rest: Seq<char>,
)
    requires
        (left as int) < (right as int),
    ensures
        at_most(common + (seq![left] + left_rest), common + (seq![right] + right_rest)),
        !at_most(common + (seq![right] + right_rest), common + (seq![left] + left_rest)),
        at_most(common, common + (seq![left] + left_rest)),
        !at_most(common + (seq![left] + left_rest), common),
{
    let first = seq![left] + left_rest;
    let second = seq![right] + right_rest;
    assert(first[0] == left);
    assert(second[0] == right);
    lemma_common(common, first, second);
    lemma_common(common, second, first);
    lemma_common(common, Seq::empty(), first);
    lemma_common(common, first, Seq::empty());
    assert(common + Seq::<char>::empty() =~= common);
}

/// A sorted list holds the same texts as often as the list it is made from, each at or before
/// those that follow it.
pub proof fn law_sorted_lists_are_in_order(texts: Seq<Seq<char>>)
    ensures
        sorted_texts(texts).to_multiset() == texts.to_multiset(),
        sorted_texts(texts).len() == texts.len(),
        forall|i: int, j: int|
            0 <= i < j < sorted_texts(texts).len() ==> #[trigger] at_most(
                sorted_texts(texts)[i],
                sorted_texts(texts)[j],
            ),
{
    lemma_dictionary();
    texts.lemma_sort_by_ensures(dictionary());
    let sorted = sorted_texts(texts);
    let order = dictionary();
    assert(sorted.len() == texts.len()) by {
        broadcast use vstd::seq_lib::group_to_multiset_ensures;

        assert(sorted.to_multiset().len() == texts.to_multiset().len());
    }
    assert forall|i: int, j: int| 0 <= i < j < sorted.len() implies #[trigger] at_most(
        sorted[i],
        sorted[j],
    ) by {
        assert(order(sorted[i], sorted[j]));
    }
}

} // verus!
