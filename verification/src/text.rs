//! Text building shared by every plan: decimal numerals, prefixes, joins.

use vstd::prelude::*;

verus! {

/// Decimal digit `d` as a character.
pub open spec fn digit_char(d: nat) -> char {
    (('0' as nat) + d) as char
}

/// Decimal numeral of `n`, most significant digit first.
pub open spec fn decimal(n: nat) -> Seq<char>
    decreases n,
{
    if n < 10 {
        seq![digit_char(n)]
    } else {
        decimal(n / 10).push(digit_char(n % 10))
    }
}

/// Decimal digit as text.
fn digit_text(d: u64) -> (r: &'static str)
    requires
        d < 10,
    ensures
        r@ == seq![digit_char(d as nat)],
{
    proof {
        reveal_strlit("0");
        reveal_strlit("1");
        reveal_strlit("2");
        reveal_strlit("3");
        reveal_strlit("4");
        reveal_strlit("5");
        reveal_strlit("6");
        reveal_strlit("7");
        reveal_strlit("8");
        reveal_strlit("9");
    }
    let r = match d {
        0 => "0",
        1 => "1",
        2 => "2",
        3 => "3",
        4 => "4",
        5 => "5",
        6 => "6",
        7 => "7",
        8 => "8",
        _ => "9",
    };
    assert(r@ =~= seq![digit_char(d as nat)]);
    r
}

/// Formats `n` in decimal.
pub fn decimal_text(n: u64) -> (r: String)
    ensures
        r@ == decimal(n as nat),
    decreases n,
{
    if n < 10 {
        digit_text(n).to_string()
    } else {
        let head = decimal_text(n / 10);
        let r = head.concat(digit_text(n % 10));
        assert(r@ =~= decimal(n as nat));
        r
    }
}

/// A numeral holds digits alone.
pub proof fn lemma_numeral(n: nat)
    ensures
        decimal(n).len() > 0,
        forall|i: int|
            0 <= i < decimal(n).len() ==> '0' as int <= #[trigger] decimal(n)[i] as int <= '9' as int,
    decreases n,
{
    if n >= 10 {
        lemma_numeral(n / 10);
    }
}

/// Different numbers have different numerals.
pub proof fn lemma_numeral_unique(left: nat, right: nat)
    requires
        decimal(left) == decimal(right),
    ensures
        left == right,
    decreases left,
{
    lemma_numeral(left / 10);
    lemma_numeral(right / 10);
    let whole = decimal(left);
    let other = decimal(right);
    assert(whole.last() == other.last());
    if left >= 10 && right >= 10 {
        assert(whole.drop_last() =~= decimal(left / 10));
        assert(other.drop_last() =~= decimal(right / 10));
        lemma_numeral_unique(left / 10, right / 10);
        assert(left % 10 == right % 10);
    } else if left >= 10 {
        assert(whole.len() >= 2);
        assert(other.len() == 1);
    } else if right >= 10 {
        assert(other.len() >= 2);
        assert(whole.len() == 1);
    }
}

/// Whether `prefix` opens `text`.
pub open spec fn has_prefix(text: Seq<char>, prefix: Seq<char>) -> bool {
    prefix.len() <= text.len() && text.subrange(0, prefix.len() as int) == prefix
}

/// Whether `text` opens with `prefix`.
pub fn starts_with(text: &str, prefix: &str) -> (r: bool)
    ensures
        r == has_prefix(text@, prefix@),
{
    let n: usize = prefix.unicode_len();
    if text.unicode_len() < n {
        return false;
    }
    let head: String = text.substring_char(0, n).to_owned();
    head == prefix.to_owned()
}

/// What follows `prefix` in `text`, where `text` opens with it.
pub open spec fn stripped(text: Seq<char>, prefix: Seq<char>) -> Option<Seq<char>> {
    if has_prefix(text, prefix) {
        Some(text.subrange(prefix.len() as int, text.len() as int))
    } else {
        None
    }
}

/// Removes `prefix` from the front of `text`.
pub fn strip_prefix<'a>(text: &'a str, prefix: &str) -> (r: Option<&'a str>)
    ensures
        r.deep_view() == stripped(text@, prefix@),
{
    if starts_with(text, prefix) {
        Some(text.substring_char(prefix.unicode_len(), text.unicode_len()))
    } else {
        None
    }
}

/// Whether `suffix` closes `text`.
pub open spec fn has_suffix(text: Seq<char>, suffix: Seq<char>) -> bool {
    suffix.len() <= text.len() && text.subrange(text.len() - suffix.len(), text.len() as int)
        == suffix
}

/// Whether `text` closes with `suffix`.
pub fn ends_with(text: &str, suffix: &str) -> (r: bool)
    ensures
        r == has_suffix(text@, suffix@),
{
    let length: usize = text.unicode_len();
    let n: usize = suffix.unicode_len();
    if length < n {
        return false;
    }
    let tail: String = text.substring_char(length - n, length).to_owned();
    tail == suffix.to_owned()
}

/// Whether two texts are equal.
pub fn same_text(left: &str, right: &str) -> (r: bool)
    ensures
        r == (left@ == right@),
{
    left.to_owned() == right.to_owned()
}

/// Position of the first `mark` at or after `from`.
pub open spec fn find_from(text: Seq<char>, mark: char, from: int) -> Option<int>
    decreases text.len() - from,
{
    if from >= text.len() {
        None
    } else if text[from] == mark {
        Some(from)
    } else {
        find_from(text, mark, from + 1)
    }
}

/// Text before and after the first `mark`.
pub open spec fn split_at_first(text: Seq<char>, mark: char) -> Option<(Seq<char>, Seq<char>)> {
    match find_from(text, mark, 0) {
        Some(at) => Some((text.subrange(0, at), text.subrange(at + 1, text.len() as int))),
        None => None,
    }
}

/// Splits `text` around the first `mark`.
pub fn split_once<'a>(text: &'a str, mark: char) -> (r: Option<(&'a str, &'a str)>)
    ensures
        match r {
            Some((head, tail)) => split_at_first(text@, mark) == Some((head@, tail@)),
            None => split_at_first(text@, mark) is None,
        },
{
    let length: usize = text.unicode_len();
    let mut at: usize = 0;
    while at < length
        invariant
            at <= length,
            length == text@.len(),
            find_from(text@, mark, 0) == find_from(text@, mark, at as int),
        decreases length - at,
    {
        if text.get_char(at) == mark {
            return Some((text.substring_char(0, at), text.substring_char(at + 1, length)));
        }
        at = at + 1;
    }
    None
}

/// Decimal numeral of `n`, with a leading minus sign where it is negative.
pub open spec fn signed_decimal(n: int) -> Seq<char> {
    if n < 0 {
        "-"@ + decimal((-n) as nat)
    } else {
        decimal(n as nat)
    }
}

/// Formats `n` in decimal.
pub fn signed_text(n: i32) -> (r: String)
    ensures
        r@ == signed_decimal(n as int),
{
    if n < 0 {
        "-".to_owned().concat(decimal_text((-(n as i64)) as u64).as_str())
    } else {
        decimal_text(n as u64)
    }
}

/// Numeral of `n` padded with a zero to at least two digits.
pub open spec fn two_digits(n: nat) -> Seq<char> {
    if n < 10 {
        "0"@ + decimal(n)
    } else {
        decimal(n)
    }
}

/// Formats `n` in decimal with at least two digits.
pub fn two_digit_text(n: u64) -> (r: String)
    ensures
        r@ == two_digits(n as nat),
{
    if n < 10 {
        "0".to_owned().concat(decimal_text(n).as_str())
    } else {
        decimal_text(n)
    }
}

/// Lower-case hexadecimal digit `d` as text.
pub open spec fn hex_digit(d: nat) -> Seq<char> {
    if d < 10 {
        seq![digit_char(d)]
    } else {
        seq![(('a' as nat) + (d - 10)) as char]
    }
}

/// The `digits` low hexadecimal digits of `n`, most significant first.
pub open spec fn hexadecimal(n: nat, digits: nat) -> Seq<char>
    decreases digits,
{
    if digits == 0 {
        Seq::empty()
    } else {
        hexadecimal(n / 16, (digits - 1) as nat) + hex_digit(n % 16)
    }
}

fn hex_digit_text(d: u32) -> (r: &'static str)
    requires
        d < 16,
    ensures
        r@ == hex_digit(d as nat),
{
    if d < 10 {
        return digit_text(d as u64);
    }
    proof {
        reveal_strlit("a");
        reveal_strlit("b");
        reveal_strlit("c");
        reveal_strlit("d");
        reveal_strlit("e");
        reveal_strlit("f");
    }
    let r = match d {
        10 => "a",
        11 => "b",
        12 => "c",
        13 => "d",
        14 => "e",
        _ => "f",
    };
    assert(r@ =~= hex_digit(d as nat));
    r
}

/// Formats the `digits` low hexadecimal digits of `n`.
pub fn hex_text(n: u32, digits: u32) -> (r: String)
    ensures
        r@ == hexadecimal(n as nat, digits as nat),
    decreases digits,
{
    if digits == 0 {
        String::new()
    } else {
        hex_text(n / 16, digits - 1).concat(hex_digit_text(n % 16))
    }
}

/// The parts in order, with `separator` between neighbours.
pub open spec fn joined(parts: Seq<Seq<char>>, separator: Seq<char>) -> Seq<char>
    decreases parts.len(),
{
    if parts.len() == 0 {
        Seq::empty()
    } else if parts.len() == 1 {
        parts[0]
    } else {
        joined(parts.drop_last(), separator) + separator + parts.last()
    }
}

/// Joins `parts` with `separator` between neighbours.
pub fn join_texts(parts: &Vec<String>, separator: &str) -> (r: String)
    ensures
        r@ == joined(parts.deep_view(), separator@),
{
    let mut r: String = String::new();
    let mut at: usize = 0;
    assert(parts.deep_view().take(0) =~= Seq::empty());
    while at < parts.len()
        invariant
            at <= parts.len(),
            r@ == joined(parts.deep_view().take(at as int), separator@),
        decreases parts.len() - at,
    {
        proof {
            let next = parts.deep_view().take(at as int + 1);
            assert(next.drop_last() =~= parts.deep_view().take(at as int));
            assert(next.last() == parts[at as int]@);
        }
        if at > 0 {
            r.append(separator);
        }
        r.append(parts[at].as_str());
        proof {
            if at == 0 {
                assert(r@ =~= parts[0]@);
            }
        }
        at = at + 1;
    }
    assert(parts.deep_view().take(parts.len() as int) =~= parts.deep_view());
    r
}

/// Text `{:?}` gives for a string: quoted, with special characters escaped.
pub uninterp spec fn debug_quoted(text: Seq<char>) -> Seq<char>;

/// Formats `text` with its `std::fmt::Debug` implementation.
///
/// Trusted: the result depends on the text alone and is called `debug_quoted`; how special
/// characters are escaped is left unsaid.
#[verifier::external_body]
pub(crate) fn debug_text(text: &str) -> (r: String)
    ensures
        r@ == debug_quoted(text@),
{
    format!("{:?}", text)
}

/// Copies a list of texts.
pub fn copy_texts(texts: &Vec<String>) -> (r: Vec<String>)
    ensures
        r@ == texts@,
{
    let mut r: Vec<String> = Vec::new();
    let mut at: usize = 0;
    while at < texts.len()
        invariant
            at <= texts.len(),
            r@ == texts@.take(at as int),
        decreases texts.len() - at,
    {
        r.push(texts[at].clone());
        assert(r@ =~= texts@.take(at as int + 1));
        at = at + 1;
    }
    assert(texts@.take(texts.len() as int) =~= texts@);
    r
}

/// Whether `texts` holds `text`.
pub fn list_has(texts: &Vec<String>, text: &str) -> (r: bool)
    ensures
        r == texts.deep_view().contains(text@),
{
    let mut at: usize = 0;
    while at < texts.len()
        invariant
            at <= texts.len(),
            forall|i: int| 0 <= i < at ==> #[trigger] texts.deep_view()[i] != text@,
        decreases texts.len() - at,
    {
        if same_text(texts[at].as_str(), text) {
            assert(texts.deep_view()[at as int] == text@);
            return true;
        }
        assert(texts.deep_view()[at as int] != text@);
        at = at + 1;
    }
    false
}

/// Appends `item` and keeps the contents of the list in step.
pub fn push_item<T: DeepView>(items: &mut Vec<T>, item: T)
    ensures
        final(items)@ == old(items)@.push(item),
        final(items).deep_view() == old(items).deep_view().push(item.deep_view()),
{
    items.push(item);
    assert(items.deep_view() =~= old(items).deep_view().push(item.deep_view()));
}

} // verus!
