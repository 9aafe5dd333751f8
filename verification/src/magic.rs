//! A list of byte values written as `[0, 1, 2, 3]`, turned into hexadecimal.

use crate::text::{chars_of, hex_text, push_hex};
use vstd::prelude::*;
use vstd::string::*;

verus! {

/// An opening or closing square bracket.
pub open spec fn is_bracket(c: char) -> bool {
    c == '[' || c == ']'
}

/// The text without its square brackets.
pub open spec fn without_brackets(s: Seq<char>) -> Seq<char>
    decreases s.len(),
{
    if s.len() == 0 {
        Seq::empty()
    } else if is_bracket(s.last()) {
        without_brackets(s.drop_last())
    } else {
        without_brackets(s.drop_last()).push(s.last())
    }
}

/// A comma and a space stand at `i` and `i + 1`.
pub open spec fn separator_at(s: Seq<char>, i: int) -> bool {
    0 <= i && i + 1 < s.len() && s[i] == ',' && s[i + 1] == ' '
}

/// The items that the separators cut the text into, read from left to right:
/// those of the part from `start`, of which the part before `at` holds no
/// separator.
pub open spec fn items(s: Seq<char>, start: int, at: int) -> Seq<Seq<char>>
    decreases s.len() - at,
{
    if at >= s.len() {
        seq![s.subrange(start, s.len() as int)]
    } else if separator_at(s, at) {
        seq![s.subrange(start, at)] + items(s, at + 2, at + 2)
    } else {
        items(s, start, at + 1)
    }
}

/// A decimal digit.
pub open spec fn is_digit(c: char) -> bool {
    '0' <= c <= '9'
}

/// Every character is a decimal digit.
pub open spec fn all_digits(d: Seq<char>) -> bool {
    forall|i: int| 0 <= i < d.len() ==> #[trigger] is_digit(d[i])
}

/// The value of a sequence of decimal digits.
pub open spec fn digits_value(d: Seq<char>) -> int
    decreases d.len(),
{
    if d.len() == 0 {
        0
    } else {
        10 * digits_value(d.drop_last()) + (d.last() as int - '0' as int)
    }
}

/// The item without a plus sign in front.
pub open spec fn unsigned(item: Seq<char>) -> Seq<char> {
    if item.len() > 0 && item[0] == '+' {
        item.skip(1)
    } else {
        item
    }
}

/// The byte that an item denotes: an optional plus sign, then one or more
/// decimal digits whose value is at most 255.
pub open spec fn number_of(item: Seq<char>) -> Option<u8> {
    let d = unsigned(item);
    if d.len() > 0 && all_digits(d) && digits_value(d) <= 255 {
        Some(digits_value(d) as u8)
    } else {
        None
    }
}

/// Every item denotes a byte.
pub open spec fn all_numbers(list: Seq<Seq<char>>) -> bool {
    forall|i: int| 0 <= i < list.len() ==> #[trigger] number_of(list[i]) is Some
}

/// The bytes that the items denote, each as two hexadecimal digits.
pub open spec fn hex_of_all(list: Seq<Seq<char>>) -> Seq<char>
    decreases list.len(),
{
    if list.len() == 0 {
        Seq::empty()
    } else {
        hex_of_all(list.drop_last()) + hex_text(number_of(list.last()).unwrap() as nat, 2)
    }
}

/// The items of a written list: the text without its brackets, cut at each
/// comma with a space behind it.
pub open spec fn magic_items(s: Seq<char>) -> Seq<Seq<char>> {
    items(without_brackets(s), 0, 0)
}

/// The value of the first digits of a digit sequence is at most the value of all.
proof fn lemma_prefix_value(d: Seq<char>, k: int)
    requires
        0 <= k <= d.len(),
        all_digits(d),
    ensures
        0 <= digits_value(d.take(k)) <= digits_value(d),
    decreases d.len() - k,
{
    if k == d.len() {
        assert(d.take(k) =~= d);
        lemma_nonnegative(d);
    } else {
        lemma_prefix_value(d, k + 1);
        assert(d.take(k + 1).drop_last() =~= d.take(k));
        assert(is_digit(d[k]));
        assert(d.take(k + 1).last() == d[k]);
        lemma_nonnegative_take(d, k);
    }
}

/// The value of a digit sequence is not negative.
proof fn lemma_nonnegative(d: Seq<char>)
    requires
        all_digits(d),
    ensures
        0 <= digits_value(d),
    decreases d.len(),
{
    if d.len() > 0 {
        assert forall|i: int| 0 <= i < d.drop_last().len() implies #[trigger] is_digit(
            d.drop_last()[i],
        ) by {
            assert(is_digit(d[i]));
        }
        lemma_nonnegative(d.drop_last());
        assert(is_digit(d[d.len() - 1]));
    }
}

/// The value of the first digits of a digit sequence is not negative.
proof fn lemma_nonnegative_take(d: Seq<char>, k: int)
    requires
        0 <= k <= d.len(),
        all_digits(d),
    ensures
        0 <= digits_value(d.take(k)),
{
    assert forall|i: int| 0 <= i < d.take(k).len() implies #[trigger] is_digit(d.take(k)[i]) by {
        assert(is_digit(d[i]));
    }
    lemma_nonnegative(d.take(k));
}

/// Copies the text without its square brackets.
pub fn strip_brackets(s: &Vec<char>) -> (t: Vec<char>)
    ensures
        t@ == without_brackets(s@),
{
    let mut t: Vec<char> = Vec::new();
    let mut i: usize = 0;
    while i < s.len()
        invariant
            i <= s@.len(),
            t@ == without_brackets(s@.take(i as int)),
        decreases s@.len() - i,
    {
        let c = s[i];
        assert(s@.take(i + 1).drop_last() =~= s@.take(i as int));
        if !(c == '[' || c == ']') {
            t.push(c);
        }
        i = i + 1;
    }
    assert(s@.take(i as int) =~= s@);
    t
}

/// Reads the item between `start` and `end` as a byte.
pub fn parse_number(t: &Vec<char>, start: usize, end: usize) -> (r: Option<u8>)
    requires
        start <= end <= t@.len(),
    ensures
        r == number_of(t@.subrange(start as int, end as int)),
{
    let mut i: usize = start;
    if i < end && t[i] == '+' {
        i = i + 1;
    }
    let first: usize = i;
    let ghost d = t@.subrange(first as int, end as int);
    assert(d =~= unsigned(t@.subrange(start as int, end as int)));
    if i == end {
        return None;
    }
    let mut value: u32 = 0;
    while i < end
        invariant
            first <= i <= end <= t@.len(),
            d == t@.subrange(first as int, end as int),
            d == unsigned(t@.subrange(start as int, end as int)),
            all_digits(d.take(i - first)),
            value == digits_value(d.take(i - first)),
            value <= 255,
        decreases end - i,
    {
        let c = t[i];
        assert(d[i - first] == c);
        if !(c >= '0' && c <= '9') {
            assert(!is_digit(d[i - first]));
            return None;
        }
        assert(d.take(i - first + 1).drop_last() =~= d.take(i - first));
        assert(d.take(i - first + 1).last() == c);
        assert forall|j: int| 0 <= j < d.take(i - first + 1).len() implies #[trigger] is_digit(
            d.take(i - first + 1)[j],
        ) by {
            if j < i - first {
                assert(is_digit(d.take(i - first)[j]));
            }
        }
        value = 10 * value + (c as u32 - '0' as u32);
        if value > 255 {
            proof {
                if all_digits(d) {
                    lemma_prefix_value(d, i - first + 1);
                }
            }
            return None;
        }
        i = i + 1;
    }
    assert(d.take(i - first) =~= d);
    Some(value as u8)
}

/// Turns a list of byte values, written as `[0, 1, 2, 3]`, into their
/// hexadecimal text, `00010203`, or finds that an item denotes no byte. The
/// square brackets are dropped wherever they stand, and what is left is cut at
/// each comma with a space behind it.
pub fn try_magic_hex(magic: &str) -> (r: Option<String>)
    ensures
        r is Some <==> all_numbers(magic_items(magic@)),
        r is Some ==> r.unwrap()@ == hex_of_all(magic_items(magic@)),
{
    let chars = chars_of(magic);
    let t = strip_brackets(&chars);
    let n = t.len();
    let mut out = String::new();
    let mut start: usize = 0;
    let mut at: usize = 0;
    let ghost mut done: Seq<Seq<char>> = Seq::empty();
    assert(done + items(t@, 0, 0) =~= items(t@, 0, 0));
    while at < n
        invariant
            n == t@.len(),
            start <= at <= n,
            magic_items(magic@) == done + items(t@, start as int, at as int),
            all_numbers(done),
            out@ == hex_of_all(done),
        decreases n - at,
    {
        if n - at >= 2 && t[at] == ',' && t[at + 1] == ' ' {
            let ghost item = t@.subrange(start as int, at as int);
            assert(magic_items(magic@)[done.len() as int] == item);
            let value = match parse_number(&t, start, at) {
                Some(value) => value,
                None => {
                    return None;
                },
            };
            push_hex(&mut out, value as u32, 2);
            proof {
                assert(done.push(item).drop_last() =~= done);
                assert(done.push(item) + items(t@, at + 2, at + 2) =~= done + items(
                    t@,
                    start as int,
                    at as int,
                ));
                done = done.push(item);
            }
            start = at + 2;
            at = at + 2;
        } else {
            at = at + 1;
        }
    }
    let ghost item = t@.subrange(start as int, n as int);
    assert(magic_items(magic@)[done.len() as int] == item);
    let value = match parse_number(&t, start, n) {
        Some(value) => value,
        None => {
            return None;
        },
    };
    push_hex(&mut out, value as u32, 2);
    proof {
        assert(done.push(item).drop_last() =~= done);
        assert(done.push(item) =~= magic_items(magic@));
    }
    Some(out)
}

/// Turns a list of byte values, written as `[0, 1, 2, 3]`, into their
/// hexadecimal text, `00010203`. Every item must denote a byte.
pub fn magic_hex(magic: &str) -> (r: String)
    requires
        all_numbers(magic_items(magic@)),
    ensures
        r@ == hex_of_all(magic_items(magic@)),
{
    try_magic_hex(magic).unwrap()
}

} // verus!
