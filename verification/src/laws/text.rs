//! Laws of text: what cutting, joining and printing give.

use vstd::prelude::*;

use crate::text::{
    after_prefix, before, before_suffix, decimal, joined, occurs_at, occurs_in, on_one_line, parts,
    sides,
};

verus! {

/// The number that digits stand for in base ten.
pub open spec fn value_of(digits: Seq<char>) -> int
    decreases digits.len(),
{
    if digits.len() == 0 {
        0
    } else {
        10 * value_of(digits.drop_last()) + (digits.last() as int - '0' as int)
    }
}

/// `text` is how `n` is written: digits without a leading zero whose value in base ten
/// is `n`.
pub open spec fn is_number(text: Seq<char>, n: int) -> bool {
    &&& text.len() > 0
    &&& forall|i: int| 0 <= i < text.len() ==> '0' <= #[trigger] text[i] <= '9'
    &&& text.len() > 1 ==> text[0] != '0'
    &&& value_of(text) == n
}

/// Every number is written as digits without a leading zero that have its value.
pub proof fn number_is_written_in_base_ten(n: nat)
    ensures
        is_number(decimal(n), n as int),
    decreases n,
{
    let text = decimal(n);
    reveal_with_fuel(value_of, 2);
    if n < 10 {
        assert(text.drop_last() =~= Seq::empty());
    } else {
        number_is_written_in_base_ten(n / 10);
        assert(text.drop_last() =~= decimal(n / 10));
        let head = decimal(n / 10);
        assert(text[0] == head[0]);
        if head.len() == 1 {
            assert(head.drop_last() =~= Seq::empty());
        }
    }
}

proof fn value_is_not_negative(digits: Seq<char>)
    requires
        forall|i: int| 0 <= i < digits.len() ==> '0' <= #[trigger] digits[i] <= '9',
    ensures
        value_of(digits) >= 0,
        digits.len() > 0 && digits[0] != '0' ==> value_of(digits) > 0,
    decreases digits.len(),
{
    if digits.len() > 0 {
        let head = digits.drop_last();
        assert forall|i: int| 0 <= i < head.len() implies '0' <= #[trigger] head[i] <= '9' by {
            assert(head[i] == digits[i]);
        }
        value_is_not_negative(head);
        let last = digits[digits.len() - 1];
        assert('0' <= last <= '9');
        if head.len() > 0 {
            assert(head[0] == digits[0]);
        }
    }
}

/// A number is written in one way only, and no two numbers are written alike.
pub proof fn number_is_written_in_one_way(a: Seq<char>, m: int, b: Seq<char>, n: int)
    requires
        is_number(a, m),
        is_number(b, n),
    ensures
        a == b <==> m == n,
    decreases a.len(),
{
    if m == n {
        let x = a.drop_last();
        let y = b.drop_last();
        assert forall|i: int| 0 <= i < x.len() implies '0' <= #[trigger] x[i] <= '9' by {
            assert(x[i] == a[i]);
        }
        assert forall|i: int| 0 <= i < y.len() implies '0' <= #[trigger] y[i] <= '9' by {
            assert(y[i] == b[i]);
        }
        assert('0' <= a[a.len() - 1] <= '9');
        assert('0' <= b[b.len() - 1] <= '9');
        value_is_not_negative(x);
        value_is_not_negative(y);
        assert(a.last() == b.last() && value_of(x) == value_of(y));
        if x.len() > 0 {
            assert(x[0] == a[0]);
        }
        if y.len() > 0 {
            assert(y[0] == b[0]);
        }
        if x.len() > 0 && y.len() > 0 {
            number_is_written_in_one_way(x, value_of(x), y, value_of(y));
            assert(a =~= x.push(a.last()));
            assert(b =~= y.push(b.last()));
        } else {
            assert(value_of(Seq::<char>::empty()) == 0);
            if x.len() == 0 {
                assert(x =~= Seq::empty());
            }
            if y.len() == 0 {
                assert(y =~= Seq::empty());
            }
            assert(x.len() == 0 && y.len() == 0);
            assert(a =~= b);
        }
    }
}

/// On one line a text keeps its length. It has a space at each line feed, and is itself
/// everywhere else.
pub proof fn line_feeds_become_spaces(text: Seq<char>, i: int)
    requires
        0 <= i < text.len(),
    ensures
        on_one_line(text).len() == text.len(),
        text[i] == '\n' ==> on_one_line(text)[i] == ' ',
        text[i] != '\n' ==> on_one_line(text)[i] == text[i],
{
}

/// A text without line feeds stays as it is on one line, and so does an empty one.
pub proof fn one_line_stays_as_it_is(text: Seq<char>)
    requires
        !text.contains('\n'),
    ensures
        on_one_line(text) == text,
{
    assert(on_one_line(text) =~= text);
}

/// What stands before the first separator holds none, and the separator follows it. Where
/// there is no separator it is the whole text.
pub proof fn part_before_ends_at_the_first_separator(text: Seq<char>, sep: char)
    ensures
        before(text, sep).is_prefix_of(text),
        !before(text, sep).contains(sep),
        text.contains(sep) ==> before(text, sep).push(sep).is_prefix_of(text),
        !text.contains(sep) ==> before(text, sep) == text,
{
    text.index_of_first_ensures(sep);
}

/// A text has two sides where it holds the separator: they are the text with the separator
/// between them, and the left one does not hold it.
pub proof fn sides_are_cut_at_the_first_separator(
    text: Seq<char>,
    sep: char,
    left: Seq<char>,
    right: Seq<char>,
)
    ensures
        sides(text, sep) == Some((left, right)) <==> text == left.push(sep) + right
            && !left.contains(sep),
        sides(text, sep) is None <==> !text.contains(sep),
{
    text.index_of_first_ensures(sep);
    if text == left.push(sep) + right && !left.contains(sep) {
        let at = left.len() as int;
        assert(text[at] == sep);
        assert forall|i: int| 0 <= i < at implies text[i] != sep by {
            assert(text[i] == left[i]);
        }
        assert(text.index_of_first(sep) == Some(at));
        assert(text.take(at) =~= left);
        assert(text.skip(at + 1) =~= right);
    }
    if sides(text, sep) == Some((left, right)) {
        assert(text =~= left.push(sep) + right);
    }
}

/// What follows a prefix is what the prefix is to be continued with to give the text.
pub proof fn prefix_and_rest_give_the_text(text: Seq<char>, prefix: Seq<char>, rest: Seq<char>)
    ensures
        after_prefix(text, prefix) == Some(rest) <==> text == prefix + rest,
{
    if prefix.is_prefix_of(text) {
        assert(text =~= prefix + text.skip(prefix.len() as int));
    }
    if text == prefix + rest {
        assert(prefix.is_prefix_of(text));
        assert(text.skip(prefix.len() as int) =~= rest);
    }
}

/// What stands before a suffix is what the suffix continues to give the text.
pub proof fn rest_and_suffix_give_the_text(text: Seq<char>, suffix: Seq<char>, rest: Seq<char>)
    ensures
        before_suffix(text, suffix) == Some(rest) <==> text == rest + suffix,
{
    if suffix.is_suffix_of(text) {
        assert(text =~= text.take(text.len() - suffix.len()) + suffix);
    }
    if text == rest + suffix {
        assert(suffix.is_suffix_of(text));
        assert(text.take(text.len() - suffix.len()) =~= rest);
    }
}

/// A text without the separator is one part. Where one starts with such a text and a
/// separator, that is the first part, and the parts of the rest follow.
pub proof fn parts_are_cut_at_every_separator(head: Seq<char>, sep: char, tail: Seq<char>)
    requires
        !head.contains(sep),
    ensures
        parts(head, sep) == seq![head],
        parts(head.push(sep) + tail, sep) == seq![head] + parts(tail, sep),
{
    let text = head.push(sep) + tail;
    let at = head.len() as int;
    head.index_of_first_ensures(sep);
    text.index_of_first_ensures(sep);
    assert(text[at] == sep);
    assert forall|i: int| 0 <= i < at implies text[i] != sep by {
        assert(text[i] == head[i]);
    }
    assert(text.index_of_first(sep) == Some(at));
    assert(text.take(at) =~= head);
    assert(text.skip(at + 1) =~= tail);
}

/// No part holds the separator.
pub proof fn parts_hold_no_separator(text: Seq<char>, sep: char, i: int)
    requires
        0 <= i < parts(text, sep).len(),
    ensures
        !parts(text, sep)[i].contains(sep),
    decreases text.len(),
{
    text.index_of_first_ensures(sep);
    match text.index_of_first(sep) {
        Some(at) => {
            if i > 0 {
                parts_hold_no_separator(text.skip(at + 1), sep, i - 1);
            }
        },
        None => {},
    }
}

/// Nothing joined is nothing, and one item joined is that item. With one item more, the
/// separator and the item stand behind the rest.
pub proof fn joining_appends(items: Seq<Seq<char>>, item: Seq<char>, sep: Seq<char>)
    ensures
        joined(Seq::empty(), sep).len() == 0,
        joined(seq![item], sep) == item,
        items.len() > 0 ==> joined(items.push(item), sep) == joined(items, sep) + sep + item,
    decreases items.len(),
{
    if items.len() > 0 {
        let longer = items.push(item);
        if items.len() == 1 {
            assert(longer.skip(1) =~= seq![item]);
            assert(joined(longer.skip(1), sep) == item);
        } else {
            assert(longer.skip(1) =~= items.skip(1).push(item));
            joining_appends(items.skip(1), item, sep);
            assert(joined(longer, sep) =~= joined(items, sep) + sep + item);
        }
    }
}

/// One text stands in another where that is made of something, the text and something.
pub proof fn text_occurs_between_two_others(
    text: Seq<char>,
    left: Seq<char>,
    needle: Seq<char>,
    right: Seq<char>,
)
    ensures
        occurs_in(left + needle + right, needle),
        occurs_in(text, needle) ==> exists|a: Seq<char>, b: Seq<char>|
            text == #[trigger] (a + needle + b),
{
    let whole = left + needle + right;
    assert(whole.subrange(left.len() as int, (left.len() + needle.len()) as int) =~= needle);
    assert(occurs_at(whole, needle, left.len() as int));
    if occurs_in(text, needle) {
        let at = choose|at: int| occurs_at(text, needle, at);
        let a = text.take(at);
        let b = text.skip(at + needle.len());
        assert(text =~= a + needle + b);
    }
}

}
