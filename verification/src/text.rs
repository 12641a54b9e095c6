//! Text as the rest of the library needs it: searching, cutting and printing,
//! stated over sequences of characters.

use vstd::prelude::*;
use vstd::string::*;

verus! {

/// What stands before the first `sep` in `s`; all of `s` where there is none.
pub open spec fn before(s: Seq<char>, sep: char) -> Seq<char> {
    match s.index_of_first(sep) {
        Some(i) => s.take(i),
        None => s,
    }
}

/// The two sides of the first `sep` in `s`.
pub open spec fn sides(s: Seq<char>, sep: char) -> Option<(Seq<char>, Seq<char>)> {
    match s.index_of_first(sep) {
        Some(i) => Some((s.take(i), s.skip(i + 1))),
        None => None,
    }
}

/// What follows `prefix` in `s`, where `s` starts with it.
pub open spec fn after_prefix(s: Seq<char>, prefix: Seq<char>) -> Option<Seq<char>> {
    if prefix.is_prefix_of(s) {
        Some(s.skip(prefix.len() as int))
    } else {
        None
    }
}

/// What stands before `suffix` in `s`, where `s` ends with it.
pub open spec fn before_suffix(s: Seq<char>, suffix: Seq<char>) -> Option<Seq<char>> {
    if suffix.is_suffix_of(s) {
        Some(s.take(s.len() - suffix.len()))
    } else {
        None
    }
}

/// `s` cut at every `sep`: one part more than there are separators.
pub open spec fn parts(s: Seq<char>, sep: char) -> Seq<Seq<char>>
    decreases s.len(),
{
    proof {
        s.index_of_first_ensures(sep);
    }
    match s.index_of_first(sep) {
        Some(i) => seq![s.take(i)] + parts(s.skip(i + 1), sep),
        None => seq![s],
    }
}

/// `items` put together with `sep` between each two neighbours.
pub open spec fn joined(items: Seq<Seq<char>>, sep: Seq<char>) -> Seq<char>
    decreases items.len(),
{
    if items.len() == 0 {
        Seq::empty()
    } else if items.len() == 1 {
        items[0]
    } else {
        items[0] + sep + joined(items.skip(1), sep)
    }
}

/// `needle` stands in `s` at position `at`.
pub open spec fn occurs_at(s: Seq<char>, needle: Seq<char>, at: int) -> bool {
    0 <= at && at + needle.len() <= s.len() && s.subrange(at, at + needle.len()) == needle
}

/// `needle` stands somewhere in `s`.
pub open spec fn occurs_in(s: Seq<char>, needle: Seq<char>) -> bool {
    exists|at: int| occurs_at(s, needle, at)
}

/// `s` with every line feed turned into a space.
pub open spec fn on_one_line(s: Seq<char>) -> Seq<char> {
    s.map_values(|c: char| if c == '\n' { ' ' } else { c })
}

/// The decimal digit of `n`, which is below ten.
pub open spec fn digit(n: nat) -> char {
    (('0' as u32) + n) as char
}

/// `n` in decimal, without leading zeros.
pub open spec fn decimal(n: nat) -> Seq<char>
    decreases n,
{
    if n < 10 {
        seq![digit(n)]
    } else {
        decimal(n / 10).push(digit(n % 10))
    }
}

/// The characters of `s` in order.
fn to_chars(s: &str) -> (chars: Vec<char>)
    ensures
        chars@ == s@,
{
    let mut chars: Vec<char> = Vec::new();
    for c in iter: s.chars()
        invariant
            chars@ == iter.seq().take(iter.index()),
            iter.seq() == s@,
    {
        chars.push(c);
    }
    chars
}

/// The position of the first `sep` in `s`.
fn first_position(s: &str, sep: char) -> (at: Option<usize>)
    ensures
        match at {
            Some(i) => s@.index_of_first(sep) == Some(i as int) && i < s@.len(),
            None => s@.index_of_first(sep) is None && !s@.contains(sep),
        },
{
    let chars = to_chars(s);
    let mut i: usize = 0;
    while i < chars.len()
        invariant
            chars@ == s@,
            i <= chars.len(),
            forall|j: int| 0 <= j < i ==> s@[j] != sep,
        decreases chars.len() - i,
    {
        if chars[i] == sep {
            proof {
                s@.index_of_first_ensures(sep);
            }
            return Some(i);
        }
        i += 1;
    }
    proof {
        s@.index_of_first_ensures(sep);
    }
    None
}

/// What stands before the first `sep` in `s`.
pub(crate) fn part_before(s: &str, sep: char) -> (part: &str)
    ensures
        part@ == before(s@, sep),
{
    match first_position(s, sep) {
        Some(i) => s.substring_char(0, i),
        None => s,
    }
}

/// Cuts `s` at the first `sep`.
pub(crate) fn cut_once(s: &str, sep: char) -> (cut: Option<(&str, &str)>)
    ensures
        match cut {
            Some(parts) => sides(s@, sep) == Some((parts.0@, parts.1@)),
            None => sides(s@, sep) is None,
        },
{
    match first_position(s, sep) {
        Some(i) => {
            let count = s.unicode_len();
            let left = s.substring_char(0, i);
            let right = s.substring_char(i + 1, count);
            assert(right@ =~= s@.skip(i + 1));
            Some((left, right))
        },
        None => None,
    }
}

/// `needle` stands in `s` from position `at` on.
fn matches_at(s: &Vec<char>, needle: &Vec<char>, at: usize) -> (found: bool)
    requires
        at + needle.len() <= s.len(),
    ensures
        found == occurs_at(s@, needle@, at as int),
{
    let mut k: usize = 0;
    while k < needle.len()
        invariant
            at + needle.len() <= s.len(),
            k <= needle.len(),
            forall|j: int| 0 <= j < k ==> s@[at + j] == needle@[j],
        decreases needle.len() - k,
    {
        if s[at + k] != needle[k] {
            assert(s@.subrange(at as int, at + needle@.len())[k as int] == s@[at + k]);
            return false;
        }
        k += 1;
    }
    assert(s@.subrange(at as int, at + needle@.len()) =~= needle@);
    true
}

/// What follows `prefix` in `s`.
pub(crate) fn rest_after<'a>(s: &'a str, prefix: &str) -> (rest: Option<&'a str>)
    ensures
        match rest {
            Some(r) => after_prefix(s@, prefix@) == Some(r@),
            None => after_prefix(s@, prefix@) is None,
        },
{
    let chars = to_chars(s);
    let wanted = to_chars(prefix);
    if chars.len() < wanted.len() || !matches_at(&chars, &wanted, 0) {
        proof {
            if prefix@.is_prefix_of(s@) {
                assert(s@.subrange(0, prefix@.len() as int) =~= prefix@);
            }
        }
        return None;
    }
    assert(prefix@.is_prefix_of(s@)) by {
        assert(s@.subrange(0, prefix@.len() as int) == prefix@);
    }
    let rest = s.substring_char(wanted.len(), chars.len());
    assert(rest@ =~= s@.skip(prefix@.len() as int));
    Some(rest)
}

/// What stands before `suffix` at the end of `s`.
pub(crate) fn rest_before<'a>(s: &'a str, suffix: &str) -> (rest: Option<&'a str>)
    ensures
        match rest {
            Some(r) => before_suffix(s@, suffix@) == Some(r@),
            None => before_suffix(s@, suffix@) is None,
        },
{
    let chars = to_chars(s);
    let wanted = to_chars(suffix);
    if chars.len() < wanted.len() {
        return None;
    }
    let cut: usize = chars.len() - wanted.len();
    if !matches_at(&chars, &wanted, cut) {
        return None;
    }
    Some(s.substring_char(0, cut))
}

/// `s` with every line feed turned into a space.
pub(crate) fn flatten_lines(s: &str) -> (line: String)
    ensures
        line@ == on_one_line(s@),
{
    let mut line = String::new();
    let count = s.unicode_len();
    let mut i: usize = 0;
    while i < count
        invariant
            count == s@.len(),
            i <= count,
            line@ == on_one_line(s@.take(i as int)),
        decreases count - i,
    {
        if s.get_char(i) == '\n' {
            line.append(" ");
        } else {
            line.append(s.substring_char(i, i + 1));
        }
        proof {
            reveal_strlit(" ");
            assert(line@ =~= on_one_line(s@.take(i + 1)));
        }
        i += 1;
    }
    assert(s@.take(s@.len() as int) =~= s@);
    line
}

/// `n` in decimal.
pub(crate) fn print_decimal(n: u64) -> (text: String)
    ensures
        text@ == decimal(n as nat),
    decreases n,
{
    if n < 10 {
        print_digit(n)
    } else {
        let mut text = print_decimal(n / 10);
        let last = print_digit(n % 10);
        text.append(last.as_str());
        assert(text@ =~= decimal(n as nat / 10).push(digit(n as nat % 10)));
        text
    }
}

fn print_digit(n: u64) -> (text: String)
    requires
        n < 10,
    ensures
        text@ == seq![digit(n as nat)],
{
    proof {
        reveal_strlit("0");
        reveal_strlit("1");
        reveal_strlit("2");
        reveal_strlit("3");
        reveal_strlit("4");
        reveal_strlit("5");
        reveal_strlit("6");
        reveal_strlit("7");
        reveal_strlit("8");
        reveal_strlit("9");
    }
    let text = (if n == 0 {
        "0"
    } else if n == 1 {
        "1"
    } else if n == 2 {
        "2"
    } else if n == 3 {
        "3"
    } else if n == 4 {
        "4"
    } else if n == 5 {
        "5"
    } else if n == 6 {
        "6"
    } else if n == 7 {
        "7"
    } else if n == 8 {
        "8"
    } else {
        "9"
    }).to_owned();
    assert(text@ =~= seq![digit(n as nat)]);
    text
}

/// Cutting a text at every separator and joining the parts gives the text back.
pub proof fn joining_parts_restores(s: Seq<char>, sep: char)
    ensures
        joined(parts(s, sep), seq![sep]) == s,
        parts(s, sep).len() > 0,
    decreases s.len(),
{
    s.index_of_first_ensures(sep);
    match s.index_of_first(sep) {
        Some(i) => {
            let rest = s.skip(i + 1);
            joining_parts_restores(rest, sep);
            assert(parts(s, sep).skip(1) =~= parts(rest, sep));
            assert(s.take(i) + seq![sep] + rest =~= s);
        },
        None => {},
    }
}

proof fn joined_push(items: Seq<Seq<char>>, item: Seq<char>, sep: Seq<char>)
    requires
        items.len() > 0,
    ensures
        joined(items.push(item), sep) == joined(items, sep) + sep + item,
    decreases items.len(),
{
    let longer = items.push(item);
    if items.len() == 1 {
        assert(longer.skip(1) =~= seq![item]);
        assert(joined(longer.skip(1), sep) == item);
    } else {
        assert(longer.skip(1) =~= items.skip(1).push(item));
        joined_push(items.skip(1), item, sep);
        assert(joined(longer, sep) =~= joined(items, sep) + sep + item);
    }
}

/// `items` put together with `sep` between each two neighbours.
pub(crate) fn join(items: &Vec<String>, sep: &str) -> (text: String)
    ensures
        text@ == joined(items@.map_values(|item: String| item@), sep@),
{
    let ghost views = items@.map_values(|item: String| item@);
    let mut text = String::new();
    let mut i: usize = 0;
    assert(views.take(0) =~= Seq::empty());
    while i < items.len()
        invariant
            i <= items.len(),
            views == items@.map_values(|item: String| item@),
            text@ == joined(views.take(i as int), sep@),
        decreases items.len() - i,
    {
        proof {
            assert(views.take(i + 1) =~= views.take(i as int).push(items@[i as int]@));
            if i > 0 {
                joined_push(views.take(i as int), items@[i as int]@, sep@);
            }
        }
        if i > 0 {
            text.append(sep);
        }
        text.append(items[i].as_str());
        assert(text@ =~= joined(views.take(i + 1), sep@));
        i += 1;
    }
    assert(views.take(items.len() as int) =~= views);
    text
}

/// Every item of a joined text stands in it.
pub proof fn joined_holds_every_item(items: Seq<Seq<char>>, sep: Seq<char>, i: int)
    requires
        0 <= i < items.len(),
    ensures
        occurs_in(joined(items, sep), items[i]),
    decreases items.len(),
{
    let whole = joined(items, sep);
    if i == 0 {
        assert(whole.subrange(0, items[0].len() as int) =~= items[0]);
        assert(occurs_at(whole, items[0], 0));
    } else {
        let rest = items.skip(1);
        joined_holds_every_item(rest, sep, i - 1);
        assert(rest[i - 1] == items[i]);
        let at = choose|at: int| occurs_at(joined(rest, sep), items[i], at);
        let start = items[0].len() + sep.len();
        assert(whole.subrange(start + at, start + at + items[i].len()) =~= joined(
            rest,
            sep,
        ).subrange(at, at + items[i].len()));
        assert(occurs_at(whole, items[i], start + at));
    }
}

}
