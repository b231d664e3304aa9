//! Issue branch names, such as `proj-123-title`, and the tag that a pull
//! request carries for them.
use crate::text::{chars_of, text_of, to_upper, uppercase};
use vstd::prelude::*;
use vstd::string::*;

verus! {

/// The number of characters of `s` before its first hyphen; the length of `s`
/// where it has none.
pub open spec fn first_hyphen(s: Seq<char>) -> int
    decreases s.len(),
{
    if s.len() == 0 || s.first() == '-' {
        0
    } else {
        1 + first_hyphen(s.drop_first())
    }
}

/// The first of the segments that the hyphens divide `s` into.
pub open spec fn first_segment(s: Seq<char>) -> Seq<char> {
    s.take(first_hyphen(s))
}

/// What follows the first hyphen of `s`, if it has one.
pub open spec fn after_first_hyphen(s: Seq<char>) -> Option<Seq<char>> {
    if first_hyphen(s) < s.len() {
        Some(s.skip(first_hyphen(s) + 1))
    } else {
        None
    }
}

/// The second of the segments that the hyphens divide `s` into, if there are
/// two.
pub open spec fn second_segment(s: Seq<char>) -> Option<Seq<char>> {
    match after_first_hyphen(s) {
        Some(rest) => Some(first_segment(rest)),
        None => None,
    }
}

/// Whether `c` is one of the digits `0` to `9`.
pub open spec fn is_digit(c: char) -> bool {
    '0' <= c && c <= '9'
}

/// `s` without the plus sign that may lead it.
pub open spec fn unsigned_part(s: Seq<char>) -> Seq<char> {
    if s.len() > 0 && s.first() == '+' {
        s.drop_first()
    } else {
        s
    }
}

/// Whether `s` writes a number that is not negative: an optional plus sign,
/// then one digit or more.
pub open spec fn is_number_text(s: Seq<char>) -> bool {
    let digits = unsigned_part(s);
    &&& digits.len() > 0
    &&& forall|i: int| 0 <= i < digits.len() ==> is_digit(#[trigger] digits[i])
}

/// The tag of an issue branch: ` [KEY-N]`, where `KEY` is the first segment
/// in upper case and `N` the second; none unless the second segment is a
/// number.
pub open spec fn tag_of(issue_branch: Seq<char>) -> Option<Seq<char>> {
    match second_segment(issue_branch) {
        Some(number) if is_number_text(number) => Some(
            seq![' ', '['] + uppercase(first_segment(issue_branch)) + seq!['-'] + number
                + seq![']'],
        ),
        _ => None,
    }
}

/// Finds the first hyphen of `chars` at or after `from`; the length where
/// there is none.
pub fn find_hyphen(chars: &Vec<char>, from: usize) -> (r: usize)
    requires
        from <= chars@.len(),
    ensures
        from <= r <= chars@.len(),
        r == from + first_hyphen(chars@.skip(from as int)),
{
    let n = chars.len();
    let mut i: usize = from;
    while i < n && chars[i] != '-'
        invariant
            from <= i <= n == chars@.len(),
            from + first_hyphen(chars@.skip(from as int)) == i + first_hyphen(
                chars@.skip(i as int),
            ),
        decreases n - i,
    {
        assert(chars@.skip(i as int).drop_first() == chars@.skip(i + 1));
        i += 1;
    }
    i
}

/// Tests whether `chars[from..to]` writes a number that is not negative.
pub fn is_number(chars: &Vec<char>, from: usize, to: usize) -> (r: bool)
    requires
        from <= to <= chars@.len(),
    ensures
        r == is_number_text(chars@.subrange(from as int, to as int)),
{
    let start: usize = if from < to && chars[from] == '+' {
        from + 1
    } else {
        from
    };
    let ghost digits = chars@.subrange(start as int, to as int);
    if start == to {
        return false;
    }
    let mut i: usize = start;
    while i < to
        invariant
            from <= start <= i <= to <= chars@.len(),
            digits == chars@.subrange(start as int, to as int),
            digits == unsigned_part(chars@.subrange(from as int, to as int)),
            forall|j: int| 0 <= j < i - start ==> is_digit(#[trigger] digits[j]),
        decreases to - i,
    {
        let c = chars[i];
        if c < '0' || c > '9' {
            assert(!is_digit(digits[i - start]));
            return false;
        }
        i += 1;
    }
    true
}

/// Derives the tag of an issue branch, where its second segment is a number.
pub fn issue_tag(issue_branch: &str) -> (r: Option<String>)
    ensures
        r is Some <==> tag_of(issue_branch@) is Some,
        r matches Some(tag) ==> tag_of(issue_branch@) == Some(tag@),
{
    let chars = chars_of(issue_branch);
    let n = chars.len();
    assert(chars@.skip(0) == chars@);
    let first_end = find_hyphen(&chars, 0);
    if first_end == n {
        return None;
    }
    let second_end = find_hyphen(&chars, first_end + 1);
    proof {
        let rest = chars@.skip(first_end + 1);
        assert(rest.take(second_end - first_end - 1) == chars@.subrange(
            first_end + 1,
            second_end as int,
        ));
    }
    if !is_number(&chars, first_end + 1, second_end) {
        return None;
    }
    let key = text_of(&chars, 0, first_end);
    let number = text_of(&chars, first_end + 1, second_end);
    let mut tag = String::new();
    tag.push(' ');
    tag.push('[');
    tag.append(to_upper(key.as_str()).as_str());
    tag.push('-');
    tag.append(number.as_str());
    tag.push(']');
    Some(tag)
}

} // verus!
