//! Lists written as one text, with commas between the items, and the test
//! whether such a list holds an item.

use crate::text::chars_of;
use crate::text::is_whitespace_char;
use vstd::prelude::*;

verus! {

/// The character that separates the items of a list.
pub const SEPARATOR: char = ',';

/// `s` without the whitespace in front of it.
pub open spec fn trim_start_spec(s: Seq<char>) -> Seq<char>
    decreases s.len(),
{
    if s.len() > 0 && is_whitespace_char(s[0]) {
        trim_start_spec(s.drop_first())
    } else {
        s
    }
}

/// `s` without the whitespace at its end.
pub open spec fn trim_end_spec(s: Seq<char>) -> Seq<char>
    decreases s.len(),
{
    if s.len() > 0 && is_whitespace_char(s.last()) {
        trim_end_spec(s.drop_last())
    } else {
        s
    }
}

/// `s` without the whitespace around it.
pub open spec fn trim_spec(s: Seq<char>) -> Seq<char> {
    trim_end_spec(trim_start_spec(s))
}

/// Whether the characters of `list` from `from` up to `to` are one item:
/// they hold no separator, and a separator or an end of the list stands on
/// either side.
pub open spec fn is_item(list: Seq<char>, from: int, to: int) -> bool {
    &&& 0 <= from <= to <= list.len()
    &&& from == 0 || list[from - 1] == SEPARATOR
    &&& to == list.len() || list[to] == SEPARATOR
    &&& forall|k: int| from <= k < to ==> list[k] != SEPARATOR
}

/// Whether `list` has an item that is `value` once the whitespace around it
/// is taken away.
pub open spec fn list_contains_spec(list: Seq<char>, value: Seq<char>) -> bool {
    exists|from: int, to: int| #[trigger]
        is_item(list, from, to) && trim_spec(list.subrange(from, to)) == value
}

/// Trimming at the front leaves the part from the first character that is no whitespace.
proof fn lemma_trim_start(s: Seq<char>, lo: int)
    requires
        0 <= lo <= s.len(),
        forall|k: int| 0 <= k < lo ==> is_whitespace_char(s[k]),
        lo < s.len() ==> !is_whitespace_char(s[lo]),
    ensures
        trim_start_spec(s) == s.subrange(lo, s.len() as int),
    decreases lo,
{
    if lo == 0 {
        assert(s.subrange(0, s.len() as int) == s);
    } else {
        let rest = s.drop_first();
        assert forall|k: int| 0 <= k < lo - 1 implies is_whitespace_char(rest[k]) by {
            assert(rest[k] == s[k + 1]);
        }
        lemma_trim_start(rest, lo - 1);
        assert(rest.subrange(lo - 1, rest.len() as int) == s.subrange(lo, s.len() as int));
    }
}

/// Trimming at the end leaves the part up to the last character that is no whitespace.
proof fn lemma_trim_end(s: Seq<char>, hi: int)
    requires
        0 <= hi <= s.len(),
        forall|k: int| hi <= k < s.len() ==> is_whitespace_char(s[k]),
        0 < hi ==> !is_whitespace_char(s[hi - 1]),
    ensures
        trim_end_spec(s) == s.subrange(0, hi),
    decreases s.len() - hi,
{
    if hi == s.len() {
        assert(s.subrange(0, hi) == s);
    } else {
        let rest = s.drop_last();
        lemma_trim_end(rest, hi);
        assert(rest.subrange(0, hi) == s.subrange(0, hi));
    }
}

/// Whether the characters of `list` from `from` up to `to`, without the
/// whitespace around them, are `value`.
fn trimmed_equals(list: &Vec<char>, from: usize, to: usize, value: &Vec<char>) -> (same: bool)
    requires
        from <= to <= list.len(),
    ensures
        same == (trim_spec(list@.subrange(from as int, to as int)) == value@),
{
    let ghost item = list@.subrange(from as int, to as int);
    let mut lo = from;
    while lo < to && list[lo].is_whitespace()
        invariant
            from <= lo <= to <= list.len(),
            forall|k: int| from <= k < lo ==> is_whitespace_char(list@[k]),
        decreases to - lo,
    {
        lo += 1;
    }
    let mut hi = to;
    while hi > lo && list[hi - 1].is_whitespace()
        invariant
            lo <= hi <= to <= list.len(),
            forall|k: int| hi <= k < to ==> is_whitespace_char(list@[k]),
        decreases hi - lo,
    {
        hi -= 1;
    }
    proof {
        lemma_trim_start(item, lo - from);
        let front = item.subrange(lo - from, item.len() as int);
        assert(front == list@.subrange(lo as int, to as int));
        lemma_trim_end(front, hi - lo);
        assert(front.subrange(0, hi - lo) == list@.subrange(lo as int, hi as int));
        assert(trim_spec(item) == list@.subrange(lo as int, hi as int));
    }
    if hi - lo != value.len() {
        return false;
    }
    let mut i: usize = 0;
    while i < value.len()
        invariant
            from <= lo <= hi <= to <= list.len(),
            hi - lo == value.len(),
            i <= value.len(),
            trim_spec(list@.subrange(from as int, to as int)) == list@.subrange(
                lo as int,
                hi as int,
            ),
            forall|k: int| 0 <= k < i ==> list@[lo + k] == value@[k],
        decreases value.len() - i,
    {
        if list[lo + i] != value[i] {
            assert(list@.subrange(lo as int, hi as int)[i as int] != value@[i as int]);
            return false;
        }
        i += 1;
    }
    assert(list@.subrange(lo as int, hi as int) =~= value@);
    true
}

/// Whether `list`, read as items with commas between them, has the item
/// `value`. Whitespace around an item does not count.
pub fn list_contains(list: &str, value: &str) -> (found: bool)
    ensures
        found == list_contains_spec(list@, value@),
{
    let items = chars_of(list);
    let wanted = chars_of(value);
    let mut from: usize = 0;
    let mut i: usize = 0;
    while i < items.len()
        invariant
            from <= i <= items.len(),
            items@ == list@,
            wanted@ == value@,
            from == 0 || items@[from - 1] == SEPARATOR,
            forall|k: int| from <= k < i ==> items@[k] != SEPARATOR,
            forall|a: int, b: int| #[trigger]
                is_item(items@, a, b) && b < from ==> trim_spec(items@.subrange(a, b)) != wanted@,
        decreases items.len() - i,
    {
        if items[i] == SEPARATOR {
            if trimmed_equals(&items, from, i, &wanted) {
                assert(is_item(items@, from as int, i as int));
                return true;
            }
            assert forall|a: int, b: int| #[trigger]
                is_item(items@, a, b) && b < i + 1 implies trim_spec(items@.subrange(a, b))
                != wanted@ by {
                if b >= from {
                    assert(b == i);
                    assert(a == from);
                }
            }
            from = i + 1;
        }
        i += 1;
    }
    let found = trimmed_equals(&items, from, i, &wanted);
    proof {
        if found {
            assert(is_item(items@, from as int, i as int));
        } else {
            assert forall|a: int, b: int| #[trigger]
                is_item(items@, a, b) implies trim_spec(items@.subrange(a, b)) != wanted@ by {
                if b >= from {
                    assert(b == i);
                    assert(a == from);
                }
            }
        }
    }
    found
}

/// The text of `value`, or no text where there is none.
pub open spec fn text_or_empty(value: Option<&str>) -> Seq<char> {
    match value {
        Some(text) => text@,
        None => Seq::empty(),
    }
}

/// What the template helper `contains` writes for a list and a value: `true`
/// where the list holds the value, nothing where it does not. A missing
/// argument counts as an empty text.
pub fn contains_helper(list: Option<&str>, value: Option<&str>) -> (written: &'static str)
    ensures
        written@ == if list_contains_spec(text_or_empty(list), text_or_empty(value)) {
            "true"@
        } else {
            ""@
        },
{
    let list_text = match list {
        Some(text) => text,
        None => "",
    };
    let value_text = match value {
        Some(text) => text,
        None => "",
    };
    proof {
        reveal_strlit("");
        assert(""@ =~= Seq::<char>::empty());
    }
    if list_contains(list_text, value_text) {
        "true"
    } else {
        ""
    }
}

} // verus!
