//! What a client says it can decode.

use vstd::prelude::*;
use vstd::string::*;

verus! {

/// The white space that a header value can hold.
pub open spec fn blank(c: char) -> bool {
    c == ' ' || c == '\t'
}

/// Whether an item of a list says `br`, with nothing but white space around it.
pub open spec fn says_br(item: Seq<char>) -> bool {
    exists|at: int|
        {
            &&& 0 <= at
            &&& at + 2 <= item.len()
            &&& #[trigger] item[at] == 'b'
            &&& item[at + 1] == 'r'
            &&& forall|i: int|
                0 <= i < item.len() && i != at && i != at + 1 ==> blank(#[trigger] item[i])
        }
}

/// Whether the characters from `start` to `end` are one item of a list separated by commas.
pub open spec fn is_item(list: Seq<char>, start: int, end: int) -> bool {
    &&& 0 <= start <= end <= list.len()
    &&& start == 0 || list[start - 1] == ','
    &&& end == list.len() || list[end] == ','
    &&& forall|i: int| start <= i < end ==> list[i] != ','
}

/// Whether a list separated by commas has an item that says `br`.
pub open spec fn lists_br(list: Seq<char>) -> bool {
    exists|start: int, end: int|
        #[trigger] is_item(list, start, end) && says_br(list.subrange(start, end))
}

/// How far an item has been read.
#[derive(Clone, Copy, PartialEq, Eq, Structural)]
enum Reading {
    /// White space alone.
    Blank,
    /// White space, then `b`.
    B,
    /// White space, then `br`, then white space.
    Br,
    /// Anything else.
    Other,
}

/// What of an item has been read.
spec fn reads_as(item: Seq<char>, reading: Reading) -> bool {
    match reading {
        Reading::Blank => forall|i: int| 0 <= i < item.len() ==> blank(#[trigger] item[i]),
        Reading::B => {
            &&& item.len() > 0
            &&& item[item.len() - 1] == 'b'
            &&& forall|i: int| 0 <= i < item.len() - 1 ==> blank(#[trigger] item[i])
        },
        Reading::Br => says_br(item),
        Reading::Other => forall|rest: Seq<char>| !says_br(#[trigger] (item + rest)),
    }
}

/// One more character of an item is read.
fn read(reading: Reading, c: char, Ghost(item): Ghost<Seq<char>>) -> (res: Reading)
    requires
        reads_as(item, reading),
    ensures
        reads_as(item.push(c), res),
{
    let next = match reading {
        Reading::Blank if c == ' ' || c == '\t' => Reading::Blank,
        Reading::Blank if c == 'b' => Reading::B,
        Reading::B if c == 'r' => Reading::Br,
        Reading::Br if c == ' ' || c == '\t' => Reading::Br,
        _ => Reading::Other,
    };
    proof {
        let longer = item.push(c);
        if next == Reading::Br {
            let at: int = if reading == Reading::B {
                item.len() - 1
            } else {
                br_at(item)
            };
            assert(longer[at] == 'b' && longer[at + 1] == 'r');
        } else if next == Reading::Other {
            assert forall|rest: Seq<char>| !says_br(#[trigger] (longer + rest)) by {
                let all = longer + rest;
                if reading == Reading::Other {
                    assert(all =~= item + (seq![c] + rest));
                } else if says_br(all) {
                    let n = item.len() as int;
                    let at = br_at(all);
                    assert(all[n] == c);
                    assert(n > 0 ==> all[n - 1] == item[n - 1]);
                    if reading == Reading::Blank {
                        assert(n == at + 1 ==> all[at] == item[at]);
                    } else if reading == Reading::Br {
                        let old_at = br_at(item);
                        assert(all[old_at] == 'b' && all[old_at + 1] == 'r');
                    }
                }
            }
        }
    }
    next
}

/// Where an item that says `br` says it.
spec fn br_at(item: Seq<char>) -> int {
    choose|at: int|
        {
            &&& 0 <= at
            &&& at + 2 <= item.len()
            &&& #[trigger] item[at] == 'b'
            &&& item[at + 1] == 'r'
            &&& forall|i: int|
                0 <= i < item.len() && i != at && i != at + 1 ==> blank(#[trigger] item[i])
        }
}

/// Whether a list separated by commas has an item that says `br`.
pub fn accepts_br(list: &str) -> (res: bool)
    ensures
        res == lists_br(list@),
{
    let len: usize = list.unicode_len();
    let ghost mut start: int = 0;
    let mut reading = Reading::Blank;
    let mut at: usize = 0;
    for c in it: list.chars()
        invariant
            it.seq() == list@,
            len == list@.len(),
            at == it.index(),
            0 <= start <= at,
            start == 0 || list@[start - 1] == ',',
            forall|i: int| start <= i < at ==> list@[i] != ',',
            reads_as(list@.subrange(start, at as int), reading),
            forall|s: int, e: int|
                #[trigger] is_item(list@, s, e) && e < start ==> !says_br(list@.subrange(s, e)),
    {
        let ghost item = list@.subrange(start, at as int);
        if c == ',' {
            if matches!(reading, Reading::Br) {
                assert(is_item(list@, start, at as int));
                return true;
            }
            proof {
                not_br(item, reading);
                assert forall|s: int, e: int|
                    #[trigger] is_item(list@, s, e) && e < at + 1 implies !says_br(
                    list@.subrange(s, e),
                ) by {
                    if e >= start {
                        same_item(list@, s, e, start, at as int);
                    }
                }
                start = at + 1;
                assert(list@.subrange(start, at + 1) =~= Seq::empty());
            }
            reading = Reading::Blank;
        } else {
            reading = read(reading, c, Ghost(item));
            assert(item.push(c) =~= list@.subrange(start, at + 1));
        }
        at = at + 1;
    }
    proof {
        let item = list@.subrange(start, len as int);
        assert(is_item(list@, start, len as int));
        if reading != Reading::Br {
            not_br(item, reading);
            assert forall|s: int, e: int| #[trigger] is_item(list@, s, e) implies !says_br(
                list@.subrange(s, e),
            ) by {
                if e >= start {
                    same_item(list@, s, e, start, len as int);
                }
            }
        }
    }
    matches!(reading, Reading::Br)
}

/// An item that has been read to its end says `br` only if it was read as that.
proof fn not_br(item: Seq<char>, reading: Reading)
    requires
        reads_as(item, reading),
        reading != Reading::Br,
    ensures
        !says_br(item),
{
    if reading == Reading::Other {
        assert(item + Seq::empty() =~= item);
    } else if says_br(item) {
        let at = br_at(item);
        assert(item[at] == 'b' && item[at + 1] == 'r');
    }
}

/// Two items that both end at or after the start of the second, and not after its end, are one.
proof fn same_item(list: Seq<char>, s: int, e: int, start: int, end: int)
    requires
        is_item(list, s, e),
        is_item(list, start, end),
        start <= e <= end,
    ensures
        s == start,
        e == end,
{
    assert(e == end) by {
        if e < end {
            assert(list[e] == ',');
        }
    }
    if s < start {
        assert(list[start - 1] == ',');
    } else if s > start {
        assert(list[s - 1] == ',');
    }
}

}
