//! Searching and splitting text.

use vstd::prelude::*;
use vstd::string::*;
use vstd::utf8::*;

verus! {

/// Where `c` first stands in `s`; the length of `s` where it does not occur.
pub open spec fn position(s: Seq<char>, c: char) -> int
    decreases s.len(),
{
    if s.len() == 0 || s[0] == c {
        0
    } else {
        1 + position(s.skip(1), c)
    }
}

/// What stands in `s` before the first `c`; all of `s` where it does not occur.
pub open spec fn before(s: Seq<char>, c: char) -> Seq<char> {
    s.take(position(s, c))
}

/// What stands in `s` after the first `c`; nothing where it does not occur.
pub open spec fn after(s: Seq<char>, c: char) -> Seq<char> {
    if position(s, c) < s.len() {
        s.skip(position(s, c) + 1)
    } else {
        Seq::empty()
    }
}

/// What stands in `s` after the last `c`; all of `s` where it does not occur.
pub open spec fn after_last(s: Seq<char>, c: char) -> Seq<char>
    decreases s.len(),
{
    if position(s, c) < s.len() {
        proof {
            position_properties(s, c);
        }
        after_last(after(s, c), c)
    } else {
        s
    }
}

/// `position` is the one index before which there is no `c`, and at which there is one or the
/// text ends.
pub proof fn position_is(s: Seq<char>, c: char, i: int)
    requires
        0 <= i <= s.len(),
        forall|j: int| 0 <= j < i ==> s[j] != c,
        i < s.len() ==> s[i] == c,
    ensures
        position(s, c) == i,
    decreases s.len(),
{
    if i > 0 {
        let rest = s.skip(1);
        assert(s[0] != c);
        assert forall|j: int| 0 <= j < i - 1 implies rest[j] != c by {
            assert(rest[j] == s[j + 1]);
        }
        position_is(rest, c, i - 1);
    }
}

/// The defining properties of `position`.
pub proof fn position_properties(s: Seq<char>, c: char)
    ensures
        0 <= position(s, c) <= s.len(),
        forall|j: int| 0 <= j < position(s, c) ==> s[j] != c,
        position(s, c) < s.len() ==> s[position(s, c)] == c,
    decreases s.len(),
{
    if s.len() > 0 && s[0] != c {
        let rest = s.skip(1);
        position_properties(rest, c);
        assert forall|j: int| 0 <= j < position(s, c) implies s[j] != c by {
            if j > 0 {
                assert(s[j] == rest[j - 1]);
            }
        }
    }
}

/// What stands before the first `c` and what stands after it, with `c` in between, are the whole
/// text; and where there is no `c`, all of it stands before.
pub proof fn splits_at_the_first(first: Seq<char>, c: char, second: Seq<char>)
    requires
        !first.contains(c),
    ensures
        before(first.push(c) + second, c) == first,
        after(first.push(c) + second, c) == second,
        before(first, c) == first,
        after(first, c).len() == 0,
{
    let text = first.push(c) + second;
    let n = first.len() as int;
    assert forall|j: int| 0 <= j < n implies text[j] != c && first[j] != c by {
        assert(first.contains(first[j]));
    }
    position_is(text, c, n);
    position_is(first, c, n);
    assert(text.take(n) =~= first);
    assert(text.skip(n + 1) =~= second);
    assert(first.take(n) =~= first);
}

/// `after_last` begins at the one index behind which there is no `c`, and before which there is
/// one or the text begins.
pub proof fn after_last_is(s: Seq<char>, c: char, i: int)
    requires
        0 <= i <= s.len(),
        forall|j: int| i <= j < s.len() ==> s[j] != c,
        i > 0 ==> s[i - 1] == c,
    ensures
        after_last(s, c) == s.skip(i),
    decreases s.len(),
{
    let first = position(s, c);
    position_properties(s, c);
    if i == 0 {
        assert(s.skip(0) =~= s);
    } else {
        assert(first < i);
        let rest = s.skip(first + 1);
        after_last_is(rest, c, i - first - 1);
        assert(rest.skip(i - first - 1) =~= s.skip(i));
    }
}

/// The defining properties of `after_last`.
pub proof fn after_last_properties(s: Seq<char>, c: char)
    ensures
        after_last(s, c).len() <= s.len(),
        after_last(s, c) == s.skip(s.len() - after_last(s, c).len()),
        !after_last(s, c).contains(c),
        after_last(s, c).len() < s.len() ==> s[s.len() - after_last(s, c).len() - 1] == c,
    decreases s.len(),
{
    let first = position(s, c);
    position_properties(s, c);
    if first < s.len() {
        let rest = s.skip(first + 1);
        after_last_properties(rest, c);
        let last = after_last(rest, c);
        assert(rest.skip(rest.len() - last.len()) =~= s.skip(s.len() - last.len()));
    } else {
        assert(s.skip(0) =~= s);
    }
}

/// The index, counted in characters, at which `c` first stands in `text`, or the length of
/// `text` where it does not occur.
pub fn find(text: &str, c: char) -> (res: usize)
    ensures
        res == position(text@, c),
{
    let len: usize = text.unicode_len();
    let mut i: usize = 0;
    for ch in it: text.chars()
        invariant
            it.seq() == text@,
            len == text@.len(),
            i == it.index(),
            forall|j: int| 0 <= j < i ==> text@[j] != c,
    {
        if ch == c {
            proof {
                position_is(text@, c, i as int);
            }
            return i;
        }
        i = i + 1;
    }
    proof {
        position_is(text@, c, i as int);
    }
    i
}

/// Splits `text` at the first `c`, which stands in neither half. Where `c` does not occur, the
/// first half is all of `text`.
pub fn split_once(text: &str, c: char) -> (res: (String, String))
    ensures
        res.0@ == before(text@, c),
        res.1@ == after(text@, c),
{
    let len: usize = text.unicode_len();
    let i: usize = find(text, c);
    proof {
        position_properties(text@, c);
    }
    let first = text.substring_char(0, i).to_owned();
    if i < len {
        (first, text.substring_char(i + 1, len).to_owned())
    } else {
        (first, String::new())
    }
}

/// Whether `text` begins with `prefix`.
pub fn starts_with(text: &str, prefix: &str) -> (res: bool)
    ensures
        res == prefix@.is_prefix_of(text@),
{
    let len: usize = prefix.unicode_len();
    text.unicode_len() >= len && same_text(text.substring_char(0, len), prefix)
}

/// Whether two texts hold the same characters.
pub fn same_text(a: &str, b: &str) -> (res: bool)
    ensures
        res == (a@ == b@),
{
    a.to_owned() == b.to_owned()
}

/// Whether `bytes` are the UTF-8 bytes of `text`.
pub fn bytes_spell(bytes: &[u8], text: &str) -> (res: bool)
    ensures
        res == (bytes@ == encode_utf8(text@)),
{
    let spelled = text.as_bytes();
    if bytes.len() != spelled.len() {
        return false;
    }
    for i in 0..bytes.len()
        invariant
            bytes@.len() == spelled@.len(),
            spelled@ == encode_utf8(text@),
            forall|j: int| 0 <= j < i ==> bytes@[j] == spelled@[j],
    {
        if bytes[i] != spelled[i] {
            return false;
        }
    }
    proof {
        assert(bytes@ =~= spelled@);
    }
    true
}

}
