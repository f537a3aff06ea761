//! Whitespace trimming and exact comparison of input lines.

use vstd::prelude::*;
use vstd::string::*;

verus! {

/// The characters that count as whitespace at either end of an input line.
pub open spec fn is_white_space(c: char) -> bool {
    let u = c as u32;
    ||| 0x0009 <= u <= 0x000D
    ||| u == 0x0020
    ||| u == 0x0085
    ||| u == 0x00A0
    ||| u == 0x1680
    ||| 0x2000 <= u <= 0x200A
    ||| u == 0x2028
    ||| u == 0x2029
    ||| u == 0x202F
    ||| u == 0x205F
    ||| u == 0x3000
}

/// `s` without its leading whitespace.
pub open spec fn trim_start(s: Seq<char>) -> Seq<char>
    decreases s.len(),
{
    if s.len() > 0 && is_white_space(s.first()) {
        trim_start(s.drop_first())
    } else {
        s
    }
}

/// `s` without its trailing whitespace.
pub open spec fn trim_end(s: Seq<char>) -> Seq<char>
    decreases s.len(),
{
    if s.len() > 0 && is_white_space(s.last()) {
        trim_end(s.drop_last())
    } else {
        s
    }
}

/// `s` without leading and trailing whitespace: the token that a typed line stands for.
pub open spec fn trimmed(s: Seq<char>) -> Seq<char> {
    trim_end(trim_start(s))
}

/// Decides whether `c` is whitespace.
pub fn char_is_white_space(c: char) -> (r: bool)
    ensures
        r == is_white_space(c),
{
    let u: u32 = c as u32;
    (0x0009 <= u && u <= 0x000D) || u == 0x0020 || u == 0x0085 || u == 0x00A0 || u == 0x1680
        || (0x2000 <= u && u <= 0x200A) || u == 0x2028 || u == 0x2029 || u == 0x202F
        || u == 0x205F || u == 0x3000
}

/// Strips whitespace from both ends of `line`.
pub fn trim(line: &str) -> (token: &str)
    ensures
        token@ == trimmed(line@),
{
    let len: usize = line.unicode_len();
    let mut start: usize = 0;
    assert(line@.subrange(0, len as int) =~= line@);
    while start < len && char_is_white_space(line.get_char(start))
        invariant
            len == line@.len(),
            start <= len,
            trim_start(line@) == trim_start(line@.subrange(start as int, len as int)),
        decreases len - start,
    {
        proof {
            let rest = line@.subrange(start as int, len as int);
            assert(rest.first() == line@[start as int]);
            assert(rest.drop_first() =~= line@.subrange(start + 1, len as int));
        }
        start = start + 1;
    }
    let ghost head = line@.subrange(start as int, len as int);
    assert(trim_start(line@) == head);
    let mut end: usize = len;
    while end > start && char_is_white_space(line.get_char(end - 1))
        invariant
            len == line@.len(),
            start <= end <= len,
            head == line@.subrange(start as int, len as int),
            trim_end(head) == trim_end(line@.subrange(start as int, end as int)),
        decreases end - start,
    {
        proof {
            let rest = line@.subrange(start as int, end as int);
            assert(rest.last() == line@[end - 1]);
            assert(rest.drop_last() =~= line@.subrange(start as int, end - 1));
        }
        end = end - 1;
    }
    line.substring_char(start, end)
}

/// Decides whether two strings hold the same characters.
pub fn str_eq(a: &str, b: &str) -> (r: bool)
    ensures
        r == (a@ == b@),
{
    let len: usize = a.unicode_len();
    if b.unicode_len() != len {
        return false;
    }
    let mut i: usize = 0;
    while i < len
        invariant
            len == a@.len(),
            len == b@.len(),
            i <= len,
            a@.subrange(0, i as int) == b@.subrange(0, i as int),
        decreases len - i,
    {
        if a.get_char(i) != b.get_char(i) {
            return false;
        }
        proof {
            assert(a@.subrange(0, i + 1) =~= a@.subrange(0, i as int).push(a@[i as int]));
            assert(b@.subrange(0, i + 1) =~= b@.subrange(0, i as int).push(b@[i as int]));
        }
        i = i + 1;
    }
    proof {
        assert(a@ =~= a@.subrange(0, len as int));
        assert(b@ =~= b@.subrange(0, len as int));
    }
    true
}

/// Whether every character of `s` is whitespace.
pub open spec fn all_white_space(s: Seq<char>) -> bool {
    forall|i: int| 0 <= i < s.len() ==> is_white_space(#[trigger] s[i])
}

/// Whether `s` neither begins nor ends with whitespace.
pub open spec fn is_token(s: Seq<char>) -> bool {
    s.len() > 0 ==> !is_white_space(s.first()) && !is_white_space(s.last())
}

/// Whitespace in front of a text does not change what is left of it when
/// its leading whitespace is taken away.
pub proof fn lemma_trim_start_skips(space: Seq<char>, rest: Seq<char>)
    requires
        all_white_space(space),
    ensures
        trim_start(space + rest) == trim_start(rest),
    decreases space.len(),
{
    if space.len() == 0 {
        assert(space + rest =~= rest);
    } else {
        assert((space + rest).first() == space[0]);
        assert((space + rest).drop_first() =~= space.drop_first() + rest);
        lemma_trim_start_skips(space.drop_first(), rest);
    }
}

/// Whitespace behind a text does not change what is left of it when its
/// trailing whitespace is taken away.
pub proof fn lemma_trim_end_skips(rest: Seq<char>, space: Seq<char>)
    requires
        all_white_space(space),
    ensures
        trim_end(rest + space) == trim_end(rest),
    decreases space.len(),
{
    if space.len() == 0 {
        assert(rest + space =~= rest);
    } else {
        assert((rest + space).last() == space.last());
        assert((rest + space).drop_last() =~= rest + space.drop_last());
        lemma_trim_end_skips(rest, space.drop_last());
    }
}

/// Trimming takes away exactly the whitespace around a token: of a line made
/// of whitespace, a token and whitespace again, the token is left.
pub proof fn lemma_trim_strips(before: Seq<char>, token: Seq<char>, after: Seq<char>)
    requires
        all_white_space(before),
        is_token(token),
        all_white_space(after),
    ensures
        trimmed(before + token + after) == token,
{
    assert(before + token + after =~= before + (token + after));
    lemma_trim_start_skips(before, token + after);
    if token.len() == 0 {
        assert(token + after =~= after + token);
        lemma_trim_start_skips(after, token);
    } else {
        assert((token + after).first() == token.first());
        lemma_trim_end_skips(token, after);
    }
}

/// A text that neither begins nor ends with whitespace is left as it is.
pub proof fn lemma_trim_keeps_token(token: Seq<char>)
    requires
        is_token(token),
    ensures
        trimmed(token) == token,
{
    let none = Seq::<char>::empty();
    assert(none + token + none =~= token);
    lemma_trim_strips(none, token, none);
}

} // verus!
