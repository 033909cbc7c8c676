//! Splitting a request head into white-space-delimited tokens.
//!
//! The head is raw bytes and need not be valid UTF-8. White space is what
//! Unicode calls `White_Space`, recognised by its UTF-8 encoding; every other
//! byte belongs to a token.

use vstd::prelude::*;

use crate::text::copy_range;

verus! {

/// Space and the control characters U+0009 to U+000D.
pub open spec fn is_narrow_space(b: u8) -> bool {
    b == 0x20 || (0x09 <= b && b <= 0x0d)
}

/// U+0085 and U+00A0.
pub open spec fn is_medium_space(b0: u8, b1: u8) -> bool {
    b0 == 0xc2 && (b1 == 0x85 || b1 == 0xa0)
}

/// U+1680, U+2000 to U+200A, U+2028, U+2029, U+202F, U+205F and U+3000.
pub open spec fn is_wide_space(b0: u8, b1: u8, b2: u8) -> bool {
    ||| b0 == 0xe1 && b1 == 0x9a && b2 == 0x80
    ||| b0 == 0xe2 && b1 == 0x80 && (0x80 <= b2 && b2 <= 0x8a)
    ||| b0 == 0xe2 && b1 == 0x80 && (b2 == 0xa8 || b2 == 0xa9 || b2 == 0xaf)
    ||| b0 == 0xe2 && b1 == 0x81 && b2 == 0x9f
    ||| b0 == 0xe3 && b1 == 0x80 && b2 == 0x80
}

/// The number of bytes of the white-space character that begins at `s[i]`, or
/// 0 where none begins there.
pub open spec fn space_len(s: Seq<u8>, i: int) -> int {
    if i < 0 || i >= s.len() {
        0
    } else if is_narrow_space(s[i]) {
        1
    } else if i + 1 < s.len() && is_medium_space(s[i], s[i + 1]) {
        2
    } else if i + 2 < s.len() && is_wide_space(s[i], s[i + 1], s[i + 2]) {
        3
    } else {
        0
    }
}

/// The first index from `i` on at which no white space begins.
pub open spec fn skip_spaces(s: Seq<u8>, i: int) -> int
    decreases s.len() - i,
{
    if space_len(s, i) > 0 {
        skip_spaces(s, i + space_len(s, i))
    } else {
        i
    }
}

/// The first index from `i` on at which white space begins or `s` ends.
pub open spec fn token_end(s: Seq<u8>, i: int) -> int
    decreases s.len() - i,
{
    if i < 0 || i >= s.len() || space_len(s, i) > 0 {
        i
    } else {
        token_end(s, i + 1)
    }
}

pub proof fn lemma_skip_spaces_bounds(s: Seq<u8>, i: int)
    requires
        0 <= i <= s.len(),
    ensures
        i <= skip_spaces(s, i) <= s.len(),
        space_len(s, skip_spaces(s, i)) == 0,
    decreases s.len() - i,
{
    if space_len(s, i) > 0 {
        lemma_skip_spaces_bounds(s, i + space_len(s, i));
    }
}

pub proof fn lemma_token_end_bounds(s: Seq<u8>, i: int)
    requires
        0 <= i <= s.len(),
    ensures
        i <= token_end(s, i) <= s.len(),
        i < s.len() && space_len(s, i) == 0 ==> i < token_end(s, i),
    decreases s.len() - i,
{
    if i < s.len() && space_len(s, i) == 0 {
        lemma_token_end_bounds(s, i + 1);
    }
}

/// The tokens of `s` that begin at index `i` or later, in order.
pub open spec fn tokens_from(s: Seq<u8>, i: int) -> Seq<Seq<u8>>
    decreases s.len() - i,
{
    if i < 0 || i > s.len() {
        Seq::empty()
    } else {
        let start = skip_spaces(s, i);
        let end = token_end(s, start);
        if start >= s.len() {
            Seq::empty()
        } else {
            proof {
                lemma_skip_spaces_bounds(s, i);
                lemma_token_end_bounds(s, start);
            }
            seq![s.subrange(start, end)] + tokens_from(s, end)
        }
    }
}

/// The maximal runs of `s` that hold no white space, in order.
pub open spec fn tokens(s: Seq<u8>) -> Seq<Seq<u8>> {
    tokens_from(s, 0)
}

/// No white space begins between the start of a token and its end.
pub proof fn lemma_token_holds_no_space(s: Seq<u8>, start: int, j: int)
    requires
        0 <= start <= j < token_end(s, start),
    ensures
        space_len(s, j) == 0,
    decreases s.len() - start,
{
    if start < s.len() && space_len(s, start) == 0 && j > start {
        lemma_token_holds_no_space(s, start + 1, j);
    }
}

/// Every token holds at least one byte, and no white space begins in it.
pub proof fn lemma_tokens_from_are_words(s: Seq<u8>, i: int, k: int)
    requires
        0 <= i <= s.len(),
        0 <= k < tokens_from(s, i).len(),
    ensures
        tokens_from(s, i)[k].len() > 0,
        forall|j: int| 0 <= j < tokens_from(s, i)[k].len() ==> space_len(tokens_from(s, i)[k], j) == 0,
    decreases s.len() - i,
{
    lemma_skip_spaces_bounds(s, i);
    let start = skip_spaces(s, i);
    let end = token_end(s, start);
    lemma_token_end_bounds(s, start);
    if k == 0 {
        let token = s.subrange(start, end);
        assert(tokens_from(s, i)[0] == token);
        assert forall|j: int| 0 <= j < token.len() implies space_len(token, j) == 0 by {
            lemma_token_holds_no_space(s, start, start + j);
        }
    } else {
        assert(tokens_from(s, i)[k] == tokens_from(s, end)[k - 1]);
        lemma_tokens_from_are_words(s, end, k - 1);
    }
}

/// Every token of a head holds at least one byte, and no white space begins
/// in it.
pub proof fn lemma_tokens_are_words(s: Seq<u8>, k: int)
    requires
        0 <= k < tokens(s).len(),
    ensures
        tokens(s)[k].len() > 0,
        forall|j: int| 0 <= j < tokens(s)[k].len() ==> space_len(tokens(s)[k], j) == 0,
{
    lemma_tokens_from_are_words(s, 0, k);
}

/// The byte strings that a sequence of vectors holds.
pub open spec fn rows(v: Seq<Vec<u8>>) -> Seq<Seq<u8>> {
    Seq::new(v.len(), |i: int| v[i]@)
}

/// The number of bytes of the white-space character that begins at `s[i]`, or
/// 0 where none begins there.
pub fn space_at(s: &[u8], i: usize) -> (n: usize)
    ensures
        n == space_len(s@, i as int),
        i + n <= s@.len() || n == 0,
{
    if i >= s.len() {
        return 0;
    }
    let rest: usize = s.len() - i;
    let b0: u8 = s[i];
    if b0 == 0x20 || (0x09 <= b0 && b0 <= 0x0d) {
        return 1;
    }
    if rest < 2 {
        return 0;
    }
    let b1: u8 = s[i + 1];
    if b0 == 0xc2 && (b1 == 0x85 || b1 == 0xa0) {
        return 2;
    }
    if rest < 3 {
        return 0;
    }
    let b2: u8 = s[i + 2];
    let wide = (b0 == 0xe1 && b1 == 0x9a && b2 == 0x80) || (b0 == 0xe2 && b1 == 0x80 && ((0x80
        <= b2 && b2 <= 0x8a) || b2 == 0xa8 || b2 == 0xa9 || b2 == 0xaf)) || (b0 == 0xe2 && b1
        == 0x81 && b2 == 0x9f) || (b0 == 0xe3 && b1 == 0x80 && b2 == 0x80);
    if wide {
        3
    } else {
        0
    }
}

/// Splits `s` at white space, as `str::split_whitespace` splits text.
pub fn split_whitespace(s: &[u8]) -> (out: Vec<Vec<u8>>)
    ensures
        rows(out@) == tokens(s@),
{
    let mut out: Vec<Vec<u8>> = Vec::new();
    let mut i: usize = 0;
    assert(rows(out@) =~= Seq::<Seq<u8>>::empty());
    loop
        invariant
            i <= s@.len(),
            rows(out@) + tokens_from(s@, i as int) == tokens(s@),
        ensures
            rows(out@) == tokens(s@),
        decreases s@.len() - i, 1int,
    {
        let ghost begin = i as int;
        proof {
            lemma_skip_spaces_bounds(s@, begin);
        }
        loop
            invariant
                begin <= i <= s.len(),
                skip_spaces(s@, i as int) == skip_spaces(s@, begin),
            ensures
                i == skip_spaces(s@, begin),
                i <= s@.len(),
            decreases s@.len() - i,
        {
            let n = space_at(s, i);
            if n == 0 {
                break;
            }
            i += n;
        }
        if i >= s.len() {
            assert(tokens_from(s@, begin) =~= Seq::<Seq<u8>>::empty());
            assert(rows(out@) + Seq::<Seq<u8>>::empty() =~= rows(out@));
            break;
        }
        let start: usize = i;
        proof {
            lemma_token_end_bounds(s@, start as int);
        }
        i += 1;
        loop
            invariant
                start < i <= s@.len(),
                token_end(s@, i as int) == token_end(s@, start as int),
            ensures
                i == token_end(s@, start as int),
                start < i <= s@.len(),
            decreases s@.len() - i,
        {
            if i >= s.len() {
                break;
            }
            let n = space_at(s, i);
            if n > 0 {
                break;
            }
            i += 1;
        }
        let ghost before = out@;
        out.push(copy_range(s, start, i));
        assert(rows(out@) =~= rows(before) + seq![s@.subrange(start as int, i as int)]);
        assert(tokens_from(s@, begin) == seq![s@.subrange(start as int, i as int)] + tokens_from(
            s@,
            i as int,
        ));
        assert(rows(out@) + tokens_from(s@, i as int) =~= rows(before) + tokens_from(s@, begin));
    }
    out
}

} // verus!
