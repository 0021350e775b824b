//! Tags, as they are given on the command line: separated by commas.

use vstd::prelude::*;
use crate::text::{
    chars_of,
    lemma_tail_run_len,
    lemma_tail_run_len_is,
    scan,
    string_of,
    tail_run_len,
    trim_range,
    trimmed,
    CharClass,
};

verus! {

/// The most tags that are taken from one list.
pub const MAX_TAGS: usize = 32;

/// The pieces of `s` between the occurrences of `sep`. There is always at
/// least one piece, and a piece may be empty.
pub open spec fn split(s: Seq<char>, sep: char) -> Seq<Seq<char>>
    decreases s.len(),
    via split_decreases
{
    let last = tail_run_len(s, CharClass::Except(sep));
    if last >= s.len() {
        seq![s]
    } else {
        split(s.take(s.len() - last - 1), sep).push(s.skip(s.len() - last))
    }
}

#[via_fn]
proof fn split_decreases(s: Seq<char>, sep: char) {
    let last = tail_run_len(s, CharClass::Except(sep));
    if last < s.len() {
        lemma_tail_run_len(s, CharClass::Except(sep));
        assert(s.take(s.len() - last - 1).len() == s.len() - last - 1);
    }
}

/// The tags that `s` lists, all of them: its pieces between commas,
/// trimmed, without the empty ones.
pub open spec fn listed_tags(s: Seq<char>) -> Seq<Seq<char>> {
    split(s, ',').map_values(|piece: Seq<char>| trimmed(piece)).filter(
        |tag: Seq<char>| tag.len() > 0,
    )
}

/// `tags`, cut after the most that are taken.
pub open spec fn capped(tags: Seq<Seq<char>>) -> Seq<Seq<char>> {
    if tags.len() <= MAX_TAGS {
        tags
    } else {
        tags.take(MAX_TAGS as int)
    }
}

/// The tags that are taken from the list `s`.
pub open spec fn tags_of(s: Seq<char>) -> Seq<Seq<char>> {
    capped(listed_tags(s))
}

/// The trimmed, non-empty ones of `pieces`.
spec fn kept(pieces: Seq<Seq<char>>) -> Seq<Seq<char>> {
    pieces.map_values(|piece: Seq<char>| trimmed(piece)).filter(|tag: Seq<char>| tag.len() > 0)
}

/// A text without the separator is one piece.
proof fn lemma_split_one(s: Seq<char>, sep: char)
    requires
        forall|i: int| 0 <= i < s.len() ==> s[i] != sep,
    ensures
        split(s, sep) == seq![s],
{
    lemma_tail_run_len_is(s, CharClass::Except(sep), s.len() as int);
}

/// What follows the last separator is the last piece, and what stands
/// before that separator gives the pieces before it.
proof fn lemma_split_last(s: Seq<char>, sep: char, at: int)
    requires
        0 <= at < s.len(),
        s[at] == sep,
        forall|i: int| at < i < s.len() ==> s[i] != sep,
    ensures
        split(s, sep) == split(s.take(at), sep).push(s.skip(at + 1)),
{
    lemma_tail_run_len_is(s, CharClass::Except(sep), s.len() - at - 1);
}

/// One more piece adds its tag, if it has one.
proof fn lemma_kept_push(pieces: Seq<Seq<char>>, piece: Seq<char>)
    ensures
        kept(pieces.push(piece)) == if trimmed(piece).len() > 0 {
            kept(pieces).push(trimmed(piece))
        } else {
            kept(pieces)
        },
{
    let f = |piece: Seq<char>| trimmed(piece);
    let p = |tag: Seq<char>| tag.len() > 0;
    assert(pieces.push(piece).map_values(f) =~= pieces.map_values(f).push(trimmed(piece)));
    pieces.map_values(f).lemma_filter_push(trimmed(piece), p);
}

/// Reads the tags off a comma-separated list: each piece is trimmed, empty
/// ones are dropped, and no more than 32 are taken.
pub fn parse_tags_csv(s: &str) -> (tags: Vec<String>)
    ensures
        tags.deep_view() == tags_of(s@),
{
    let cs = chars_of(s);
    let mut tags: Vec<String> = Vec::new();
    let mut end: usize = scan(&cs, 0, cs.len(), CharClass::Except(','));
    let (a, b) = trim_range(&cs, 0, end);
    if b > a {
        tags.push(string_of(&cs, a, b));
    }
    proof {
        let first = cs@.subrange(0, end as int);
        crate::text::lemma_run_len(cs@.subrange(0, cs.len() as int), CharClass::Except(','));
        assert forall|i: int| 0 <= i < first.len() implies first[i] != ',' by {
            assert(first[i] == cs@.subrange(0, cs.len() as int)[i]);
        }
        lemma_split_one(first, ',');
        assert(cs@.take(end as int) == first);
        assert(seq![first] == Seq::<Seq<char>>::empty().push(first));
        assert(kept(Seq::<Seq<char>>::empty()) == Seq::<Seq<char>>::empty()) by {
            reveal(Seq::filter);
        }
        lemma_kept_push(Seq::empty(), first);
        assert(tags.deep_view() =~= capped(kept(split(cs@.take(end as int), ','))));
    }
    while end < cs.len()
        invariant
            end <= cs.len(),
            end < cs.len() ==> cs@[end as int] == ',',
            tags.deep_view() == capped(kept(split(cs@.take(end as int), ','))),
        decreases cs.len() - end,
    {
        let start: usize = end + 1;
        let next: usize = scan(&cs, start, cs.len(), CharClass::Except(','));
        let (a, b) = trim_range(&cs, start, next);
        let ghost before = tags.deep_view();
        let ghost pieces = split(cs@.take(end as int), ',');
        let ghost piece = cs@.subrange(start as int, next as int);
        proof {
            let upto = cs@.take(next as int);
            crate::text::lemma_run_len(
                cs@.subrange(start as int, cs.len() as int),
                CharClass::Except(','),
            );
            assert forall|i: int| end < i < upto.len() implies upto[i] != ',' by {
                assert(upto[i] == cs@.subrange(start as int, cs.len() as int)[i - start]);
            }
            lemma_split_last(upto, ',', end as int);
            assert(upto.take(end as int) == cs@.take(end as int));
            assert(upto.skip(end + 1) == piece);
            lemma_kept_push(pieces, piece);
            if next < cs.len() {
                assert(cs@[next as int] == cs@.subrange(start as int, cs.len() as int)[next - start]);
            }
        }
        if b > a && tags.len() < MAX_TAGS {
            tags.push(string_of(&cs, a, b));
        }
        proof {
            let all = kept(pieces);
            let tag = trimmed(piece);
            if tag.len() > 0 {
                if all.len() < MAX_TAGS {
                    assert(before == all);
                    assert(tags.deep_view() =~= all.push(tag));
                } else {
                    assert(all.push(tag).take(MAX_TAGS as int) =~= capped(all));
                }
            }
        }
        end = next;
    }
    proof {
        assert(cs@.take(cs.len() as int) == cs@);
    }
    tags
}

} // verus!
