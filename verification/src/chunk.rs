//! Cutting a reply into pieces of bounded length, counted in Unicode scalar
//! values.

use crate::text::string_views;
use vstd::prelude::*;
use vstd::string::*;

verus! {

/// How many pieces a text of `len` scalars is cut into: `len / width`, rounded up.
pub open spec fn chunk_count(len: nat, width: nat) -> nat
    recommends
        width > 0,
{
    ((len + width - 1) / (width as int)) as nat
}

/// The `i`-th piece: the scalars from `i * width` up to `(i + 1) * width`, or
/// to the end of the text where that comes first.
pub open spec fn chunk_at(text: Seq<char>, width: nat, i: int) -> Seq<char>
    recommends
        width > 0,
{
    let from = i * width;
    let to = if from + width <= text.len() { from + width } else { text.len() as int };
    text.subrange(from, to)
}

/// The pieces of `text`, in order.
pub open spec fn chunks_of(text: Seq<char>, width: nat) -> Seq<Seq<char>>
    recommends
        width > 0,
{
    Seq::new(chunk_count(text.len(), width), |i: int| chunk_at(text, width, i))
}

/// The pieces put one behind the other.
pub open spec fn joined(parts: Seq<Seq<char>>) -> Seq<char>
    decreases parts.len(),
{
    if parts.len() == 0 {
        Seq::empty()
    } else {
        joined(parts.drop_last()) + parts.last()
    }
}

/// What each string slice of a sequence holds.
pub open spec fn chunk_views(subs: Seq<&str>) -> Seq<Seq<char>> {
    Seq::new(subs.len(), |i: int| subs[i]@)
}

proof fn lemma_count_step(len: int, width: int, i: int)
    requires
        width > 0,
        i >= 0,
        i * width < len <= (i + 1) * width,
    ensures
        (len + width - 1) / width == i + 1,
{
    assert((len + width - 1) / width == i + 1) by (nonlinear_arith)
        requires
            width > 0,
            i >= 0,
            i * width < len <= (i + 1) * width,
    ;
}

proof fn lemma_count_bounds(len: int, width: int, i: int)
    requires
        width > 0,
        0 <= i < (len + width - 1) / width,
        len >= 0,
    ensures
        0 <= i * width < len,
        (i + 1) * width == i * width + width,
{
    assert(0 <= i * width < len && (i + 1) * width == i * width + width) by (nonlinear_arith)
        requires
            width > 0,
            0 <= i < (len + width - 1) / width,
            len >= 0,
    ;
}

/// Every piece holds at least one scalar and at most `width`, and all but the
/// last hold exactly `width`.
pub proof fn lemma_chunk_lengths(text: Seq<char>, width: nat, i: int)
    requires
        width > 0,
        0 <= i < chunk_count(text.len(), width),
    ensures
        0 < chunks_of(text, width)[i].len() <= width,
        i + 1 < chunk_count(text.len(), width) ==> chunks_of(text, width)[i].len() == width,
{
    let n = chunk_count(text.len(), width) as int;
    lemma_count_bounds(text.len() as int, width as int, i);
    if i + 1 < n {
        lemma_count_bounds(text.len() as int, width as int, i + 1);
    }
}

/// The first `k` pieces, joined, are the text up to the end of the `k`-th.
proof fn lemma_joined_prefix(text: Seq<char>, width: nat, k: int)
    requires
        width > 0,
        0 <= k <= chunk_count(text.len(), width),
    ensures
        joined(chunks_of(text, width).take(k)) == text.subrange(
            0,
            if k * width <= text.len() {
                k * width
            } else {
                text.len() as int
            },
        ),
    decreases k,
{
    let all = chunks_of(text, width);
    let head = all.take(k);
    if k == 0 {
        assert(0 * width == 0) by (nonlinear_arith);
        assert(joined(head) =~= text.subrange(0, 0));
    } else {
        lemma_joined_prefix(text, width, k - 1);
        lemma_count_bounds(text.len() as int, width as int, k - 1);
        assert(head.drop_last() =~= all.take(k - 1));
        assert(head.last() == chunk_at(text, width, k - 1));
        let from = (k - 1) * width;
        let to = if from + width <= text.len() { from + width } else { text.len() as int };
        assert(k * width == from + width);
        assert(text.subrange(0, from) + text.subrange(from, to) =~= text.subrange(0, to));
    }
}

/// Joined in order, the pieces of a text are that text again.
pub proof fn lemma_chunks_rebuild(text: Seq<char>, width: nat)
    requires
        width > 0,
    ensures
        joined(chunks_of(text, width)) == text,
{
    let n = chunk_count(text.len(), width) as int;
    let all = chunks_of(text, width);
    lemma_joined_prefix(text, width, n);
    assert(all.take(n) =~= all);
    if n * width < text.len() {
        assert((text.len() + width - 1) / (width as int) > n) by (nonlinear_arith)
            requires
                width > 0,
                n >= 0,
                n * width < text.len(),
        ;
    }
    assert(text.subrange(0, text.len() as int) =~= text);
}

/// An empty text has no piece.
pub proof fn lemma_chunks_of_empty(width: nat)
    requires
        width > 0,
    ensures
        chunks_of(Seq::<char>::empty(), width) == Seq::<Seq<char>>::empty(),
{
    assert((0 + width - 1) / (width as int) == 0) by (nonlinear_arith)
        requires
            width > 0,
    ;
    assert(chunks_of(Seq::<char>::empty(), width) =~= Seq::<Seq<char>>::empty());
}

/// A text that is not empty and fits one piece is its own single piece.
pub proof fn lemma_chunks_of_short(text: Seq<char>, width: nat)
    requires
        0 < text.len() <= width,
    ensures
        chunks_of(text, width) == seq![text],
{
    assert(0 * width == 0 && (0 + 1) * width == width) by (nonlinear_arith);
    lemma_count_step(text.len() as int, width as int, 0);
    assert(chunk_at(text, width, 0) =~= text);
    assert(chunks_of(text, width) =~= seq![text]);
}

/// Cuts `string` into pieces of `sub_len` scalars, the last one shorter where
/// the length is no multiple of `sub_len`. A piece never ends inside a scalar's
/// encoding: the cuts are counted in scalars, not in bytes.
pub fn sub_strings<'a>(string: &'a str, sub_len: usize) -> (subs: Vec<&'a str>)
    requires
        sub_len > 0,
    ensures
        chunk_views(subs@) == chunks_of(string@, sub_len as nat),
        joined(chunk_views(subs@)) == string@,
        forall|i: int| 0 <= i < subs@.len() ==> 0 < (#[trigger] subs@[i])@.len() <= sub_len,
{
    let total: usize = string.unicode_len();
    let mut subs: Vec<&'a str> = Vec::new();
    let mut pos: usize = 0;
    proof {
        assert((0 + sub_len - 1) / (sub_len as int) == 0) by (nonlinear_arith)
            requires
                sub_len > 0,
        ;
        assert(subs@.len() == 0);
        assert(0 * sub_len == 0) by (nonlinear_arith);
    }
    while pos < total
        invariant
            sub_len > 0,
            total == string@.len(),
            pos <= total,
            pos < total ==> pos == subs@.len() * sub_len,
            subs@.len() == chunk_count(pos as nat, sub_len as nat),
            forall|i: int|
                0 <= i < subs@.len() ==> (#[trigger] subs@[i])@ == chunk_at(
                    string@,
                    sub_len as nat,
                    i,
                ),
        decreases total - pos,
    {
        let end: usize = if total - pos <= sub_len {
            total
        } else {
            pos + sub_len
        };
        let piece = string.substring_char(pos, end);
        proof {
            let i = subs@.len() as int;
            assert((i + 1) * sub_len == i * sub_len + sub_len) by (nonlinear_arith);
            lemma_count_step(end as int, sub_len as int, i);
        }
        subs.push(piece);
        pos = end;
    }
    proof {
        assert(chunk_views(subs@) =~= chunks_of(string@, sub_len as nat));
        lemma_chunks_rebuild(string@, sub_len as nat);
        assert forall|i: int| 0 <= i < subs@.len() implies 0 < (#[trigger] subs@[i])@.len()
            <= sub_len by {
            lemma_chunk_lengths(string@, sub_len as nat, i);
        }
    }
    subs
}

/// A text that is not empty has a first piece.
pub proof fn lemma_chunk_count_positive(len: nat, width: nat)
    requires
        width > 0,
    ensures
        chunk_count(len, width) > 0 <==> len > 0,
{
    assert((len + width - 1) / (width as int) > 0 <==> len > 0) by (nonlinear_arith)
        requires
            width > 0,
            len >= 0,
    ;
}

/// The pieces of `text` as strings of their own, for handing on.
pub fn owned_chunks(text: &str, width: usize) -> (chunks: Vec<String>)
    requires
        width > 0,
    ensures
        string_views(chunks@) == chunks_of(text@, width as nat),
{
    let subs = sub_strings(text, width);
    let mut chunks: Vec<String> = Vec::new();
    let mut i: usize = 0;
    while i < subs.len()
        invariant
            i <= subs@.len(),
            chunks@.len() == i,
            forall|j: int| 0 <= j < i ==> (#[trigger] chunks@[j])@ == subs@[j]@,
        decreases subs@.len() - i,
    {
        chunks.push(String::from_str(subs[i]));
        i += 1;
    }
    assert(string_views(chunks@) =~= chunk_views(subs@));
    chunks
}

} // verus!
