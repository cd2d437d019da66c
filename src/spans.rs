//! The mathematical model of match sequences, split pieces and replacement.
//!
//! A span is a half-open byte range `(start, end)` of a haystack. The engine's
//! matches, taken left to right, form a well-formed span sequence; every other
//! operation of the library is described here as a function of that sequence.
use vstd::prelude::*;

verus! {

/// A half-open byte range `[start, end)`.
pub type Span = (int, int);

/// `ms` is a sequence of non-empty, in-bounds, non-overlapping spans, ordered
/// left to right, as successive scans of a haystack of `len` bytes produce.
pub open spec fn spans_wf(ms: Seq<Span>, len: int) -> bool {
    &&& forall|i: int| #![trigger ms[i]] 0 <= i < ms.len() ==> 0 <= ms[i].0 < ms[i].1 <= len
    &&& forall|i: int| #![trigger ms[i]] 0 < i < ms.len() ==> ms[i - 1].1 <= ms[i].0
}

/// The bytes of `text` covered by `spans`, concatenated in order.
pub open spec fn concat_spans(text: Seq<u8>, spans: Seq<Span>) -> Seq<u8>
    decreases spans.len(),
{
    if spans.len() == 0 {
        seq![]
    } else {
        text.subrange(spans[0].0, spans[0].1) + concat_spans(text, spans.drop_first())
    }
}

/// Merges two span sequences by start offset, taking from `a` on a tie.
pub open spec fn merge_by_start(a: Seq<Span>, b: Seq<Span>) -> Seq<Span>
    decreases a.len() + b.len(),
{
    if a.len() == 0 {
        b
    } else if b.len() == 0 {
        a
    } else if a[0].0 <= b[0].0 {
        seq![a[0]] + merge_by_start(a.drop_first(), b)
    } else {
        seq![b[0]] + merge_by_start(a, b.drop_first())
    }
}

/// The pieces that splitting yields once the matches before `ms[i]` have been
/// consumed and the cursor stands at `last`: the unmatched run before each
/// match that does not start at the cursor, then the unmatched tail, if any.
pub open spec fn split_from(ms: Seq<Span>, i: int, last: int, len: int) -> Seq<Span>
    decreases ms.len() - i,
{
    if i < 0 || i >= ms.len() {
        if last < len {
            seq![(last, len)]
        } else {
            seq![]
        }
    } else if last == ms[i].0 {
        split_from(ms, i + 1, ms[i].1, len)
    } else {
        seq![(last, ms[i].0)] + split_from(ms, i + 1, ms[i].1, len)
    }
}

/// The pieces that splitting a haystack of `len` bytes at the matches `ms` yields.
pub open spec fn split_spans(ms: Seq<Span>, len: int) -> Seq<Span> {
    split_from(ms, 0, 0, len)
}

/// The pieces that a split bounded to `n` more pieces yields from the state of
/// `split_from`: the last piece it may yield is the whole remaining tail.
pub open spec fn splitn_from(ms: Seq<Span>, i: int, last: int, len: int, n: nat) -> Seq<Span>
    decreases ms.len() - i,
{
    if n == 0 {
        seq![]
    } else if n == 1 {
        seq![(last, len)]
    } else if i < 0 || i >= ms.len() {
        if last < len {
            seq![(last, len)]
        } else {
            seq![]
        }
    } else if last == ms[i].0 {
        splitn_from(ms, i + 1, ms[i].1, len, n)
    } else {
        seq![(last, ms[i].0)] + splitn_from(ms, i + 1, ms[i].1, len, (n - 1) as nat)
    }
}

/// The pieces that splitting at the matches `ms` into at most `n` pieces yields.
pub open spec fn splitn_spans(ms: Seq<Span>, len: int, n: nat) -> Seq<Span> {
    splitn_from(ms, 0, 0, len, n)
}

/// The walk of replacement over the matches from `ms[i]` on, with the cursor at
/// `last` after `count` substitutions: what it emits, where its cursor ends and
/// how many substitutions it has made by then.
///
/// A match that starts after the cursor is substituted: the unmatched run
/// before it and `rep` are emitted. A match that starts at the cursor is
/// dropped. The walk stops before the first substitution beyond `limit`, where
/// `limit == 0` means no bound.
pub open spec fn replace_from(
    text: Seq<u8>,
    ms: Seq<Span>,
    i: int,
    limit: nat,
    rep: Seq<u8>,
    last: int,
    count: nat,
) -> (Seq<u8>, int, nat)
    decreases ms.len() - i,
{
    if i < 0 || i >= ms.len() {
        (seq![], last, count)
    } else if ms[i].0 > last {
        if limit > 0 && count >= limit {
            (seq![], last, count)
        } else {
            let r = replace_from(text, ms, i + 1, limit, rep, ms[i].1, count + 1);
            (text.subrange(last, ms[i].0) + rep + r.0, r.1, r.2)
        }
    } else {
        replace_from(text, ms, i + 1, limit, rep, ms[i].1, count)
    }
}

/// The number of substitutions that replacing at most `limit` matches makes.
pub open spec fn replace_count(text: Seq<u8>, ms: Seq<Span>, limit: nat, rep: Seq<u8>) -> nat {
    replace_from(text, ms, 0, limit, rep, 0, 0).2
}

/// The text after replacing at most `limit` matches (all of them when
/// `limit == 0`) with `rep`; without a substitution, `text` itself.
pub open spec fn replaced_text(text: Seq<u8>, ms: Seq<Span>, limit: nat, rep: Seq<u8>) -> Seq<u8> {
    let r = replace_from(text, ms, 0, limit, rep, 0, 0);
    if r.2 == 0 {
        text
    } else {
        r.0 + text.subrange(r.1, text.len() as int)
    }
}

/// The text after replacing every match with `rep`.
pub open spec fn replaced_all_text(text: Seq<u8>, ms: Seq<Span>, rep: Seq<u8>) -> Seq<u8> {
    replaced_text(text, ms, 0, rep)
}

proof fn lemma_concat_cons(text: Seq<u8>, x: Span, s: Seq<Span>)
    ensures
        concat_spans(text, seq![x] + s) == text.subrange(x.0, x.1) + concat_spans(text, s),
{
    let t = seq![x] + s;
    assert(t[0] == x);
    assert(t.drop_first() =~= s);
}

proof fn lemma_merge_cons_left(x: Span, a: Seq<Span>, b: Seq<Span>)
    requires
        b.len() > 0 ==> x.0 <= b[0].0,
    ensures
        merge_by_start(seq![x] + a, b) == seq![x] + merge_by_start(a, b),
{
    let t = seq![x] + a;
    assert(t[0] == x);
    assert(t.drop_first() =~= a);
    if b.len() == 0 {
        assert(merge_by_start(a, b) == a);
    }
}

proof fn lemma_merge_cons_right(a: Seq<Span>, y: Span, b: Seq<Span>)
    requires
        a.len() > 0 ==> y.0 < a[0].0,
    ensures
        merge_by_start(a, seq![y] + b) == seq![y] + merge_by_start(a, b),
{
    let t = seq![y] + b;
    assert(t[0] == y);
    assert(t.drop_first() =~= b);
}

proof fn lemma_split_first(ms: Seq<Span>, i: int, last: int, len: int)
    requires
        spans_wf(ms, len),
        0 <= i <= ms.len(),
        i < ms.len() ==> last <= ms[i].0,
    ensures
        split_from(ms, i, last, len).len() > 0 ==> split_from(ms, i, last, len)[0].0 >= last,
    decreases ms.len() - i,
{
    if i < ms.len() {
        if i + 1 < ms.len() {
            assert(ms[i + 1].0 >= ms[i].1);
        }
        lemma_split_first(ms, i + 1, ms[i].1, len);
    }
}

proof fn lemma_split_rebuilds_from(text: Seq<u8>, ms: Seq<Span>, i: int, last: int)
    requires
        spans_wf(ms, text.len() as int),
        0 <= i <= ms.len(),
        0 <= last <= text.len(),
        i < ms.len() ==> last <= ms[i].0,
    ensures
        concat_spans(
            text,
            merge_by_start(split_from(ms, i, last, text.len() as int), ms.subrange(i, ms.len() as int)),
        ) == text.subrange(last, text.len() as int),
    decreases ms.len() - i,
{
    let len = text.len() as int;
    if i == ms.len() {
        assert(ms.subrange(i, ms.len() as int) =~= Seq::<Span>::empty());
        if last < len {
            lemma_concat_cons(text, (last, len), seq![]);
            assert(text.subrange(last, len) + Seq::<u8>::empty() =~= text.subrange(last, len));
        } else {
            assert(text.subrange(last, len) =~= Seq::<u8>::empty());
        }
    } else {
        let m = ms[i];
        let rest = ms.subrange(i + 1, ms.len() as int);
        assert(ms.subrange(i, ms.len() as int) =~= seq![m] + rest);
        if i + 1 < ms.len() {
            assert(ms[i + 1].0 >= ms[i].1);
            assert(rest[0] == ms[i + 1]);
        }
        let tail = split_from(ms, i + 1, m.1, len);
        lemma_split_rebuilds_from(text, ms, i + 1, m.1);
        lemma_split_first(ms, i + 1, m.1, len);
        lemma_merge_cons_right(tail, m, rest);
        lemma_concat_cons(text, m, merge_by_start(tail, rest));
        assert(text.subrange(m.0, m.1) + text.subrange(m.1, len) =~= text.subrange(m.0, len));
        if last != m.0 {
            lemma_merge_cons_left((last, m.0), tail, seq![m] + rest);
            lemma_concat_cons(text, (last, m.0), merge_by_start(tail, seq![m] + rest));
            assert(text.subrange(last, m.0) + text.subrange(m.0, len) =~= text.subrange(last, len));
        }
    }
}

/// Splitting loses nothing: the pieces that splitting yields and the matches
/// themselves, taken together in order of their offsets, rebuild the haystack.
pub proof fn law_split_and_matches_rebuild_text(text: Seq<u8>, ms: Seq<Span>)
    requires
        spans_wf(ms, text.len() as int),
    ensures
        concat_spans(text, merge_by_start(split_spans(ms, text.len() as int), ms)) == text,
{
    lemma_split_rebuilds_from(text, ms, 0, 0);
    assert(ms.subrange(0, ms.len() as int) =~= ms);
    assert(text.subrange(0, text.len() as int) =~= text);
}

/// A split bounded to no piece yields nothing; one bounded to a single piece
/// yields the whole haystack.
pub proof fn law_splitn_zero_and_one(ms: Seq<Span>, len: int)
    ensures
        splitn_spans(ms, len, 0) == Seq::<Span>::empty(),
        splitn_spans(ms, len, 1) == seq![(0int, len)],
{
}

/// Replacing with no bound on the number of substitutions is replacing all.
pub proof fn law_replacen_unbounded_is_replace_all(text: Seq<u8>, ms: Seq<Span>, rep: Seq<u8>)
    ensures
        replaced_text(text, ms, 0, rep) == replaced_all_text(text, ms, rep),
{
}

/// Where nothing matches, replacement substitutes nothing and hands back the
/// haystack itself, and splitting a non-empty haystack yields it whole.
pub proof fn law_no_match_leaves_text_whole(text: Seq<u8>, limit: nat, rep: Seq<u8>)
    ensures
        replace_count(text, Seq::<Span>::empty(), limit, rep) == 0,
        replaced_text(text, Seq::<Span>::empty(), limit, rep) == text,
        text.len() > 0 ==> split_spans(Seq::<Span>::empty(), text.len() as int) == seq![
            (0int, text.len() as int),
        ],
{
}

} // verus!
