use vstd::prelude::*;
use vstd::slice::slice_subrange;

use crate::constants::{HS_SCAN_TERMINATED, HS_SUCCESS};
use crate::spans::{
    replaced_all_text, replace_count, replace_from, replaced_text, spans_wf, split_from,
    split_spans, splitn_from, splitn_spans, Span,
};

verus! {

/// A single match of a pattern in a haystack: the byte range `[start, end)`.
///
/// A match is never empty; an empty report from the engine means that nothing
/// matched.
#[derive(Clone, Copy, Debug)]
pub struct Match<'t> {
    text: &'t [u8],
    start: usize,
    end: usize,
}

impl<'t> Match<'t> {
    #[verifier::type_invariant]
    spec fn inv(self) -> bool {
        self.start < self.end <= self.text@.len()
    }

    /// The haystack that the match was found in.
    pub closed spec fn haystack(self) -> Seq<u8> {
        self.text@
    }

    /// The byte range of the match in its haystack.
    pub closed spec fn span(self) -> (int, int) {
        (self.start as int, self.end as int)
    }

    /// Returns the starting byte offset of the match in the haystack.
    pub fn start(&self) -> (r: usize)
        ensures
            r == self.span().0,
    {
        self.start
    }

    /// Returns the ending byte offset of the match in the haystack.
    pub fn end(&self) -> (r: usize)
        ensures
            r == self.span().1,
    {
        self.end
    }

    /// Returns the matched bytes.
    pub fn as_bytes(&self) -> (r: &'t [u8])
        ensures
            r@ == self.haystack().subrange(self.span().0, self.span().1),
    {
        proof {
            use_type_invariant(self);
        }
        slice_subrange(self.text, self.start, self.end)
    }
}

} // verus!

verus! {

/// The engine call counts as completed: it ran to the end of the buffer, or the
/// match callback stopped it.
pub open spec fn scan_completed(code: i32) -> bool {
    code == HS_SUCCESS || code == HS_SCAN_TERMINATED
}

/// The match that one scan of `text[offset..]` reports, in offsets of `text`.
///
/// `code` is the status the engine call returned, and `(from, to)` the slot
/// that the first callback filled, relative to `offset` (left at `(0, 0)` when
/// no callback came). A failed call, an empty slot and a slot that does not fit
/// in the scanned buffer all mean that nothing matched.
pub open spec fn scan_hit(offset: int, len: int, code: i32, from: u64, to: u64) -> Option<Span> {
    if scan_completed(code) && from < to && offset + to <= len {
        Some((offset + from, offset + to))
    } else {
        None
    }
}

/// Turns the outcome of one scan of `text[offset..]` into a match of `text`.
pub fn match_from_scan<'t>(text: &'t [u8], offset: usize, code: i32, from: u64, to: u64) -> (r:
    Option<Match<'t>>)
    requires
        offset <= text@.len(),
    ensures
        match r {
            Some(m) => scan_hit(offset as int, text@.len() as int, code, from, to) == Some(
                m.span(),
            ) && m.haystack() == text@,
            None => scan_hit(offset as int, text@.len() as int, code, from, to) is None,
        },
{
    let room: usize = text.len() - offset;
    if (code == HS_SUCCESS || code == HS_SCAN_TERMINATED) && from < to && to <= room as u64 {
        let start: usize = offset + from as usize;
        let end: usize = offset + to as usize;
        Some(Match { text, start, end })
    } else {
        None
    }
}

} // verus!

verus! {

/// The spans of a sequence of matches.
pub open spec fn spans_of<'t>(ms: Seq<Match<'t>>) -> Seq<Span> {
    ms.map_values(|m: Match<'t>| m.span())
}

/// `out` holds, piece by piece, the bytes of `text` under `spans`.
pub open spec fn pieces_of(text: Seq<u8>, out: Seq<&[u8]>, spans: Seq<Span>) -> bool {
    &&& out.len() == spans.len()
    &&& forall|k: int| 0 <= k < out.len() ==> (#[trigger] out[k])@ == text.subrange(spans[k].0, spans[k].1)
}

/// The result of a replacement: the haystack itself when nothing was
/// substituted, or a new buffer.
#[derive(Debug)]
pub enum Replaced<'t> {
    Borrowed(&'t [u8]),
    Owned(Vec<u8>),
}

impl<'t> Replaced<'t> {
    /// The bytes of the result.
    pub open spec fn bytes(&self) -> Seq<u8> {
        match self {
            Replaced::Borrowed(b) => b@,
            Replaced::Owned(v) => v@,
        }
    }

    /// Returns the bytes of the result.
    pub fn as_bytes(&self) -> (r: &[u8])
        ensures
            r@ == self.bytes(),
    {
        match self {
            Replaced::Borrowed(b) => b,
            Replaced::Owned(v) => v.as_slice(),
        }
    }

    /// Returns true if and only if the result is the haystack itself.
    pub fn is_borrowed(&self) -> (r: bool)
        ensures
            r == self is Borrowed,
    {
        match self {
            Replaced::Borrowed(_) => true,
            Replaced::Owned(_) => false,
        }
    }
}

/// Appends `src` to `out`.
fn append(out: &mut Vec<u8>, src: &[u8])
    ensures
        final(out)@ == old(out)@ + src@,
{
    out.extend_from_slice(src);
    assert(final(out)@ =~= old(out)@ + src@);
}

/// The successive non-overlapping matches of a pattern in a haystack.
///
/// Each step scans the haystack once from the end of the previous match (from
/// the start, at first) and stops at the first match reported. The caller runs
/// the scan at `scan_offset` and hands its outcome to `advance`; once a scan
/// finds nothing, the sequence is exhausted for good. The matches found so far
/// are kept, so that splitting and replacement can be computed from them.
pub struct Matches<'t> {
    text: &'t [u8],
    next: Option<usize>,
    found: Vec<Match<'t>>,
}

impl<'t> Matches<'t> {
    /// The haystack.
    pub closed spec fn haystack(&self) -> Seq<u8> {
        self.text@
    }

    /// The spans of the matches found so far, left to right.
    pub closed spec fn spans(&self) -> Seq<Span> {
        spans_of(self.found@)
    }

    /// Where the next scan starts; `None` once the sequence is exhausted.
    pub closed spec fn pending(&self) -> Option<int> {
        match self.next {
            Some(o) => Some(o as int),
            None => None,
        }
    }

    /// The end of the last match found, or `0` before the first.
    pub open spec fn cursor(&self) -> int {
        if self.spans().len() == 0 {
            0
        } else {
            self.spans().last().1
        }
    }

    /// The matches found are well-formed spans of the haystack, and the next
    /// scan, if any, starts where the last match ended.
    pub closed spec fn wf(&self) -> bool {
        &&& spans_wf(self.spans(), self.text@.len() as int)
        &&& forall|k: int| 0 <= k < self.found@.len() ==> (#[trigger] self.found@[k]).haystack() == self.text@
        &&& match self.next {
            Some(o) => o == self.cursor(),
            None => true,
        }
    }

    /// `self` is `before` after a step that found the span `hit` and yielded `r`,
    /// or, with `hit == None`, after a step that ended the sequence.
    pub open spec fn advanced_from(&self, before: &Matches<'t>, r: Option<Match<'t>>, hit: Option<Span>) -> bool {
        match hit {
            Some(s) => {
                &&& r matches Some(m) && m.span() == s && m.haystack() == before.haystack()
                &&& self.spans() == before.spans().push(s)
                &&& self.pending() == Some(s.1)
            },
            None => {
                &&& r is None
                &&& self.spans() == before.spans()
                &&& self.pending() is None
            },
        }
    }

    /// The matches of one sequence are non-empty, lie in the haystack, and come
    /// strictly left to right without overlapping.
    pub proof fn lemma_matches_in_order(&self)
        requires
            self.wf(),
        ensures
            spans_wf(self.spans(), self.haystack().len() as int),
    {
    }

    /// Starts the sequence of matches in `text`: the first scan starts at `0`.
    pub fn new(text: &'t [u8]) -> (r: Matches<'t>)
        ensures
            r.wf(),
            r.haystack() == text@,
            r.spans() == Seq::<Span>::empty(),
            r.pending() == Some(0int),
    {
        let r = Matches { text, next: Some(0), found: Vec::new() };
        assert(r.spans() =~= Seq::<Span>::empty());
        r
    }

    /// Returns the haystack.
    pub fn text(&self) -> (r: &'t [u8])
        ensures
            r@ == self.haystack(),
    {
        self.text
    }

    /// Returns where the next scan starts, or `None` once the sequence is
    /// exhausted.
    pub fn scan_offset(&self) -> (r: Option<usize>)
        requires
            self.wf(),
        ensures
            r matches Some(o) ==> self.pending() == Some(o as int) && o <= self.haystack().len(),
            r is None ==> self.pending() is None,
    {
        proof {
            if self.spans().len() > 0 {
                assert(self.spans()[self.spans().len() - 1].1 <= self.text@.len());
            }
        }
        self.next
    }

    /// Takes the outcome of the scan at `scan_offset` (its status code and the
    /// slot its first callback filled, relative to that offset) and yields the
    /// next match, advancing past it; or ends the sequence.
    pub fn advance(&mut self, code: i32, from: u64, to: u64) -> (r: Option<Match<'t>>)
        requires
            old(self).wf(),
        ensures
            final(self).wf(),
            final(self).haystack() == old(self).haystack(),
            final(self).advanced_from(old(self), r, match old(self).pending() {
                None => None,
                Some(o) => scan_hit(o, old(self).haystack().len() as int, code, from, to),
            }),
    {
        match self.next {
            None => None,
            Some(offset) => {
                proof {
                    if self.spans().len() > 0 {
                        assert(self.spans()[self.spans().len() - 1].1 <= self.text@.len());
                    }
                }
                let hit = match_from_scan(self.text, offset, code, from, to);
                match hit {
                    Some(m) => {
                        let ghost before = self.spans();
                        self.found.push(m);
                        self.next = Some(m.end());
                        assert(self.spans() =~= before.push(m.span()));
                        Some(m)
                    },
                    None => {
                        self.next = None;
                        None
                    },
                }
            },
        }
    }
}

impl<'t> Matches<'t> {
    /// Returns the pieces of the haystack between the matches found: each
    /// maximal unmatched run, left to right. Back-to-back matches are merged, so
    /// no empty piece is yielded between them, nor an empty tail.
    pub fn split(&self) -> (r: Vec<&'t [u8]>)
        requires
            self.wf(),
        ensures
            pieces_of(self.haystack(), r@, split_spans(self.spans(), self.haystack().len() as int)),
    {
        let ghost ms = self.spans();
        let ghost len = self.text@.len() as int;
        let mut out: Vec<&'t [u8]> = Vec::new();
        let ghost mut done: Seq<Span> = seq![];
        let mut last: usize = 0;
        let mut i: usize = 0;
        while i < self.found.len()
            invariant
                self.wf(),
                ms == self.spans(),
                len == self.text@.len(),
                i <= ms.len(),
                last <= len,
                i == 0 ==> last == 0,
                i > 0 ==> last == ms[i - 1].1,
                pieces_of(self.text@, out@, done),
                split_spans(ms, len) == done + split_from(ms, i as int, last as int, len),
            decreases ms.len() - i,
        {
            let m = self.found[i];
            assert(ms[i as int] == m.span());
            let start = m.start();
            let end = m.end();
            if last != start {
                let piece = slice_subrange(self.text, last, start);
                out.push(piece);
                proof {
                    assert(split_from(ms, i as int, last as int, len) == seq![(last as int, start as int)]
                        + split_from(ms, i + 1, end as int, len));
                    assert(done + split_from(ms, i as int, last as int, len) =~= done.push(
                        (last as int, start as int),
                    ) + split_from(ms, i + 1, end as int, len));
                    done = done.push((last as int, start as int));
                }
            }
            last = end;
            i = i + 1;
        }
        if last < self.text.len() {
            let piece = slice_subrange(self.text, last, self.text.len());
            out.push(piece);
            proof {
                done = done.push((last as int, len));
            }
        }
        assert(split_spans(ms, len) =~= done);
        out
    }

    /// Returns at most `limit` pieces of the haystack between the matches
    /// found; the last of them, the `limit`-th, is the whole rest of the
    /// haystack after the pieces before it. A `limit` of `0` yields nothing.
    pub fn splitn(&self, limit: usize) -> (r: Vec<&'t [u8]>)
        requires
            self.wf(),
        ensures
            pieces_of(
                self.haystack(),
                r@,
                splitn_spans(self.spans(), self.haystack().len() as int, limit as nat),
            ),
    {
        let ghost ms = self.spans();
        let ghost len = self.text@.len() as int;
        let mut out: Vec<&'t [u8]> = Vec::new();
        let ghost mut done: Seq<Span> = seq![];
        let mut last: usize = 0;
        let mut i: usize = 0;
        let mut n: usize = limit;
        loop
            invariant_except_break
                self.wf(),
                ms == self.spans(),
                len == self.text@.len(),
                i <= ms.len(),
                last <= len,
                i == 0 ==> last == 0,
                i > 0 ==> last == ms[i - 1].1,
                pieces_of(self.text@, out@, done),
                splitn_spans(ms, len, limit as nat) == done + splitn_from(
                    ms,
                    i as int,
                    last as int,
                    len,
                    n as nat,
                ),
            ensures
                pieces_of(self.text@, out@, splitn_spans(ms, len, limit as nat)),
            decreases ms.len() - i, n,
        {
            if n == 0 {
                assert(done + seq![] =~= done);
                break;
            }
            if n == 1 {
                let piece = slice_subrange(self.text, last, self.text.len());
                out.push(piece);
                proof {
                    done = done.push((last as int, len));
                }
                break;
            }
            if i >= self.found.len() {
                if last < self.text.len() {
                    let piece = slice_subrange(self.text, last, self.text.len());
                    out.push(piece);
                    proof {
                        done = done.push((last as int, len));
                    }
                }
                assert(splitn_spans(ms, len, limit as nat) =~= done);
                break;
            }
            let m = self.found[i];
            assert(ms[i as int] == m.span());
            let start = m.start();
            let end = m.end();
            if last != start {
                let piece = slice_subrange(self.text, last, start);
                out.push(piece);
                proof {
                    assert(done + splitn_from(ms, i as int, last as int, len, n as nat) =~= done.push(
                        (last as int, start as int),
                    ) + splitn_from(ms, i + 1, end as int, len, (n - 1) as nat));
                    done = done.push((last as int, start as int));
                }
                n = n - 1;
            }
            last = end;
            i = i + 1;
        }
        out
    }
}

impl<'t> Matches<'t> {
    /// Replaces at most `limit` of the matches found with `rep`, or all of them
    /// when `limit == 0`.
    ///
    /// Walking the matches left to right, a match that starts after the end of
    /// the previous one is substituted: the unmatched run before it, then `rep`,
    /// go to the output. The rest of the haystack after the last match walked
    /// ends the output. `rep` is inserted as it is. When no substitution is
    /// made, the haystack itself is returned and nothing is allocated.
    pub fn replacen(&self, limit: usize, rep: &[u8]) -> (r: Replaced<'t>)
        requires
            self.wf(),
        ensures
            r.bytes() == replaced_text(self.haystack(), self.spans(), limit as nat, rep@),
            r is Borrowed <==> replace_count(self.haystack(), self.spans(), limit as nat, rep@) == 0,
    {
        let ghost ms = self.spans();
        let ghost text = self.text@;
        let ghost total = replace_from(text, ms, 0, limit as nat, rep@, 0, 0);
        let mut new: Vec<u8> = Vec::new();
        let mut matched: usize = 0;
        let mut last: usize = 0;
        let mut i: usize = 0;
        while i < self.found.len()
            invariant_except_break
                i <= ms.len(),
            invariant
                self.wf(),
                ms == self.spans(),
                text == self.text@,
                matched <= i,
                last <= text.len(),
                ({
                    let rest = replace_from(text, ms, i as int, limit as nat, rep@, last as int, matched as nat);
                    total == (new@ + rest.0, rest.1, rest.2)
                }),
            ensures
                total == (new@, last as int, matched as nat),
            decreases ms.len() - i,
        {
            let m = self.found[i];
            assert(ms[i as int] == m.span());
            let start = m.start();
            let end = m.end();
            if start > last {
                if limit > 0 && matched >= limit {
                    assert(new@ + seq![] =~= new@);
                    break;
                }
                matched = matched + 1;
                let ghost before = new@;
                append(&mut new, slice_subrange(self.text, last, start));
                append(&mut new, rep);
                proof {
                    let rest = replace_from(text, ms, i + 1, limit as nat, rep@, end as int, matched as nat);
                    assert(before + (text.subrange(last as int, start as int) + rep@ + rest.0) =~= new@ + rest.0);
                }
            }
            last = end;
            i = i + 1;
        }
        if matched == 0 {
            return Replaced::Borrowed(self.text);
        }
        append(&mut new, slice_subrange(self.text, last, self.text.len()));
        Replaced::Owned(new)
    }

    /// Makes at most one substitution of a match found with `rep`; the same as
    /// `replacen` with `limit == 1`.
    pub fn replace(&self, rep: &[u8]) -> (r: Replaced<'t>)
        requires
            self.wf(),
        ensures
            r.bytes() == replaced_text(self.haystack(), self.spans(), 1, rep@),
            r is Borrowed <==> replace_count(self.haystack(), self.spans(), 1, rep@) == 0,
    {
        self.replacen(1, rep)
    }

    /// Replaces every match found with `rep`; the same as `replacen` with
    /// `limit == 0`.
    pub fn replace_all(&self, rep: &[u8]) -> (r: Replaced<'t>)
        requires
            self.wf(),
        ensures
            r.bytes() == replaced_all_text(self.haystack(), self.spans(), rep@),
            r is Borrowed <==> replace_count(self.haystack(), self.spans(), 0, rep@) == 0,
    {
        self.replacen(0, rep)
    }
}

} // verus!
