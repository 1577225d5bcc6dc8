//! Line forwarding for one child output stream.
//!
//! Each of the child's two streams is read as a sequence of decode
//! attempts: a successfully decoded line, or a read that failed to
//! decode.  The relay forwards every decoded line, in stream order, and
//! silently drops the failures.  `forwarded` is the specification of
//! that filter; the relay threads of the supervising binary forward a
//! line exactly when a `Some` arrives, which is `forwarded` applied one
//! read at a time.

use vstd::prelude::*;

verus! {

/// The lines a relay emits for a stream whose reads decoded as
/// `reads`: every decoded line in its original order, failures dropped.
pub open spec fn forwarded(reads: Seq<Option<Seq<char>>>) -> Seq<Seq<char>>
    decreases reads.len(),
{
    if reads.len() == 0 {
        Seq::empty()
    } else {
        let front = forwarded(reads.drop_last());
        match reads.last() {
            Some(line) => front.push(line),
            None => front,
        }
    }
}

/// Forwards a whole stream of decode attempts at once: the result is
/// exactly `forwarded` of the reads.
pub fn forward_lines(reads: &Vec<Option<String>>) -> (out: Vec<String>)
    ensures
        out.deep_view() == forwarded(reads.deep_view()),
{
    let mut out: Vec<String> = Vec::new();
    let mut i: usize = 0;
    while i < reads.len()
        invariant
            i <= reads.len(),
            out.deep_view() =~= forwarded(reads.deep_view().take(i as int)),
        decreases reads.len() - i,
    {
        match &reads[i] {
            Some(line) => {
                out.push(line.clone());
            },
            None => {},
        }
        proof {
            let all = reads.deep_view();
            assert(all.take(i + 1).drop_last() =~= all.take(i as int));
            assert(all.take(i + 1).last() == all[i as int]);
            assert(out.deep_view() =~= forwarded(all.take(i + 1)));
        }
        i = i + 1;
    }
    proof {
        assert(reads.deep_view().take(reads.len() as int) =~= reads.deep_view());
    }
    out
}

/// Law: forwarding is compositional, so it keeps per-stream order.  The
/// lines forwarded for a stream read in two pieces are the lines of the
/// first piece followed by the lines of the second — a line read
/// earlier is never emitted after one read later.
pub proof fn lemma_forwarded_append(a: Seq<Option<Seq<char>>>, b: Seq<Option<Seq<char>>>)
    ensures
        forwarded(a + b) == forwarded(a) + forwarded(b),
    decreases b.len(),
{
    if b.len() == 0 {
        assert(a + b =~= a);
        assert(forwarded(a) + forwarded(b) =~= forwarded(a));
    } else {
        lemma_forwarded_append(a, b.drop_last());
        assert((a + b).drop_last() =~= a + b.drop_last());
        assert((a + b).last() == b.last());
        match b.last() {
            Some(line) => {
                assert(forwarded(a) + forwarded(b) =~= (forwarded(a) + forwarded(
                    b.drop_last(),
                )).push(line));
            },
            None => {
                assert(forwarded(a) + forwarded(b) =~= forwarded(a) + forwarded(b.drop_last()));
            },
        }
    }
}

} // verus!
