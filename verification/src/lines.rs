//! Per-connection line buffering.
//!
//! Reads may split a command's bytes arbitrarily, so incoming bytes are
//! accumulated until a full newline-terminated line is available; only
//! complete lines are ever handed on for decoding.
use vstd::prelude::*;

verus! {

/// One step of the splitter: a newline completes the pending line, any other
/// byte extends it.
pub open spec fn feed_one(lines: Seq<Seq<u8>>, pending: Seq<u8>, b: u8) -> (Seq<Seq<u8>>, Seq<u8>) {
    if b == 10 {
        (lines.push(pending), Seq::empty())
    } else {
        (lines, pending.push(b))
    }
}

/// Folds a chunk of bytes into the splitter state: the complete lines seen so
/// far (without their newline) and the trailing partial line.
pub open spec fn spec_feed(lines: Seq<Seq<u8>>, pending: Seq<u8>, data: Seq<u8>) -> (
    Seq<Seq<u8>>,
    Seq<u8>,
)
    decreases data.len(),
{
    if data.len() == 0 {
        (lines, pending)
    } else {
        let st = feed_one(lines, pending, data[0]);
        spec_feed(st.0, st.1, data.skip(1))
    }
}

/// A line free of the delimiter.
pub open spec fn line_clean(l: Seq<u8>) -> bool {
    forall|k: int| 0 <= k < l.len() ==> l[k] != 10
}

/// Every yielded line free of the delimiter.
pub open spec fn all_clean(ls: Seq<Seq<u8>>) -> bool {
    forall|j: int| 0 <= j < ls.len() ==> line_clean(#[trigger] ls[j])
}

/// The byte stream a splitter state stands for: each complete line followed
/// by its newline, then the pending remainder.
pub open spec fn joined(lines: Seq<Seq<u8>>, pending: Seq<u8>) -> Seq<u8>
    decreases lines.len(),
{
    if lines.len() == 0 {
        pending
    } else {
        lines[0] + seq![10u8] + joined(lines.skip(1), pending)
    }
}

proof fn lemma_joined_append(lines: Seq<Seq<u8>>, pending: Seq<u8>, tail: Seq<u8>)
    ensures
        joined(lines, pending + tail) == joined(lines, pending) + tail,
    decreases lines.len(),
{
    if lines.len() == 0 {
    } else {
        lemma_joined_append(lines.skip(1), pending, tail);
        assert(joined(lines, pending + tail) =~= joined(lines, pending) + tail);
    }
}

proof fn lemma_joined_push(lines: Seq<Seq<u8>>, x: Seq<u8>, pending: Seq<u8>)
    ensures
        joined(lines.push(x), pending) == joined(lines, x + seq![10u8] + pending),
    decreases lines.len(),
{
    if lines.len() == 0 {
        assert(lines.push(x).skip(1) =~~= lines);
        assert(lines.push(x)[0] == x);
        assert(joined(lines, pending) == pending);
        assert(joined(lines.push(x), pending) == x + seq![10u8] + pending);
        assert(joined(lines, x + seq![10u8] + pending) == x + seq![10u8] + pending);
    } else {
        assert(lines.push(x).skip(1) =~~= lines.skip(1).push(x));
        assert(lines.push(x)[0] == lines[0]);
        lemma_joined_push(lines.skip(1), x, pending);
        assert(joined(lines.push(x), pending) == lines[0] + seq![10u8] + joined(
            lines.skip(1),
            x + seq![10u8] + pending,
        ));
    }
}

/// The splitter loses, reorders and invents nothing: after absorbing `data`,
/// the completed lines — each with its newline restored — followed by the
/// remainder spell exactly the former state followed by `data`; and neither
/// any yielded line nor the remainder contains a newline.
pub proof fn lemma_feed_conserves_bytes(lines: Seq<Seq<u8>>, pending: Seq<u8>, data: Seq<u8>)
    requires
        all_clean(lines),
        line_clean(pending),
    ensures
        ({
            let t = spec_feed(lines, pending, data);
            &&& joined(t.0, t.1) == joined(lines, pending) + data
            &&& all_clean(t.0)
            &&& line_clean(t.1)
        }),
    decreases data.len(),
{
    if data.len() == 0 {
        assert(joined(lines, pending) + data =~= joined(lines, pending));
    } else {
        let b = data[0];
        let st = feed_one(lines, pending, b);
        if b == 10 {
            assert(all_clean(lines.push(pending)));
            lemma_feed_conserves_bytes(st.0, st.1, data.skip(1));
            lemma_joined_push(lines, pending, Seq::empty());
            assert(pending + seq![10u8] + Seq::<u8>::empty() =~= pending + seq![10u8]);
            lemma_joined_append(lines, pending, seq![10u8]);
            assert(joined(lines, pending) + seq![10u8] + data.skip(1) =~= joined(lines, pending)
                + data);
        } else {
            assert(line_clean(pending.push(b)));
            lemma_feed_conserves_bytes(st.0, st.1, data.skip(1));
            assert(pending.push(b) =~= pending + seq![b]);
            lemma_joined_append(lines, pending, seq![b]);
            assert(joined(lines, pending) + seq![b] + data.skip(1) =~= joined(lines, pending)
                + data);
        }
    }
}

/// Accumulates bytes across reads and yields only complete lines.
pub struct LineBuffer {
    pending: Vec<u8>,
}

impl View for LineBuffer {
    type V = Seq<u8>;

    closed spec fn view(&self) -> Seq<u8> {
        self.pending@
    }
}

impl LineBuffer {
    /// An empty buffer.
    pub fn new() -> (b: Self)
        ensures
            b@ == Seq::<u8>::empty(),
    {
        LineBuffer { pending: Vec::new() }
    }

    /// Absorbs one read's bytes and returns every line completed by them, in
    /// order and without their newline; the trailing partial line is kept for
    /// the next read.
    pub fn feed(&mut self, data: &[u8]) -> (lines: Vec<Vec<u8>>)
        ensures
            ({
                let t = spec_feed(Seq::empty(), old(self)@, data@);
                &&& lines@.map_values(|l: Vec<u8>| l@) == t.0
                &&& final(self)@ == t.1
            }),
    {
        let mut lines: Vec<Vec<u8>> = Vec::new();
        let mut i: usize = 0;
        assert(lines@.map_values(|l: Vec<u8>| l@) =~= Seq::<Seq<u8>>::empty());
        assert(data@.skip(0) =~= data@);
        while i < data.len()
            invariant
                i <= data.len(),
                spec_feed(Seq::empty(), old(self)@, data@) == spec_feed(
                    lines@.map_values(|l: Vec<u8>| l@),
                    self@,
                    data@.skip(i as int),
                ),
            decreases data.len() - i,
        {
            let ghost pre_lines = lines@.map_values(|l: Vec<u8>| l@);
            let ghost pre_pending = self@;
            let b = data[i];
            if b == 10 {
                let mut done: Vec<u8> = Vec::new();
                core::mem::swap(&mut self.pending, &mut done);
                lines.push(done);
                assert(lines@.map_values(|l: Vec<u8>| l@) =~= pre_lines.push(pre_pending));
            } else {
                self.pending.push(b);
            }
            proof {
                assert(data@.skip(i as int)[0] == data@[i as int]);
                assert(data@.skip(i as int).skip(1) =~= data@.skip(i + 1));
            }
            i = i + 1;
        }
        assert(data@.skip(data@.len() as int) =~= Seq::<u8>::empty());
        lines
    }
}

} // verus!
