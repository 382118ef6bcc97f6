//! The output of a task, cut into lines.
//!
//! A line ends at a carriage return, not at a line feed: a progress meter
//! that writes over itself again and again then gives one line for each of
//! its states, and not one line without end.

use vstd::prelude::*;
use vstd::utf8::decode_utf8;
use vstd::utf8::valid_utf8;

verus! {

/// The byte that ends a line.
pub const LINE_END: u8 = 13;

/// A stream of bytes cut at the line ends: the lines that are complete, and
/// what follows the last line end.
pub open spec fn cut(bytes: Seq<u8>) -> (Seq<Seq<u8>>, Seq<u8>)
    decreases bytes.len(),
{
    if bytes.len() == 0 {
        (Seq::empty(), Seq::empty())
    } else {
        let (lines, rest) = cut(bytes.drop_last());
        if bytes.last() == LINE_END {
            (lines.push(rest), Seq::empty())
        } else {
            (lines, rest.push(bytes.last()))
        }
    }
}

/// The views of the lines.
pub open spec fn line_views(lines: Seq<Vec<u8>>) -> Seq<Seq<u8>> {
    lines.map_values(|line: Vec<u8>| line@)
}

/// Cuts a stream of bytes into lines as the bytes come in.
#[derive(Debug)]
pub struct LineSplitter {
    /// The bytes since the last line end.
    pending: Vec<u8>,
}

impl LineSplitter {
    /// No line end is among the bytes that wait for one.
    #[verifier::type_invariant]
    spec fn no_line_end_waits(&self) -> bool {
        cut(self.pending@) == (Seq::<Seq<u8>>::empty(), self.pending@)
    }

    /// The bytes that were taken in since the last line end.
    pub closed spec fn waiting(&self) -> Seq<u8> {
        self.pending@
    }

    /// A splitter that has seen no bytes.
    pub fn new() -> (r: LineSplitter)
        ensures
            r.waiting().len() == 0,
    {
        LineSplitter { pending: Vec::new() }
    }

    /// Takes in the next bytes of the stream and gives the lines that they
    /// complete.
    pub fn feed(&mut self, chunk: &[u8]) -> (lines: Vec<Vec<u8>>)
        ensures
            (line_views(lines@), final(self).waiting()) == cut(old(self).waiting() + chunk@),
    {
        let mut lines: Vec<Vec<u8>> = Vec::new();
        let mut pending: Vec<u8> = self.pending.clone();
        let ghost start = self.pending@;
        let mut i: usize = 0;
        proof {
            use_type_invariant(&*self);
            assert(pending@ =~= start);
            assert(start + chunk@.take(0) =~= start);
            assert(line_views(lines@) =~= Seq::<Seq<u8>>::empty());
        }
        while i < chunk.len()
            invariant
                i <= chunk.len(),
                (line_views(lines@), pending@) == cut(start + chunk@.take(i as int)),
                cut(pending@) == (Seq::<Seq<u8>>::empty(), pending@),
            decreases chunk.len() - i,
        {
            let ghost seen = start + chunk@.take(i as int);
            let ghost before = lines@;
            let ghost waiting = pending@;
            proof {
                let next = start + chunk@.take(i + 1);
                assert(next.drop_last() =~= seen);
                assert(next.last() == chunk@[i as int]);
            }
            if chunk[i] == LINE_END {
                let mut line: Vec<u8> = Vec::new();
                core::mem::swap(&mut pending, &mut line);
                lines.push(line);
                proof {
                    assert(line_views(lines@) =~= line_views(before).push(waiting));
                }
            } else {
                pending.push(chunk[i]);
                proof {
                    assert(pending@.drop_last() =~= waiting);
                }
            }
            i += 1;
        }
        proof {
            assert(chunk@.take(chunk.len() as int) =~= chunk@);
        }
        *self = LineSplitter { pending };
        lines
    }

    /// Takes in the end of the stream and gives the line that was left
    /// without a line end, if there are bytes of one.
    pub fn finish(self) -> (last: Option<Vec<u8>>)
        ensures
            match last {
                Some(line) => line@ == self.waiting() && self.waiting().len() > 0,
                None => self.waiting().len() == 0,
            },
    {
        if self.pending.len() > 0 {
            Some(self.pending)
        } else {
            None
        }
    }
}

/// The text of a line, if the line is well-formed UTF-8.
pub fn decode_line(line: Vec<u8>) -> (text: Option<String>)
    ensures
        text is Some <==> valid_utf8(line@),
        text matches Some(s) ==> s@ == decode_utf8(line@),
{
    match String::from_utf8(line) {
        Ok(s) => Some(s),
        Err(_) => None,
    }
}

/// Cutting a stream in two pieces, one after the other, gives the lines of
/// the whole stream: it does not matter where the stream was torn.
pub proof fn lemma_cut_in_pieces(first: Seq<u8>, second: Seq<u8>)
    ensures
        cut(first + second).0 == cut(first).0 + cut(cut(first).1 + second).0,
        cut(first + second).1 == cut(cut(first).1 + second).1,
        cut(cut(first).1) == (Seq::<Seq<u8>>::empty(), cut(first).1),
    decreases second.len(), first.len(),
{
    if second.len() == 0 {
        assert(first + second =~= first);
        assert(cut(first).1 + second =~= cut(first).1);
        if first.len() > 0 {
            lemma_cut_in_pieces(first.drop_last(), Seq::empty());
            let (lines, rest) = cut(first.drop_last());
            if first.last() != LINE_END {
                assert(rest.push(first.last()).drop_last() =~= rest);
            }
        }
        assert(cut(first).0 + Seq::<Seq<u8>>::empty() =~= cut(first).0);
    } else {
        let init = second.drop_last();
        lemma_cut_in_pieces(first, init);
        assert((first + second).drop_last() =~= first + init);
        assert((cut(first).1 + second).drop_last() =~= cut(first).1 + init);
        let (lines, rest) = cut(cut(first).1 + init);
        if second.last() == LINE_END {
            assert(cut(first + second).0 =~= cut(first).0 + lines.push(rest));
        }
    }
}

} // verus!
