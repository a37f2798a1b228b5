use vstd::prelude::*;

verus! {

/// The byte that ends a line.
pub const NEWLINE: u8 = 10;

/// A carriage return before the newline belongs to the terminator.
pub const CARRIAGE_RETURN: u8 = 13;

/// Which of the worker's streams a drain reads.
#[derive(Debug, Clone, Copy, PartialEq, Eq)]
pub enum Origin {
    Stdout,
    Stderr,
}

impl Origin {
    pub open spec fn tag_spec(self) -> Seq<char> {
        match self {
            Origin::Stdout => "out"@,
            Origin::Stderr => "err"@,
        }
    }

    /// The tag that a sink receives with each line of this stream.
    pub fn tag(&self) -> (r: &'static str)
        ensures
            r@ == self.tag_spec(),
    {
        match self {
            Origin::Stdout => "out",
            Origin::Stderr => "err",
        }
    }
}

/// A completed line without its terminator: the newline is already gone,
/// and a carriage return just before it goes too.
pub open spec fn strip_cr(line: Seq<u8>) -> Seq<u8> {
    if line.len() > 0 && line.last() == CARRIAGE_RETURN {
        line.drop_last()
    } else {
        line
    }
}

/// Reading the bytes `s` in order: the lines completed so far, and the
/// bytes of the line that is not complete yet.
pub open spec fn scan(s: Seq<u8>) -> (Seq<Seq<u8>>, Seq<u8>)
    decreases s.len(),
{
    if s.len() == 0 {
        (seq![], seq![])
    } else {
        let (done, partial) = scan(s.drop_last());
        if s.last() == NEWLINE {
            (done.push(strip_cr(partial)), seq![])
        } else {
            (done, partial.push(s.last()))
        }
    }
}

/// The lines that the bytes `s` complete, in order, without terminators.
pub open spec fn complete_lines(s: Seq<u8>) -> Seq<Seq<u8>> {
    scan(s).0
}

/// The bytes after the last newline of `s`.
pub open spec fn partial_line(s: Seq<u8>) -> Seq<u8> {
    scan(s).1
}

/// The lines that `chunk` completes after `before` was read.
pub open spec fn delivered(before: Seq<u8>, chunk: Seq<u8>) -> Seq<Seq<u8>> {
    complete_lines(before + chunk).skip(complete_lines(before).len() as int)
}

/// Every line of the stream `s` once it has ended: the complete lines, then
/// the unterminated rest if there is one.
pub open spec fn all_lines(s: Seq<u8>) -> Seq<Seq<u8>> {
    if partial_line(s).len() == 0 {
        complete_lines(s)
    } else {
        complete_lines(s).push(partial_line(s))
    }
}

pub open spec fn lines_view(lines: Seq<Vec<u8>>) -> Seq<Seq<u8>> {
    lines.map_values(|l: Vec<u8>| l@)
}

/// Reading more bytes never takes back a line: the lines of `s` begin the
/// lines of `s + t`.
pub proof fn lemma_lines_extend(s: Seq<u8>, t: Seq<u8>)
    ensures
        complete_lines(s).len() <= complete_lines(s + t).len(),
        complete_lines(s + t).take(complete_lines(s).len() as int) == complete_lines(s),
    decreases t.len(),
{
    if t.len() == 0 {
        assert(s + t =~= s);
    } else {
        let u = t.drop_last();
        lemma_lines_extend(s, u);
        assert((s + t).drop_last() =~= s + u);
        let n = complete_lines(s).len() as int;
        let prev = complete_lines(s + u);
        if (s + t).last() == NEWLINE {
            assert(complete_lines(s + t) == prev.push(strip_cr(partial_line(s + u))));
            assert(complete_lines(s + t).take(n) =~= prev.take(n));
        } else {
            assert(complete_lines(s + t) == prev);
        }
    }
}

/// How a stream is cut into chunks does not matter: the lines that two
/// chunks deliver one after the other are the lines that their
/// concatenation delivers at once.
pub proof fn lemma_delivered_split(before: Seq<u8>, a: Seq<u8>, b: Seq<u8>)
    ensures
        delivered(before, a) + delivered(before + a, b) == delivered(before, a + b),
{
    lemma_lines_extend(before, a);
    lemma_lines_extend(before + a, b);
    lemma_lines_extend(before, a + b);
    assert(before + a + b =~= before + (a + b));
    let la = complete_lines(before).len() as int;
    let lab = complete_lines(before + a).len() as int;
    let whole = complete_lines(before + (a + b));
    assert(complete_lines(before + a) =~= whole.take(lab)) by {
        assert(whole.take(lab) == complete_lines(before + a));
    }
    assert(delivered(before, a) + delivered(before + a, b) =~= delivered(before, a + b));
}

/// The lines delivered by feeding `chunks` one after the other, starting
/// after `before`.
pub open spec fn delivered_all(before: Seq<u8>, chunks: Seq<Seq<u8>>) -> Seq<Seq<u8>>
    decreases chunks.len(),
{
    if chunks.len() == 0 {
        seq![]
    } else {
        delivered(before, chunks[0]) + delivered_all(before + chunks[0], chunks.drop_first())
    }
}

/// Whatever the chunks a stream arrives in, feeding them one after the other
/// delivers each line of the stream exactly once and in order: the lines of
/// the chunks' concatenation.
pub proof fn lemma_chunking_irrelevant(chunks: Seq<Seq<u8>>)
    ensures
        delivered_all(seq![], chunks) == complete_lines(chunks.flatten()),
{
    lemma_delivered_all_from(seq![], chunks);
    assert(Seq::<u8>::empty() + chunks.flatten() =~= chunks.flatten());
    assert(complete_lines(Seq::<u8>::empty()) =~= Seq::<Seq<u8>>::empty());
}

proof fn lemma_delivered_all_from(before: Seq<u8>, chunks: Seq<Seq<u8>>)
    ensures
        delivered_all(before, chunks) == delivered(before, chunks.flatten()),
    decreases chunks.len(),
{
    if chunks.len() == 0 {
        assert(before + chunks.flatten() =~= before);
        assert(delivered(before, chunks.flatten()) =~= Seq::<Seq<u8>>::empty());
    } else {
        let rest = chunks.drop_first();
        lemma_delivered_all_from(before + chunks[0], rest);
        assert(chunks.flatten() =~= chunks[0] + rest.flatten());
        lemma_delivered_split(before, chunks[0], rest.flatten());
    }
}

/// Turns one of the worker's output streams into lines, fed with the bytes
/// as they arrive. It holds back at most the one line that is not complete.
pub struct LineDrain {
    origin: Origin,
    partial: Vec<u8>,
    fed: Ghost<Seq<u8>>,
}

impl LineDrain {
    /// All the bytes fed so far.
    pub closed spec fn fed(&self) -> Seq<u8> {
        self.fed@
    }

    pub closed spec fn origin_spec(&self) -> Origin {
        self.origin
    }

    pub closed spec fn wf(&self) -> bool {
        self.partial@ == partial_line(self.fed@)
    }

    /// A drain of the stream `origin` that has read nothing yet.
    pub fn new(origin: Origin) -> (r: Self)
        ensures
            r.wf(),
            r.fed() == Seq::<u8>::empty(),
            r.origin_spec() == origin,
    {
        LineDrain { origin, partial: Vec::new(), fed: Ghost(Seq::empty()) }
    }

    /// The stream this drain reads.
    pub fn origin(&self) -> (r: Origin)
        ensures
            r == self.origin_spec(),
    {
        self.origin
    }

    /// Reads `chunk` and returns, in order, the lines it completes, each
    /// without its terminator.
    pub fn feed(&mut self, chunk: &[u8]) -> (r: Vec<Vec<u8>>)
        requires
            old(self).wf(),
        ensures
            final(self).wf(),
            final(self).fed() == old(self).fed() + chunk@,
            final(self).origin_spec() == old(self).origin_spec(),
            lines_view(r@) == delivered(old(self).fed(), chunk@),
            complete_lines(old(self).fed()) + lines_view(r@) == complete_lines(final(self).fed()),
    {
        let ghost before = self.fed@;
        let mut out: Vec<Vec<u8>> = Vec::new();
        let mut i: usize = 0;
        proof {
            assert(before + chunk@.take(0) =~= before);
            assert(complete_lines(before) + lines_view(out@) =~= complete_lines(before));
        }
        while i < chunk.len()
            invariant
                0 <= i <= chunk@.len(),
                self.fed@ == before,
                self.origin == old(self).origin,
                self.partial@ == partial_line(before + chunk@.take(i as int)),
                complete_lines(before) + lines_view(out@) == complete_lines(
                    before + chunk@.take(i as int),
                ),
            decreases chunk.len() - i,
        {
            let b = chunk[i];
            let ghost seen = before + chunk@.take(i as int);
            let ghost next = before + chunk@.take(i + 1);
            proof {
                assert(next.drop_last() =~= seen);
                assert(next.last() == b);
            }
            if b == NEWLINE {
                let mut line: Vec<u8> = Vec::new();
                core::mem::swap(&mut line, &mut self.partial);
                let n = line.len();
                if n > 0 && line[n - 1] == CARRIAGE_RETURN {
                    line.pop();
                }
                proof {
                    assert(line@ =~= strip_cr(partial_line(seen)));
                    assert(lines_view(out@.push(line)) =~= lines_view(out@).push(line@));
                    assert(self.partial@ =~= partial_line(next));
                }
                out.push(line);
                proof {
                    assert(complete_lines(before) + lines_view(out@) =~= complete_lines(next));
                }
            } else {
                self.partial.push(b);
            }
            i += 1;
        }
        proof {
            assert(chunk@.take(chunk@.len() as int) =~= chunk@);
            let whole = before + chunk@;
            assert(lines_view(out@) =~= complete_lines(whole).skip(
                complete_lines(before).len() as int,
            ));
        }
        self.fed = Ghost(before + chunk@);
        out
    }

    /// Ends the stream: the unterminated rest, if any bytes follow the last
    /// newline.
    pub fn finish(self) -> (r: Option<Vec<u8>>)
        requires
            self.wf(),
        ensures
            r is None <==> partial_line(self.fed()).len() == 0,
            r matches Some(l) ==> l@ == partial_line(self.fed()),
            complete_lines(self.fed()) + (match r {
                Some(l) => seq![l@],
                None => seq![],
            }) == all_lines(self.fed()),
    {
        proof {
            if self.partial@.len() == 0 {
                assert(complete_lines(self.fed@) + Seq::<Seq<u8>>::empty() =~= all_lines(self.fed@));
            } else {
                assert(complete_lines(self.fed@) + seq![self.partial@] =~= all_lines(self.fed@));
            }
        }
        if self.partial.len() == 0 {
            None
        } else {
            Some(self.partial)
        }
    }
}

}
