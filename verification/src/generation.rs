//! The output of a model as it streams in: bytes are cut into lines, and what the lines say is
//! gathered into one text.
use vstd::prelude::*;
use vstd::string::*;

verus! {

/// The byte that ends a line.
pub const NEWLINE: u8 = 10;

/// The lines of a run of bytes that are complete, in order and without their newlines.
pub open spec fn lines(b: Seq<u8>) -> Seq<Seq<u8>>
    decreases b.len(),
{
    if b.len() == 0 {
        Seq::empty()
    } else if b.last() == NEWLINE {
        lines(b.drop_last()).push(tail(b.drop_last()))
    } else {
        lines(b.drop_last())
    }
}

/// What follows the last newline of a run of bytes.
pub open spec fn tail(b: Seq<u8>) -> Seq<u8>
    decreases b.len(),
{
    if b.len() == 0 || b.last() == NEWLINE {
        Seq::empty()
    } else {
        tail(b.drop_last()).push(b.last())
    }
}

/// The lines that are not empty.
pub open spec fn filled(l: Seq<Seq<u8>>) -> Seq<Seq<u8>> {
    l.filter(|s: Seq<u8>| s.len() > 0)
}

/// However a stream is cut in two, the lines are the same: those of the first part, then those of the
/// second with what the first left over in front of it.
pub proof fn law_lines_of_parts(a: Seq<u8>, b: Seq<u8>)
    ensures
        lines(a + b) == lines(a) + lines(tail(a) + b),
        tail(a + b) == tail(tail(a) + b),
    decreases b.len(),
{
    if b.len() == 0 {
        assert(a + b =~= a);
        assert(tail(a) + b =~= tail(a));
        lemma_tail_has_no_lines(a);
        assert(lines(a) + Seq::empty() =~= lines(a));
    } else {
        let c = b.drop_last();
        law_lines_of_parts(a, c);
        assert((a + b).drop_last() =~= a + c);
        assert((tail(a) + b).drop_last() =~= tail(a) + c);
        assert((a + b).last() == b.last());
        assert((tail(a) + b).last() == b.last());
        if b.last() == NEWLINE {
            assert((lines(a) + lines(tail(a) + c)).push(tail(a + c)) =~= lines(a) + lines(
                tail(a) + c,
            ).push(tail(tail(a) + c)));
        }
    }
}

/// What follows the last newline holds no line itself.
pub proof fn lemma_tail_has_no_lines(a: Seq<u8>)
    ensures
        lines(tail(a)) == Seq::<Seq<u8>>::empty(),
        tail(tail(a)) == tail(a),
    decreases a.len(),
{
    if a.len() > 0 && a.last() != NEWLINE {
        lemma_tail_has_no_lines(a.drop_last());
        let t = tail(a.drop_last());
        assert(t.push(a.last()).drop_last() =~= t);
    }
}

proof fn lemma_no_newline(a: Seq<u8>)
    requires
        forall|i: int| 0 <= i < a.len() ==> a[i] != NEWLINE,
    ensures
        lines(a) == Seq::<Seq<u8>>::empty(),
        tail(a) == a,
    decreases a.len(),
{
    if a.len() > 0 {
        lemma_no_newline(a.drop_last());
        assert(a.drop_last().push(a.last()) =~= a);
    }
}

/// The first newline splits off the first line.
proof fn lemma_first_line(b: Seq<u8>, pos: int)
    requires
        0 <= pos < b.len(),
        b[pos] == NEWLINE,
        forall|i: int| 0 <= i < pos ==> b[i] != NEWLINE,
    ensures
        lines(b) == seq![b.take(pos)] + lines(b.skip(pos + 1)),
        tail(b) == tail(b.skip(pos + 1)),
{
    let head = b.take(pos + 1);
    let rest = b.skip(pos + 1);
    assert(b =~= head + rest);
    law_lines_of_parts(head, rest);
    assert(head.drop_last() =~= b.take(pos));
    lemma_no_newline(b.take(pos));
    assert(lines(head) =~= seq![b.take(pos)]);
    assert(tail(head) + rest =~= rest);
}

/// Lines of two parts that are not empty are those of the one, then those of the other.
pub proof fn lemma_filled_parts(a: Seq<Seq<u8>>, b: Seq<Seq<u8>>)
    ensures
        filled(a + b) == filled(a) + filled(b),
{
    Seq::filter_distributes_over_add(a, b, |s: Seq<u8>| s.len() > 0);
}

proof fn lemma_filled_one(l: Seq<u8>)
    ensures
        filled(seq![l]) == if l.len() > 0 {
            seq![l]
        } else {
            Seq::empty()
        },
{
    reveal(Seq::filter);
    let one = seq![l];
    assert(one.drop_last() =~= Seq::empty());
    assert(filled(one.drop_last()) =~= Seq::empty());
    assert(filled(one) =~= if l.len() > 0 {
        seq![l]
    } else {
        Seq::empty()
    });
}

/// One line of a model's output.
#[derive(Debug)]
pub struct OllamaChunk {
    pub response: String,
    pub done: bool,
}

/// One line of a model's output over mathematical values.
pub struct ChunkView {
    pub response: Seq<char>,
    pub done: bool,
}

impl View for OllamaChunk {
    type V = ChunkView;

    open spec fn view(&self) -> ChunkView {
        ChunkView { response: self.response@, done: self.done }
    }
}

/// A model's output so far.
#[derive(Debug)]
pub struct Generation {
    /// The bytes that have come in and have not been taken as lines.
    pub buf: Vec<u8>,
    /// The text of all tokens.
    pub text: String,
    /// How many tokens there were.
    pub tokens: u32,
    /// Whether the model said that it was done.
    pub done: bool,
}

/// A model's output over mathematical values: the lines that wait to be taken, the beginning of the
/// line after them, and what has been gathered from the lines that were taken.
#[verifier::ext_equal]
pub struct GenerationView {
    pub pending: Seq<Seq<u8>>,
    pub tail: Seq<u8>,
    pub text: Seq<char>,
    pub tokens: u32,
    pub done: bool,
}

impl View for Generation {
    type V = GenerationView;

    open spec fn view(&self) -> GenerationView {
        GenerationView {
            pending: filled(lines(self.buf@)),
            tail: tail(self.buf@),
            text: self.text@,
            tokens: self.tokens,
            done: self.done,
        }
    }
}

impl GenerationView {
    /// Nothing has come in.
    pub open spec fn empty() -> GenerationView {
        GenerationView {
            pending: Seq::empty(),
            tail: Seq::empty(),
            text: Seq::empty(),
            tokens: 0,
            done: false,
        }
    }

    /// More bytes have come in.
    pub open spec fn fed(self, chunk: Seq<u8>) -> GenerationView {
        GenerationView {
            pending: self.pending + filled(lines(self.tail + chunk)),
            tail: tail(self.tail + chunk),
            ..self
        }
    }

    /// The first of the waiting lines has been taken.
    pub open spec fn taken(self) -> GenerationView {
        GenerationView { pending: self.pending.skip(1), ..self }
    }

    /// What a line says has been gathered.
    pub open spec fn absorbed(self, chunk: ChunkView) -> GenerationView {
        if chunk.response.len() > 0 {
            GenerationView {
                text: self.text + chunk.response,
                tokens: (self.tokens + 1) as u32,
                done: self.done || chunk.done,
                ..self
            }
        } else {
            GenerationView { done: self.done || chunk.done, ..self }
        }
    }
}

impl Generation {
    /// Nothing has come in.
    pub fn new() -> (r: Generation)
        ensures
            r@ == GenerationView::empty(),
    {
        let r = Generation { buf: Vec::new(), text: String::new(), tokens: 0, done: false };
        assert(filled(lines(r.buf@)) =~= Seq::empty()) by {
            reveal(Seq::filter);
        }
        r
    }

    /// Takes in more bytes.
    pub fn feed(&mut self, chunk: &[u8])
        ensures
            final(self)@ == old(self)@.fed(chunk@),
    {
        let ghost before = self.buf@;
        self.buf.extend_from_slice(chunk);
        proof {
            assert(self.buf@ =~= before + chunk@);
            law_lines_of_parts(before, chunk@);
            lemma_filled_parts(lines(before), lines(tail(before) + chunk@));
        }
    }

    /// Takes the first waiting line that is not empty; none where no such line is complete.
    pub fn next_line(&mut self) -> (r: Option<Vec<u8>>)
        ensures
            match r {
                Some(line) => {
                    &&& old(self)@.pending.len() > 0
                    &&& line@ == old(self)@.pending[0]
                    &&& final(self)@ == old(self)@.taken()
                },
                None => {
                    &&& old(self)@.pending.len() == 0
                    &&& final(self)@ == old(self)@
                },
            },
    {
        loop
            invariant
                self@ == old(self)@,
            decreases self.buf@.len(),
        {
            let mut pos: usize = 0;
            while pos < self.buf.len() && self.buf[pos] != NEWLINE
                invariant
                    pos <= self.buf@.len(),
                    forall|i: int| 0 <= i < pos ==> self.buf@[i] != NEWLINE,
                decreases self.buf@.len() - pos,
            {
                pos += 1;
            }
            let ghost before = self.buf@;
            if pos == self.buf.len() {
                proof {
                    lemma_no_newline(before);
                    reveal(Seq::filter);
                    assert(filled(lines(before)) =~= Seq::empty());
                }
                return None;
            }
            let rest = self.buf.split_off(pos + 1);
            let mut line: Vec<u8> = Vec::new();
            std::mem::swap(&mut line, &mut self.buf);
            self.buf = rest;
            line.truncate(pos);
            proof {
                lemma_first_line(before, pos as int);
                assert(line@ =~= before.take(pos as int));
                assert(self.buf@ =~= before.skip(pos + 1));
                lemma_filled_parts(seq![line@], lines(self.buf@));
                lemma_filled_one(line@);
            }
            if line.len() > 0 {
                assert(filled(lines(self.buf@)) =~= filled(lines(before)).skip(1));
                return Some(line);
            }
            assert(filled(lines(self.buf@)) =~= filled(lines(before)));
        }
    }

    /// Gathers what a line says. The token that it holds is handed out, if it holds one.
    pub fn absorb(&mut self, chunk: OllamaChunk) -> (r: Option<String>)
        requires
            chunk@.response.len() > 0 ==> old(self)@.tokens < u32::MAX,
        ensures
            final(self)@ == old(self)@.absorbed(chunk@),
            crate::web::opt_text(r) == if chunk@.response.len() > 0 {
                Some(chunk@.response)
            } else {
                None
            },
    {
        let OllamaChunk { response, done } = chunk;
        if done {
            self.done = true;
        }
        if response.as_str().is_empty() {
            None
        } else {
            self.tokens = self.tokens + 1;
            self.text.append(response.as_str());
            Some(response)
        }
    }
}

} // verus!
