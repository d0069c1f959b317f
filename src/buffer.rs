//! A FIFO queue of bytes waiting to be written to one endpoint.
use vstd::prelude::*;
use crate::translate::{do_translate, translated, LineEndingTranslation};

verus! {

/// Pending bytes for one direction of the relay, oldest first.
///
/// Bytes enter at the back and leave from the front, and only after a write
/// has accepted them.
pub struct WriterBuffer {
    buf: Vec<u8>,
}

impl View for WriterBuffer {
    type V = Seq<u8>;

    closed spec fn view(&self) -> Seq<u8> {
        self.buf@
    }
}

impl WriterBuffer {
    /// An empty buffer.
    pub fn new() -> (r: WriterBuffer)
        ensures
            r@ == Seq::<u8>::empty(),
    {
        WriterBuffer { buf: Vec::with_capacity(65536) }
    }

    /// Appends bytes, as they are, at the back.
    pub fn push_into(&mut self, buf: Vec<u8>)
        ensures
            final(self)@ == old(self)@ + buf@,
    {
        let mut buf = buf;
        self.buf.append(&mut buf);
    }

    /// Translates bytes under a line-ending policy and appends the result at the back.
    pub fn push(&mut self, bytes: Vec<u8>, trans: LineEndingTranslation)
        ensures
            final(self)@ == old(self)@ + translated(bytes@, trans),
    {
        self.push_into(do_translate(bytes, trans));
    }

    /// The byte at the front, if any.
    pub fn get_next(&self) -> (r: Option<u8>)
        ensures
            r == (if self@.len() == 0 { None } else { Some(self@[0]) }),
    {
        if self.buf.is_empty() {
            None
        } else {
            Some(self.buf[0])
        }
    }

    /// All pending bytes, front first.
    pub fn get_some(&self) -> (r: &[u8])
        ensures
            r@ == self@,
    {
        self.buf.as_slice()
    }

    /// Removes the first `size` bytes.
    pub fn consume(&mut self, size: usize)
        requires
            size <= old(self)@.len(),
        ensures
            final(self)@ == old(self)@.subrange(size as int, old(self)@.len() as int),
    {
        if size == self.buf.len() {
            self.buf.clear();
            assert(self.buf@ =~= old(self)@.subrange(size as int, old(self)@.len() as int));
        } else {
            let extras = self.buf.split_off(size);
            self.buf = extras;
        }
    }

    /// Drops every pending byte.
    pub fn clear(&mut self)
        ensures
            final(self)@ == Seq::<u8>::empty(),
    {
        self.buf.clear();
    }

    /// Whether any byte is pending.
    pub fn has_content(&self) -> (r: bool)
        ensures
            r == (self@.len() > 0),
    {
        !self.buf.is_empty()
    }

    /// The number of pending bytes.
    pub fn len(&self) -> (r: usize)
        ensures
            r == self@.len(),
    {
        self.buf.len()
    }
}

/// One operation on a buffer: `push_into` of some bytes, or `consume` of a count.
pub enum BufferOp {
    Push(Seq<u8>),
    Consume(nat),
}

/// All bytes that the operations push, in order.
pub open spec fn pushed(ops: Seq<BufferOp>) -> Seq<u8>
    decreases ops.len(),
{
    if ops.len() == 0 {
        Seq::empty()
    } else {
        match ops.last() {
            BufferOp::Push(b) => pushed(ops.drop_last()) + b,
            BufferOp::Consume(_) => pushed(ops.drop_last()),
        }
    }
}

/// How many bytes the operations consume in all.
pub open spec fn consumed(ops: Seq<BufferOp>) -> nat
    decreases ops.len(),
{
    if ops.len() == 0 {
        0
    } else {
        match ops.last() {
            BufferOp::Push(_) => consumed(ops.drop_last()),
            BufferOp::Consume(n) => consumed(ops.drop_last()) + n,
        }
    }
}

/// What a buffer that starts empty holds after the operations, each acting as
/// `push_into` and `consume` do.
pub open spec fn contents_after(ops: Seq<BufferOp>) -> Seq<u8>
    decreases ops.len(),
{
    if ops.len() == 0 {
        Seq::empty()
    } else {
        let s = contents_after(ops.drop_last());
        match ops.last() {
            BufferOp::Push(b) => s + b,
            BufferOp::Consume(n) => s.subrange(n as int, s.len() as int),
        }
    }
}

/// The bytes handed out by the operations, in order: before each `consume(n)`, the
/// first `n` bytes of what `get_some` shows.
pub open spec fn handed_out(ops: Seq<BufferOp>) -> Seq<u8>
    decreases ops.len(),
{
    if ops.len() == 0 {
        Seq::empty()
    } else {
        let s = contents_after(ops.drop_last());
        match ops.last() {
            BufferOp::Push(_) => handed_out(ops.drop_last()),
            BufferOp::Consume(n) => handed_out(ops.drop_last()) + s.subrange(0, n as int),
        }
    }
}

/// Every `consume` in the operations asks for no more than the buffer then holds, as
/// `consume` requires.
pub open spec fn ops_valid(ops: Seq<BufferOp>) -> bool
    decreases ops.len(),
{
    if ops.len() == 0 {
        true
    } else {
        ops_valid(ops.drop_last()) && match ops.last() {
            BufferOp::Push(_) => true,
            BufferOp::Consume(n) => n <= contents_after(ops.drop_last()).len(),
        }
    }
}

/// After any valid run of operations, the buffer holds the pushed bytes that were not
/// consumed yet, and the bytes handed out are the consumed prefix of the pushed bytes.
pub proof fn lemma_buffer_fifo(ops: Seq<BufferOp>)
    requires
        ops_valid(ops),
    ensures
        consumed(ops) <= pushed(ops).len(),
        contents_after(ops) == pushed(ops).subrange(consumed(ops) as int, pushed(ops).len() as int),
        handed_out(ops) == pushed(ops).subrange(0, consumed(ops) as int),
    decreases ops.len(),
{
    if ops.len() == 0 {
        assert(pushed(ops).subrange(0, 0) =~= Seq::<u8>::empty());
    } else {
        let prev = ops.drop_last();
        lemma_buffer_fifo(prev);
        let p = pushed(prev);
        let c = consumed(prev) as int;
        match ops.last() {
            BufferOp::Push(b) => {
                assert(p.subrange(c, p.len() as int) + b =~= (p + b).subrange(c, (p + b).len() as int));
                assert(p.subrange(0, c) =~= (p + b).subrange(0, c));
            },
            BufferOp::Consume(n) => {
                let rest = p.subrange(c, p.len() as int);
                assert(rest.subrange(n as int, rest.len() as int) =~= p.subrange(
                    c + n,
                    p.len() as int,
                ));
                assert(p.subrange(0, c) + rest.subrange(0, n as int) =~= p.subrange(0, c + n));
            },
        }
    }
}

/// A buffer that receives pushes and is consumed, in any interleaving, in chunks that
/// add up to everything pushed, ends empty, and the chunks it handed out are the
/// pushed bytes in their original order.
pub proof fn lemma_fifo_delivery(ops: Seq<BufferOp>)
    requires
        ops_valid(ops),
        consumed(ops) == pushed(ops).len(),
    ensures
        contents_after(ops) == Seq::<u8>::empty(),
        handed_out(ops) == pushed(ops),
{
    lemma_buffer_fifo(ops);
    let p = pushed(ops);
    assert(p.subrange(0, p.len() as int) =~= p);
    assert(p.subrange(p.len() as int, p.len() as int) =~= Seq::<u8>::empty());
}

} // verus!
