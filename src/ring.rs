use vstd::prelude::*;

verus! {

/// Number of bytes the receive ring buffer holds.
pub const UART_BUFF_SZ: usize = 1024;

/// Whether a buffer holding `contents` can take one more byte.
pub open spec fn has_room(contents: Seq<u8>) -> bool {
    contents.len() < UART_BUFF_SZ
}

/// What a buffer holding `contents` holds after the byte `b` arrives: the byte
/// goes to the back, or is dropped when the buffer is full.
pub open spec fn after_receive(contents: Seq<u8>, b: u8) -> Seq<u8> {
    if has_room(contents) {
        contents.push(b)
    } else {
        contents
    }
}

/// What a buffer holding `contents` holds after `bytes` arrive one by one,
/// with no read in between.
pub open spec fn after_receiving(contents: Seq<u8>, bytes: Seq<u8>) -> Seq<u8>
    decreases bytes.len(),
{
    if bytes.len() == 0 {
        contents
    } else {
        after_receive(after_receiving(contents, bytes.drop_last()), bytes.last())
    }
}

/// Bytes received into an empty buffer, as long as they fit, are all kept, in
/// the order they arrived.
pub proof fn lemma_receive_keeps_order(bytes: Seq<u8>)
    requires
        bytes.len() <= UART_BUFF_SZ,
    ensures
        after_receiving(Seq::empty(), bytes) == bytes,
    decreases bytes.len(),
{
    if bytes.len() > 0 {
        lemma_receive_keeps_order(bytes.drop_last());
        assert(bytes.drop_last().push(bytes.last()) =~= bytes);
    }
}

/// Once as many bytes as the capacity have been received into an empty
/// buffer, all of them wait to be read, and one more byte is refused and
/// changes nothing.
pub proof fn lemma_full_buffer_refuses(bytes: Seq<u8>, extra: u8)
    requires
        bytes.len() == UART_BUFF_SZ,
    ensures
        after_receiving(Seq::empty(), bytes).len() == UART_BUFF_SZ,
        !has_room(after_receiving(Seq::empty(), bytes)),
        after_receive(after_receiving(Seq::empty(), bytes), extra) == after_receiving(
            Seq::empty(),
            bytes,
        ),
{
    lemma_receive_keeps_order(bytes);
}

/// Fixed-capacity FIFO of received bytes.  `head` is the slot of the oldest
/// unread byte and `count` the number of unread bytes; the bytes occupy the
/// slots `head, head + 1, ...` taken modulo the capacity.
pub struct RingBuffer {
    buffer: Vec<u8>,
    head: usize,
    count: usize,
}

impl View for RingBuffer {
    type V = Seq<u8>;

    /// The unread bytes, oldest first.
    closed spec fn view(&self) -> Seq<u8> {
        Seq::new(self.count as nat, |i: int| self.buffer@[(self.head + i) % (UART_BUFF_SZ as int)])
    }
}

impl RingBuffer {
    pub closed spec fn wf(&self) -> bool {
        &&& self.buffer@.len() == UART_BUFF_SZ
        &&& self.head < UART_BUFF_SZ
        &&& self.count <= UART_BUFF_SZ
    }

    proof fn lemma_len(&self)
        ensures
            self@.len() == self.count,
    {
    }

    /// An empty buffer.
    pub fn new() -> (r: RingBuffer)
        ensures
            r.wf(),
            r@ == Seq::<u8>::empty(),
    {
        let r = RingBuffer { buffer: vec![0u8; UART_BUFF_SZ], head: 0, count: 0 };
        assert(r@ =~= Seq::<u8>::empty());
        r
    }

    /// Drops every unread byte.
    pub fn clear(&mut self)
        requires
            old(self).wf(),
        ensures
            final(self).wf(),
            final(self)@ == Seq::<u8>::empty(),
    {
        self.head = 0;
        self.count = 0;
        assert(self@ =~= Seq::<u8>::empty());
    }

    /// Number of unread bytes.
    pub fn available(&self) -> (n: usize)
        requires
            self.wf(),
        ensures
            n == self@.len(),
    {
        self.count
    }

    /// Stores `c` behind the unread bytes; a full buffer drops it and
    /// returns false.
    pub fn receive(&mut self, c: u8) -> (accepted: bool)
        requires
            old(self).wf(),
        ensures
            final(self).wf(),
            accepted == has_room(old(self)@),
            final(self)@ == after_receive(old(self)@, c),
    {
        if self.count == UART_BUFF_SZ {
            false
        } else {
            let slot: usize = (self.head + self.count) % UART_BUFF_SZ;
            self.buffer.set(slot, c);
            self.count = self.count + 1;
            assert(self@ =~= old(self)@.push(c));
            true
        }
    }

    /// Moves the oldest unread byte into `c` and returns 1, or returns 0 and
    /// leaves `c` alone when nothing is buffered.
    pub fn read(&mut self, c: &mut u8) -> (n: usize)
        requires
            old(self).wf(),
        ensures
            final(self).wf(),
            old(self)@.len() == 0 ==> n == 0 && *final(c) == *old(c) && final(self)@ == old(self)@,
            old(self)@.len() > 0 ==> n == 1 && *final(c) == old(self)@[0] && final(self)@
                == old(self)@.drop_first(),
    {
        if self.count == 0 {
            0
        } else {
            *c = self.buffer[self.head];
            self.head = (self.head + 1) % UART_BUFF_SZ;
            self.count = self.count - 1;
            assert(self@ =~= old(self)@.drop_first());
            1
        }
    }

    /// Moves unread bytes into `buf[0..]`, oldest first, until `length`
    /// bytes have been moved or none is left; returns how many were moved.
    pub fn read_into(&mut self, buf: &mut [u8], length: usize) -> (n: usize)
        requires
            old(self).wf(),
            length <= old(buf)@.len(),
        ensures
            final(self).wf(),
            n == if length < old(self)@.len() {
                length as int
            } else {
                old(self)@.len() as int
            },
            final(buf)@ == old(self)@.take(n as int) + old(buf)@.skip(n as int),
            final(self)@ == old(self)@.skip(n as int),
    {
        let mut i: usize = 0;
        while i < length && self.count > 0
            invariant
                self.wf(),
                i <= length,
                length <= buf@.len(),
                buf@.len() == old(buf)@.len(),
                i <= old(self)@.len(),
                self@ == old(self)@.skip(i as int),
                buf@ == old(self)@.take(i as int) + old(buf)@.skip(i as int),
            decreases length - i,
        {
            proof {
                self.lemma_len();
            }
            let mut c: u8 = 0;
            self.read(&mut c);
            buf[i] = c;
            i = i + 1;
            assert(self@ =~= old(self)@.skip(i as int));
            assert(buf@ =~= old(self)@.take(i as int) + old(buf)@.skip(i as int));
        }
        proof {
            self.lemma_len();
        }
        i
    }
}

} // verus!
