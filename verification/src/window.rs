//! The output window: bytes a codec engine has produced and the cursor that
//! separates what the caller already holds from what is still pending.

use vstd::prelude::*;

verus! {

/// Mathematical model of the internal output buffer and its consumed cursor.
pub struct Window {
    /// Every byte currently held, delivered or not.
    pub data: Seq<u8>,
    /// How many bytes at the front of `data` the caller already holds.
    pub consumed: nat,
}

impl Window {
    /// The cursor never passes the end, and a window whose bytes have all been
    /// delivered holds nothing at all.
    pub open spec fn wf(self) -> bool {
        self.consumed < self.data.len() || (self.consumed == 0 && self.data.len() == 0)
    }

    /// The bytes that have not been handed to the caller yet, in order.
    pub open spec fn pending(self) -> Seq<u8> {
        self.data.skip(self.consumed as int)
    }

    /// The window that holds nothing.
    pub open spec fn empty() -> Window {
        Window { data: Seq::empty(), consumed: 0 }
    }

    /// The window after the engine has produced `bytes`.
    pub open spec fn append(self, bytes: Seq<u8>) -> Window {
        Window { data: self.data + bytes, consumed: self.consumed }
    }

    /// How many bytes a request for `want` bytes is granted.
    pub open spec fn grant(self, want: nat) -> nat {
        if want <= self.pending().len() {
            want
        } else {
            self.pending().len()
        }
    }

    /// The bytes a request for `want` bytes hands over.
    pub open spec fn granted(self, want: nat) -> Seq<u8> {
        self.pending().take(self.grant(want) as int)
    }

    /// The window after `amount` pending bytes have been given up. Giving up
    /// the last pending byte empties the window and rewinds the cursor.
    pub open spec fn advance(self, amount: nat) -> Window {
        if self.consumed + amount >= self.data.len() {
            Window::empty()
        } else {
            Window { data: self.data, consumed: self.consumed + amount }
        }
    }
}

/// Appending keeps a window well formed and adds the bytes behind what was pending.
pub proof fn lemma_append(w: Window, bytes: Seq<u8>)
    requires
        w.wf(),
    ensures
        w.append(bytes).wf(),
        w.append(bytes).pending() == w.pending() + bytes,
{
    assert(w.append(bytes).pending() =~= w.pending() + bytes);
}

/// Advancing keeps a window well formed and drops exactly the bytes given up.
pub proof fn lemma_advance(w: Window, amount: nat)
    requires
        w.wf(),
    ensures
        w.advance(amount).wf(),
        w.advance(amount).pending() == w.pending().skip(w.grant(amount) as int),
        w.granted(amount) + w.advance(amount).pending() == w.pending(),
{
    let n = w.grant(amount) as int;
    assert(w.advance(amount).pending() =~= w.pending().skip(n));
    assert(w.pending().take(n) + w.pending().skip(n) =~= w.pending());
}

/// The internal output buffer with its consumed cursor.
pub struct OutputBuffer {
    buf: Vec<u8>,
    consumed: usize,
}

impl View for OutputBuffer {
    type V = Window;

    closed spec fn view(&self) -> Window {
        Window { data: self.buf@, consumed: self.consumed as nat }
    }
}

impl OutputBuffer {
    /// A buffer that holds nothing, with the cursor at zero.
    pub fn new() -> (out: Self)
        ensures
            out@ == Window::empty(),
    {
        OutputBuffer { buf: Vec::new(), consumed: 0 }
    }

    /// Number of bytes held, delivered or not.
    pub fn len(&self) -> (n: usize)
        ensures
            n == self@.data.len(),
    {
        self.buf.len()
    }

    /// Position of the consumed cursor.
    pub fn consumed(&self) -> (n: usize)
        ensures
            n == self@.consumed,
    {
        self.consumed
    }

    /// Adds freshly produced bytes behind everything already held.
    pub fn append(&mut self, bytes: &[u8])
        requires
            old(self)@.wf(),
        ensures
            final(self)@ == old(self)@.append(bytes@),
            final(self)@.wf(),
    {
        self.buf.extend_from_slice(bytes);
        proof {
            assert(self.buf@ =~= old(self).buf@ + bytes@);
        }
    }

    /// The pending bytes, without moving the cursor.
    pub fn peek(&self) -> (view: &[u8])
        requires
            self@.wf(),
        ensures
            view@ == self@.pending(),
    {
        let all = self.buf.as_slice();
        let view = &all[self.consumed..all.len()];
        proof {
            assert(view@ =~= self@.pending());
        }
        view
    }

    /// Gives up `amount` pending bytes; everything is given up when `amount`
    /// reaches or exceeds what is pending.
    pub fn consume(&mut self, amount: usize)
        requires
            old(self)@.wf(),
        ensures
            final(self)@ == old(self)@.advance(amount as nat),
            final(self)@.wf(),
    {
        if amount >= self.buf.len() - self.consumed {
            self.consumed = 0;
            self.buf.clear();
        } else {
            self.consumed = self.consumed + amount;
        }
    }

    /// Copies as many pending bytes as fit into the front of `dst`, gives them
    /// up, and returns how many were copied. The rest of `dst` is untouched.
    pub fn read(&mut self, dst: &mut [u8]) -> (len: usize)
        requires
            old(self)@.wf(),
        ensures
            len == old(self)@.grant(old(dst)@.len()),
            final(dst)@ == old(self)@.granted(old(dst)@.len()) + old(dst)@.skip(len as int),
            final(self)@ == old(self)@.advance(len as nat),
            final(self)@.wf(),
    {
        let pending: usize = self.buf.len() - self.consumed;
        let len: usize = if dst.len() <= pending {
            dst.len()
        } else {
            pending
        };
        let mut i: usize = 0;
        while i < len
            invariant
                i <= len,
                len <= dst@.len(),
                dst@.len() == old(dst)@.len(),
                self.consumed + len <= self.buf@.len() <= usize::MAX,
                *self == *old(self),
                forall|j: int| 0 <= j < i ==> dst@[j] == self.buf@[self.consumed + j],
                forall|j: int| i <= j < dst@.len() ==> dst@[j] == old(dst)@[j],
            decreases len - i,
        {
            dst[i] = self.buf[self.consumed + i];
            i = i + 1;
        }
        proof {
            assert(dst@ =~= old(self)@.granted(old(dst)@.len()) + old(dst)@.skip(len as int));
        }
        self.consume(len);
        len
    }
}

} // verus!
