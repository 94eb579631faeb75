//! An in-memory byte source, fed by the host's reads from a device.

use vstd::prelude::*;

verus! {

/// One read from the underlying device, as the host observed it.
#[derive(Debug)]
pub enum ReadOutcome {
    /// The read produced bytes.
    Available(Vec<u8>),
    /// No data yet; try again on the next readiness signal.
    NotReady,
    /// Clean end of the stream.
    Ended,
    /// Hard I/O failure.
    Error,
}

/// A byte source: the bytes read from a device but not yet consumed by the
/// packet framer, and whether the device can still produce more.
#[derive(Debug)]
pub struct ByteSource {
    buf: Vec<u8>,
    pos: usize,
    open: bool,
}

impl View for ByteSource {
    type V = Seq<u8>;

    closed spec fn view(&self) -> Seq<u8> {
        self.buf@.skip(self.pos as int)
    }
}

impl ByteSource {
    #[verifier::type_invariant]
    spec fn inv(&self) -> bool {
        self.pos <= self.buf.len()
    }

    /// Whether the device can still produce more bytes.
    pub closed spec fn spec_open(&self) -> bool {
        self.open
    }

    /// A fresh source: no bytes yet, device open.
    pub fn new() -> (r: Self)
        ensures
            r@ == Seq::<u8>::empty(),
            r.spec_open(),
    {
        let r = ByteSource { buf: Vec::new(), pos: 0, open: true };
        proof {
            assert(r@ =~= Seq::<u8>::empty());
        }
        r
    }

    /// Whether the device can still produce more bytes.
    #[verifier::when_used_as_spec(spec_open)]
    pub fn is_open(&self) -> (r: bool)
        ensures
            r == self.spec_open(),
    {
        self.open
    }

    /// How many unconsumed bytes are available.
    pub fn available(&self) -> (r: usize)
        ensures
            r == self@.len(),
    {
        proof {
            use_type_invariant(self);
        }
        self.buf.len() - self.pos
    }

    /// Look at an unconsumed byte without consuming it.
    pub fn peek(&self, i: usize) -> (r: u8)
        requires
            i < self@.len(),
        ensures
            r == self@[i as int],
    {
        proof {
            use_type_invariant(self);
        }
        self.buf[self.pos + i]
    }

    /// Drop the first `n` unconsumed bytes.
    pub fn consume(&mut self, n: usize)
        requires
            n <= old(self)@.len(),
        ensures
            final(self)@ == old(self)@.skip(n as int),
            final(self).spec_open() == old(self).spec_open(),
    {
        proof {
            use_type_invariant(&*self);
        }
        self.pos = self.pos + n;
        proof {
            assert(self@ =~= old(self)@.skip(n as int));
        }
    }

    /// Append bytes that the host read from the device.  Already-consumed
    /// bytes are dropped from the backing storage on this occasion.
    pub fn extend(&mut self, bytes: Vec<u8>)
        ensures
            final(self)@ == old(self)@ + bytes@,
            final(self).spec_open() == old(self).spec_open(),
    {
        proof {
            use_type_invariant(&*self);
        }
        let mut nb: Vec<u8> = Vec::new();
        let mut i = self.pos;
        while i < self.buf.len()
            invariant
                self.pos <= i <= self.buf.len(),
                nb@ == self.buf@.subrange(self.pos as int, i as int),
            decreases self.buf.len() - i,
        {
            nb.push(self.buf[i]);
            i = i + 1;
        }
        assert(nb@ == old(self)@);
        let mut j: usize = 0;
        while j < bytes.len()
            invariant
                j <= bytes.len(),
                nb@ == old(self)@ + bytes@.take(j as int),
            decreases bytes.len() - j,
        {
            nb.push(bytes[j]);
            j = j + 1;
            proof {
                assert(nb@ =~= old(self)@ + bytes@.take(j as int));
            }
        }
        assert(nb@ == old(self)@ + bytes@);
        self.pos = 0;
        self.buf = nb;
        proof {
            assert(self@ =~= old(self)@ + bytes@);
        }
    }

    /// Record that the device has ended or failed: no more bytes will come.
    pub fn close(&mut self)
        ensures
            final(self)@ == old(self)@,
            !final(self).spec_open(),
    {
        proof {
            use_type_invariant(&*self);
        }
        self.open = false;
    }
}

} // verus!
