use vstd::prelude::*;

verus! {

/// A seekable, in-memory view of the downloaded archive: the bytes of the
/// file together with a read position. It models the stream that is read
/// twice — once to sniff the format, and once, rewound, for the full
/// decode — and its contract shows that reading never alters the bytes.
pub struct ByteSource {
    data: Vec<u8>,
    pos: usize,
}

impl ByteSource {
    /// The bytes of the underlying file.
    pub closed spec fn view(&self) -> Seq<u8> {
        self.data@
    }

    /// The current read position.
    pub closed spec fn position(&self) -> int {
        self.pos as int
    }

    /// The position never runs past the end of the data.
    pub open spec fn wf(&self) -> bool {
        0 <= self.position() <= self@.len()
    }

    /// Open a source over the given bytes, positioned at the start.
    pub fn new(data: Vec<u8>) -> (s: Self)
        ensures
            s@ == data@,
            s.position() == 0,
            s.wf(),
    {
        ByteSource { data, pos: 0 }
    }

    /// How many bytes remain past the current position.
    pub fn remaining(&self) -> (n: usize)
        requires
            self.wf(),
        ensures
            n == self@.len() - self.position(),
    {
        self.data.len() - self.pos
    }

    /// Read exactly `n` bytes, advancing the position; fails without
    /// moving when fewer than `n` bytes remain. The bytes themselves are
    /// never modified.
    pub fn read_exact(&mut self, n: usize) -> (r: Option<Vec<u8>>)
        requires
            old(self).wf(),
        ensures
            final(self).wf(),
            final(self)@ == old(self)@,
            r is Some <==> old(self).position() + n <= old(self)@.len(),
            r matches Some(v) ==> v@ == old(self)@.subrange(
                old(self).position(),
                old(self).position() + n,
            ) && final(self).position() == old(self).position() + n,
            r is None ==> final(self).position() == old(self).position(),
    {
        if n > self.data.len() - self.pos {
            return None;
        }
        let mut out: Vec<u8> = Vec::new();
        let mut i: usize = 0;
        while i < n
            invariant
                i <= n,
                self.pos + n <= self.data.len(),
                out@ == self.data@.subrange(self.pos as int, self.pos + i),
            decreases n - i,
        {
            out.push(self.data[self.pos + i]);
            assert(out@ == self.data@.subrange(self.pos as int, self.pos + i + 1));
            i += 1;
        }
        self.pos += n;
        Some(out)
    }

    /// Reset the position to the start of the stream, leaving the bytes
    /// untouched.
    pub fn rewind(&mut self)
        ensures
            final(self).wf(),
            final(self)@ == old(self)@,
            final(self).position() == 0,
    {
        self.pos = 0;
    }

    /// Consume the source, handing back every byte from the current
    /// position to the end.
    pub fn into_remaining(self) -> (v: Vec<u8>)
        requires
            self.wf(),
        ensures
            v@ == self@.skip(self.position()),
    {
        let mut out: Vec<u8> = Vec::new();
        let mut i: usize = self.pos;
        while i < self.data.len()
            invariant
                self.pos <= i <= self.data.len(),
                out@ == self.data@.subrange(self.pos as int, i as int),
            decreases self.data.len() - i,
        {
            out.push(self.data[i]);
            assert(out@ == self.data@.subrange(self.pos as int, i + 1));
            i += 1;
        }
        assert(self.data@.subrange(self.pos as int, self.data@.len() as int) == self@.skip(
            self.position(),
        ));
        out
    }
}

} // verus!
