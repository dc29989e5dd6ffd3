//! The byte sink boundary.
//!
//! A style engine writes to any byte-accepting destination through
//! [`ByteSink`]. On a failed write the serialization is aborted and the
//! caller owns whatever bytes already reached the sink; nothing is rolled
//! back. [`ByteBuffer`] is the in-memory destination, which accepts every
//! write.

use vstd::prelude::*;

verus! {

/// The failure report of a sink: the destination could not accept the bytes.
#[derive(Debug, Copy, Clone, PartialEq, Eq, Structural)]
pub enum SinkError {
    WriteFailed,
}

/// A byte-accepting destination. On `Ok` the sink has accepted exactly the
/// given bytes, appended to what it already held; on `Err` nothing is
/// promised of its content (a partial write may have happened). A sink that
/// accepts every write — an in-memory buffer — says so through
/// [`ByteSink::always_accepts`], and every write on it succeeds.
pub trait ByteSink {
    /// The bytes accepted so far.
    spec fn sink_bytes(&self) -> Seq<u8>;

    /// Whether this destination accepts every write. An intrinsic property
    /// of the sink: writes do not change it.
    spec fn always_accepts(&self) -> bool;

    /// Writes all of `data`, or reports failure.
    fn write_bytes(&mut self, data: &[u8]) -> (r: Result<(), SinkError>)
        ensures
            r is Ok ==> final(self).sink_bytes() == old(self).sink_bytes() + data@,
            final(self).always_accepts() == old(self).always_accepts(),
            old(self).always_accepts() ==> r is Ok,
    ;
}

/// Appends every byte of a slice to a vector.
pub fn push_all(dst: &mut Vec<u8>, src: &[u8])
    ensures
        final(dst)@ == old(dst)@ + src@,
{
    let n = src.len();
    let mut i: usize = 0;
    while i < n
        invariant
            i <= n,
            n == src@.len(),
            dst@ == old(dst)@ + src@.take(i as int),
        decreases n - i,
    {
        let b = src[i];
        dst.push(b);
        proof {
            assert(old(dst)@ + src@.take(i + 1) =~= (old(dst)@ + src@.take(i as int)).push(
                src@[i as int],
            ));
        }
        i += 1;
    }
    proof {
        assert(src@.take(n as int) =~= src@);
    }
}

/// An in-memory sink: a growable byte buffer that accepts every write.
pub struct ByteBuffer {
    data: Vec<u8>,
}

impl ByteBuffer {
    /// Builds an empty buffer.
    pub fn new() -> (r: ByteBuffer)
        ensures
            r.sink_bytes() == Seq::<u8>::empty(),
    {
        ByteBuffer { data: Vec::new() }
    }

    /// The bytes accepted so far.
    pub fn bytes(&self) -> (r: &Vec<u8>)
        ensures
            r@ == self.sink_bytes(),
    {
        &self.data
    }

    /// Takes the accepted bytes out of the buffer.
    pub fn into_bytes(self) -> (r: Vec<u8>)
        ensures
            r@ == self.sink_bytes(),
    {
        self.data
    }
}

impl ByteSink for ByteBuffer {
    closed spec fn sink_bytes(&self) -> Seq<u8> {
        self.data@
    }

    /// A buffer accepts every write.
    open spec fn always_accepts(&self) -> bool {
        true
    }

    fn write_bytes(&mut self, data: &[u8]) -> (r: Result<(), SinkError>) {
        push_all(&mut self.data, data);
        Ok(())
    }
}

} // verus!
