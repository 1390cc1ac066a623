//! A byte vector with a fixed maximum length and explicit overflow errors.

use vstd::prelude::*;

use crate::error::CommError;

verus! {

/// Bounded byte storage: holds at most `max_length` bytes, and refuses
/// rather than grows past that bound.
#[derive(Debug)]
pub struct UserVecU8 {
    datas: Vec<u8>,
    max_length: usize,
}

impl View for UserVecU8 {
    type V = Seq<u8>;

    closed spec fn view(&self) -> Seq<u8> {
        self.datas@
    }
}

impl UserVecU8 {
    /// The maximum number of bytes this vector may hold.
    pub closed spec fn max_spec(&self) -> nat {
        self.max_length as nat
    }

    /// The stored bytes never exceed the maximum length.
    pub open spec fn wf(&self) -> bool {
        self@.len() <= self.max_spec()
    }

    /// Creates an empty vector with the given maximum length.
    pub fn new(max_length: usize) -> (r: Self)
        ensures
            r.wf(),
            r@ == Seq::<u8>::empty(),
            r.max_spec() == max_length,
    {
        Self { datas: Vec::new(), max_length }
    }

    /// Returns the maximum length.
    pub fn get_max_len(&self) -> (r: usize)
        ensures
            r == self.max_spec(),
    {
        self.max_length
    }

    /// Returns a copy of all currently stored bytes.
    pub fn show(&self) -> (r: Vec<u8>)
        ensures
            r@ == self@,
    {
        let mut out: Vec<u8> = Vec::new();
        let mut i: usize = 0;
        while i < self.datas.len()
            invariant
                i <= self.datas.len(),
                out@ == self.datas@.subrange(0, i as int),
            decreases self.datas.len() - i,
        {
            out.push(self.datas[i]);
            i = i + 1;
            proof {
                assert(out@ =~= self.datas@.subrange(0, i as int));
            }
        }
        proof {
            assert(out@ =~= self.datas@);
        }
        out
    }

    /// Returns the current number of stored bytes.
    pub fn len(&self) -> (r: usize)
        ensures
            r == self@.len(),
    {
        self.datas.len()
    }

    /// Returns true if nothing is stored.
    pub fn is_empty(&self) -> (r: bool)
        ensures
            r == (self@.len() == 0),
    {
        self.datas.is_empty()
    }

    /// Returns true if the vector has reached its maximum length.
    pub fn is_full(&self) -> (r: bool)
        ensures
            r == (self@.len() >= self.max_spec()),
    {
        self.datas.len() >= self.max_length
    }

    /// Removes all stored bytes; the maximum length is kept.
    pub fn clear(&mut self)
        ensures
            final(self)@ == Seq::<u8>::empty(),
            final(self).max_spec() == old(self).max_spec(),
            final(self).wf(),
    {
        self.datas.clear();
    }

    /// Appends one byte if the maximum length allows it, and reports
    /// `BufferFull` otherwise, leaving the contents unchanged.
    pub fn push(&mut self, value: u8) -> (r: Result<(), CommError>)
        ensures
            final(self).max_spec() == old(self).max_spec(),
            old(self)@.len() < old(self).max_spec() ==> r == Ok::<(), CommError>(())
                && final(self)@ == old(self)@.push(value),
            old(self)@.len() >= old(self).max_spec() ==> r == Err::<(), CommError>(
                CommError::BufferFull,
            ) && final(self)@ == old(self)@,
            old(self).wf() ==> final(self).wf(),
    {
        if self.datas.len() < self.max_length {
            self.datas.push(value);
            Ok(())
        } else {
            Err(CommError::BufferFull)
        }
    }

    /// Appends all given bytes if the result stays within the maximum
    /// length, and reports `BufferFull` otherwise, appending nothing.
    pub fn extend(&mut self, data: &[u8]) -> (r: Result<(), CommError>)
        ensures
            final(self).max_spec() == old(self).max_spec(),
            old(self)@.len() + data@.len() <= old(self).max_spec() ==> r == Ok::<
                (),
                CommError,
            >(()) && final(self)@ == old(self)@ + data@,
            old(self)@.len() + data@.len() > old(self).max_spec() ==> r == Err::<
                (),
                CommError,
            >(CommError::BufferFull) && final(self)@ == old(self)@,
            old(self).wf() ==> final(self).wf(),
    {
        if data.len() > self.max_length || self.datas.len() > self.max_length - data.len() {
            return Err(CommError::BufferFull);
        }
        let ghost start = self.datas@;
        let mut i: usize = 0;
        while i < data.len()
            invariant
                i <= data.len(),
                self.datas@ == start + data@.subrange(0, i as int),
                self.max_length == old(self).max_spec(),
            decreases data.len() - i,
        {
            self.datas.push(data[i]);
            i = i + 1;
            proof {
                assert(self.datas@ =~= start + data@.subrange(0, i as int));
            }
        }
        proof {
            assert(self.datas@ =~= start + data@);
        }
        Ok(())
    }
}

} // verus!
