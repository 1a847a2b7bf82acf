//! The memory-reader capability the walk depends on, and a sparse in-memory
//! implementation of it.
//!
//! The walk only ever loads one PTE-sized word per level, so the capability
//! is two word loads.  Nothing is promised about what a load returns beyond
//! agreement with the capability's own word model: the walk is verified for
//! every possible content of memory, and a failed load surfaces as an error
//! that the walk turns into a purpose-derived fault.

use vstd::prelude::*;

verus! {

/// A load failed: the address is not backed by the capability.
#[derive(Copy, Clone, Debug, PartialEq, Eq, Structural)]
pub struct MemReadError {
    /// The physical address whose load failed.
    pub addr: u64,
}

/// Byte-addressable memory, read one word at a time.
pub trait MemoryReader {
    /// The 32-bit word held at `addr`, if that address is backed.
    spec fn word32(&self, addr: u64) -> Option<u64>;

    /// The 64-bit word held at `addr`, if that address is backed.
    spec fn word64(&self, addr: u64) -> Option<u64>;

    /// Loads the 32-bit word at `addr`.
    fn load32(&self, addr: u64) -> (r: Result<u64, MemReadError>)
        ensures
            (match r {
                Ok(w) => self.word32(addr) == Some(w),
                Err(_) => self.word32(addr) is None,
            }),
    ;

    /// Loads the 64-bit word at `addr`.
    fn load64(&self, addr: u64) -> (r: Result<u64, MemReadError>)
        ensures
            (match r {
                Ok(w) => self.word64(addr) == Some(w),
                Err(_) => self.word64(addr) is None,
            }),
    ;
}

/// The word most recently stored at `addr` among `entries`, if any.
pub open spec fn lookup(entries: Seq<(u64, u64)>, addr: u64) -> Option<u64>
    decreases entries.len(),
{
    if entries.len() == 0 {
        None
    } else if entries.last().0 == addr {
        Some(entries.last().1)
    } else {
        lookup(entries.drop_last(), addr)
    }
}

/// Sparse memory: a list of (address, word) pairs where a later store to an
/// address shadows an earlier one.  Addresses never stored are unbacked and
/// fail to load.
pub struct SparseMemory {
    words: Vec<(u64, u64)>,
}

impl SparseMemory {
    /// Builds a memory with no backed address.
    pub fn new() -> (r: SparseMemory)
        ensures
            forall|a: u64| #[trigger] r.word64(a) is None,
            forall|a: u64| #[trigger] r.word32(a) is None,
    {
        SparseMemory { words: Vec::new() }
    }

    /// Stores the 64-bit word `val` at `addr`; its low half becomes the
    /// 32-bit word there.
    pub fn set_word(&mut self, addr: u64, val: u64)
        ensures
            final(self).word64(addr) == Some(val),
            final(self).word32(addr) == Some(val & 0xFFFF_FFFF),
            forall|a: u64|
                a != addr ==> #[trigger] final(self).word64(a) == old(self).word64(a),
            forall|a: u64|
                a != addr ==> #[trigger] final(self).word32(a) == old(self).word32(a),
    {
        self.words.push((addr, val));
        proof {
            assert(self.words@.drop_last() =~= old(self).words@);
            assert forall|a: u64| a != addr implies #[trigger] lookup(self.words@, a)
                == lookup(old(self).words@, a) by {
                assert(self.words@.last().0 == addr);
            }
        }
    }
}

impl MemoryReader for SparseMemory {
    closed spec fn word32(&self, addr: u64) -> Option<u64> {
        match lookup(self.words@, addr) {
            Some(w) => Some(w & 0xFFFF_FFFF),
            None => None,
        }
    }

    closed spec fn word64(&self, addr: u64) -> Option<u64> {
        lookup(self.words@, addr)
    }

    fn load32(&self, addr: u64) -> (r: Result<u64, MemReadError>) {
        match self.load64(addr) {
            Ok(w) => Ok(w & 0xFFFF_FFFF),
            Err(e) => Err(e),
        }
    }

    fn load64(&self, addr: u64) -> (r: Result<u64, MemReadError>) {
        let mut i: usize = 0;
        let mut found: Option<u64> = None;
        while i < self.words.len()
            invariant
                i <= self.words@.len(),
                found == lookup(self.words@.take(i as int), addr),
            decreases self.words@.len() - i,
        {
            let (a, w) = self.words[i];
            proof {
                assert(self.words@.take(i as int + 1).drop_last() =~= self.words@.take(
                    i as int,
                ));
                assert(self.words@.take(i as int + 1).last() == self.words@[i as int]);
            }
            if a == addr {
                found = Some(w);
            }
            i += 1;
        }
        proof {
            assert(self.words@.take(self.words@.len() as int) =~= self.words@);
        }
        match found {
            Some(w) => Ok(w),
            None => Err(MemReadError { addr }),
        }
    }
}

} // verus!
