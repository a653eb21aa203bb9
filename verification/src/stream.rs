//! The incremental hasher offered to JavaScript: a seedable `AxHasher` that
//! takes its input in bounded chunks.

use vstd::prelude::*;

use crate::hasher::{AxHasher, HasherState};

verus! {

/// The largest chunk one `update` hands to the hasher at a time.
pub const BUF_SIZE: usize = 65536;

/// An incremental hasher: `update` may be called any number of times, each
/// call writing its input in chunks of at most `BUF_SIZE` bytes.
pub struct Hasher {
    inner: AxHasher,
}

impl View for Hasher {
    type V = HasherState;

    closed spec fn view(&self) -> HasherState {
        self.inner@
    }
}

impl Hasher {
    /// A hasher for `seed`, or for the default seed (`0`) when none is
    /// given.
    pub fn new(seed: Option<u64>) -> (r: Self)
        ensures
            r@ == HasherState::seeded(
                match seed {
                    Some(s) => s,
                    None => 0,
                },
            ),
    {
        let s = match seed {
            Some(s) => s,
            None => 0,
        };
        Hasher { inner: AxHasher::new_with_seed(s) }
    }

    /// Starts over with `seed`.
    pub fn reset(&mut self, seed: u64)
        ensures
            final(self)@ == HasherState::seeded(seed),
    {
        self.inner = AxHasher::new_with_seed(seed);
    }

    /// Writes `data`, in chunks of at most `BUF_SIZE` bytes.
    pub fn update(&mut self, data: &[u8])
        ensures
            final(self)@ == old(self)@.written_chunks(data@, BUF_SIZE as nat),
    {
        self.inner.write_chunked(data, BUF_SIZE);
    }

    /// The digest of everything written so far.
    pub fn digest(&self) -> (r: u64)
        ensures
            r == self@.digest(),
    {
        self.inner.finish()
    }
}

} // verus!
