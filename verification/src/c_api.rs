//! The rules of the C interface, over plain values: which inputs are
//! rejected, what a rejected input hashes to, how much of a batch is
//! processed, and the stable codes of the backends.

use vstd::prelude::*;

use crate::api::{axhash_seeded, spec_axhash_seeded};
use crate::RuntimeBackend;

verus! {

/// The most jobs one batch call processes; the rest are ignored.
pub const MAX_BATCH: usize = 65536;

/// An input is invalid when its pointer is null but its length is not zero.
pub fn is_invalid_input(ptr_is_null: bool, len: usize) -> (r: bool)
    ensures
        r == (len != 0 && ptr_is_null),
{
    len != 0 && ptr_is_null
}

/// The value reported in place of a digest for an invalid input.
pub fn fail_u64() -> (r: u64)
    ensures
        r == 0,
{
    0
}

/// The digest reported for one input: `0` for an invalid one (`None`),
/// otherwise the seeded digest of its bytes (the empty input included).
pub open spec fn spec_input_digest(input: Option<Seq<u8>>, seed: u64) -> u64 {
    match input {
        None => 0,
        Some(b) => spec_axhash_seeded(b, seed),
    }
}

/// The digest reported for one input, `None` standing for an invalid one.
pub fn hash_input_seeded(input: Option<&[u8]>, seed: u64) -> (r: u64)
    ensures
        r == spec_input_digest(
            match input {
                None => None,
                Some(b) => Some(b@),
            },
            seed,
        ),
{
    match input {
        None => fail_u64(),
        Some(b) => axhash_seeded(b, seed),
    }
}

/// How many jobs of a batch of `count` are processed.
pub fn batch_len(count: usize) -> (r: usize)
    ensures
        r == if count < MAX_BATCH {
            count
        } else {
            MAX_BATCH
        },
{
    if count < MAX_BATCH {
        count
    } else {
        MAX_BATCH
    }
}

/// The digests of the first `batch_len(jobs.len())` jobs, in order.
pub fn hash_batch_seeded(jobs: &[Option<&[u8]>], seed: u64) -> (r: Vec<u64>)
    ensures
        r@.len() == if jobs@.len() < MAX_BATCH {
            jobs@.len()
        } else {
            MAX_BATCH as nat
        },
        forall|i: int|
            0 <= i < r@.len() ==> r@[i] == spec_input_digest(
                match jobs@[i] {
                    None => None,
                    Some(b) => Some(b@),
                },
                seed,
            ),
{
    let n = batch_len(jobs.len());
    let mut out: Vec<u64> = Vec::new();
    let mut i: usize = 0;
    while i < n
        invariant
            n <= jobs@.len(),
            n == if jobs@.len() < MAX_BATCH {
                jobs@.len()
            } else {
                MAX_BATCH as nat
            },
            i <= n,
            out@.len() == i,
            forall|k: int|
                0 <= k < i ==> out@[k] == spec_input_digest(
                    match jobs@[k] {
                        None => None,
                        Some(b) => Some(b@),
                    },
                    seed,
                ),
        decreases n - i,
    {
        out.push(hash_input_seeded(jobs[i], seed));
        i = i + 1;
    }
    out
}

/// What a streaming write through the C interface does.
#[derive(Clone, Copy, Debug, PartialEq, Eq, Structural)]
pub enum WriteAction {
    /// Report failure and leave the hasher alone.
    Reject,
    /// Report success without touching the hasher.
    Skip,
    /// Write the bytes to the hasher and report success.
    Write,
}

/// The action for a write of `len` bytes: an invalid input is rejected, an
/// empty one is skipped whatever the hasher handle, a missing hasher is
/// rejected, anything else is written.
pub fn write_action(state_is_null: bool, input_is_invalid: bool, len: usize) -> (r: WriteAction)
    ensures
        input_is_invalid ==> r == WriteAction::Reject,
        !input_is_invalid && len == 0 ==> r == WriteAction::Skip,
        !input_is_invalid && len != 0 && state_is_null ==> r == WriteAction::Reject,
        !input_is_invalid && len != 0 && !state_is_null ==> r == WriteAction::Write,
{
    if input_is_invalid {
        WriteAction::Reject
    } else if len == 0 {
        WriteAction::Skip
    } else if state_is_null {
        WriteAction::Reject
    } else {
        WriteAction::Write
    }
}

/// The backend as reported through the C interface.
#[derive(Clone, Copy, Debug, PartialEq, Eq, Structural)]
pub enum AxHashRuntimeBackend {
    Scalar,
    Aarch64AesNeon,
    X86_64AesAvx2,
}

impl AxHashRuntimeBackend {
    /// The stable number C code sees for the backend.
    pub fn code(self) -> (r: u32)
        ensures
            r == match self {
                AxHashRuntimeBackend::Scalar => 0u32,
                AxHashRuntimeBackend::Aarch64AesNeon => 1u32,
                AxHashRuntimeBackend::X86_64AesAvx2 => 2u32,
            },
    {
        match self {
            AxHashRuntimeBackend::Scalar => 0,
            AxHashRuntimeBackend::Aarch64AesNeon => 1,
            AxHashRuntimeBackend::X86_64AesAvx2 => 2,
        }
    }
}

/// The C-facing backend for a library backend; each variant maps to its
/// namesake.
pub open spec fn spec_c_backend(b: RuntimeBackend) -> AxHashRuntimeBackend {
    match b {
        RuntimeBackend::Scalar => AxHashRuntimeBackend::Scalar,
        RuntimeBackend::Aarch64AesNeon => AxHashRuntimeBackend::Aarch64AesNeon,
        RuntimeBackend::X86_64AesAvx2 => AxHashRuntimeBackend::X86_64AesAvx2,
    }
}

impl From<RuntimeBackend> for AxHashRuntimeBackend {
    fn from(b: RuntimeBackend) -> (r: Self)
        ensures
            r == spec_c_backend(b),
    {
        match b {
            RuntimeBackend::Scalar => AxHashRuntimeBackend::Scalar,
            RuntimeBackend::Aarch64AesNeon => AxHashRuntimeBackend::Aarch64AesNeon,
            RuntimeBackend::X86_64AesAvx2 => AxHashRuntimeBackend::X86_64AesAvx2,
        }
    }
}

impl vstd::std_specs::convert::FromSpecImpl<RuntimeBackend> for AxHashRuntimeBackend {
    open spec fn obeys_from_spec() -> bool {
        true
    }

    open spec fn from_spec(b: RuntimeBackend) -> AxHashRuntimeBackend {
        spec_c_backend(b)
    }
}

} // verus!
