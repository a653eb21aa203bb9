//! AxHash: a deterministic, seedable 64-bit hash family for byte strings and
//! streams of typed values.
//!
//! * `axhash` / `axhash_seeded` hash a byte string in one call.
//! * `AxHasher` is a streaming `core::hash::Hasher`; `AxBuildHasher` builds
//!   them for `HashMap` and `HashSet`.
//!
//! Every digest is computed by the portable scalar code (the only backend
//! implemented here), so the same input and seed give the same digest on
//! every machine. `runtime_backend` reports which backend a CPU's features
//! call for, from features that the caller detects.

use vstd::prelude::*;

pub mod api;
pub mod backend;
pub mod c_api;
pub mod bench_data;
pub mod constants;
pub mod hasher;
pub mod laws;
pub mod math;
pub mod profile;
pub mod stream;

pub use api::{axhash, axhash_seeded};
pub use hasher::{AxBuildHasher, AxHasher};

verus! {

/// The implementation that computes digests.
#[non_exhaustive]
#[derive(Clone, Copy, Debug, PartialEq, Eq, Structural)]
pub enum RuntimeBackend {
    Scalar,
    Aarch64AesNeon,
    X86_64AesAvx2,
}

/// The architecture a backend is chosen for.
#[derive(Clone, Copy, Debug, PartialEq, Eq, Structural)]
pub enum TargetArch {
    X86_64,
    Aarch64,
    Other,
}

/// The backend that the CPU features call for: the AES backend of the
/// architecture when the CPU has AES and the matching vector extension
/// (AVX2 on x86_64, NEON on aarch64), otherwise the scalar one.
pub open spec fn spec_select_backend(arch: TargetArch, has_aes: bool, has_simd: bool) -> RuntimeBackend {
    if has_aes && has_simd {
        match arch {
            TargetArch::X86_64 => RuntimeBackend::X86_64AesAvx2,
            TargetArch::Aarch64 => RuntimeBackend::Aarch64AesNeon,
            TargetArch::Other => RuntimeBackend::Scalar,
        }
    } else {
        RuntimeBackend::Scalar
    }
}

/// The backend reported for the given target architecture and detected
/// CPU features: `has_aes` is the AES extension, `has_simd` is AVX2 on
/// x86_64 and NEON on aarch64. Detecting the features is left to the
/// caller; the same features always give the same report.
///
/// This is a report of what the CPU supports. Whatever it says, this
/// library computes every digest with its portable scalar code.
pub fn runtime_backend(arch: TargetArch, has_aes: bool, has_simd: bool) -> (r: RuntimeBackend)
    ensures
        r == spec_select_backend(arch, has_aes, has_simd),
{
    if has_aes && has_simd {
        match arch {
            TargetArch::X86_64 => RuntimeBackend::X86_64AesAvx2,
            TargetArch::Aarch64 => RuntimeBackend::Aarch64AesNeon,
            TargetArch::Other => RuntimeBackend::Scalar,
        }
    } else {
        RuntimeBackend::Scalar
    }
}

/// Whether the reported backend is one of the hardware AES backends.
pub fn runtime_has_aes(arch: TargetArch, has_aes: bool, has_simd: bool) -> (r: bool)
    ensures
        r == (spec_select_backend(arch, has_aes, has_simd) != RuntimeBackend::Scalar),
{
    runtime_backend(arch, has_aes, has_simd) != RuntimeBackend::Scalar
}

} // verus!
