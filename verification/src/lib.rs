//! Launch planning for the sm_75 CUDA kernels of the xabe engine.
//!
//! The crate holds the kernel sources, the geometry each kernel family is
//! built for, the buffer checks in front of every launch and the exact launch
//! that follows them: entry point, grid, block, dynamic shared memory and
//! argument list. A launch is a plain value ([`launch::Launch`]); putting it
//! on a stream is left to the caller that owns the device.
//!
//! What a family accepts, what it refuses and with which error is stated in
//! the contract of each function. The proof functions named `law_*` state
//! what the launches promise: every index a thread forms lies inside the
//! buffer that was checked, grids cover their output, chunks partition their
//! sequence and scratch capacities bound their worst case. The `meaning`
//! modules state what the launches compute, by the parameters the CUDA sources
//! declare, and [`kernels::admission`] what is accepted and what is refused.

pub mod kernels;
pub mod launch;
pub mod meaning;
pub mod search;
pub mod source;
pub mod spike;
pub mod spike_meaning;
pub mod text;

pub use kernels::dequant::{DequantError, Dequantizer};
pub use kernels::gdn::{GdnError, GdnKernels, GdnScratch};
pub use spike::{CheckOutcome, SpikeReport, TOOLCHAIN_DECISION};
