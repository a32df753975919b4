# xabe_cuda

Launch planning for the sm_75 CUDA kernels of the xabe engine, verified with
Verus.

The library holds the CUDA sources and decides everything about a launch that
can be decided without a device: which geometries a kernel family serves, which
buffers a call may be handed, and the exact launch that follows. A launch is a
plain value. Refusals are error values that carry the numbers that did not fit.

- `src/kernels/` has one module per kernel family: attention, dequantization,
  the gated delta rule (recurrent and chunked), layer operations, the language
  model head, the integer matrix product, the mixture of experts, and the
  vision tower. `ptx` compiles sources through NVRTC and keeps the result.
- `src/source/` has the CUDA C++ of each family.
- `src/launch.rs`, `src/text.rs` and `src/search.rs` are shared helpers.
- `src/spike.rs` is the toolchain check.
- `app/` owns the device: it allocates buffers, loads modules and puts planned
  launches on a stream.
- `tests/` runs the library on concrete values. No device is needed.

Each public function states what it accepts, what it refuses and with which
error, and what it returns. The proof functions named `law_*` state what holds
across functions: indices stay inside the buffers that were checked, grids
cover their output, chunks partition their sequence, and scratch capacities
bound their worst case.

One item is believed without proof: the call into NVRTC, in `kernels::ptx`.
