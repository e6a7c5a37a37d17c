# rnb_runtime

The logic of an inference runtime for quantized language models, with its behaviour stated
in contracts and proved with Verus.

The runtime sits between a model's layers and the backends that run them (CPU, CUDA, Metal,
MediaTek NPU). For each step it decides whether a backend takes the step, by which kernel and
with which codes, what happens when the backend declines or fails, and what is counted and
reported. It also plans the workspace of a prompt, keeps compiled models resident, routes
tokens to experts and validates requests.

## Layout

- `src/backend`, `src/backend_api.rs`: backend families, requests by family, the shared loader
- `src/device_prefill.rs`: sessions and workspace plans of a prompt on a device
- `src/cuda_inference`: the CUDA path
- `src/metal_inference`: the Metal path, with its chains and counters
- `src/mediatek`: the MediaTek path, with its cache of compiled models
- `src/cpu_phase.rs`: the thread pool of a prompt on all cores
- `src/policy.rs`, `src/quant.rs`, `src/text.rs`, `src/float_bits.rs`, `src/arith.rs`: switches,
  weight formats, text, floats as bits, arithmetic
- `tests`: the library on concrete values
- `app`: the process around the library: environment variables, state per thread, files,
  floating point, printed lines

## Conventions

Devices, drivers and tuning are functions that callers hand in. A contract says what such a
function is called with and what becomes of its result, for every result. Floats are IEEE-754
bit patterns, so that validity and order can be stated; their arithmetic belongs to the caller.

Functions named `law_...` are proofs of what holds across functions, such as that a resident
model was asked for, that each layer is counted once, or that a workspace plan is the longest
that fits.
