# dxvk_bridge_nostd

D3D9, D3D11, D3D12 and DXGI interfaces as COM objects, verified with Verus.

The objects live in a `com::ComHeap`, a table of slots addressed by `ComPtr`
(address 0 is null). Each object has an interface table, a reference count,
a type tag and its implementation data. The heap keeps an invariant
(`ComHeap::wf`): slot 0 stays empty and every live object holds at least one
reference; its live-object counter (a `spin::Mutex<u64>`) holds the number
of live objects. Every entry point states its effect on the heap exactly, as a
function of the heap it started from.

- `src/com.rs`: GUIDs and their formatting and order, HRESULTs, the heap,
  AddRef / Release / QueryInterface, object creation, the live-object count,
  and the laws of reference counting.
- `src/d3d9.rs`, `src/d3d11.rs`, `src/d3d12.rs`, `src/dxgi.rs`: the API entry
  points of each interface family, with their laws.
- `tests/`: tests on concrete values.
- `app/`: one process-wide heap behind a spin lock, with the log lines of
  every entry point and the checks of what the library requires.
