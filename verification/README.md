# titan_factory

A gate for machine-generated build tasks, verified with Verus.

- `src/` is the verified library: the translator's admission rules
  (`moat1_translator`), the WebAssembly sandbox with its header checks
  (`moat2_sandbox`) and the section walk it relies on (`wasm_sections`), the blacklist inspector (`moat3_inspector`), receipts
  (`moat4_pipes`), snapshots and rollback plans (`moat5_rollback`), the
  worker's decision core (`worker`), the manager's routing and draining
  decisions (`manager`), string helpers (`text`) and cross-module laws
  (`laws`).
- `app/` is the program around it: JSON reading with serde, channels and
  threads, file system work and health sampling with sysinfo.
- `tests/` exercises the library on concrete inputs.
