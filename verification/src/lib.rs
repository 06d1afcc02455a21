//! A five-stage gate for machine-generated build tasks: structural
//! validation of incoming commands, a sandboxed WebAssembly dry run, static
//! token inspection, sealed receipts, and snapshot-based rollback.

pub mod text;
pub mod moat1_translator;
pub mod wasm_sections;
pub mod moat2_sandbox;
pub mod moat3_inspector;
pub mod moat4_pipes;
pub mod moat5_rollback;
pub mod worker;
pub mod manager;
pub mod laws;
